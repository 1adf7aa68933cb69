//! A verified core for a WebAssembly execution engine: the data model of a
//! translated module, the signature registry, the machine-state model used by
//! single-pass code generation, import resolution, the serialized executable
//! frame, and the linking of compiled code into code memory.

pub mod artifact;
pub mod code_memory;
pub mod compilation;
pub mod compiler;
pub mod emitter;
pub mod engine;
pub mod executable;
pub mod frame_info;
pub mod indices;
pub mod instance;
pub mod link;
pub mod machine;
pub mod module;
pub mod module_equality;
pub mod partial_sum_map;
pub mod resolver;
pub mod sig_registry;
pub mod target;
pub mod text;
pub mod translator;
pub mod trap;
pub mod types;
pub mod vm;
