use wasm_engine::emitter::{Assembler, Instruction, Location, Size, GPR, XMM};
use wasm_engine::machine::{CallingConvention, Machine, WpType};

#[test]
fn test_release_locations_keep_state_nopanic() {
    let mut machine = Machine::new();
    let mut assembler = Assembler::new();
    let locs = machine.acquire_locations(
        &mut assembler,
        &(0..10).map(|_| WpType::I32).collect::<Vec<_>>(),
        false,
    );

    machine.release_locations_keep_state(&mut assembler, locs.as_slice());
}

#[test]
fn registers_are_preferred_in_order() {
    let mut machine = Machine::new();
    let mut assembler = Assembler::new();
    let locs = machine.acquire_locations(
        &mut assembler,
        &[WpType::I32, WpType::F64, WpType::I64, WpType::F32],
        false,
    );
    assert_eq!(
        locs.as_slice(),
        &[
            Location::GPR(GPR::RSI),
            Location::XMM(XMM::XMM3),
            Location::GPR(GPR::RDI),
            Location::XMM(XMM::XMM4),
        ]
    );
    assert_eq!(machine.get_used_gprs(), vec![GPR::RSI, GPR::RDI]);
    assert_eq!(machine.get_used_xmms(), vec![XMM::XMM3, XMM::XMM4]);
    assert_eq!(machine.get_stack_offset(), 0);
    assert!(assembler.instructions().is_empty());
}

#[test]
fn stack_slots_follow_registers() {
    let mut machine = Machine::new();
    let mut assembler = Assembler::new();
    let tys = vec![WpType::I32; 8];
    let locs = machine.acquire_locations(&mut assembler, &tys, true);
    assert_eq!(
        locs.as_slice(),
        &[
            Location::GPR(GPR::RSI),
            Location::GPR(GPR::RDI),
            Location::GPR(GPR::R8),
            Location::GPR(GPR::R9),
            Location::GPR(GPR::R10),
            Location::GPR(GPR::R11),
            Location::Memory(GPR::RBP, -8),
            Location::Memory(GPR::RBP, -16),
        ]
    );
    assert_eq!(machine.get_stack_offset(), 16);
    let code = assembler.instructions();
    assert_eq!(code.len(), 9);
    assert_eq!(code[0], Instruction::Sub(Size::S64, Location::Imm32(16), Location::GPR(GPR::RSP)));
    for i in 0..8 {
        assert_eq!(code[i + 1], Instruction::Mov(Size::S64, Location::Imm32(0), locs.as_slice()[i]));
    }
}

#[test]
fn release_undoes_acquire() {
    let mut machine = Machine::new();
    let mut assembler = Assembler::new();
    let outer = machine.acquire_locations(&mut assembler, &[WpType::I64, WpType::F32], false);
    let gprs = machine.get_used_gprs();
    let xmms = machine.get_used_xmms();
    let offset = machine.get_stack_offset();
    let tys = vec![WpType::I32; 9];
    let locs = machine.acquire_locations(&mut assembler, &tys, false);
    assert_eq!(machine.get_stack_offset(), 32);
    machine.release_locations(&mut assembler, locs.as_slice());
    assert_eq!(machine.get_used_gprs(), gprs);
    assert_eq!(machine.get_used_xmms(), xmms);
    assert_eq!(machine.get_stack_offset(), offset);
    assert_eq!(
        assembler.instructions(),
        &[
            Instruction::Sub(Size::S64, Location::Imm32(32), Location::GPR(GPR::RSP)),
            Instruction::Add(Size::S64, Location::Imm32(32), Location::GPR(GPR::RSP)),
        ]
    );
    machine.release_locations(&mut assembler, outer.as_slice());
    assert!(machine.get_used_gprs().is_empty());
    assert!(machine.get_used_xmms().is_empty());
}

#[test]
fn release_only_regs_and_only_stack() {
    let mut machine = Machine::new();
    let mut assembler = Assembler::new();
    let tys = vec![WpType::I32; 7];
    let locs = machine.acquire_locations(&mut assembler, &tys, false);
    machine.release_locations_only_regs(locs.as_slice());
    assert!(machine.get_used_gprs().is_empty());
    assert_eq!(machine.get_stack_offset(), 8);
    machine.release_locations_only_stack(&mut assembler, locs.as_slice());
    assert_eq!(machine.get_stack_offset(), 0);
    assert_eq!(
        assembler.instructions()[1],
        Instruction::Add(Size::S64, Location::Imm32(8), Location::GPR(GPR::RSP))
    );
}

#[test]
fn temporaries() {
    let mut machine = Machine::new();
    assert_eq!(machine.pick_temp_gpr(), Some(GPR::RAX));
    assert_eq!(machine.acquire_temp_gpr(), Some(GPR::RAX));
    assert_eq!(machine.acquire_temp_gpr(), Some(GPR::RCX));
    assert_eq!(machine.acquire_temp_gpr(), Some(GPR::RDX));
    assert_eq!(machine.acquire_temp_gpr(), None);
    machine.release_temp_gpr(GPR::RCX);
    assert_eq!(machine.pick_temp_gpr(), Some(GPR::RCX));
    assert_eq!(machine.reserve_unused_temp_gpr(GPR::RCX), GPR::RCX);
    assert_eq!(machine.get_used_gprs(), vec![GPR::RAX, GPR::RCX, GPR::RDX]);
    assert_eq!(machine.pick_gpr(), Some(GPR::RSI));

    assert_eq!(machine.acquire_temp_xmm(), Some(XMM::XMM0));
    assert_eq!(machine.acquire_temp_xmm(), Some(XMM::XMM1));
    assert_eq!(machine.acquire_temp_xmm(), Some(XMM::XMM2));
    assert_eq!(machine.acquire_temp_xmm(), None);
    machine.release_temp_xmm(XMM::XMM0);
    assert_eq!(machine.pick_temp_xmm(), Some(XMM::XMM0));
    assert_eq!(machine.pick_xmm(), Some(XMM::XMM3));
    assert_eq!(Machine::get_vmctx_reg(), GPR::R15);
}

#[test]
fn parameter_locations() {
    let sysv = CallingConvention::SystemV;
    let win = CallingConvention::WindowsFastcall;
    assert_eq!(Machine::get_param_location(0, sysv), Location::GPR(GPR::RDI));
    assert_eq!(Machine::get_param_location(1, sysv), Location::GPR(GPR::RSI));
    assert_eq!(Machine::get_param_location(2, sysv), Location::GPR(GPR::RDX));
    assert_eq!(Machine::get_param_location(3, sysv), Location::GPR(GPR::RCX));
    assert_eq!(Machine::get_param_location(4, sysv), Location::GPR(GPR::R8));
    assert_eq!(Machine::get_param_location(5, sysv), Location::GPR(GPR::R9));
    assert_eq!(Machine::get_param_location(6, sysv), Location::Memory(GPR::RBP, 16));
    assert_eq!(Machine::get_param_location(8, sysv), Location::Memory(GPR::RBP, 32));
    assert_eq!(Machine::get_param_location(0, win), Location::GPR(GPR::RCX));
    assert_eq!(Machine::get_param_location(1, win), Location::GPR(GPR::RDX));
    assert_eq!(Machine::get_param_location(2, win), Location::GPR(GPR::R8));
    assert_eq!(Machine::get_param_location(3, win), Location::GPR(GPR::R9));
    assert_eq!(Machine::get_param_location(4, win), Location::Memory(GPR::RBP, 48));
    assert_eq!(Machine::get_param_location(5, win), Location::Memory(GPR::RBP, 56));
}

#[test]
fn prologue_of_a_small_function() {
    let mut machine = Machine::new();
    let mut a = Assembler::new();
    // Six locals, of which two are parameters.
    machine.init_locals(&mut a, 6, 2, CallingConvention::SystemV);
    let rbp = |d: i32| Location::Memory(GPR::RBP, d);
    let gpr = Location::GPR;
    let mov = |src, dst| Instruction::Mov(Size::S64, src, dst);
    assert_eq!(
        a.instructions(),
        &[
            // 4 saved registers and R15: 40 bytes; two locals on the stack: 16 bytes.
            Instruction::Sub(Size::S64, Location::Imm32(56), gpr(GPR::RSP)),
            mov(gpr(GPR::R12), rbp(-8)),
            mov(gpr(GPR::R13), rbp(-16)),
            mov(gpr(GPR::R14), rbp(-24)),
            mov(gpr(GPR::RBX), rbp(-32)),
            mov(gpr(GPR::R15), rbp(-40)),
            mov(gpr(GPR::RSI), gpr(GPR::R12)),
            mov(gpr(GPR::RDX), gpr(GPR::R13)),
            mov(gpr(GPR::RDI), gpr(GPR::R15)),
            mov(Location::Imm32(0), gpr(GPR::R14)),
            mov(Location::Imm32(0), gpr(GPR::RBX)),
            mov(Location::Imm64(2), gpr(GPR::RCX)),
            Instruction::Xor(Size::S64, gpr(GPR::RAX), gpr(GPR::RAX)),
            Instruction::Lea(Size::S64, rbp(-56), gpr(GPR::RDI)),
            Instruction::RepStosq,
        ]
    );
    assert_eq!(machine.get_stack_offset(), 56);
    assert_eq!(machine.get_local_location(0), gpr(GPR::R12));
    assert_eq!(machine.get_local_location(3), gpr(GPR::RBX));
    assert_eq!(machine.get_local_location(4), rbp(-48));
    assert_eq!(machine.get_local_location(5), rbp(-56));

    let mut b = Assembler::new();
    machine.finalize_locals(&mut b, CallingConvention::SystemV, 6);
    assert_eq!(
        b.instructions(),
        &[
            Instruction::Lea(Size::S64, rbp(-40), gpr(GPR::RSP)),
            Instruction::Pop(Size::S64, gpr(GPR::R15)),
            Instruction::Pop(Size::S64, gpr(GPR::RBX)),
            Instruction::Pop(Size::S64, gpr(GPR::R14)),
            Instruction::Pop(Size::S64, gpr(GPR::R13)),
            Instruction::Pop(Size::S64, gpr(GPR::R12)),
        ]
    );
}

#[test]
fn prologue_for_windows_saves_rdi_and_rsi() {
    let mut machine = Machine::new();
    let mut a = Assembler::new();
    machine.init_locals(&mut a, 1, 1, CallingConvention::WindowsFastcall);
    let rbp = |d: i32| Location::Memory(GPR::RBP, d);
    let gpr = Location::GPR;
    let mov = |src, dst| Instruction::Mov(Size::S64, src, dst);
    assert_eq!(
        a.instructions(),
        &[
            Instruction::Sub(Size::S64, Location::Imm32(32), gpr(GPR::RSP)),
            mov(gpr(GPR::R12), rbp(-8)),
            mov(gpr(GPR::R15), rbp(-16)),
            mov(gpr(GPR::RDI), rbp(-24)),
            mov(gpr(GPR::RSI), rbp(-32)),
            mov(gpr(GPR::RDX), gpr(GPR::R12)),
            mov(gpr(GPR::RCX), gpr(GPR::R15)),
        ]
    );
    let mut b = Assembler::new();
    machine.finalize_locals(&mut b, CallingConvention::WindowsFastcall, 1);
    assert_eq!(
        b.instructions(),
        &[
            Instruction::Lea(Size::S64, rbp(-32), gpr(GPR::RSP)),
            Instruction::Pop(Size::S64, gpr(GPR::RSI)),
            Instruction::Pop(Size::S64, gpr(GPR::RDI)),
            Instruction::Pop(Size::S64, gpr(GPR::R15)),
            Instruction::Pop(Size::S64, gpr(GPR::R12)),
        ]
    );
}

#[test]
fn prologue_probes_every_page() {
    let mut machine = Machine::new();
    let mut a = Assembler::new();
    // 1100 locals and no parameter: locals 512 and 1024 are probed.
    machine.init_locals(&mut a, 1100, 0, CallingConvention::SystemV);
    let probes: Vec<&Instruction> = a
        .instructions()
        .iter()
        .filter(|i| matches!(i, Instruction::Mov(_, Location::Imm32(0), Location::Memory(_, _))))
        .collect();
    let at = |idx: i32| Location::Memory(GPR::RBP, -((idx - 4) * 8 + 48));
    assert_eq!(
        probes,
        vec![
            &Instruction::Mov(Size::S64, Location::Imm32(0), at(512)),
            &Instruction::Mov(Size::S64, Location::Imm32(0), at(1024)),
        ]
    );
    assert_eq!(machine.get_stack_offset(), 40 + 1096 * 8);
}

#[test]
fn parameters_passed_in_memory_go_through_rax() {
    let mut machine = Machine::new();
    let mut a = Assembler::new();
    // Seven parameters under System V: the sixth and seventh come from the
    // caller's frame, and the fifth and later locals live on the stack.
    machine.init_locals(&mut a, 7, 7, CallingConvention::SystemV);
    let code = a.instructions();
    let rbp = |d: i32| Location::Memory(GPR::RBP, d);
    let gpr = Location::GPR;
    let mov = |src, dst| Instruction::Mov(Size::S64, src, dst);
    // allocation, five saves, then the parameters
    assert_eq!(code[6], mov(gpr(GPR::RSI), gpr(GPR::R12)));
    assert_eq!(code[9], mov(gpr(GPR::R8), gpr(GPR::RBX)));
    assert_eq!(code[10], mov(gpr(GPR::R9), rbp(-48)));
    assert_eq!(code[11], mov(rbp(16), gpr(GPR::RAX)));
    assert_eq!(code[12], mov(gpr(GPR::RAX), rbp(-56)));
    assert_eq!(code[13], mov(rbp(24), gpr(GPR::RAX)));
    assert_eq!(code[14], mov(gpr(GPR::RAX), rbp(-64)));
    assert_eq!(code[15], mov(gpr(GPR::RDI), gpr(GPR::R15)));
    assert_eq!(code.len(), 16);
}
