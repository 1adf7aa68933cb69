use wasm_engine::instance::{
    check_config, check_cpu_features, FastGasCounter, HostEnvInitError, InstanceConfig, InstantiationError, RuntimeError,
};
use wasm_engine::target::CpuFeature;
use wasm_engine::trap::TrapCode;

/// Charges `fees` in turn, over and over, and counts the charges up to and
/// with the one that exceeds the limit.
fn charges_until_exceeded(fees: [u64; 2], limit: u64) -> usize {
    let mut counter = FastGasCounter::new(limit, 1);
    let mut charges = 0;
    loop {
        for fee in fees.iter() {
            charges += 1;
            if counter.burn(*fee).is_err() {
                return charges;
            }
        }
    }
}

#[test]
fn gas_limit_crossing() {
    let mut counter = FastGasCounter::new(300, 1);
    assert_eq!(counter.burn(126), Ok(()));
    assert_eq!(counter.burnt_gas, 126);
    assert_eq!(counter.burn(300), Err(TrapCode::GasLimitExceeded));
    // the gas is burnt although the limit does not allow it
    assert_eq!(counter.burnt_gas, 426);
    // and the limit stays exceeded
    assert_eq!(counter.burn(0), Err(TrapCode::GasLimitExceeded));
    assert_eq!(counter.burnt_gas, 426);
}

#[test]
fn gas_limit_cases() {
    assert_eq!(charges_until_exceeded([126, 300], 300), 2);
    assert_eq!(charges_until_exceeded([149, 150], 300), 3);
    assert_eq!(charges_until_exceeded([0, 150], 300), 6);
    assert_eq!(charges_until_exceeded([2147483647, 2147483648], 1 << 32), 3);
    assert_eq!(charges_until_exceeded([8589934592, 8589934592], 1 << 34), 3);
    assert_eq!(charges_until_exceeded([9223372036854775807, 0], i64::MAX as u64), 3);
    assert_eq!(charges_until_exceeded([9223372036854775808, 0], i64::MAX as u64), 1);
    assert_eq!(charges_until_exceeded([18446744073709551615, 0], i64::MAX as u64), 1);
    assert_eq!(charges_until_exceeded([1, 0], 0), 1);
    assert_eq!(charges_until_exceeded([1, 1], 10), 11);
}

#[test]
fn gas_saturates() {
    let mut counter = FastGasCounter::new(u64::MAX, 3);
    assert_eq!(counter.burn(u64::MAX), Ok(()));
    assert_eq!(counter.burnt_gas, u64::MAX);
    assert_eq!(counter.burn(1), Ok(()));
    assert_eq!(counter.burnt_gas, u64::MAX);
}

#[test]
fn gas_is_charged_by_opcode_cost() {
    let mut counter = FastGasCounter::new(100, 7);
    assert_eq!(counter.burn(14), Ok(()));
    assert_eq!(counter.burnt_gas, 98);
    assert_eq!(counter.remaining(), 2);
    assert_eq!(counter.burn(1), Err(TrapCode::GasLimitExceeded));
    assert_eq!(counter.burnt_gas, 105);
    assert_eq!(counter.remaining(), 0);
}

#[test]
fn remaining_gas() {
    let mut counter = FastGasCounter::new(100, 1);
    assert_eq!(counter.burn(100), Ok(()));
    assert_eq!(counter.remaining(), 0);
    let mut counter = FastGasCounter::new(100, 1);
    assert_eq!(counter.burn(0), Ok(()));
    assert_eq!(counter.remaining(), 100);
    let mut counter = FastGasCounter::new(100, 1);
    assert_eq!(counter.burn(50), Ok(()));
    assert_eq!(counter.burn(50), Ok(()));
    assert_eq!(counter.remaining(), 0);
}

#[test]
fn opcode_cost_is_capped() {
    let config = |cost: u64| InstanceConfig {
        gas_counter: FastGasCounter::new(1000, cost),
        stack_limit: 100_000,
    };
    assert!(check_config(&config(1)).is_ok());
    assert!(check_config(&config(i32::MAX as u64)).is_ok());
    match check_config(&config(i32::MAX as u64 + 1)) {
        Err(InstantiationError::HostEnvInitialization(
            HostEnvInitError::IncorrectGasMeteringConfig,
        )) => {}
        other => panic!("unexpected result: {:?}", other),
    }
}

#[test]
fn runtime_error_says_why() {
    assert_eq!(RuntimeError::from_trap(TrapCode::GasLimitExceeded).message(), "gas limit exceeded");
    assert_eq!(RuntimeError::from_trap(TrapCode::StackOverflow).trap, TrapCode::StackOverflow);
}

#[test]
fn missing_cpu_features_fail_instantiation() {
    let sse2 = CpuFeature::SSE2.bit();
    let avx = CpuFeature::AVX.bit();
    let lzcnt = CpuFeature::LZCNT.bit();
    assert!(check_cpu_features(0, 0).is_ok());
    assert!(check_cpu_features(sse2 | avx, sse2 | avx | lzcnt).is_ok());
    match check_cpu_features(sse2 | avx | lzcnt, sse2) {
        Err(InstantiationError::CpuFeature(names)) => assert_eq!(names, "avx lzcnt "),
        other => panic!("unexpected result: {:?}", other),
    }
    match check_cpu_features(avx, 0) {
        Err(InstantiationError::CpuFeature(names)) => assert_eq!(names, "avx "),
        other => panic!("unexpected result: {:?}", other),
    }
    assert_eq!(CpuFeature::all().len(), 14);
    assert_eq!(CpuFeature::BMI1.name(), "bmi");
}
