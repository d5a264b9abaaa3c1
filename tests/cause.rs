use esp_backtrace::cause::ExceptionCause;

#[test]
fn every_defined_code_round_trips() {
    for code in 0u32..40 {
        let cause = ExceptionCause::from_code(code);
        assert_ne!(cause, ExceptionCause::NoCause);
        assert_eq!(cause.code(), code);
    }
}

#[test]
fn defined_codes_are_distinct() {
    for a in 0u32..40 {
        for b in 0u32..40 {
            if a != b {
                assert_ne!(ExceptionCause::from_code(a), ExceptionCause::from_code(b));
            }
        }
    }
}

#[test]
fn named_codes() {
    assert_eq!(ExceptionCause::from_code(0), ExceptionCause::IllegalInstruction);
    assert_eq!(ExceptionCause::from_code(1), ExceptionCause::Syscall);
    assert_eq!(ExceptionCause::from_code(6), ExceptionCause::DivideByZero);
    assert_eq!(ExceptionCause::from_code(8), ExceptionCause::PrivilegedInstruction);
    assert_eq!(ExceptionCause::from_code(9), ExceptionCause::UnalignedLoadOrStore);
    assert_eq!(ExceptionCause::from_code(16), ExceptionCause::ItlbMiss);
    assert_eq!(ExceptionCause::from_code(19), ExceptionCause::Reserved19);
    assert_eq!(ExceptionCause::from_code(24), ExceptionCause::DtlbMiss);
    assert_eq!(ExceptionCause::from_code(28), ExceptionCause::LoadProhibited);
    assert_eq!(ExceptionCause::from_code(29), ExceptionCause::StoreProhibited);
    assert_eq!(ExceptionCause::from_code(31), ExceptionCause::Reserved31);
    assert_eq!(ExceptionCause::from_code(32), ExceptionCause::Cp0Disabled);
    assert_eq!(ExceptionCause::from_code(39), ExceptionCause::Cp7Disabled);
}

#[test]
fn undefined_codes_give_no_cause() {
    for code in [40u32, 41, 100, 254, 255, 256, 0xffff_ffff] {
        assert_eq!(ExceptionCause::from_code(code), ExceptionCause::NoCause);
    }
    assert_eq!(ExceptionCause::NoCause.code(), 255);
}
