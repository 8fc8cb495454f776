use nekor_aal::arch::x86::interrupt::{ExceptionVector, InterruptVector, StartupVector, ExceptionErrorCode};

#[test]
fn exception_domain_ends_before_user_defined_vectors() {
    assert_eq!(ExceptionVector::new(ExceptionVector::MAX().get()), Some(ExceptionVector::MAX()));
    assert_eq!(ExceptionVector::new(InterruptVector::FIRST_USER_DEFINED().get()), None);
}

#[test]
fn assigned_vector_names_match_the_manual_tables() {
    assert_eq!(ExceptionVector::DOUBLE_FAULT().get(), 8);
    assert_eq!(ExceptionVector::PAGE_FAULT().get(), 14);
    assert_eq!(ExceptionVector::CONTROL_PROTECTION().get(), 21);
    assert_eq!(ExceptionVector::VMM_COMMUNICATION().get(), 29);
}

#[test]
fn error_code_shape_distinguishes_named_exceptions() {
    assert!(ExceptionVector::DOUBLE_FAULT().pushes_error_code());
    assert!(ExceptionVector::PAGE_FAULT().pushes_error_code());
    assert!(ExceptionVector::VMM_COMMUNICATION().pushes_error_code());
    assert!(!ExceptionVector::DEBUG().pushes_error_code());
    assert!(!ExceptionVector::MACHINE_CHECK().pushes_error_code());
    assert!(!ExceptionVector::HYPERVISOR_INJECTION().pushes_error_code());
}

#[test]
fn every_assigned_error_code_vector_pushes_and_no_other_does() {
    let list = ExceptionVector::WITH_ERROR_CODE();
    for raw in 0u8..=31 {
        let vector = ExceptionVector::new(raw).unwrap();
        let listed = list.iter().any(|entry| entry.get() == raw);
        assert_eq!(vector.pushes_error_code(), listed);
    }
    assert!(ExceptionVector::new(32).is_none());
}

#[test]
fn exception_vectors_widen_and_narrow_losslessly() {
    let gp = ExceptionVector::GENERAL_PROTECTION();
    assert_eq!(gp.interrupt().get(), 13);
    assert_eq!(ExceptionVector::try_from(gp.interrupt()), Ok(gp));
    assert_eq!(ExceptionVector::try_from(InterruptVector::new(200)), Err(InterruptVector::new(200)));
    assert_eq!(StartupVector::new(0x9f).get(), 0x9f);
    assert_eq!(ExceptionErrorCode::new(0xdead_beef).get(), 0xdead_beef);
}
