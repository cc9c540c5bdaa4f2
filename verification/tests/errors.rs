use hierarbus::error::SysError;
use hierarbus::net::Error;

#[test]
fn error_numbers() {
    assert_eq!(SysError::EUNDEF.code(), 0);
    assert_eq!(SysError::EPERM.code(), 1);
    assert_eq!(SysError::EINVAL.code(), 22);
    assert_eq!(SysError::EIDRM.code(), 43);
    assert_eq!(SysError::ENOTSOCK.code(), 80);
    assert_eq!(SysError::ECONNREFUSED.code(), 111);
}

#[test]
fn error_from_numbers() {
    assert_eq!(SysError::from_code(107), Some(SysError::ENOTCONN));
    assert_eq!(SysError::from_code(105), Some(SysError::ENOBUFS));
    assert_eq!(SysError::from_code(41), None);
    assert_eq!(SysError::from_code(-1), None);
    assert_eq!(SysError::from_code(112), None);
}

#[test]
fn error_numbers_round_trip_for_examples() {
    for e in [SysError::EUNDEF, SysError::EAGAIN, SysError::ELOOP, SysError::ETIMEDOUT, SysError::EISCONN] {
        assert_eq!(SysError::from_code(e.code()), Some(e));
    }
}

#[test]
fn error_descriptions() {
    assert_eq!(SysError::EPERM.message(), "Operation not permitted");
    assert_eq!(SysError::EDOM.message(), "Math argument out of domain of func");
    assert_eq!(SysError::ECONNREFUSED.to_string(), "Connection refused");
    assert_eq!(SysError::EUNDEF.message(), "Unknown error");
    assert_eq!(SysError::EIDRM.message(), "Unknown error");
    assert_eq!(SysError::ETIMEDOUT.to_string(), "Unknown error");
}

#[test]
fn driver_errors_compare() {
    assert_eq!(Error::DmaError, Error::DmaError);
    assert_ne!(Error::NotReady, Error::IoError);
}

#[test]
fn distinct_errors_are_described_apart() {
    let mut errors = Vec::new();
    for n in -10isize..200 {
        if let Some(e) = SysError::from_code(n) {
            errors.push(e);
        }
    }
    let unknown: Vec<&SysError> = errors.iter().filter(|e| e.to_string() == "Unknown error").collect();
    assert_eq!(unknown.len(), 3);
    for (i, e) in errors.iter().enumerate() {
        for f in errors[i + 1..].iter() {
            if e.to_string() != "Unknown error" && f.to_string() != "Unknown error" {
                assert_ne!(e.to_string(), f.to_string());
            }
        }
    }
    assert!(errors.len() > 40);
}
