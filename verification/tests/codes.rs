use cedarwasm::{status_code, Error};

#[test]
fn success_is_zero() {
    assert_eq!(status_code(&Ok(())), 0);
}

#[test]
fn each_failure_has_its_code() {
    assert_eq!(status_code(&Err(Error::AlreadyLoaded())), 1000);
    assert_eq!(status_code(&Err(Error::InvalidUtf8())), 1001);
    assert_eq!(status_code(&Err(Error::PolicyParsing())), 1002);
}

#[test]
fn codes_are_distinct() {
    let codes = vec![
        status_code(&Ok(())),
        status_code(&Err(Error::AlreadyLoaded())),
        status_code(&Err(Error::InvalidUtf8())),
        status_code(&Err(Error::PolicyParsing())),
    ];
    for i in 0..codes.len() {
        for j in 0..codes.len() {
            assert_eq!(codes[i] == codes[j], i == j);
        }
    }
}

#[test]
fn each_failure_has_its_message() {
    assert_eq!(Error::PolicyParsing().to_string(), "failed to parse policy");
    assert_eq!(Error::InvalidUtf8().to_string(), "invalid utf-8 input");
    assert_eq!(Error::AlreadyLoaded().to_string(), "policies already loaded");
}
