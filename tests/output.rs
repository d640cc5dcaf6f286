use command_engine::{Error, Output, Result, ERROR_BASE, MAX_PRIME, OK_BASE};

#[test]
fn status_codes() {
    assert_eq!(Result::ok(1).status_code(), 0xA001);
    assert_eq!(Result::err(1).status_code(), 0xF001);
    assert_eq!(Result::ok(0).status_code(), OK_BASE);
    assert_eq!(Result::err(0).status_code(), ERROR_BASE);
    assert_eq!(Result::ok(MAX_PRIME).status_code(), 0xAFFF);
    assert_eq!(Result::err(MAX_PRIME).status_code(), 0xFFFF);
}

#[test]
fn out_of_range_prime_is_refused() {
    assert_eq!(Result::try_ok(4096), None);
    assert_eq!(Result::try_err(4096), None);
    assert_eq!(Result::try_ok(4095), Some(Result::Success(4095)));
    assert_eq!(Result::try_err(7), Some(Result::Error(7)));
}

#[test]
fn raw_val_and_variant() {
    let r = Result::ok(42);
    assert_eq!(r.raw_val(), 42);
    assert!(r.is_ok());
    assert!(!r.is_err());
    let e = Result::err(17);
    assert_eq!(e.raw_val(), 17);
    assert!(e.is_err());
    assert!(!e.is_ok());
}

#[test]
fn result_text() {
    assert_eq!(Result::ok(1).to_string(), "0xA001");
    assert_eq!(Result::err(1).to_string(), "0xF001");
    assert_eq!(Result::ok(0x2B).to_string(), "0xA02B");
    assert_eq!(Result::err(4095).to_string(), "0xFFFF");
}

#[test]
fn output_constructors_and_text() {
    let o = Output::new_ok(1, Some("done"));
    assert_eq!(o.result, Result::Success(1));
    assert_eq!(o.message, "done");
    assert_eq!(o.to_string(), "0xA001 - [done]");
    let o = Output::new_error(0, None);
    assert_eq!(o.result, Result::Error(0));
    assert_eq!(o.message, "");
    assert_eq!(o.to_string(), "0xF000 - []");
    let o = Output::new(Result::err(3), Some("x"));
    assert_eq!(o.result, Result::Error(3));
}

#[test]
fn error_names() {
    assert_eq!(Error::MissingCaller.to_string(), "MissingCaller");
    assert_eq!(Error::SubArgWithoutFlag.to_string(), "SubArgWithoutFlag");
    assert_eq!(Error::DuplicateName.to_string(), "DuplicateName");
    assert_eq!(Error::CommandNotFound.to_string(), "CommandNotFound");
    assert_eq!(Error::AlreadyRunning.to_string(), "AlreadyRunning");
    assert_eq!(Error::NotRunning.to_string(), "NotRunning");
}
