use apd::error::CliError;
use apd::supercall::{interpret_status, kpm_load_request};

#[test]
fn request_carries_the_exact_buffers() {
    let req = kpm_load_request("SECRET", "/data/x.kpm", None).expect("both values valid");
    assert_eq!(req.key.raw(), b"SECRET\0");
    assert_eq!(req.path.raw(), b"/data/x.kpm\0");
    assert!(req.args.is_none());
    let with_args = kpm_load_request("SECRET", "/data/x.kpm", Some("verbose")).expect("valid");
    assert_eq!(with_args.args.as_ref().map(|b| b.raw()), Some(&b"verbose\0"[..]));
}

#[test]
fn null_byte_in_credential_is_a_local_input_error() {
    let r = kpm_load_request("bad\0key", "/data/x.kpm", None);
    assert!(matches!(r, Err(CliError::InvalidCredential)));
}

#[test]
fn null_byte_in_path_is_a_local_input_error() {
    let r = kpm_load_request("SECRET", "/data\0/x.kpm", None);
    assert!(matches!(r, Err(CliError::InvalidPath)));
}

#[test]
fn null_byte_in_args_is_a_local_input_error() {
    let r = kpm_load_request("SECRET", "/data/x.kpm", Some("a\0b"));
    assert!(matches!(r, Err(CliError::InvalidArgs)));
}

#[test]
fn credential_is_validated_before_path() {
    let r = kpm_load_request("bad\0key", "/data\0/x.kpm", None);
    assert!(matches!(r, Err(CliError::InvalidCredential)));
}

#[test]
fn negative_status_preserves_the_exact_code() {
    for code in [-1i64, -2, -38, i64::MIN] {
        match interpret_status(code) {
            Err(CliError::SupercallFailed { code: kept }) => assert_eq!(kept, code),
            other => panic!("expected SupercallFailed, got {:?}", other),
        }
    }
}

#[test]
fn non_negative_status_is_success() {
    for code in [0i64, 1, 7, i64::MAX] {
        assert!(interpret_status(code).is_ok());
    }
}
