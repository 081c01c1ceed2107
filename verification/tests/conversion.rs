use error_code::engine::to_error_info;
use error_code::metadata::validate;
use error_code::sample::SampleError;
use error_code::DefError;
use error_code::ErrorInfo;
use error_code::ToErrorInfo;
use error_code::TypeMetadata;
use error_code::VariantMetadata;

fn entry(code: &str, app_status: &str, client_msg: &str, template: &str) -> VariantMetadata {
    VariantMetadata {
        code: code.to_string(),
        app_status: app_status.to_string(),
        client_msg: client_msg.to_string(),
        template: template.to_string(),
    }
}

#[test]
fn not_found_scenario() {
    let e = SampleError::NotFound("item42".to_string());
    let info = e.to_error_info();
    assert_eq!(info.code, "0ANF");
    assert_eq!(info.app_code, 404u16);
    assert_eq!(info.client_msg, "");
    assert_eq!(info.server_msg, "Item item42 Not found");
    assert_eq!(info.client_msg(), "Item item42 Not found");
    assert_eq!(info.client_text(), "[0ANF] Item item42 Not found");
    assert_eq!(info.server_text(), "[0ANF] Item item42 Not found");
}

#[test]
fn server_error_scenario() {
    let e = SampleError::ServerError("disk full".to_string());
    let info = e.to_error_info();
    assert_eq!(info.code, "0ASE");
    assert_eq!(info.app_code, 500u16);
    assert_eq!(info.client_msg(), "we had a server problem, please try again later");
    assert_eq!(info.server_msg, "Internal server error: disk full");
    assert_eq!(info.client_text(), "[0ASE] we had a server problem, please try again later");
    assert_eq!(info.server_text(), "[0ASE] Internal server error: disk full");
    assert!(info.server_text().contains("disk full"));
}

#[test]
fn sample_metadata_is_valid() {
    let meta = SampleError::metadata();
    assert!(validate::<u16>(&meta).is_ok());
}

#[test]
fn missing_metadata_fails_validation() {
    let meta = TypeMetadata { code_prefix: "0A".to_string(), variants: vec![None] };
    let r = validate::<u16>(&meta);
    assert!(matches!(r, Err(DefError::MissingMetadata(0))));
}

#[test]
fn missing_metadata_reports_first_faulty_tag() {
    let meta = TypeMetadata {
        code_prefix: "0A".to_string(),
        variants: vec![Some(entry("NF", "404", "", "Item {} Not found")), None],
    };
    let r = validate::<u16>(&meta);
    assert!(matches!(r, Err(DefError::MissingMetadata(1))));
}

#[test]
fn unparsable_literal_fails_validation() {
    let meta = TypeMetadata {
        code_prefix: "0A".to_string(),
        variants: vec![Some(entry("NF", "not-a-number", "", "x"))],
    };
    let r = validate::<u16>(&meta);
    assert!(matches!(r, Err(DefError::UnparsableLiteral(0))));
}

#[test]
fn out_of_range_literal_fails_validation() {
    let meta = TypeMetadata {
        code_prefix: "0A".to_string(),
        variants: vec![Some(entry("NF", "65536", "", "x"))],
    };
    let r = validate::<u16>(&meta);
    assert!(matches!(r, Err(DefError::UnparsableLiteral(0))));
}

#[test]
fn engine_assembles_code_status_and_messages() {
    let meta = TypeMetadata {
        code_prefix: "Z".to_string(),
        variants: vec![Some(entry("V", "7", "safe text", "left {} right"))],
    };
    assert!(validate::<u16>(&meta).is_ok());
    let info: ErrorInfo<u16> = to_error_info(&meta, 0, "middle");
    assert_eq!(info.code, "ZV");
    assert_eq!(info.app_code, 7u16);
    assert_eq!(info.client_msg, "safe text");
    assert_eq!(info.server_msg, "left middle right");
}

#[test]
fn conversion_is_idempotent() {
    let a = SampleError::ServerError("disk full".to_string());
    let b = SampleError::ServerError("disk full".to_string());
    let i1 = a.to_error_info();
    let i2 = b.to_error_info();
    assert_eq!(i1.code, i2.code);
    assert_eq!(i1.app_code, i2.app_code);
    assert_eq!(i1.client_msg, i2.client_msg);
    assert_eq!(i1.server_msg, i2.server_msg);
}

#[test]
fn new_parses_the_app_status_literal() {
    let info: ErrorInfo<u16> = ErrorInfo::new(
        "404",
        "0ANF".to_string(),
        "".to_string(),
        "diagnostic".to_string(),
    );
    assert_eq!(info.app_code, 404u16);
    assert_eq!(info.code, "0ANF");
    assert_eq!(info.client_msg, "");
    assert_eq!(info.server_msg, "diagnostic");
}

#[test]
fn client_msg_falls_back_to_server_msg_when_empty() {
    let info = ErrorInfo {
        app_code: 500u16,
        code: "0ASE".to_string(),
        client_msg: "".to_string(),
        server_msg: "internal detail".to_string(),
    };
    assert_eq!(info.client_msg(), "internal detail");
    assert_eq!(info.client_text(), "[0ASE] internal detail");
}

#[test]
fn client_msg_prefers_the_declared_message() {
    let info = ErrorInfo {
        app_code: 500u16,
        code: "0ASE".to_string(),
        client_msg: "please retry".to_string(),
        server_msg: "internal detail".to_string(),
    };
    assert_eq!(info.client_msg(), "please retry");
    assert_eq!(info.client_text(), "[0ASE] please retry");
    assert_eq!(info.server_text(), "[0ASE] internal detail");
}
