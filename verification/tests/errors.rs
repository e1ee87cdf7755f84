use safe_launcher::errors::{
    CoreError, DnsError, LauncherError, NfsError, CLIENT_ERROR_START_RANGE, DNS_ERROR_START_RANGE,
    ERROR_RANGE_STRIDE, LAUNCHER_ERROR_START_RANGE, NFS_ERROR_START_RANGE,
};

fn sample_io_error() -> std::io::Error {
    std::io::Error::new(std::io::ErrorKind::NotFound, "boom")
}

fn sample_parser_error() -> rustc_serialize::json::ParserError {
    rustc_serialize::json::ParserError::SyntaxError(
        rustc_serialize::json::ErrorCode::InvalidSyntax,
        1,
        2,
    )
}

fn sample_core_error() -> CoreError {
    CoreError { code: CLIENT_ERROR_START_RANGE - 11, description: "CoreError::Unexpected{\"oops\"}".to_string() }
}

fn sample_dns_error() -> DnsError {
    DnsError { code: DNS_ERROR_START_RANGE - 3, description: "DnsError::ServiceNotFound".to_string() }
}

fn sample_nfs_error() -> NfsError {
    NfsError { code: NFS_ERROR_START_RANGE - 6, description: "NfsError::FileNotFound".to_string() }
}

fn all_variants() -> Vec<LauncherError> {
    vec![
        LauncherError::CoreError(Box::new(sample_core_error())),
        LauncherError::DnsError(Box::new(sample_dns_error())),
        LauncherError::NfsError(Box::new(sample_nfs_error())),
        LauncherError::IpcListenerCouldNotBeBound,
        LauncherError::IpcListenerAborted(sample_io_error()),
        LauncherError::IpcStreamCloneError(sample_io_error()),
        LauncherError::ReceiverChannelDisconnected,
        LauncherError::IpcSessionTerminated(Some(sample_io_error())),
        LauncherError::FailedReadingStreamPayloadSize,
        LauncherError::FailedWritingStreamPayloadSize,
        LauncherError::JsonParseError(sample_parser_error()),
        LauncherError::SpecificParseError("missing endpoint field".to_string()),
        LauncherError::PathNotFound,
        LauncherError::InvalidPath,
        LauncherError::PermissionDenied,
        LauncherError::JsonEncodeError(rustc_serialize::json::EncoderError::BadHashmapKey),
        LauncherError::Unexpected("something odd".to_string()),
    ]
}

fn own_variants() -> Vec<LauncherError> {
    all_variants().into_iter().skip(3).collect()
}

#[test]
fn own_codes_have_no_duplicates() {
    let codes: Vec<i32> = own_variants().into_iter().map(|e| e.error_code()).collect();
    assert_eq!(codes.len(), 14);
    for i in 0..codes.len() {
        for j in 0..codes.len() {
            if i != j {
                assert_ne!(codes[i], codes[j]);
            }
        }
    }
}

#[test]
fn codes_cover_the_reserved_window() {
    for code in own_variants().into_iter().map(|e| e.error_code()) {
        assert!(code <= LAUNCHER_ERROR_START_RANGE - 1);
        assert!(code >= LAUNCHER_ERROR_START_RANGE - 14);
        assert!(code < 0);
    }
}

#[test]
fn code_table_is_stable() {
    let base = LAUNCHER_ERROR_START_RANGE;
    let expected: Vec<i32> = (1..=14).map(|offset| base - offset).collect();
    let codes: Vec<i32> = own_variants().into_iter().map(|e| e.error_code()).collect();
    assert_eq!(codes, expected);
}

#[test]
fn repeated_construction_yields_same_code() {
    assert_eq!(
        LauncherError::PathNotFound.error_code(),
        LauncherError::PathNotFound.error_code(),
    );
    assert_eq!(
        LauncherError::Unexpected("one".to_string()).error_code(),
        LauncherError::Unexpected("another".to_string()).error_code(),
    );
    assert_eq!(
        LauncherError::IpcSessionTerminated(None).error_code(),
        LauncherError::IpcSessionTerminated(Some(sample_io_error())).error_code(),
    );
}

#[test]
fn wrapped_core_error_code_is_delegated() {
    let cause = sample_core_error();
    let native = cause.error_code();
    assert_eq!(LauncherError::from_core_error(cause).error_code(), native);
}

#[test]
fn wrapped_dns_error_code_is_delegated() {
    let cause = sample_dns_error();
    let native = cause.error_code();
    assert_eq!(LauncherError::from_dns_error(cause).error_code(), native);
}

#[test]
fn wrapped_nfs_error_code_is_delegated() {
    let cause = sample_nfs_error();
    let native = cause.error_code();
    assert_eq!(LauncherError::from_nfs_error(cause).error_code(), native);
}

#[test]
fn reserved_base_is_derived_from_the_layer_above() {
    assert_eq!(LAUNCHER_ERROR_START_RANGE, DNS_ERROR_START_RANGE - ERROR_RANGE_STRIDE);
    assert_eq!(DNS_ERROR_START_RANGE, NFS_ERROR_START_RANGE - ERROR_RANGE_STRIDE);
    assert_eq!(NFS_ERROR_START_RANGE, CLIENT_ERROR_START_RANGE - ERROR_RANGE_STRIDE);
    assert_eq!(
        LAUNCHER_ERROR_START_RANGE,
        CLIENT_ERROR_START_RANGE - 3 * ERROR_RANGE_STRIDE,
    );
}

#[test]
fn descriptions_are_nonempty_and_distinct() {
    let texts: Vec<String> = all_variants().iter().map(|e| e.description()).collect();
    assert_eq!(texts.len(), 17);
    for text in &texts {
        assert!(!text.is_empty());
        assert!(text.starts_with("LauncherError::"));
    }
    for i in 0..texts.len() {
        for j in 0..texts.len() {
            if i != j {
                assert_ne!(texts[i], texts[j]);
            }
        }
    }
}

#[test]
fn session_termination_describes_present_and_absent_cause() {
    let graceful = LauncherError::IpcSessionTerminated(None).description();
    let failed = LauncherError::IpcSessionTerminated(Some(sample_io_error())).description();
    assert_eq!(graceful, "LauncherError::IpcSessionTerminated -> None");
    assert!(failed.starts_with("LauncherError::IpcSessionTerminated -> Some("));
    assert!(failed.ends_with(")"));
    assert_eq!(
        failed,
        format!("LauncherError::IpcSessionTerminated -> {:?}", Some(sample_io_error())),
    );
    assert_ne!(graceful, failed);
}

#[test]
fn codes_are_unique_across_the_full_enumeration() {
    let codes: Vec<i32> = all_variants().into_iter().map(|e| e.error_code()).collect();
    assert_eq!(codes.len(), 17);
    for i in 0..codes.len() {
        for j in 0..codes.len() {
            if i != j {
                assert_ne!(codes[i], codes[j]);
            }
        }
    }
}

#[test]
fn wrapped_descriptions_carry_the_cause_text() {
    let text = LauncherError::from_core_error(sample_core_error()).description();
    assert_eq!(text, "LauncherError::CoreError -> CoreError::Unexpected{\"oops\"}");
    let text = LauncherError::from_dns_error(sample_dns_error()).description();
    assert_eq!(text, "LauncherError::DnsError -> DnsError::ServiceNotFound");
    let text = LauncherError::from_nfs_error(sample_nfs_error()).description();
    assert_eq!(text, "LauncherError::NfsError -> NfsError::FileNotFound");
}

#[test]
fn payload_descriptions_extend_the_tag() {
    let text = LauncherError::IpcListenerAborted(sample_io_error()).description();
    assert!(text.starts_with("LauncherError::IpcListenerAborted -> "));
    assert!(text.len() > "LauncherError::IpcListenerAborted -> ".len());
    assert!(text.contains("boom"));
    let text = LauncherError::from_parse_error(sample_parser_error()).description();
    assert!(text.starts_with("LauncherError::JsonParseError -> "));
    assert!(text.contains("invalid syntax"));
    let text = LauncherError::JsonEncodeError(rustc_serialize::json::EncoderError::BadHashmapKey)
        .description();
    assert!(text.starts_with("LauncherError::JsonEncodeError -> "));
    assert!(text.contains("BadHashmapKey"));
    let text = LauncherError::SpecificParseError("missing endpoint field".to_string()).description();
    assert_eq!(text, "LauncherError::SpecificParseError -> \"missing endpoint field\"");
}

#[test]
fn construction_from_any_text_succeeds() {
    let empty = LauncherError::from_description("");
    assert_eq!(empty.description(), "LauncherError::Unexpected{\"\"}");
    assert_eq!(empty.error_code(), LAUNCHER_ERROR_START_RANGE - 14);
    let spaced = LauncherError::from_description("  odd \u{0151} text \\ \"quoted\" ");
    assert_eq!(
        spaced.description(),
        format!("LauncherError::Unexpected{{{:?}}}", "  odd \u{0151} text \\ \"quoted\" "),
    );
}

#[test]
fn construction_from_parser_and_encoder_failures_succeeds() {
    let io_backed = rustc_serialize::json::ParserError::IoError(sample_io_error());
    let converted = LauncherError::from_parse_error(io_backed);
    assert_eq!(converted.error_code(), LAUNCHER_ERROR_START_RANGE - 8);
    let converted = LauncherError::from_parse_error(sample_parser_error());
    assert_eq!(converted.error_code(), LAUNCHER_ERROR_START_RANGE - 8);
    let converted = LauncherError::JsonEncodeError(rustc_serialize::json::EncoderError::BadHashmapKey);
    assert_eq!(converted.error_code(), LAUNCHER_ERROR_START_RANGE - 13);
}

#[test]
fn unexpected_disk_full_scenario() {
    let error = LauncherError::from_description("disk full");
    let text = error.description();
    assert!(text.contains("LauncherError::Unexpected"));
    assert!(text.contains("disk full"));
    assert_eq!(text, "LauncherError::Unexpected{\"disk full\"}");
}

#[test]
fn path_not_found_code_scenario() {
    assert_eq!(
        LauncherError::PathNotFound.error_code(),
        LAUNCHER_ERROR_START_RANGE - 10,
    );
    assert_eq!(
        LauncherError::PathNotFound.error_code(),
        (DNS_ERROR_START_RANGE - ERROR_RANGE_STRIDE) - 10,
    );
}

#[test]
fn subsystem_models_report_their_own_code() {
    let core = CoreError { code: CLIENT_ERROR_START_RANGE, description: "c".to_string() };
    assert_eq!(core.error_code(), CLIENT_ERROR_START_RANGE);
    let nfs = NfsError { code: NFS_ERROR_START_RANGE - 9, description: "n".to_string() };
    assert_eq!(nfs.error_code(), NFS_ERROR_START_RANGE - 9);
    let dns = DnsError { code: DNS_ERROR_START_RANGE - 5, description: "d".to_string() };
    assert_eq!(dns.error_code(), DNS_ERROR_START_RANGE - 5);
}
