use nextcore_apls::capture::{
    parsed_report, read_report, CapturedReport, ReportCapture, MAX_RECOVERY_REPORT_BYTES,
    MAX_REPORT_BYTES,
};
use nextcore_apls::digest::sha256_of;
use nextcore_apls::json::{Json, JsonNumber};
use nextcore_apls::runner::{RunnerBackend, RunnerHost, RunnerPath, RunnerRequest};
use nextcore_apls::text::{decimal_text, hex_text, same_text_ignoring_ascii_case};

const ABC: &str = "ba7816bf8f01cfea414140de5dae2223b00361a396177a9cb410ff61f20015ad";
const NOTHING: &str = "e3b0c44298fc1c149afbf4c8996fb92427ae41e4649b934ca495991b7852b855";

fn native() -> RunnerRequest {
    let path = RunnerPath::new("/p");
    RunnerRequest {
        host: RunnerHost::Local { python: path.clone() },
        backend: RunnerBackend::Native { macosvm: path.clone() },
        repository: path.clone(),
        vm_json: path.clone(),
        output: path.clone(),
        host_receipt_dir: path,
        target_major: 26,
        observation_timeout_secs: 5,
        duration_secs: 5,
        research_only: true,
    }
}

fn capture(limit: u64, chunks: &[&[u8]]) -> CapturedReport {
    let mut capture = ReportCapture::new(limit);
    for chunk in chunks {
        assert!(capture.room() >= chunk.len() as u64);
        capture.absorb(chunk);
    }
    capture.finish()
}

#[test]
fn digests_match_known_values() {
    assert_eq!(hex_text(&sha256_of(b"abc")), ABC);
    assert_eq!(hex_text(&sha256_of(b"")), NOTHING);
}

#[test]
fn capture_keeps_one_byte_over_the_limit_and_hashes_everything() {
    let whole = capture(3, &[b"abc"]);
    assert_eq!(whole.bytes, b"abc");
    assert_eq!(whole.sha256, ABC);
    let cut = capture(1, &[b"a", b"", b"bc"]);
    assert_eq!(cut.bytes, b"ab");
    assert_eq!(cut.sha256, ABC);
    let zero = capture(0, &[b"abc"]);
    assert_eq!(zero.bytes, b"a");
    assert_eq!(capture(9, &[]).sha256, NOTHING);
}

#[test]
fn report_limits_follow_the_backend() {
    assert_eq!(native().report_limit(), MAX_REPORT_BYTES);
    assert_eq!(MAX_REPORT_BYTES, 4 * 1024 * 1024);
    assert_eq!(MAX_RECOVERY_REPORT_BYTES, 8 * 1024 * 1024 + 1);
}

#[test]
fn oversized_and_malformed_reports_are_failures() {
    assert_eq!(
        read_report(b"{}", 1),
        Err("worker report exceeds 0 MiB".to_string())
    );
    assert_eq!(read_report(b"{}", 2), Ok(Json::Object(Vec::new())));
    assert!(read_report(b"{", 2)
        .unwrap_err()
        .starts_with("worker did not return valid JSON: "));
    assert_eq!(
        parsed_report(Err("bad".into())),
        Err("worker did not return valid JSON: bad".to_string())
    );
    let bytes = vec![b' '; MAX_REPORT_BYTES as usize + 1];
    let outcome = native().conclude(7, Some(0), CapturedReport { bytes, sha256: "00".into() });
    assert_eq!(outcome.failure.as_deref(), Some("worker report exceeds 4 MiB"));
    assert_eq!((outcome.runner_pid, outcome.stdout_sha256.as_str()), (7, "00"));
    assert!(!outcome.guest_runtime_started && !outcome.macos_boot_verified);
}

#[test]
fn a_concluded_run_carries_its_report() {
    let captured = capture(MAX_REPORT_BYTES, &[br#"{"error":"#, br#""no disk"}"#]);
    let outcome = native().conclude(42, Some(2), captured);
    assert_eq!(outcome.failure.as_deref(), Some("no disk"));
    assert_eq!(outcome.runner_exit_code, Some(2));
    assert_eq!(
        outcome.report,
        Some(Json::Object(vec![("error".into(), Json::Text("no disk".into()))]))
    );
}

#[test]
fn json_documents_are_opened_whole() {
    let parsed =
        Json::from_slice(br#"{"b":[null,true,1,-2,1.5,18446744073709551615],"a":"x"}"#).unwrap();
    let items = Json::Array(vec![
        Json::Null,
        Json::Bool(true),
        Json::Number(JsonNumber::Unsigned(1)),
        Json::Number(JsonNumber::Negative(-2)),
        Json::Number(JsonNumber::Other("1.5".into())),
        Json::Number(JsonNumber::Unsigned(u64::MAX)),
    ]);
    let fields = match parsed {
        Json::Object(fields) => fields,
        other => panic!("no object: {other:?}"),
    };
    assert_eq!(fields.len(), 2);
    assert!(fields.contains(&("b".to_string(), items)));
    assert!(fields.contains(&("a".to_string(), Json::Text("x".into()))));
    assert!(Json::from_slice(b"{\"a\":}").is_err());
}

#[test]
fn numbers_and_bytes_are_written_out() {
    assert_eq!(decimal_text(0), "0");
    assert_eq!(decimal_text(u64::MAX), "18446744073709551615");
    assert_eq!(hex_text(&[0x00, 0x0f, 0xa0, 0xff]), "000fa0ff");
    assert!(same_text_ignoring_ascii_case("SSE4.2", "sse4.2"));
    assert!(!same_text_ignoring_ascii_case("sse4.2", "sse42"));
}
