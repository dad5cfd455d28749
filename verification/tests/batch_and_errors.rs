//! Tests for batch validation, the fan-in run, the error mapping and the
//! bounded stream buffer.
use tws::assets::{collect_dir_contents, FileEntry};
use tws::batch::{validate_batch_templates, BatchRenderRequest, BatchRun};
use tws::error::AppError;
use tws::pdf::PdfContext;
use tws::stream::BoundedBuffer;

fn entry(path: &str, data: &[u8]) -> FileEntry {
    FileEntry { path: path.to_string(), data: data.to_vec() }
}

fn context() -> PdfContext {
    let entries = vec![entry("example.typ", b"Hello"), entry("sub/other.typ", b"Other")];
    let assets = collect_dir_contents(entries).expect("collection should succeed");
    PdfContext::from_assets(assets)
}

fn request(template: &str, file_name: &str) -> BatchRenderRequest {
    BatchRenderRequest {
        template: template.to_string(),
        file_name: file_name.to_string(),
        input: serde_json::Value::Null,
    }
}

#[test]
fn batch_validation_accepts_known_templates() {
    let ctx = context();
    let requests = vec![
        request("example.typ", "first.pdf"),
        request("other.typ", "second.pdf"),
        request("example.typ", "third.pdf"),
    ];
    assert!(validate_batch_templates(&ctx, &requests).is_ok());
}

#[test]
fn batch_validation_rejects_first_missing_template() {
    let ctx = context();
    let requests = vec![
        request("example.typ", "first.pdf"),
        request("unknown.typ", "missing.pdf"),
        request("also-missing.typ", "other.pdf"),
    ];
    let err = validate_batch_templates(&ctx, &requests)
        .expect_err("a missing template must reject the batch");
    assert_eq!(err, AppError::MainSourceNotFound("unknown.typ".to_string()));
    assert_eq!(err.status_code(), 404);
    assert_eq!(err.public_message(), "Requested template not found");
}

#[test]
fn batch_run_rejects_before_any_work() {
    let ctx = context();
    let requests = vec![request("unknown.typ", "missing.pdf")];
    let err = BatchRun::begin(&ctx, &requests).err().expect("begin must reject");
    assert_eq!(err, AppError::MainSourceNotFound("unknown.typ".to_string()));
}

#[test]
fn batch_entries_do_not_depend_on_completion_order() {
    let ctx = context();
    let requests = vec![request("example.typ", "first.pdf"), request("other.typ", "second.pdf")];

    let mut forward = BatchRun::begin(&ctx, &requests).expect("valid batch");
    assert_eq!(forward.remaining(), 2);
    forward.record_success("first.pdf".to_string());
    forward.record_success("second.pdf".to_string());
    forward.finish();

    let mut backward = BatchRun::begin(&ctx, &requests).expect("valid batch");
    backward.record_success("second.pdf".to_string());
    backward.record_success("first.pdf".to_string());
    backward.finish();

    let mut a: Vec<String> = forward.entry_names().clone();
    let mut b: Vec<String> = backward.entry_names().clone();
    assert_eq!(a.len(), 2);
    assert_eq!(b.len(), 2);
    a.sort();
    b.sort();
    assert_eq!(a, b);
    assert!(forward.is_finished());
}

#[test]
fn batch_failed_unit_is_skipped_not_fatal() {
    let ctx = context();
    let requests = vec![request("example.typ", "first.pdf"), request("other.typ", "second.pdf")];
    let mut run = BatchRun::begin(&ctx, &requests).expect("valid batch");
    run.record_failure();
    run.record_success("second.pdf".to_string());
    assert_eq!(run.remaining(), 0);
    run.finish();
    assert_eq!(run.entry_names().len(), 1);
    assert_eq!(run.entry_names()[0], "second.pdf");
    assert!(run.is_finished());
}

#[test]
fn error_status_codes_follow_the_taxonomy() {
    assert_eq!(AppError::MainSourceNotFound("x".to_string()).status_code(), 404);
    assert_eq!(AppError::TypstCompilation(vec![]).status_code(), 400);
    assert_eq!(AppError::InputSerialization.status_code(), 400);
    assert_eq!(AppError::ConnectionClosed.status_code(), 400);
    assert_eq!(AppError::NotADirectory("x".to_string()).status_code(), 400);
    assert_eq!(AppError::CanonicalizePath { path: "x".to_string() }.status_code(), 400);
    assert_eq!(AppError::Io.status_code(), 500);
    assert_eq!(AppError::PdfExport(vec![]).status_code(), 500);
    assert_eq!(AppError::TaskJoin.status_code(), 500);
    assert_eq!(AppError::ZipError.status_code(), 500);
}

#[test]
fn error_messages_are_generic() {
    assert_eq!(AppError::TypstCompilation(vec!["missing field".to_string()]).public_message(), "Document compilation failed");
    assert_eq!(AppError::InputSerialization.public_message(), "Invalid request payload");
    assert_eq!(AppError::PdfExport(vec![]).public_message(), "PDF export failed");
    assert_eq!(AppError::Io.public_message(), "I/O operation failed");
}

#[test]
fn error_response_carries_message_and_reference() {
    let err = AppError::MainSourceNotFound("unknown.typ".to_string());
    let (status, reference, body) = err.to_response_parts();
    assert_eq!(status, 404);
    assert_eq!(reference.len(), 36);
    let bytes = reference.as_bytes();
    for (i, b) in bytes.iter().enumerate() {
        if i == 8 || i == 13 || i == 18 || i == 23 {
            assert_eq!(*b, b'-');
        } else {
            assert!(b.is_ascii_hexdigit() && !b.is_ascii_uppercase());
        }
    }
    assert!(body.contains("Requested template not found"));
    assert!(body.contains(&reference));
    assert_eq!(
        body,
        format!("{{\"error\":\"Requested template not found\",\"reference\":\"{}\"}}", reference)
    );
}

#[test]
fn content_disposition_names_the_download() {
    assert_eq!(
        tws::error::content_disposition("output.pdf"),
        "attachment; filename=\"output.pdf\""
    );
}

#[test]
fn error_references_differ_between_responses() {
    let e = AppError::Io;
    let (_, r1, _) = e.to_response_parts();
    let (_, r2, _) = e.to_response_parts();
    assert_ne!(r1, r2);
}

#[test]
fn bounded_buffer_throttles_writes_to_free_space() {
    let mut buf = BoundedBuffer::with_capacity(4);
    assert_eq!(buf.capacity(), 4);
    let n = buf.write(&vec![1, 2, 3, 4, 5, 6]);
    assert_eq!(n, 4);
    assert_eq!(buf.len(), 4);
    // Full buffer: nothing more is accepted until the consumer drains.
    assert_eq!(buf.write(&vec![7]), 0);
    let out = buf.read_up_to(2);
    assert_eq!(out, vec![1, 2]);
    assert_eq!(buf.write(&vec![7, 8, 9]), 2);
    let rest = buf.read_up_to(100);
    assert_eq!(rest, vec![3, 4, 7, 8]);
    assert_eq!(buf.len(), 0);
    assert_eq!(buf.read_up_to(1), Vec::<u8>::new());
}

#[test]
fn bounded_buffer_preserves_order_across_chunks() {
    let mut buf = BoundedBuffer::with_capacity(3);
    let data: Vec<u8> = (0..10).collect();
    let mut written: usize = 0;
    let mut out: Vec<u8> = Vec::new();
    while written < data.len() {
        let chunk: Vec<u8> = data[written..].to_vec();
        written += buf.write(&chunk);
        out.extend(buf.read_up_to(2));
    }
    out.extend(buf.read_up_to(100));
    assert_eq!(out, data);
}
