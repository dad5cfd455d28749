//! Tests for the render context, template resolution, the render job's
//! lookup surface and the calendar clock.
use tws::assets::{collect_dir_contents, FileEntry};
use tws::error::AppError;
use tws::pdf::{apply_hour_offset, moment_from_timestamp, PdfContext, RenderInput};

fn entry(path: &str, data: &[u8]) -> FileEntry {
    FileEntry { path: path.to_string(), data: data.to_vec() }
}

fn context() -> PdfContext {
    let entries = vec![
        entry("example.typ", b"Hello #name"),
        entry("sub/other.typ", b"Other"),
        entry("input.json", b"preexisting asset"),
        entry("img/logo.png", &[1, 2, 3]),
    ];
    let assets = collect_dir_contents(entries).expect("collection should succeed");
    PdfContext::from_assets(assets)
}

fn payload() -> serde_json::Value {
    let mut map = serde_json::Map::new();
    map.insert("name".to_string(), serde_json::Value::String("World".to_string()));
    map.insert(
        "list".to_string(),
        serde_json::Value::Array(vec![serde_json::Value::String("Test".to_string())]),
    );
    serde_json::Value::Object(map)
}

#[test]
fn has_template_matches_final_segment_only() {
    let ctx = context();
    assert!(ctx.has_template("example.typ"));
    assert!(ctx.has_template("other.typ"));
    assert!(!ctx.has_template("sub/other.typ"));
    assert!(!ctx.has_template("unknown.typ"));
    assert!(!ctx.has_template("logo.png"));
}

#[test]
fn render_job_resolves_and_binds_payload() {
    let ctx = context();
    let value = payload();
    let job = RenderInput::new(&ctx, "example.typ".to_string(), &value)
        .expect("known template must resolve");
    assert_eq!(job.main_source().path, "example.typ");
    // The synthetic input file holds exactly the serialized payload.
    let expected = serde_json::to_vec(&value).expect("serialization");
    assert_eq!(job.input_data, expected);
    assert!(!job.input_data.is_empty());
}

#[test]
fn render_job_unknown_template_is_not_found() {
    let ctx = context();
    let value = payload();
    let err = RenderInput::new(&ctx, "unknown.typ".to_string(), &value)
        .expect_err("unknown template must be rejected");
    assert_eq!(err, AppError::MainSourceNotFound("unknown.typ".to_string()));
    assert_eq!(err.status_code(), 404);
    assert_eq!(err.public_message(), "Requested template not found");
}

#[test]
fn render_job_same_payload_binds_identical_bytes() {
    let ctx = context();
    let value = payload();
    let job1 = RenderInput::new(&ctx, "example.typ".to_string(), &value).expect("resolve");
    let job2 = RenderInput::new(&ctx, "example.typ".to_string(), &value).expect("resolve");
    assert_eq!(job1.input_data, job2.input_data);
    assert_eq!(job1.main_source().path, job2.main_source().path);
    assert_eq!(job1.main_source().text, job2.main_source().text);
}

#[test]
fn synthetic_input_file_always_wins() {
    let ctx = context();
    let job = RenderInput::from_encoded(&ctx, "example.typ".to_string(), b"{\"k\":1}".to_vec())
        .expect("resolve");
    // A real asset sits at input.json, but the synthetic file shadows it.
    let served = job.file("input.json").expect("input file must be served");
    assert_eq!(served.as_slice(), b"{\"k\":1}");
    // Other assets are served from the catalog.
    let logo = job.file("img/logo.png").expect("asset must be served");
    assert_eq!(logo.as_slice(), &[1, 2, 3]);
    assert!(job.file("img/absent.png").is_none());
}

#[test]
fn source_lookup_is_by_exact_path() {
    let ctx = context();
    let job = RenderInput::from_encoded(&ctx, "other.typ".to_string(), b"{}".to_vec())
        .expect("resolve");
    assert_eq!(job.main_source().path, "sub/other.typ");
    let s = job.source("example.typ").expect("exact path must resolve");
    assert_eq!(s.text, "Hello #name");
    assert!(job.source("other.typ").is_none());
    let s2 = job.source("sub/other.typ").expect("exact path must resolve");
    assert_eq!(s2.text, "Other");
}

#[test]
fn font_lookup_is_by_index() {
    let ctx = context();
    let job = RenderInput::from_encoded(&ctx, "example.typ".to_string(), b"{}".to_vec())
        .expect("resolve");
    // No font file in this catalog: every index is out of range.
    assert!(job.font(0).is_none());
}

#[test]
fn hour_offset_arithmetic_is_checked() {
    assert_eq!(apply_hour_offset(100, 2), Some(7300));
    assert_eq!(apply_hour_offset(100, -1), Some(-3500));
    assert_eq!(apply_hour_offset(0, 0), Some(0));
    assert_eq!(apply_hour_offset(i64::MAX, 1), None);
    assert_eq!(apply_hour_offset(0, i64::MAX), None);
}

#[test]
fn moment_from_timestamp_decomposes_the_epoch() {
    let m = moment_from_timestamp(0).expect("epoch is representable");
    assert_eq!(m.year, 1970);
    assert_eq!(m.month, 1);
    assert_eq!(m.day, 1);
    assert_eq!(m.hour, 0);
    assert_eq!(m.minute, 0);
    assert_eq!(m.second, 0);
    // A day later, one hour in.
    let m2 = moment_from_timestamp(24 * 3600 + 3600).expect("representable");
    assert_eq!(m2.day, 2);
    assert_eq!(m2.hour, 1);
    // Outside chrono's representable range nothing comes back.
    assert!(moment_from_timestamp(i64::MAX).is_none());
    assert!(moment_from_timestamp(i64::MIN).is_none());
}

#[test]
fn today_yields_a_valid_calendar_moment() {
    let ctx = context();
    let job = RenderInput::from_encoded(&ctx, "example.typ".to_string(), b"{}".to_vec())
        .expect("resolve");
    let m = job.today(None).expect("the current time is representable");
    assert!((1..=12).contains(&m.month));
    assert!((1..=31).contains(&m.day));
    assert!(m.hour <= 23 && m.minute <= 59 && m.second <= 59);
    assert!(m.year >= 2024);
    let shifted = job.today(Some(24)).expect("one day ahead is representable");
    assert!((1..=12).contains(&shifted.month));
    assert!(job.today(Some(i64::MAX)).is_none());
}
