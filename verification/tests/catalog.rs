//! Tests for path handling, file classification and the asset collector.
use tws::assets::{collect_dir_contents, Assets, FileEntry, FileType};
use tws::error::AppError;
use tws::paths::{extension, file_name, str_eq, str_eq_ignore_ascii_case};

fn entry(path: &str, data: &[u8]) -> FileEntry {
    FileEntry { path: path.to_string(), data: data.to_vec() }
}

#[test]
fn file_name_takes_final_segment() {
    assert_eq!(file_name("dir/sub/report.typ"), "report.typ");
    assert_eq!(file_name("report.typ"), "report.typ");
    assert_eq!(file_name("dir/"), "");
}

#[test]
fn extension_follows_last_dot_of_final_segment() {
    assert_eq!(extension("a/b/c.typ"), Some("typ".to_string()));
    assert_eq!(extension("archive.tar.gz"), Some("gz".to_string()));
    assert_eq!(extension("dir.d/file"), None);
    assert_eq!(extension(".gitignore"), None);
    assert_eq!(extension("trailing."), Some("".to_string()));
    assert_eq!(extension("noext"), None);
}

#[test]
fn string_comparisons() {
    assert!(str_eq("abc", "abc"));
    assert!(!str_eq("abc", "abd"));
    assert!(!str_eq("abc", "ab"));
    assert!(str_eq_ignore_ascii_case("WOFF2", "woff2"));
    assert!(str_eq_ignore_ascii_case("Typ", "typ"));
    assert!(!str_eq_ignore_ascii_case("typ", "TYP"));
    assert!(!str_eq_ignore_ascii_case("otf", "ttf"));
}

#[test]
fn classification_by_extension() {
    assert!(matches!(FileType::from_path("fonts/Bagnard.otf"), FileType::Font));
    assert!(matches!(FileType::from_path("a.TTF"), FileType::Font));
    assert!(matches!(FileType::from_path("w.woff"), FileType::Font));
    assert!(matches!(FileType::from_path("w.WOFF2"), FileType::Font));
    assert!(matches!(FileType::from_path("example.typ"), FileType::TypstSource));
    assert!(matches!(FileType::from_path("deep/dir/Other.TYPST"), FileType::TypstSource));
    assert!(matches!(FileType::from_path("input.json"), FileType::Other));
    assert!(matches!(FileType::from_path("noext"), FileType::Other));
    assert!(matches!(FileType::from_path(".typ"), FileType::Other));
    assert!(matches!(FileType::from_path("dir.typ/readme"), FileType::Other));
}

#[test]
fn collect_classifies_templates_assets_and_bad_fonts() {
    tws::logging::init_for_tests();
    let entries = vec![
        entry("example.typ", b"Hello, #name"),
        entry("input.json", b"{}"),
        entry("img/logo.png", &[0x89, 0x50, 0x4e, 0x47]),
        // Not a real font: the collector skips what does not parse.
        entry("fonts/Bagnard.otf", b"not really a font"),
    ];
    let assets: Assets = collect_dir_contents(entries).expect("collection should succeed");

    assert_eq!(assets.sources.len(), 1);
    assert_eq!(assets.sources[0].path, "example.typ");
    assert_eq!(assets.sources[0].name, "example.typ");
    assert_eq!(assets.sources[0].text, "Hello, #name");

    assert_eq!(assets.fonts.len(), 0);

    assert_eq!(assets.assets.len(), 2);
    let paths: Vec<&str> = assets.assets.iter().map(|a| a.path.as_str()).collect();
    assert!(paths.contains(&"input.json"));
    assert!(paths.contains(&"img/logo.png"));
}

#[test]
fn collect_rejects_invalid_utf8_template() {
    let entries = vec![entry("bad.typ", &[0xff, 0xfe, 0x00, 0x41])];
    let err = collect_dir_contents(entries).expect_err("invalid UTF-8 must fail the load");
    assert_eq!(err, AppError::Io);
}

#[test]
fn collect_last_write_wins_on_duplicate_asset_path() {
    let entries = vec![
        entry("data.bin", b"first"),
        entry("other.bin", b"other"),
        entry("data.bin", b"second"),
    ];
    let assets = collect_dir_contents(entries).expect("collection should succeed");
    assert_eq!(assets.assets.len(), 2);
    let data: Vec<&[u8]> = assets
        .assets
        .iter()
        .filter(|a| a.path == "data.bin")
        .map(|a| a.data.as_slice())
        .collect();
    assert_eq!(data, vec![b"second".as_slice()]);
}

#[test]
fn collect_keeps_duplicate_template_names_in_order() {
    let entries = vec![
        entry("a/report.typ", b"first body"),
        entry("b/report.typ", b"second body"),
    ];
    let assets = collect_dir_contents(entries).expect("collection should succeed");
    assert_eq!(assets.sources.len(), 2);
    assert_eq!(assets.sources[0].path, "a/report.typ");
    assert_eq!(assets.sources[1].path, "b/report.typ");
    assert_eq!(assets.sources[0].name, "report.typ");
    assert_eq!(assets.sources[1].name, "report.typ");
}
