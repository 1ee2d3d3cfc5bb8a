use std::io::Write;

use rathole_panel::installer::archive_file_name;
use rathole_panel::installer::download_url;
use rathole_panel::installer::plan_install;
use rathole_panel::installer::release_target;
use rathole_panel::installer::ExtractStep;
use rathole_panel::Platform;

fn sample_archive() -> Vec<u8> {
    let options = zip::write::SimpleFileOptions::default()
        .compression_method(zip::CompressionMethod::Stored);
    let mut writer = zip::ZipWriter::new(std::io::Cursor::new(Vec::new()));
    writer.start_file("rathole", options).unwrap();
    writer.write_all(b"fake binary bytes").unwrap();
    writer.add_directory("docs", options).unwrap();
    writer.start_file("docs/readme.txt", options).unwrap();
    writer.write_all(b"hello").unwrap();
    writer.finish().unwrap().into_inner()
}

#[test]
fn release_targets_cover_the_three_platforms() {
    assert_eq!(release_target(Platform::Linux), "x86_64-unknown-linux-gnu");
    assert_eq!(release_target(Platform::MacOs), "x86_64-apple-darwin");
    assert_eq!(release_target(Platform::Windows), "x86_64-pc-windows-msvc");
}

#[test]
fn download_url_is_built_from_version_and_target() {
    assert_eq!(
        download_url("v0.5.0", Platform::Linux),
        "https://github.com/rapiz1/rathole/releases/download/v0.5.0/rathole-x86_64-unknown-linux-gnu.zip"
    );
    assert_eq!(
        download_url("v0.4.8", Platform::Windows),
        "https://github.com/rapiz1/rathole/releases/download/v0.4.8/rathole-x86_64-pc-windows-msvc.zip"
    );
}

#[test]
fn archive_is_saved_under_a_fixed_name() {
    assert_eq!(archive_file_name(), "rathole.zip");
}

#[test]
fn planned_install_extracts_every_entry() {
    let archive = sample_archive();
    let (steps, exe) = plan_install("/data/app", Platform::Linux, &archive).unwrap();
    assert_eq!(exe, "/data/app/rathole");
    assert_eq!(steps.len(), 3);
    match &steps[0] {
        ExtractStep::WriteFile(path, bytes) => {
            assert_eq!(path, "/data/app/rathole");
            assert_eq!(bytes.as_slice(), b"fake binary bytes");
        }
        other => panic!("expected a file write, got {:?}", step_kind(other)),
    }
    match &steps[1] {
        ExtractStep::MakeDir(path) => assert_eq!(path, "/data/app/docs/"),
        other => panic!("expected a directory, got {:?}", step_kind(other)),
    }
    match &steps[2] {
        ExtractStep::WriteFile(path, bytes) => {
            assert_eq!(path, "/data/app/docs/readme.txt");
            assert_eq!(bytes.as_slice(), b"hello");
        }
        other => panic!("expected a file write, got {:?}", step_kind(other)),
    }
}

fn step_kind(step: &ExtractStep) -> &'static str {
    match step {
        ExtractStep::MakeDir(_) => "MakeDir",
        ExtractStep::WriteFile(_, _) => "WriteFile",
    }
}

#[test]
fn garbage_bytes_fail_to_plan() {
    let archive = vec![0u8, 1, 2, 3, 4, 5];
    assert!(plan_install("/data/app", Platform::Linux, &archive).is_err());
}
