use refreshers::archive::{parse_zip, stage_message, Stage};
use std::io::{Cursor, Write};
use zip::write::FileOptions;
use zip::{CompressionMethod, ZipWriter};

fn archive_of(entries: &[(&str, &[u8])], method: CompressionMethod) -> Vec<u8> {
    let mut writer = ZipWriter::new(Cursor::new(Vec::new()));
    for (name, data) in entries {
        writer.start_file(*name, FileOptions::default().compression_method(method)).unwrap();
        writer.write_all(data).unwrap();
    }
    writer.finish().unwrap().into_inner()
}

fn position_of(haystack: &[u8], needle: &[u8]) -> usize {
    haystack.windows(needle.len()).position(|w| w == needle).unwrap()
}

#[test]
fn parse_zip_returns_first_entry() {
    let bytes = archive_of(&[("a.txt", b"first"), ("b.txt", b"second")], CompressionMethod::Stored);
    assert_eq!(parse_zip(bytes), Ok(b"first".to_vec()));
}

#[test]
fn parse_zip_unpacks_deflated_entry() {
    let data = b"aaaaaaaaaaaaaaaaaaaaaaaaaaaaaaaaaaaaaaaaaaaaaaaaaaaaaaaaaaaaaaaaaaaaaaaa";
    let bytes = archive_of(&[("a.txt", data)], CompressionMethod::Deflated);
    assert!(bytes.len() < data.len() + 100);
    assert_eq!(parse_zip(bytes), Ok(data.to_vec()));
}

#[test]
fn parse_zip_of_empty_entry() {
    let bytes = archive_of(&[("empty", b"")], CompressionMethod::Stored);
    assert_eq!(parse_zip(bytes), Ok(Vec::new()));
}

#[test]
fn parse_zip_refuses_archive_without_entries() {
    let bytes = archive_of(&[], CompressionMethod::Stored);
    assert_eq!(parse_zip(bytes), Err("Zip archive is empty".to_string()));
}

#[test]
fn parse_zip_refuses_bytes_that_are_no_archive() {
    for bytes in [Vec::new(), b"not a zip file at all".to_vec()] {
        match parse_zip(bytes) {
            Err(message) => {
                assert!(message.starts_with("Invalid ZIP archive: "));
                assert!(message.len() > "Invalid ZIP archive: ".len());
            }
            Ok(_) => panic!("these bytes hold no archive"),
        }
    }
}

#[test]
fn parse_zip_reports_entry_that_cannot_be_opened() {
    let mut bytes = archive_of(&[("a.txt", b"secret")], CompressionMethod::Stored);
    let central = position_of(&bytes, &[0x50, 0x4b, 0x01, 0x02]);
    bytes[central + 8] |= 1;
    assert_eq!(
        parse_zip(bytes),
        Err("Failed to read first file in ZIP: unsupported Zip archive: Password required to \
             decrypt file"
            .to_string())
    );
}

#[test]
fn parse_zip_reports_aes_entry_that_is_not_marked_encrypted() {
    let mut writer = ZipWriter::new(Cursor::new(Vec::new()));
    let options = FileOptions::default().compression_method(CompressionMethod::Stored);
    writer.start_file_with_extra_data("a.txt", options).unwrap();
    writer.write_all(&[0xfe, 0xca, 0x07, 0x00, 0x02, 0x00, 0x41, 0x45, 0x01, 0x00, 0x00]).unwrap();
    writer.end_extra_data().unwrap();
    writer.write_all(b"payload").unwrap();
    let mut bytes = writer.finish().unwrap().into_inner();
    let mut patched = 0;
    for at in 0..bytes.len() - 3 {
        if bytes[at..at + 4] == [0xfe, 0xca, 0x07, 0x00] {
            bytes[at] = 0x01;
            bytes[at + 1] = 0x99;
            patched += 1;
        }
    }
    assert_eq!(patched, 2);
    assert_eq!(
        parse_zip(bytes),
        Err("Failed to read first file in ZIP: unsupported Zip archive: Password required to \
             decrypt file"
            .to_string())
    );
}

#[test]
fn parse_zip_reports_damaged_contents() {
    let mut bytes = archive_of(&[("a.txt", b"payload-payload")], CompressionMethod::Stored);
    let at = position_of(&bytes, b"payload-payload");
    bytes[at] ^= 0xff;
    match parse_zip(bytes) {
        Err(message) => assert!(message.starts_with("Failed to read zipped file contents: ")),
        Ok(_) => panic!("the checksum no longer matches"),
    }
}

#[test]
fn stage_messages() {
    assert_eq!(stage_message(Stage::Open, "bad magic"), "Invalid ZIP archive: bad magic");
    assert_eq!(stage_message(Stage::Empty, "ignored"), "Zip archive is empty");
    assert_eq!(
        stage_message(Stage::Entry, "not found"),
        "Failed to read first file in ZIP: not found"
    );
    assert_eq!(
        stage_message(Stage::Contents, ""),
        "Failed to read zipped file contents: "
    );
}
