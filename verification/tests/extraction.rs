use vba_extract::container::{Container, ExtractOutcome};
use vba_extract::{macro_entry_name, signature_entry_name};

fn build_container(entries: &[(&str, &[u8])]) -> Vec<u8> {
    let mut writer = zip::ZipWriter::new(std::io::Cursor::new(Vec::new()));
    for (name, data) in entries {
        writer
            .start_file(*name, zip::write::SimpleFileOptions::default())
            .unwrap();
        std::io::Write::write_all(&mut writer, data).unwrap();
    }
    writer.finish().unwrap().into_inner()
}

fn extracted_bytes(outcome: ExtractOutcome) -> Vec<u8> {
    match outcome {
        ExtractOutcome::Extracted(bytes) => bytes,
        _ => panic!("expected an extracted entry"),
    }
}

#[test]
fn both_entries_round_trip() {
    let data = build_container(&[
        ("xl/vbaProject.bin", b"MACROBYTES"),
        ("xl/vbaProjectSignature.bin", b"SIGBYTES"),
    ]);
    let mut container = Container::open(data).unwrap();
    let macro_out = container.extract(macro_entry_name(), true);
    assert_eq!(extracted_bytes(macro_out), b"MACROBYTES".to_vec());
    let sig_out = container.extract(signature_entry_name(), false);
    assert_eq!(extracted_bytes(sig_out), b"SIGBYTES".to_vec());
}

#[test]
fn missing_signature_is_silent_skip() {
    let data = build_container(&[("xl/vbaProject.bin", b"MACROBYTES")]);
    let mut container = Container::open(data).unwrap();
    let macro_out = container.extract(macro_entry_name(), true);
    assert_eq!(extracted_bytes(macro_out), b"MACROBYTES".to_vec());
    let sig_out = container.extract(signature_entry_name(), false);
    assert!(matches!(sig_out, ExtractOutcome::MissingOptional));
}

#[test]
fn missing_macro_entry_is_warned() {
    let data = build_container(&[("xl/workbook.xml", b"<workbook/>")]);
    let mut container = Container::open(data).unwrap();
    let macro_out = container.extract(macro_entry_name(), true);
    assert!(matches!(macro_out, ExtractOutcome::MissingRequired));
}

#[test]
fn non_zip_bytes_are_rejected() {
    let result = Container::open(b"these bytes are in no way a zip container".to_vec());
    assert!(result.is_err());
}

#[test]
fn empty_input_is_rejected() {
    let result = Container::open(Vec::new());
    assert!(result.is_err());
}

#[test]
fn empty_container_opens_and_lacks_entries() {
    let data = build_container(&[]);
    let mut container = Container::open(data).unwrap();
    let macro_out = container.extract(macro_entry_name(), true);
    assert!(matches!(macro_out, ExtractOutcome::MissingRequired));
    let sig_out = container.extract(signature_entry_name(), false);
    assert!(matches!(sig_out, ExtractOutcome::MissingOptional));
}

#[test]
fn lookup_is_case_sensitive() {
    let data = build_container(&[("XL/VBAPROJECT.BIN", b"MACROBYTES")]);
    let mut container = Container::open(data).unwrap();
    let macro_out = container.extract(macro_entry_name(), true);
    assert!(matches!(macro_out, ExtractOutcome::MissingRequired));
}

#[test]
fn lookups_are_repeatable_and_order_insensitive() {
    let data = build_container(&[
        ("xl/vbaProject.bin", b"MACROBYTES"),
        ("xl/vbaProjectSignature.bin", b"SIGBYTES"),
    ]);
    let mut container = Container::open(data).unwrap();
    let first_sig = container.extract(signature_entry_name(), false);
    let first_macro = container.extract(macro_entry_name(), true);
    let second_macro = container.extract(macro_entry_name(), true);
    assert_eq!(extracted_bytes(first_sig), b"SIGBYTES".to_vec());
    assert_eq!(extracted_bytes(first_macro), b"MACROBYTES".to_vec());
    assert_eq!(extracted_bytes(second_macro), b"MACROBYTES".to_vec());
}

#[test]
fn large_entry_round_trips() {
    let payload: Vec<u8> = (0..100_000u32).map(|i| (i % 251) as u8).collect();
    let data = build_container(&[("xl/vbaProject.bin", payload.as_slice())]);
    let mut container = Container::open(data).unwrap();
    let macro_out = container.extract(macro_entry_name(), true);
    assert_eq!(extracted_bytes(macro_out), payload);
}

#[test]
fn corrupt_entry_fails_that_extraction_alone() {
    let mut writer = zip::ZipWriter::new(std::io::Cursor::new(Vec::new()));
    let stored = zip::write::SimpleFileOptions::default()
        .compression_method(zip::CompressionMethod::Stored);
    writer.start_file("xl/vbaProject.bin", stored).unwrap();
    std::io::Write::write_all(&mut writer, b"MACROBYTES").unwrap();
    writer
        .start_file("xl/vbaProjectSignature.bin", stored)
        .unwrap();
    std::io::Write::write_all(&mut writer, b"SIGBYTES").unwrap();
    let mut data = writer.finish().unwrap().into_inner();
    // Flip one byte of the stored macro payload so its checksum no longer
    // matches; the container still parses from its central directory.
    let position = data
        .windows(b"MACROBYTES".len())
        .position(|window| window == b"MACROBYTES")
        .unwrap();
    data[position] ^= 0xFF;
    let mut container = Container::open(data).unwrap();
    let macro_out = container.extract(macro_entry_name(), true);
    assert!(matches!(macro_out, ExtractOutcome::ReadFailed(_)));
    let sig_out = container.extract(signature_entry_name(), false);
    assert_eq!(extracted_bytes(sig_out), b"SIGBYTES".to_vec());
}

#[test]
fn entry_names_are_the_fixed_paths() {
    assert_eq!(macro_entry_name(), "xl/vbaProject.bin");
    assert_eq!(signature_entry_name(), "xl/vbaProjectSignature.bin");
}
