use std::io::Write;

use plugin_registry::archive::{extract_bytes_from_tarball, extract_file_from_tarball};

fn make_tgz(entries: &[(&str, &[u8])]) -> Vec<u8> {
    let mut builder = tar::Builder::new(Vec::new());
    for (path, data) in entries {
        let mut header = tar::Header::new_gnu();
        header.set_size(data.len() as u64);
        header.set_mode(0o644);
        header.set_cksum();
        builder.append_data(&mut header, path, *data).expect("append");
    }
    let tar_bytes = builder.into_inner().expect("finish tar");
    let mut encoder = flate2::write::GzEncoder::new(Vec::new(), flate2::Compression::default());
    encoder.write_all(&tar_bytes).expect("compress");
    encoder.finish().expect("finish gzip")
}

#[test]
fn extraction_matches_the_exact_entry_path() {
    let tgz = make_tgz(&[
        ("package/a.txt", b"first"),
        ("package/b.txt", b"second"),
    ]);
    assert_eq!(extract_bytes_from_tarball(&tgz, "package/b.txt"), Some(b"second".to_vec()));
    assert_eq!(extract_file_from_tarball(&tgz, "package/a.txt"), Some("first".to_string()));
    assert_eq!(extract_bytes_from_tarball(&tgz, "package/c.txt"), None);
    assert_eq!(extract_bytes_from_tarball(&tgz, "a.txt"), None);
}

#[test]
fn corrupt_archives_read_as_absence() {
    assert_eq!(extract_bytes_from_tarball(b"not an archive", "package/a.txt"), None);
    assert_eq!(extract_file_from_tarball(&[], "package/a.txt"), None);
}

#[test]
fn text_extraction_requires_valid_utf8() {
    let tgz = make_tgz(&[("package/raw.bin", &[0xff, 0xfe, 0x00][..])]);
    assert_eq!(extract_file_from_tarball(&tgz, "package/raw.bin"), None);
    assert_eq!(
        extract_bytes_from_tarball(&tgz, "package/raw.bin"),
        Some(vec![0xff, 0xfe, 0x00])
    );
}

#[test]
fn clock_reads_a_nonzero_instant() {
    assert!(plugin_registry::clock::now_ms() > 0);
}
