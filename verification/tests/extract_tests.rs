use std::io::Write;
use youwee::extract::{extract_bun_from_zip, extract_tar_gz, extract_tar_xz, extract_zip};

fn tar_bytes(files: &[(&str, &[u8])]) -> Vec<u8> {
    let mut b = tar::Builder::new(Vec::new());
    for (name, data) in files {
        let mut header = tar::Header::new_gnu();
        header.set_size(data.len() as u64);
        header.set_mode(0o755);
        header.set_cksum();
        b.append_data(&mut header, name, *data).unwrap();
    }
    b.into_inner().unwrap()
}

fn gz_bytes(raw: &[u8]) -> Vec<u8> {
    let mut enc = flate2::write::GzEncoder::new(Vec::new(), flate2::Compression::default());
    enc.write_all(raw).unwrap();
    enc.finish().unwrap()
}

fn xz_bytes(raw: &[u8]) -> Vec<u8> {
    let mut enc = xz2::write::XzEncoder::new(Vec::new(), 6);
    enc.write_all(raw).unwrap();
    enc.finish().unwrap()
}

fn zip_bytes(files: &[(&str, &[u8])]) -> Vec<u8> {
    let mut w = zip::ZipWriter::new(std::io::Cursor::new(Vec::new()));
    for (name, data) in files {
        w.start_file(*name, zip::write::SimpleFileOptions::default()).unwrap();
        w.write_all(data).unwrap();
    }
    w.finish().unwrap().into_inner()
}

#[test]
fn tar_gz_extracts_tool_and_companion() {
    let tar = tar_bytes(&[
        ("pkg/ffmpeg", b"FFBIN"),
        ("pkg/readme.txt", b"hello"),
        ("pkg/ffprobe", b"PROBE"),
    ]);
    let data = gz_bytes(&tar);
    let files = extract_tar_gz(&data, "ffmpeg").unwrap();
    assert_eq!(files.len(), 2);
    assert_eq!(files[0].name, "ffmpeg");
    assert_eq!(files[0].data, b"FFBIN");
    assert_eq!(files[1].name, "ffprobe");
    assert_eq!(files[1].data, b"PROBE");
}

#[test]
fn tar_gz_rejects_garbage() {
    assert!(extract_tar_gz(b"not a gzip stream", "ffmpeg").is_err());
}

#[test]
fn tar_xz_extracts_tool() {
    let tar = tar_bytes(&[("ffmpeg-static/ffmpeg", b"XZBIN")]);
    let data = xz_bytes(&tar);
    let files = extract_tar_xz(&data, "ffmpeg").unwrap();
    assert_eq!(files.len(), 1);
    assert_eq!(files[0].name, "ffmpeg");
    assert_eq!(files[0].data, b"XZBIN");
}

#[test]
fn tar_xz_rejects_garbage() {
    assert!(extract_tar_xz(b"definitely not xz", "ffmpeg").is_err());
}

#[test]
fn zip_extracts_by_suffix() {
    let data = zip_bytes(&[
        ("bundle/bin/ffmpeg", b"ZBIN"),
        ("bundle/doc/readme", b"R"),
        ("bundle/bin/ffprobe", b"ZPROBE"),
    ]);
    let files = extract_zip(&data, "ffmpeg").unwrap();
    assert_eq!(files.len(), 2);
    assert_eq!(files[0].name, "ffmpeg");
    assert_eq!(files[0].data, b"ZBIN");
    assert_eq!(files[1].name, "ffprobe");
    assert_eq!(files[1].data, b"ZPROBE");
}

#[test]
fn zip_rejects_garbage() {
    assert!(extract_zip(b"PKno", "ffmpeg").is_err());
}

#[test]
fn bun_zip_picks_the_binary_and_renames_it() {
    let data = zip_bytes(&[
        ("bun-linux-x64/README.md", b"doc"),
        ("bun-linux-x64/bun", b"BUNBIN"),
    ]);
    let files = extract_bun_from_zip(&data, "bun").unwrap();
    assert_eq!(files.len(), 1);
    assert_eq!(files[0].name, "bun");
    assert_eq!(files[0].data, b"BUNBIN");
}

#[test]
fn bun_zip_skips_debug_symbol_copies() {
    let data = zip_bytes(&[
        ("pkg/bun.dSYM/bun", b"SYMS"),
        ("pkg/bun", b"REALBIN"),
    ]);
    let files = extract_bun_from_zip(&data, "bun").unwrap();
    assert_eq!(files[0].data, b"REALBIN");
}

#[test]
fn bun_zip_without_binary_errors() {
    let data = zip_bytes(&[("pkg/README.md", b"doc")]);
    let err = extract_bun_from_zip(&data, "bun").unwrap_err();
    assert_eq!(err, "Bun binary not found in archive");
}
