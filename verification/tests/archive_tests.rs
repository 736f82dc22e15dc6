use std::io::Read;

use zipstream::archive::{write_archive, ArchiveWriter, MemEntry};
use zipstream::header::FileHeader;
use zipstream::wasm_error::{CODE_FILE_NAME_TOO_LONG, CODE_INVALID_COMPRESSION_LEVEL};

fn le16(b: &[u8], pos: usize) -> u16 {
    u16::from_le_bytes([b[pos], b[pos + 1]])
}

fn le32(b: &[u8], pos: usize) -> u32 {
    u32::from_le_bytes([b[pos], b[pos + 1], b[pos + 2], b[pos + 3]])
}

fn le64(b: &[u8], pos: usize) -> u64 {
    u64::from_le_bytes([
        b[pos],
        b[pos + 1],
        b[pos + 2],
        b[pos + 3],
        b[pos + 4],
        b[pos + 5],
        b[pos + 6],
        b[pos + 7],
    ])
}

fn build(entries: Vec<(&str, bool, Vec<u8>)>, level: u32) -> Vec<u8> {
    let list: Vec<MemEntry> = entries
        .into_iter()
        .map(|(path, is_dir, data)| MemEntry { path: path.to_string(), is_dir, data })
        .collect();
    write_archive(&list, level, false, 64 * 1024, 1024 * 1024).unwrap()
}

fn inflate(data: &[u8]) -> Vec<u8> {
    let mut out = Vec::new();
    flate2::read::DeflateDecoder::new(data).read_to_end(&mut out).unwrap();
    out
}

#[test]
fn empty_file_layout() {
    // One zero-byte file at /a.bin, level 6.
    let archive = build(vec![("/a.bin", false, Vec::new())], 6);

    // Local file header.
    assert_eq!(le32(&archive, 0), 0x04034b50);
    assert_eq!(le16(&archive, 4), 45); // version needed
    assert_eq!(le16(&archive, 6), 0x0808); // general purpose flag
    assert_eq!(le16(&archive, 8), 8); // method: deflate
    assert_eq!(le16(&archive, 10), 0); // mod time
    assert_eq!(le16(&archive, 12), 0); // mod date
    assert_eq!(le32(&archive, 14), 0); // crc in LFH
    assert_eq!(le32(&archive, 18), 0xFFFFFFFF); // compressed size sentinel
    assert_eq!(le32(&archive, 22), 0xFFFFFFFF); // uncompressed size sentinel
    assert_eq!(le16(&archive, 26), 5); // name length
    assert_eq!(le16(&archive, 28), 20); // extra field length
    assert_eq!(&archive[30..35], b"a.bin");
    assert_eq!(le16(&archive, 35), 0x0001); // zip64 extra tag
    assert_eq!(le16(&archive, 37), 16); // extra body size
    assert_eq!(&archive[39..55], &[0u8; 16]); // placeholder sizes

    // Payload: the DEFLATE stream of empty input is the two-byte final block.
    assert_eq!(&archive[55..57], &[0x03, 0x00]);

    // Data descriptor.
    assert_eq!(le32(&archive, 57), 0x08074b50);
    assert_eq!(le32(&archive, 61), 0); // crc of empty input
    assert_eq!(le64(&archive, 65), 2); // compressed size
    assert_eq!(le64(&archive, 73), 0); // uncompressed size

    // Trailer ends with the end of central directory record.
    let e = archive.len() - 22;
    assert_eq!(le32(&archive, e), 0x06054b50);
    assert_eq!(le16(&archive, e + 4), 0xFFFF);
    assert_eq!(le16(&archive, e + 6), 0xFFFF);
    assert_eq!(le16(&archive, e + 8), 0xFFFF);
    assert_eq!(le16(&archive, e + 10), 0xFFFF);
    assert_eq!(le32(&archive, e + 12), 0xFFFFFFFF);
    assert_eq!(le32(&archive, e + 16), 0xFFFFFFFF);
    assert_eq!(le16(&archive, e + 20), 0);
}

#[test]
fn small_file_level_zero() {
    // /h.txt containing "hello", level 0: a single stored DEFLATE block.
    let archive = build(vec![("/h.txt", false, b"hello".to_vec())], 0);

    // LFH is 30 + 5 + 20 = 55 bytes; the data descriptor signature marks the
    // payload's end.
    let dd = archive
        .windows(4)
        .enumerate()
        .find(|(i, w)| *i >= 55 && w == &[0x50, 0x4b, 0x07, 0x08])
        .unwrap()
        .0;
    let payload = &archive[55..dd];
    assert_eq!(inflate(payload), b"hello");
    // Stored-block framing: block header, 16-bit length, its complement,
    // then the five raw bytes.
    assert_eq!(&payload[3..5], &[0xfa, 0xff]);
    assert_eq!(&payload[payload.len() - 5..], b"hello");

    // Data descriptor: the recorded sizes match the payload exactly.
    assert_eq!(le32(&archive, dd + 4), 0x3610a686); // CRC-32 of "hello"
    assert_eq!(le64(&archive, dd + 8), payload.len() as u64); // compressed size
    assert_eq!(le64(&archive, dd + 16), 5); // uncompressed size
}

#[test]
fn directory_only() {
    // A single empty directory /d; its name gets a trailing slash.
    let archive = build(vec![("/d", true, Vec::new())], 6);

    // LFH (directory form): 30 + 2 bytes, no extra field, method 0.
    assert_eq!(le32(&archive, 0), 0x04034b50);
    assert_eq!(le16(&archive, 4), 45);
    assert_eq!(le16(&archive, 6), 0x0800); // UTF-8 only
    assert_eq!(le16(&archive, 8), 0); // method: store
    assert_eq!(le32(&archive, 14), 0); // crc
    assert_eq!(le32(&archive, 18), 0); // compressed size: literal zero
    assert_eq!(le32(&archive, 22), 0); // uncompressed size: literal zero
    assert_eq!(le16(&archive, 26), 2);
    assert_eq!(le16(&archive, 28), 0); // no extra field
    assert_eq!(&archive[30..32], b"d/");

    // CDH (directory form) follows immediately: no payload, no descriptor.
    let c = 32;
    assert_eq!(le32(&archive, c), 0x02014b50);
    assert_eq!(le16(&archive, c + 4), 63); // version made by
    assert_eq!(le16(&archive, c + 6), 45);
    assert_eq!(le16(&archive, c + 8), 0x0800);
    assert_eq!(le16(&archive, c + 10), 0); // method
    assert_eq!(le32(&archive, c + 16), 0); // crc
    assert_eq!(le32(&archive, c + 20), 0); // compressed size
    assert_eq!(le32(&archive, c + 24), 0); // uncompressed size
    assert_eq!(le16(&archive, c + 28), 2); // name length
    assert_eq!(le16(&archive, c + 30), 16); // extra field length
    assert_eq!(le16(&archive, c + 32), 0); // comment length
    assert_eq!(le16(&archive, c + 34), 0xFFFF); // disk number sentinel
    assert_eq!(le32(&archive, c + 42), 0xFFFFFFFF); // offset sentinel
    assert_eq!(&archive[c + 46..c + 48], b"d/");
    assert_eq!(le16(&archive, c + 48), 0x0001); // zip64 extra tag
    assert_eq!(le16(&archive, c + 50), 12); // extra body size
    assert_eq!(le64(&archive, c + 52), 0); // local header offset
    assert_eq!(le32(&archive, c + 60), 0); // disk number

    // ZIP64 EOCDR: exactly one entry.
    let z = c + 64;
    assert_eq!(le32(&archive, z), 0x06064b50);
    assert_eq!(le64(&archive, z + 4), 44);
    assert_eq!(le16(&archive, z + 12), 63);
    assert_eq!(le16(&archive, z + 14), 45);
    assert_eq!(le64(&archive, z + 24), 1); // entries on this disk
    assert_eq!(le64(&archive, z + 32), 1); // entries in total
    assert_eq!(le64(&archive, z + 40), 64); // central directory size
    assert_eq!(le64(&archive, z + 48), 32); // central directory offset

    // ZIP64 EOCDL points back at the ZIP64 EOCDR.
    let l = z + 56;
    assert_eq!(le32(&archive, l), 0x07064b50);
    assert_eq!(le32(&archive, l + 4), 0);
    assert_eq!(le64(&archive, l + 8), z as u64);
    assert_eq!(le32(&archive, l + 16), 1); // total disks

    // EOCDR closes the archive.
    assert_eq!(le32(&archive, l + 20), 0x06054b50);
    assert_eq!(archive.len(), l + 42);
}

#[test]
fn three_entries_offsets_in_order() {
    let archive = build(
        vec![
            ("/d", true, Vec::new()),
            ("/d/f1", false, vec![0x41; 100]),
            ("/f2", false, vec![0x42; 200]),
        ],
        6,
    );

    // Locate the central directory via the ZIP64 EOCDR (56 + 20 + 22 bytes
    // from the end).
    let z = archive.len() - 98;
    assert_eq!(le32(&archive, z), 0x06064b50);
    assert_eq!(le64(&archive, z + 24), 3);
    let cd_size = le64(&archive, z + 40) as usize;
    let cd_start = le64(&archive, z + 48) as usize;
    assert_eq!(cd_start + cd_size, z);

    // Walk the three central directory headers in order.
    let mut pos = cd_start;
    let mut names: Vec<Vec<u8>> = Vec::new();
    let mut offsets: Vec<u64> = Vec::new();
    for _ in 0..3 {
        assert_eq!(le32(&archive, pos), 0x02014b50);
        let name_len = le16(&archive, pos + 28) as usize;
        let extra_len = le16(&archive, pos + 30) as usize;
        let name = archive[pos + 46..pos + 46 + name_len].to_vec();
        let extra = &archive[pos + 46 + name_len..pos + 46 + name_len + extra_len];
        assert_eq!(u16::from_le_bytes([extra[0], extra[1]]), 0x0001);
        // The local header offset is the last 12..4 bytes of the extra field
        // body for files (28-byte body) and bytes 4..12 for directories
        // (12-byte body).
        let lfh_offset = if extra_len == 32 {
            le64(extra, 20)
        } else {
            assert_eq!(extra_len, 16);
            le64(extra, 4)
        };
        names.push(name);
        offsets.push(lfh_offset);
        pos += 46 + name_len + extra_len;
    }
    assert_eq!(pos, cd_start + cd_size);
    assert_eq!(names, vec![b"d/".to_vec(), b"d/f1".to_vec(), b"f2".to_vec()]);

    // Offsets are cumulative and each points at a local file header.
    assert_eq!(offsets[0], 0);
    assert_eq!(offsets[1], 32); // after the directory LFH
    assert!(offsets[1] < offsets[2]);
    for &o in &offsets {
        assert_eq!(le32(&archive, o as usize), 0x04034b50);
    }

    // The two payloads decompress to the original bytes.
    let lfh1_end = offsets[1] as usize + 30 + 4 + 20;
    let dd1 = archive
        .windows(4)
        .enumerate()
        .find(|(i, w)| *i >= lfh1_end && w == &[0x50, 0x4b, 0x07, 0x08])
        .unwrap()
        .0;
    assert_eq!(inflate(&archive[lfh1_end..dd1]), vec![0x41; 100]);
    let lfh2_end = offsets[2] as usize + 30 + 2 + 20;
    let dd2 = archive
        .windows(4)
        .enumerate()
        .find(|(i, w)| *i >= lfh2_end && w == &[0x50, 0x4b, 0x07, 0x08])
        .unwrap()
        .0;
    assert_eq!(inflate(&archive[lfh2_end..dd2]), vec![0x42; 200]);
}

#[test]
fn chunking_does_not_change_the_archive() {
    // Driving the writer with eager dumps and a tiny threshold yields the
    // same bytes as the one-shot builder.
    let data1: Vec<u8> = (0..100_000u32).map(|i| (i % 251) as u8).collect();
    let data2: Vec<u8> = vec![7; 5000];
    let reference = build(
        vec![("/x/a", false, data1.clone()), ("/x", true, Vec::new()), ("/b", false, data2.clone())],
        6,
    );

    let mut w = ArchiveWriter::new(6, false, 512, 1024 * 1024).unwrap();
    let mut out: Vec<u8> = Vec::new();
    let mut pump = |chunk: Option<Vec<u8>>, out: &mut Vec<u8>| {
        if let Some(c) = chunk {
            out.extend_from_slice(&c);
        }
    };
    w.begin_entry("/x/a", false).unwrap();
    for piece in data1.chunks(777) {
        w.write_chunk(piece).unwrap();
        let c = w.dump(true);
        pump(c, &mut out);
    }
    w.finish_entry().unwrap();
    pump(w.dump(true), &mut out);
    w.begin_entry("/x", true).unwrap();
    pump(w.dump(true), &mut out);
    w.begin_entry("/b", false).unwrap();
    w.write_chunk(&data2).unwrap();
    w.finish_entry().unwrap();
    pump(w.dump(true), &mut out);
    w.finish_archive().unwrap();
    pump(w.dump(false), &mut out);

    assert_eq!(out, reference);
}

#[test]
fn large_sizes_use_zip64_extra_only() {
    // A central directory header keeps the 32-bit sentinels even when the
    // true sizes exceed the 32-bit range; the real values live in the ZIP64
    // extra field.
    let big = (1u64 << 32) + 5;
    let mut h = FileHeader::new(b"big.bin".to_vec(), 77, false);
    h.set_crc_32(0xDEADBEEF);
    h.set_compressed_size_u64(big);
    h.set_uncompressed_size_u64(big + 1);
    let mut cdh: Vec<u8> = Vec::new();
    h.write_into_as_cdh(&mut cdh);
    assert_eq!(le32(&cdh, 16), 0xDEADBEEF);
    assert_eq!(le32(&cdh, 20), 0xFFFFFFFF); // compressed size sentinel stays
    assert_eq!(le32(&cdh, 24), 0xFFFFFFFF); // uncompressed size sentinel stays
    let name_len = le16(&cdh, 28) as usize;
    assert_eq!(name_len, 7);
    let extra = &cdh[46 + name_len..];
    assert_eq!(extra.len(), 32);
    assert_eq!(le64(extra, 4), big + 1); // true uncompressed size
    assert_eq!(le64(extra, 12), big); // true compressed size
    assert_eq!(le64(extra, 20), 77); // local header offset
}

#[test]
fn eocdr_always_holds_sentinels() {
    // The legacy record never carries a real offset; readers must go through
    // the ZIP64 records.
    let archive = build(vec![("/f", false, vec![1, 2, 3])], 1);
    let e = archive.len() - 22;
    assert_eq!(le32(&archive, e + 16), 0xFFFFFFFF); // offset of CD: sentinel
    let z = archive.len() - 98;
    let body_len = le64(&archive, z + 48); // the real offset
    assert_eq!(le32(&archive, body_len as usize), 0x02014b50); // points at the CD
}

#[test]
fn many_entries_real_count_in_zip64() {
    // More entries than the 16-bit count can hold: the EOCDR keeps 0xFFFF
    // and the ZIP64 EOCDR carries the real count.
    let n = 70_000usize;
    let mut list: Vec<MemEntry> = Vec::with_capacity(n);
    for i in 0..n {
        list.push(MemEntry { path: format!("/d{:05}", i), is_dir: true, data: Vec::new() });
    }
    let archive = write_archive(&list, 0, false, 16 * 1024 * 1024, 1024 * 1024).unwrap();
    let e = archive.len() - 22;
    assert_eq!(le16(&archive, e + 8), 0xFFFF);
    assert_eq!(le16(&archive, e + 10), 0xFFFF);
    let z = archive.len() - 98;
    assert_eq!(le64(&archive, z + 24), n as u64);
    assert_eq!(le64(&archive, z + 32), n as u64);
}

#[test]
fn name_length_boundary() {
    // 65535 bytes: accepted; 65536: rejected before anything is written.
    let ok_path = format!("/{}", "a".repeat(65535));
    let archive = build(vec![(ok_path.as_str(), false, Vec::new())], 0);
    assert_eq!(le16(&archive, 26), 65535);

    let long_path = format!("/{}", "a".repeat(65536));
    let list = vec![MemEntry { path: long_path, is_dir: false, data: Vec::new() }];
    let err = write_archive(&list, 0, false, 64 * 1024, 1024 * 1024).unwrap_err();
    assert_eq!(err.code, CODE_FILE_NAME_TOO_LONG);
}

#[test]
fn leading_slashes_stripped_and_dir_slash_appended() {
    let archive = build(vec![("//deep/path.txt", false, b"x".to_vec())], 0);
    let name_len = le16(&archive, 26) as usize;
    assert_eq!(&archive[30..30 + name_len], b"deep/path.txt");

    let archive = build(vec![("/already/", true, Vec::new())], 0);
    let name_len = le16(&archive, 26) as usize;
    assert_eq!(&archive[30..30 + name_len], b"already//");
}

#[test]
fn invalid_level_rejected() {
    let list = vec![MemEntry { path: "/a".to_string(), is_dir: false, data: Vec::new() }];
    let err = write_archive(&list, 10, false, 64 * 1024, 1024 * 1024).unwrap_err();
    assert_eq!(err.code, CODE_INVALID_COMPRESSION_LEVEL);
    assert_eq!(err.arg1, "10");
    assert!(ArchiveWriter::new(10, false, 64 * 1024, 1024 * 1024).is_err());
}

#[test]
fn transformed_archive_is_the_xored_image() {
    let entries = vec![("/t.bin", false, vec![9u8; 1000])];
    let list: Vec<MemEntry> = entries
        .iter()
        .map(|(p, d, data)| MemEntry { path: p.to_string(), is_dir: *d, data: data.clone() })
        .collect();
    let plain = write_archive(&list, 6, false, 64 * 1024, 4096).unwrap();
    let transformed = write_archive(&list, 6, true, 64 * 1024, 4096).unwrap();
    assert_eq!(plain.len(), transformed.len());
    let recovered: Vec<u8> = transformed.iter().map(|b| b ^ 0xFF).collect();
    assert_eq!(recovered, plain);
}

#[test]
fn empty_entry_list_yields_bare_trailer() {
    // The writer itself accepts an empty list (the scan-stage validation is
    // what rejects it for the compress operation): the archive is just the
    // trailer with zero entries.
    let archive = build(Vec::new(), 6);
    assert_eq!(archive.len(), 98);
    assert_eq!(le32(&archive, 0), 0x06064b50);
    assert_eq!(le64(&archive, 24), 0); // no entries
    assert_eq!(le64(&archive, 40), 0); // empty central directory
    assert_eq!(le64(&archive, 48), 0); // at offset zero
    assert_eq!(le32(&archive, 56), 0x07064b50);
    assert_eq!(le64(&archive, 64), 0); // the ZIP64 EOCDR is the first byte
    assert_eq!(le32(&archive, 76), 0x06054b50);
}
