use zipstream::transform_writer::TransformWriter;

fn run_through(data: &[u8], threshold: usize, block: usize, bypass: bool) -> Vec<u8> {
    let mut w = TransformWriter::new(threshold, block, bypass);
    let mut out = Vec::new();
    for piece in data.chunks(4096) {
        w.write(piece);
        if let Some(c) = w.dump(true) {
            out.extend_from_slice(&c);
        }
    }
    w.flush();
    if let Some(c) = w.dump(false) {
        out.extend_from_slice(&c);
    }
    out
}

fn transform_all(data: &[u8], block: usize) -> Vec<u8> {
    // A threshold larger than the data keeps everything in one chunk.
    run_through(data, usize::MAX, block, false)
}

#[test]
fn transform_is_bytewise_xor() {
    let data: Vec<u8> = (0..=255u8).collect();
    for block in [1usize, 2, 7, 256, 1000] {
        let out = transform_all(&data, block);
        let expected: Vec<u8> = data.iter().map(|b| b ^ 0xFF).collect();
        assert_eq!(out, expected, "block size {}", block);
    }
}

#[test]
fn transform_twice_is_identity_various_sizes() {
    let block = 1024 * 1024;
    for size in [0usize, 1, block - 1, block, block + 1, 3 * block + 17] {
        let data: Vec<u8> = (0..size).map(|i| (i * 31 % 256) as u8).collect();
        let once = transform_all(&data, block);
        assert_eq!(once.len(), data.len());
        let twice = transform_all(&once, block);
        assert_eq!(twice, data, "size {}", size);
    }
}

#[test]
fn transform_round_trip_with_different_block_sizes() {
    // Recovery does not need the original block size: the transform is
    // byte-wise.
    let data: Vec<u8> = (0..10_000usize).map(|i| (i % 256) as u8).collect();
    let once = transform_all(&data, 512);
    let twice = transform_all(&once, 4096);
    assert_eq!(twice, data);
}

#[test]
fn bypass_streams_unchanged() {
    let data: Vec<u8> = (0..5000usize).map(|i| (i % 256) as u8).collect();
    let out = run_through(&data, usize::MAX, 64, true);
    assert_eq!(out, data);
}

#[test]
fn dump_respects_threshold() {
    let mut w = TransformWriter::new(100, 8, true);
    w.write(&[1u8; 99]);
    assert!(w.dump(true).is_none()); // below threshold
    w.write(&[2u8; 1]);
    let chunk = w.dump(true).expect("threshold reached");
    assert_eq!(chunk.len(), 100);
    assert!(w.dump(true).is_none()); // buffer drained
    assert!(w.dump(false).is_none()); // nothing left at all
    w.write(&[3u8; 5]);
    assert!(w.dump(true).is_none()); // below threshold again
    let rest = w.dump(false).expect("unconditional dump");
    assert_eq!(rest, vec![3u8; 5]);
}

#[test]
fn partial_block_transformed_on_flush() {
    let mut w = TransformWriter::new(usize::MAX, 8, false);
    w.write(&[0x0F; 3]); // less than one block
    assert!(w.dump(false).is_none()); // still waiting in the transform block
    w.flush();
    let out = w.dump(false).unwrap();
    assert_eq!(out, vec![0xF0; 3]);
}

#[test]
fn blocks_move_as_they_fill() {
    let mut w = TransformWriter::new(usize::MAX, 4, false);
    w.write(&[0x00; 6]); // one full block moves, two bytes wait
    let first = w.dump(false).unwrap();
    assert_eq!(first, vec![0xFF; 4]);
    w.flush();
    let rest = w.dump(false).unwrap();
    assert_eq!(rest, vec![0xFF; 2]);
}
