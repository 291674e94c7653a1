//! Cursor cache and image pipeline: checksum, encoding, determinism and
//! least-recently-used eviction.

use vd_driver::cursor::{bgra_to_rgba, checksum, CursorCache};
use vd_driver::monitor::Monitor;

fn rgba_fill(w: u32, h: u32, pixel: [u8; 4]) -> Vec<u8> {
    let mut out = Vec::new();
    for _ in 0..(w * h) {
        out.extend_from_slice(&pixel);
    }
    out
}

#[test]
fn checksum_matches_the_reference_value() {
    // The classic CRC-32 (IEEE) check value.
    assert_eq!(checksum(b"123456789"), 0xCBF4_3926);
    assert_eq!(checksum(b""), 0);
}

#[test]
fn swizzle_exchanges_blue_and_red() {
    let mut px = vec![1, 2, 3, 4, 10, 20, 30, 40];
    bgra_to_rgba(&mut px);
    assert_eq!(px, vec![3, 2, 1, 4, 30, 20, 10, 40]);
}

#[test]
fn cache_returns_bit_identical_encoded_bytes() {
    let mut cache = CursorCache::new(4);
    let raw = rgba_fill(2, 2, [255, 0, 0, 255]);

    let first = cache.get_or_insert(42, 2, 2, raw.clone()).expect("encode");
    // The encoded form really is an encoding, not the raw bytes.
    assert_ne!(first.encoded, first.raw);
    assert_eq!(&first.encoded[0..4], &[0x89, b'P', b'N', b'G']);

    let second = cache.get_or_insert(42, 2, 2, raw.clone()).expect("hit");
    assert_eq!(first.encoded, second.encoded);
    assert_eq!(first.raw, second.raw);

    let third = cache.lookup(42).expect("still resident");
    assert_eq!(first.encoded, third.encoded);
}

#[test]
fn least_recently_used_entry_is_evicted() {
    let mut cache = CursorCache::new(2);
    let a = rgba_fill(1, 1, [1, 1, 1, 255]);
    let b = rgba_fill(1, 1, [2, 2, 2, 255]);
    let c = rgba_fill(1, 1, [3, 3, 3, 255]);

    cache.get_or_insert(1, 1, 1, a).expect("insert a");
    cache.get_or_insert(2, 1, 1, b).expect("insert b");
    // Touch 1 so that 2 becomes the least recently used.
    cache.lookup(1).expect("1 resident");
    cache.get_or_insert(3, 1, 1, c).expect("insert c evicting 2");

    assert!(cache.lookup(2).is_none()); // evicted: a miss
    assert!(cache.lookup(1).is_some());
    assert!(cache.lookup(3).is_some());
}

#[test]
fn cursor_image_publication_keys_by_content() {
    let mut m = Monitor::new(8, 60);
    // A 2x1 BGRA bitmap: blue-ish pixel then green-ish pixel.
    let bgra = vec![200, 10, 20, 255, 5, 250, 5, 255];
    m.set_cursor_image(2, 1, bgra.clone()).expect("encode");
    let v1 = m.cursor_image.version_word();
    let first = m.cursor_image.get().as_ref().expect("published").clone();
    assert_eq!(first.width, 2);
    assert_eq!(first.height, 1);
    // The stored raw pixels are the RGBA form.
    assert_eq!(first.raw, vec![20, 10, 200, 255, 5, 250, 5, 255]);
    assert_eq!(first.crc32, checksum(&[20, 10, 200, 255, 5, 250, 5, 255]));

    // The same bitmap again: published again (viewers may have joined),
    // with bit-identical bytes from the cache.
    m.set_cursor_image(2, 1, bgra).expect("hit");
    assert_eq!(m.cursor_image.version_word(), v1 + 1);
    let second = m.cursor_image.get().as_ref().expect("published").clone();
    assert_eq!(first.encoded, second.encoded);
    assert_eq!(first.crc32, second.crc32);
}

#[test]
fn cursor_position_cell_tracks_latest() {
    let mut m = Monitor::new(8, 60);
    m.set_cursor_position(10, -4, true);
    m.set_cursor_position(11, -5, false);
    let p = m.cursor_position.get().as_ref().expect("published");
    assert_eq!((p.x, p.y, p.visible), (11, -5, false));
    assert_eq!(m.cursor_position.version_word(), 2);
}
