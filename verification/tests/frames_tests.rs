//! Frame sets and the persisted format.

use it8951_video::frames::RawFrames;

#[test]
fn frameset_accessors() {
    let fs = RawFrames::new(1856, 1392, vec![vec![1, 2, 3], vec![4]]);
    assert_eq!(fs.width(), 1856);
    assert_eq!(fs.height(), 1392);
    assert_eq!(fs.len(), 2);
    assert_eq!(fs.get(0), Some(&vec![1, 2, 3]));
    assert_eq!(fs.get(1), Some(&vec![4]));
    assert_eq!(fs.get(2), None);
    assert_eq!(fs.iter().len(), 2);
}

#[test]
fn frameset_encoding_layout() {
    let fs = RawFrames::new(2, 3, vec![vec![0xaa, 0xbb], vec![]]);
    let bytes = fs.encode();
    let expected: Vec<u8> = vec![
        2, 0, 0, 0, // width, little-endian
        3, 0, 0, 0, // height
        2, 0, 0, 0, 0, 0, 0, 0, // frame count, 64-bit
        2, 0, 0, 0, 0, 0, 0, 0, // first frame length
        0xaa, 0xbb, // first frame
        0, 0, 0, 0, 0, 0, 0, 0, // second frame length
    ];
    assert_eq!(bytes, expected);
}

#[test]
fn frameset_round_trip() {
    let fs = RawFrames::new(1856, 1392, vec![vec![7u8; 16], vec![9u8; 3], vec![]]);
    let bytes = fs.encode();
    let back = RawFrames::decode(&bytes).expect("decode of encoding must succeed");
    assert_eq!(back, fs);
}

#[test]
fn frameset_round_trip_empty() {
    let fs = RawFrames::new(0, 0, vec![]);
    let bytes = fs.encode();
    assert_eq!(bytes.len(), 16);
    let back = RawFrames::decode(&bytes).expect("decode of encoding must succeed");
    assert_eq!(back, fs);
}

#[test]
fn frameset_decode_rejects_corruption() {
    let fs = RawFrames::new(8, 8, vec![vec![1u8; 8]]);
    let bytes = fs.encode();
    // Short header.
    assert!(RawFrames::decode(&bytes[..15]).is_err());
    // Truncated frame data.
    assert!(RawFrames::decode(&bytes[..bytes.len() - 1]).is_err());
    // Trailing garbage.
    let mut longer = bytes.clone();
    longer.push(0);
    assert!(RawFrames::decode(&longer).is_err());
    // A frame length overrunning the buffer.
    let mut lying = bytes.clone();
    lying[16] = 200;
    assert!(RawFrames::decode(&lying).is_err());
}

#[test]
fn matches_target_checks_every_frame() {
    // 16 x 4 pixels pack into 8 bytes per frame.
    let good = RawFrames::new(16, 4, vec![vec![0u8; 8], vec![1u8; 8]]);
    assert!(good.matches_target(16, 4));
    assert!(!good.matches_target(16, 8));
    assert!(!good.matches_target(8, 4));
    let wrong_len = RawFrames::new(16, 4, vec![vec![0u8; 8], vec![1u8; 7]]);
    assert!(!wrong_len.matches_target(16, 4));
    let empty = RawFrames::new(16, 4, vec![]);
    assert!(!empty.matches_target(16, 4));
}
