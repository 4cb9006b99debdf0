use gpu_cycle::readback::{inspect, stamp, Readback, ReadbackError, MARKER_LEN, PREVIEW_LEN};
use gpu_cycle::workgroups::BUFFER_SIZE;

fn fresh_buffer() -> Vec<u8> {
    let mut contents = vec![0u8; BUFFER_SIZE as usize];
    stamp(&mut contents);
    contents
}

#[test]
fn marker_and_preview_lengths() {
    assert_eq!(MARKER_LEN, 3);
    assert_eq!(PREVIEW_LEN, 10);
}

#[test]
fn stamp_writes_the_marker_and_nothing_else() {
    let mut contents: Vec<u8> = (0u8..16).collect();
    stamp(&mut contents);
    assert_eq!(
        contents,
        vec![0xff, 0xfe, 0xfd, 3, 4, 5, 6, 7, 8, 9, 10, 11, 12, 13, 14, 15]
    );
}

#[test]
fn stamp_fills_a_buffer_of_marker_length() {
    let mut contents = vec![7u8, 7, 7];
    stamp(&mut contents);
    assert_eq!(contents, vec![0xff, 0xfe, 0xfd]);
}

#[test]
fn readback_of_the_whole_buffer_is_accepted() {
    let data = fresh_buffer();
    let report = inspect(&data, BUFFER_SIZE).unwrap();
    assert_eq!(report.len, 640);
    assert_eq!(report.head.len(), 10);
}

#[test]
fn untouched_readback_shows_the_marker() {
    let data = fresh_buffer();
    let report = inspect(&data, BUFFER_SIZE).unwrap();
    assert!(report.marker_intact);
    assert_eq!(&report.head[..3], &[0xff, 0xfe, 0xfd]);
    assert_eq!(report.head, vec![0xff, 0xfe, 0xfd, 0, 0, 0, 0, 0, 0, 0]);
}

#[test]
fn written_readback_shows_what_the_kernel_wrote() {
    // A kernel that stores its invocation index in each 32-bit word of the
    // buffer writes over the marker.
    let mut data = fresh_buffer();
    for word in 0..(BUFFER_SIZE as usize / 4) {
        data[4 * word..4 * word + 4].copy_from_slice(&(word as u32).to_le_bytes());
    }
    let report = inspect(&data, BUFFER_SIZE).unwrap();
    assert!(!report.marker_intact);
    assert_eq!(&report.head[..3], &[0, 0, 0]);
    assert_eq!(report.head, vec![0, 0, 0, 0, 1, 0, 0, 0, 2, 0]);
    assert_eq!(report.len, 640);
}

#[test]
fn marker_with_one_byte_changed_is_not_intact() {
    for at in 0..3 {
        let mut data = fresh_buffer();
        data[at] = 0;
        assert!(!inspect(&data, BUFFER_SIZE).unwrap().marker_intact);
    }
    let mut data = fresh_buffer();
    data[3] = 9;
    assert!(inspect(&data, BUFFER_SIZE).unwrap().marker_intact);
}

#[test]
fn short_readback_is_refused() {
    let data = vec![0u8; 639];
    assert_eq!(
        inspect(&data, BUFFER_SIZE),
        Err(ReadbackError::WrongLength { expected: 640, actual: 639 })
    );
}

#[test]
fn long_readback_is_refused() {
    let data = vec![0u8; 641];
    assert_eq!(
        inspect(&data, BUFFER_SIZE),
        Err(ReadbackError::WrongLength { expected: 640, actual: 641 })
    );
}

#[test]
fn empty_readback_is_refused_unless_expected() {
    let data: Vec<u8> = Vec::new();
    assert_eq!(
        inspect(&data, BUFFER_SIZE),
        Err(ReadbackError::WrongLength { expected: 640, actual: 0 })
    );
    assert_eq!(
        inspect(&data, 0),
        Ok(Readback { len: 0, head: Vec::new(), marker_intact: false })
    );
}

#[test]
fn preview_of_a_small_readback_is_all_of_it() {
    let data = vec![0xff, 0xfe, 0xfd, 4, 5];
    assert_eq!(
        inspect(&data, 5),
        Ok(Readback { len: 5, head: vec![0xff, 0xfe, 0xfd, 4, 5], marker_intact: true })
    );
    let data = vec![0xff, 0xfe];
    assert_eq!(
        inspect(&data, 2),
        Ok(Readback { len: 2, head: vec![0xff, 0xfe], marker_intact: false })
    );
}

#[test]
fn preview_stops_at_ten_bytes() {
    let data: Vec<u8> = (1u8..=11).collect();
    let report = inspect(&data, 11).unwrap();
    assert_eq!(report.head, vec![1, 2, 3, 4, 5, 6, 7, 8, 9, 10]);
    let data: Vec<u8> = (1u8..=10).collect();
    let report = inspect(&data, 10).unwrap();
    assert_eq!(report.head, vec![1, 2, 3, 4, 5, 6, 7, 8, 9, 10]);
}
