use loss_tester_rs::frames::wire::{inspect, payload_intact, read_counter, Reading, HEADER_LEN, RAMP_LEN};

fn raw_frame(counter: u32, len: usize) -> Vec<u8> {
    let mut frame = counter.to_be_bytes().to_vec();
    for i in 0..len - 4 {
        frame.push((i % 16) as u8);
    }
    frame
}

#[test]
fn header_is_four_bytes_and_ramp_sixteen() {
    assert_eq!(HEADER_LEN, 4);
    assert_eq!(RAMP_LEN, 16);
}

#[test]
fn counter_is_read_big_endian() {
    assert_eq!(read_counter(&[0x12, 0x34, 0x56, 0x78]), 0x1234_5678);
    assert_eq!(read_counter(&[0, 0, 0, 7, 0, 1]), 7);
    assert_eq!(read_counter(&[0xff, 0xff, 0xff, 0xff]), u32::MAX);
    assert_eq!(read_counter(&[0, 0, 1, 0]), 256);
}

#[test]
fn short_units_hold_no_header() {
    assert_eq!(inspect(&[]), None);
    assert_eq!(inspect(&[1]), None);
    assert_eq!(inspect(&[1, 2, 3]), None);
}

#[test]
fn header_alone_is_an_intact_frame() {
    assert_eq!(
        inspect(&[0x12, 0x34, 0x56, 0x78]),
        Some(Reading { counter: 0x1234_5678, intact: true })
    );
}

#[test]
fn partial_ramp_is_intact() {
    assert_eq!(inspect(&[0, 0, 0, 7, 0, 1]), Some(Reading { counter: 7, intact: true }));
    assert_eq!(inspect(&raw_frame(9, 4 + 15)), Some(Reading { counter: 9, intact: true }));
    assert_eq!(inspect(&raw_frame(9, 4 + 17)), Some(Reading { counter: 9, intact: true }));
}

#[test]
fn whole_periods_of_the_ramp_are_intact() {
    assert_eq!(inspect(&raw_frame(3, 4 + 16)), Some(Reading { counter: 3, intact: true }));
    assert_eq!(inspect(&raw_frame(3, 4 + 32)), Some(Reading { counter: 3, intact: true }));
    assert_eq!(inspect(&raw_frame(3, 4 + 1488)), Some(Reading { counter: 3, intact: true }));
}

#[test]
fn ramp_starts_over_after_fifteen() {
    let frame = raw_frame(1, 4 + 18);
    assert_eq!(frame[4 + 15], 15);
    assert_eq!(frame[4 + 16], 0);
    assert_eq!(frame[4 + 17], 1);
    assert!(payload_intact(&frame));
}

#[test]
fn any_changed_payload_byte_is_seen() {
    let len = 4 + 40;
    for at in 4..len {
        let mut frame = raw_frame(77, len);
        frame[at] ^= 0x01;
        assert_eq!(inspect(&frame), Some(Reading { counter: 77, intact: false }), "byte {at}");
    }
}

#[test]
fn changed_byte_in_last_partial_chunk_is_seen() {
    let mut frame = raw_frame(5, 4 + 19);
    let last = frame.len() - 1;
    frame[last] = 0xff;
    assert_eq!(inspect(&frame), Some(Reading { counter: 5, intact: false }));
}

#[test]
fn changed_header_byte_changes_the_counter_only() {
    let mut frame = raw_frame(0, 4 + 20);
    frame[3] = 9;
    assert_eq!(inspect(&frame), Some(Reading { counter: 9, intact: true }));
}
