use firmware_core::clock::Timestamp;
use firmware_core::features::http_server::data::FrameSlot;
use firmware_core::features::http_server::HttpServerData;

fn seen(slot: &mut FrameSlot) -> Option<(Vec<u8>, Timestamp)> {
    slot.read_image_bytes(|image| image.map(|(bytes, timestamp)| (bytes.to_vec(), timestamp)))
}

fn seen_shared(data: &mut HttpServerData) -> Option<(Vec<u8>, Timestamp)> {
    data.read_image_bytes(|image| image.map(|(bytes, timestamp)| (bytes.to_vec(), timestamp)))
}

fn stamp(secs: u64) -> Timestamp {
    Timestamp::new(secs, 500).unwrap()
}

#[test]
fn empty_slot_gives_nothing() {
    let mut slot = FrameSlot::new();
    assert_eq!(seen(&mut slot), None);
    assert!(slot.take().is_none());
}

#[test]
fn written_image_is_read_once() {
    let mut slot = FrameSlot::new();
    slot.write_image(&[1, 2, 3], stamp(7));
    assert_eq!(seen(&mut slot), Some((vec![1, 2, 3], stamp(7))));
    assert_eq!(seen(&mut slot), None);
    assert_eq!(seen(&mut slot), None);
}

#[test]
fn second_write_replaces_the_first() {
    let mut slot = FrameSlot::new();
    slot.write_image(&[1, 2, 3], stamp(7));
    slot.write_image(&[9], stamp(8));
    assert_eq!(seen(&mut slot), Some((vec![9], stamp(8))));
    assert_eq!(seen(&mut slot), None);
}

#[test]
fn image_without_bytes_empties_the_slot() {
    let mut slot = FrameSlot::new();
    slot.write_image(&[1, 2, 3], stamp(7));
    slot.write_image(&[], Timestamp::zero());
    assert_eq!(seen(&mut slot), None);
}

#[test]
fn take_hands_out_the_frame() {
    let mut slot = FrameSlot::new();
    slot.write_image(&[4, 5], stamp(1));
    let frame = slot.take().unwrap();
    assert_eq!(frame.pixels, vec![4, 5]);
    assert_eq!(frame.timestamp, stamp(1));
    assert!(slot.take().is_none());
}

#[test]
fn shared_slot_without_write_gives_nothing() {
    let mut data = HttpServerData::new();
    assert_eq!(seen_shared(&mut data), None);
}

#[test]
fn shared_slot_delivers_at_most_once() {
    let mut data = HttpServerData::new();
    data.write_image(&[1, 2, 3], stamp(7));
    assert_eq!(seen_shared(&mut data), Some((vec![1, 2, 3], stamp(7))));
    assert_eq!(seen_shared(&mut data), None);
}

#[test]
fn shared_slot_keeps_the_latest_image() {
    let mut data = HttpServerData::new();
    data.write_image(&[1], stamp(1));
    data.write_image(&[2, 2], stamp(2));
    assert_eq!(seen_shared(&mut data), Some((vec![2, 2], stamp(2))));
    assert_eq!(seen_shared(&mut data), None);
}

#[test]
fn clones_lead_to_the_same_slot() {
    let mut writer = HttpServerData::new();
    let mut first_reader = writer.clone();
    let mut second_reader = first_reader.clone();
    writer.write_image(&[5, 6], stamp(3));
    assert_eq!(seen_shared(&mut first_reader), Some((vec![5, 6], stamp(3))));
    assert_eq!(seen_shared(&mut second_reader), None);
    assert_eq!(seen_shared(&mut writer), None);
    second_reader.write_image(&[8], stamp(4));
    assert_eq!(seen_shared(&mut writer), Some((vec![8], stamp(4))));
}

#[test]
fn new_handles_do_not_share() {
    let mut one = HttpServerData::new();
    let mut other = HttpServerData::new();
    one.write_image(&[1], stamp(1));
    assert_eq!(seen_shared(&mut other), None);
    assert_eq!(seen_shared(&mut one), Some((vec![1], stamp(1))));
}

const HEADER_OF_THREE_BYTES: &str = "\r\n--123456789000000000000987654321\r\nContent-Type: image/jpeg\r\nContent-Length: 3\r\nX-Timestamp: 7.000000\r\n\r\n";

#[test]
fn part_is_the_header_and_then_the_image() {
    let mut slot = FrameSlot::new();
    assert_eq!(slot.next_part(), None);
    slot.write_image(&[0xFF, 0xD8, 0x00], stamp(7));
    let mut expected = HEADER_OF_THREE_BYTES.as_bytes().to_vec();
    expected.extend_from_slice(&[0xFF, 0xD8, 0x00]);
    assert_eq!(slot.next_part(), Some(expected));
    assert_eq!(slot.next_part(), None);
}

#[test]
fn shared_slot_gives_each_part_once() {
    let mut writer = HttpServerData::new();
    let mut reader = writer.clone();
    assert_eq!(reader.next_part(), None);
    writer.write_image(&[0xFF, 0xD8, 0x00], stamp(7));
    let mut expected = HEADER_OF_THREE_BYTES.as_bytes().to_vec();
    expected.extend_from_slice(&[0xFF, 0xD8, 0x00]);
    assert_eq!(reader.next_part(), Some(expected));
    assert_eq!(reader.next_part(), None);
    assert_eq!(writer.next_part(), None);
}

#[test]
fn shared_slot_hands_out_the_frame() {
    let mut data = HttpServerData::new();
    assert!(data.take_image().is_none());
    data.write_image(&[1, 2], stamp(3));
    let frame = data.take_image().unwrap();
    assert_eq!(frame.pixels, vec![1, 2]);
    assert_eq!(frame.timestamp, stamp(3));
    assert!(data.take_image().is_none());
    data.write_image(&[], stamp(3));
    assert!(data.take_image().is_none());
}

fn may_move_between_threads<T: Send + Sync>(_: &T) {}

#[test]
fn handle_may_be_given_to_another_thread() {
    let data = HttpServerData::new();
    may_move_between_threads(&data);
}
