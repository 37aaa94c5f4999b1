use rustberry::classic::rfid::{tag_image, tag_text, N_BLOCKS, N_BLOCK_SIZE, TAG_CAPACITY};
use rustberry::playback_requests::{TagAction, TagEvent, TagTracker};

#[test]
fn tag_text_ends_at_the_first_zero_byte() {
    assert_eq!(tag_text(b"abc\0def\0"), b"abc".to_vec());
    assert_eq!(tag_text(b"abc"), b"abc".to_vec());
    assert_eq!(tag_text(b"\0abc"), Vec::<u8>::new());
}

#[test]
fn tag_image_pads_the_text_with_zero_bytes() {
    let image = tag_image(b"{\"SpotifyUri\":\"x\"}").unwrap();
    assert_eq!(image.len(), TAG_CAPACITY);
    assert_eq!(&image[..18], b"{\"SpotifyUri\":\"x\"}");
    assert!(image[18..].iter().all(|b| *b == 0));
    assert_eq!(tag_text(&image), b"{\"SpotifyUri\":\"x\"}".to_vec());
}

#[test]
fn tag_image_refuses_a_text_without_room_for_its_end() {
    assert_eq!(tag_image(&[b'a'; 64]), None);
    assert_eq!(tag_image(&[b'a'; 63]).map(|i| i[63]), Some(0));
}

#[test]
fn tag_capacity_is_the_blocks_read() {
    assert_eq!(TAG_CAPACITY, N_BLOCKS as usize * N_BLOCK_SIZE as usize);
}

#[test]
fn the_reader_probes_for_a_new_card_only_while_no_tag_is_known() {
    let mut tracker = TagTracker::new();
    assert!(tracker.probes_for_new_card());
    assert_eq!(tracker.observe(TagEvent::Present("uid".to_string())), TagAction::ReadTag("uid".to_string()));
    assert!(tracker.probes_for_new_card());
    tracker.tag_handled("uid".to_string(), true);
    assert!(!tracker.probes_for_new_card());
    assert_eq!(tracker.observe(TagEvent::Absent), TagAction::TagRemoved);
    assert!(tracker.probes_for_new_card());
}
