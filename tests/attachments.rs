use udevgames::attachments::{Attachment, AttachmentContext, AttachmentStorage};

#[test]
fn test_file_hashing() {
    let example_content = "this is an example";
    let expected_sum = hex::decode("9202816dabaaf34bb106a10421b9a0d0").unwrap();
    let storage = AttachmentStorage::new("/srv/attachments".to_string());
    let mut stored = storage.stored(1);
    let actual_sum = stored.get_or_compute_md5(&example_content.as_bytes().to_vec());
    assert_eq!(expected_sum, actual_sum);
}

#[test]
fn digest_is_computed_once() {
    let storage = AttachmentStorage::new("/srv/attachments".to_string());
    let mut stored = storage.stored(3);
    assert_eq!(stored.cached_md5(), None);
    let first = stored.get_or_compute_md5(&b"this is an example".to_vec());
    let second = stored.get_or_compute_md5(&b"something else".to_vec());
    assert_eq!(first, second);
    assert_eq!(stored.cached_md5(), Some(first));
}

#[test]
fn storage_paths_append_the_id() {
    let storage = AttachmentStorage::new("/srv/attachments".to_string());
    assert_eq!(storage.path_for(7), "/srv/attachments/7");
    let trailing = AttachmentStorage::new("/srv/attachments/".to_string());
    assert_eq!(trailing.path_for(7), "/srv/attachments/7");
    assert_eq!(trailing.stored(-12).path(), "/srv/attachments/-12");
    let empty = AttachmentStorage::new("".to_string());
    assert_eq!(empty.path_for(0), "0");
}

#[test]
fn attachment_context_shows_hex_digest_and_url() {
    let attachment = Attachment {
        id: 5,
        name: "shot.png".to_string(),
        published: true,
        mime_type: "image/png".to_string(),
        md5: vec![0x00, 0xff, 0x10, 0xab],
    };
    let context = AttachmentContext::from_model(&attachment);
    assert_eq!(context.md5, "00ff10ab");
    assert_eq!(context.url, "/attachments/5/shot.png");
    assert_eq!(context.id, 5);
    assert!(context.published);
    assert_eq!(context.mime_type, "image/png");
    assert_eq!(attachment.url(), "/attachments/5/shot.png");
}
