use kovi_plugin_irc_gateway::onebot::{rvs_render_pure_segment, EmojiInfo, EmojiTable, SegmentData};

#[test]
fn test_20260418_render_pure_segment_text() {
    let mut data = SegmentData::new();
    data.insert("text".to_owned(), "hello world".to_owned());
    let result = rvs_render_pure_segment(&EmojiTable::new(), "text", &data);
    assert_eq!(result, Some("hello world".to_owned()));
}

#[test]
fn test_20260418_render_pure_segment_text_empty() {
    let data = SegmentData::new();
    let result = rvs_render_pure_segment(&EmojiTable::new(), "text", &data);
    assert_eq!(result, Some("".to_owned()));
}

#[test]
fn test_20260418_render_pure_segment_face() {
    let mut data = SegmentData::new();
    data.insert("id".to_owned(), "178".to_owned());
    let mut map = EmojiTable::new();
    map.insert(
        "178".to_owned(),
        EmojiInfo { emoji_id: "178".to_owned(), describe: "微笑".to_owned() },
    );
    let result = rvs_render_pure_segment(&map, "face", &data);
    assert_eq!(result, Some("[face:微笑]".to_owned()));
}

#[test]
fn test_20260418_render_pure_segment_face_missing() {
    let mut data = SegmentData::new();
    data.insert("id".to_owned(), "999".to_owned());
    let result = rvs_render_pure_segment(&EmojiTable::new(), "face", &data);
    assert_eq!(result, Some("[face:999]".to_owned()));
}

#[test]
fn test_20260418_render_pure_segment_image_returns_none() {
    let mut data = SegmentData::new();
    data.insert("file".to_owned(), "test.jpg".to_owned());
    let result = rvs_render_pure_segment(&EmojiTable::new(), "image", &data);
    assert!(result.is_none());
}

#[test]
fn test_20260418_render_pure_segment_at_returns_none() {
    let mut data = SegmentData::new();
    data.insert("qq".to_owned(), "12345".to_owned());
    let result = rvs_render_pure_segment(&EmojiTable::new(), "at", &data);
    assert!(result.is_none());
}

#[test]
fn test_20260418_render_pure_segment_unknown() {
    let data = SegmentData::new();
    let result = rvs_render_pure_segment(&EmojiTable::new(), "record", &data);
    assert_eq!(result, Some("[record]".to_owned()));
}
