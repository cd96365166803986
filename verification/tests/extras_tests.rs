use timeline_video::color::{
    hex_digit, parse_hex_color, read_channel, solid_color_file_name, solid_pixels, Color, ColorError,
};
use timeline_video::menu::menu_event;
use timeline_video::upload::{
    bearer, replace_all, slot_granted, targets_in, transfer_done, upload_size, upload_targets,
    video_link, UploadError,
};

fn rgb(red: u8, green: u8, blue: u8) -> Color {
    Color { red, green, blue }
}

#[test]
fn colors_are_read_channel_by_channel() {
    assert_eq!(parse_hex_color(b"#1e90ff"), Ok(rgb(0x1e, 0x90, 0xff)));
    assert_eq!(parse_hex_color(b"1E90FF"), Ok(rgb(0x1e, 0x90, 0xff)));
    assert_eq!(parse_hex_color(b"#000000"), Ok(rgb(0, 0, 0)));
    assert_eq!(parse_hex_color(b"##ffffff"), Ok(rgb(255, 255, 255)));
    assert_eq!(parse_hex_color(b"#aAbBcC"), Ok(rgb(0xaa, 0xbb, 0xcc)));
    assert_eq!(parse_hex_color(b"#1e90ff and more"), Ok(rgb(0x1e, 0x90, 0xff)));
}

#[test]
fn colors_agree_with_the_standard_reading_of_base_sixteen() {
    for text in ["12", "ff", "0a", "+f", "+0", "zz", "f+", "-1", " 1", "1 ", "++", "G0"] {
        let bytes = text.as_bytes();
        let expected = u8::from_str_radix(text, 16).ok();
        assert_eq!(read_channel(bytes, 0).ok(), expected, "{}", text);
    }
    assert_eq!(read_channel(b"abcd", 2), Ok(0xcd));
    assert_eq!(read_channel(b"abcd", 3), Err(ColorError::TooShort));
    assert_eq!(read_channel(b"abcd", usize::MAX), Err(ColorError::TooShort));
    assert_eq!(read_channel(b"", 0), Err(ColorError::TooShort));
}

#[test]
fn colors_that_are_none() {
    assert_eq!(parse_hex_color(b""), Err(ColorError::TooShort));
    assert_eq!(parse_hex_color(b"#"), Err(ColorError::TooShort));
    assert_eq!(parse_hex_color(b"#f"), Err(ColorError::TooShort));
    assert_eq!(parse_hex_color(b"#ff"), Err(ColorError::TooShort));
    assert_eq!(parse_hex_color(b"#ffaab"), Err(ColorError::TooShort));
    assert_eq!(parse_hex_color(b"#zz"), Err(ColorError::InvalidDigit));
    assert_eq!(parse_hex_color(b"#ffzz"), Err(ColorError::InvalidDigit));
    assert_eq!(parse_hex_color(b"#ffaagg"), Err(ColorError::InvalidDigit));
    assert_eq!(parse_hex_color(b"red"), Err(ColorError::InvalidDigit));
    assert_eq!(parse_hex_color(b"f#ffff"), Err(ColorError::InvalidDigit));
    assert_eq!(
        ColorError::InvalidDigit.message(),
        format!("Invalid color: {}", u8::from_str_radix("zz", 16).unwrap_err())
    );
    assert_eq!(ColorError::TooShort.message(), "Invalid color: a channel is cut short");
}

#[test]
fn hex_digits() {
    assert_eq!(hex_digit(b'0'), Some(0));
    assert_eq!(hex_digit(b'9'), Some(9));
    assert_eq!(hex_digit(b'a'), Some(10));
    assert_eq!(hex_digit(b'F'), Some(15));
    assert_eq!(hex_digit(b'g'), None);
    assert_eq!(hex_digit(b'+'), None);
}

#[test]
fn image_names_and_pixels() {
    assert_eq!(solid_color_file_name(1_700_000_000), "solid_color_1700000000.png");
    assert_eq!(solid_color_file_name(0), "solid_color_0.png");
    let bytes = solid_pixels(2, 2, rgb(1, 2, 3)).unwrap();
    assert_eq!(bytes, vec![1, 2, 3, 1, 2, 3, 1, 2, 3, 1, 2, 3]);
    assert_eq!(solid_pixels(0, 5, rgb(1, 2, 3)), Some(Vec::new()));
    assert_eq!(solid_pixels(3, 1, rgb(9, 8, 7)).unwrap().len(), 9);
    let image = image::RgbImage::from_raw(2, 2, bytes).unwrap();
    assert_eq!(image.get_pixel(1, 1).0, [1, 2, 3]);
}

#[test]
fn menu_entries_and_their_events() {
    assert_eq!(menu_event("settings"), Some("open-settings"));
    assert_eq!(menu_event("about"), Some("open-about"));
    assert_eq!(menu_event("export_project"), Some("export-project"));
    assert_eq!(menu_event("import_project"), Some("import-project"));
    assert_eq!(menu_event("clear_project"), Some("clear-project"));
    assert_eq!(menu_event("upload"), Some("upload-video"));
    assert_eq!(menu_event("quit"), None);
    assert_eq!(menu_event(""), None);
    assert_eq!(menu_event("Settings"), None);
}

#[test]
fn replacing_agrees_with_the_standard_library() {
    let cases = [
        ("/videos/123", "/videos/", "/"),
        ("/videos/1/videos/2", "/videos/", "/"),
        ("aaaa", "aa", "b"),
        ("aaa", "aa", "b"),
        ("abcabc", "bc", ""),
        ("nothing here", "xyz", "!"),
        ("", "a", "b"),
        ("ab", "abc", "x"),
        ("h\u{e9}llo h\u{e9}", "h\u{e9}", "\u{4e16}"),
    ];
    for (text, pattern, with) in cases {
        assert_eq!(replace_all(text, pattern, with), text.replace(pattern, with), "{}", text);
    }
    assert_eq!(replace_all("abc", "", "-"), "abc");
}

#[test]
fn video_links() {
    assert_eq!(video_link("/videos/123456"), "https://vimeo.com/123456");
    assert_eq!(video_link("/users/1/videos/9"), "https://vimeo.com/users/1/9");
    assert_eq!(video_link("/123"), "https://vimeo.com/123");
    assert_eq!(video_link(""), "https://vimeo.com");
    assert_eq!(bearer("SECRET-REDACTED"), "bearer SECRET-REDACTED");
    assert_eq!(upload_size(0), "0");
    assert_eq!(upload_size(1_048_576), "1048576");
}

#[test]
fn answers_of_the_service() {
    assert!(slot_granted(true, "ignored".to_string()).is_ok());
    match slot_granted(false, "quota".to_string()) {
        Err(error) => assert_eq!(error.message(), "Vimeo API error: quota"),
        Ok(()) => panic!("accepted"),
    }
    match transfer_done(true, String::new(), "/videos/42") {
        Ok(link) => assert_eq!(link, "https://vimeo.com/42"),
        Err(error) => panic!("{:?}", error),
    }
    match transfer_done(false, "too large".to_string(), "/videos/42") {
        Err(error) => assert_eq!(error.message(), "Upload failed: too large"),
        Ok(link) => panic!("{}", link),
    }
}

#[test]
fn targets_of_an_upload() {
    let both = upload_targets(Some("https://up".to_string()), Some("/videos/1".to_string())).unwrap();
    assert_eq!(both.upload_link, "https://up");
    assert_eq!(both.video_uri, "/videos/1");
    assert!(matches!(upload_targets(None, Some("u".to_string())), Err(UploadError::NoUploadLink)));
    assert!(matches!(upload_targets(None, None), Err(UploadError::NoUploadLink)));
    assert!(matches!(upload_targets(Some("l".to_string()), None), Err(UploadError::NoVideoUri)));
}

#[test]
fn targets_in_the_services_answer() {
    let answer: serde_json::Value = serde_json::from_str(
        "{\"uri\": \"/videos/77\", \"upload\": {\"upload_link\": \"https://files/abc\", \"size\": 5}}",
    )
    .unwrap();
    let targets = targets_in(&answer).unwrap();
    assert_eq!(targets.upload_link, "https://files/abc");
    assert_eq!(targets.video_uri, "/videos/77");
    let no_link: serde_json::Value =
        serde_json::from_str("{\"uri\": \"/videos/77\", \"upload\": {}}").unwrap();
    assert!(matches!(targets_in(&no_link), Err(UploadError::NoUploadLink)));
    let no_uri: serde_json::Value =
        serde_json::from_str("{\"upload\": {\"upload_link\": \"x\"}}").unwrap();
    assert!(matches!(targets_in(&no_uri), Err(UploadError::NoVideoUri)));
    let wrong_kind: serde_json::Value =
        serde_json::from_str("{\"uri\": 5, \"upload\": {\"upload_link\": \"x\"}}").unwrap();
    assert!(matches!(targets_in(&wrong_kind), Err(UploadError::NoVideoUri)));
    let not_an_object: serde_json::Value = serde_json::from_str("[1, 2]").unwrap();
    assert!(matches!(targets_in(&not_an_object), Err(UploadError::NoUploadLink)));
}

#[test]
fn the_upload_link_is_read_under_the_member_upload_only() {
    let beside: serde_json::Value = serde_json::from_str(
        "{\"uri\": \"/videos/1\", \"upload_link\": \"https://top\", \"upload\": {}}",
    )
    .unwrap();
    assert!(matches!(targets_in(&beside), Err(UploadError::NoUploadLink)));
    let flat: serde_json::Value =
        serde_json::from_str("{\"uri\": \"/videos/1\", \"upload\": \"https://text\"}").unwrap();
    assert!(matches!(targets_in(&flat), Err(UploadError::NoUploadLink)));
    let deeper: serde_json::Value = serde_json::from_str(
        "{\"uri\": \"/videos/1\", \"upload\": {\"upload_link\": {\"href\": \"x\"}}}",
    )
    .unwrap();
    assert!(matches!(targets_in(&deeper), Err(UploadError::NoUploadLink)));
    let nested_uri: serde_json::Value = serde_json::from_str(
        "{\"upload\": {\"upload_link\": \"https://files/1\", \"uri\": \"/videos/9\"}}",
    )
    .unwrap();
    assert!(matches!(targets_in(&nested_uri), Err(UploadError::NoVideoUri)));
    let text: serde_json::Value = serde_json::from_str("\"upload\"").unwrap();
    assert!(matches!(targets_in(&text), Err(UploadError::NoUploadLink)));
    let both: serde_json::Value = serde_json::from_str(
        "{\"upload\": {\"upload_link\": \"\"}, \"uri\": \"\", \"other\": [1]}",
    )
    .unwrap();
    let targets = targets_in(&both).unwrap();
    assert_eq!(targets.upload_link, "");
    assert_eq!(targets.video_uri, "");
}

#[test]
fn upload_error_texts() {
    let cause = || "because".to_string();
    assert_eq!(UploadError::ReadFile(cause()).message(), "Failed to read video file: because");
    assert_eq!(UploadError::CreateRequest(cause()).message(), "Failed to create upload: because");
    assert_eq!(UploadError::Api(cause()).message(), "Vimeo API error: because");
    assert_eq!(UploadError::ParseResponse(cause()).message(), "Failed to parse response: because");
    assert_eq!(UploadError::NoUploadLink.message(), "No upload link in response");
    assert_eq!(UploadError::NoVideoUri.message(), "No video URI in response");
    assert_eq!(UploadError::Transfer(cause()).message(), "Failed to upload video: because");
    assert_eq!(UploadError::UploadFailed(cause()).message(), "Upload failed: because");
}
