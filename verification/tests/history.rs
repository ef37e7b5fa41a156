use linux_clipboard::clips::{
    clip_row, content_for_id, image_preview, ClipboardWatch, Observed, is_recordable_text, kind_label, refresh_clips,
    preview_matches, text_preview, wants_thumbnail, ClipContent, ClipItem, ClipKind,
};

fn text_item(id: &str, text: &str) -> ClipItem {
    ClipItem {
        id: id.to_string(),
        content: ClipContent::Text(text.to_string()),
        timestamp: 1_700_000_000,
        pinned: false,
        preview: text_preview(text),
    }
}

#[test]
fn preview_is_one_tidy_line() {
    assert_eq!(text_preview("hello\n\nworld\t!"), "hello world !");
    assert_eq!(text_preview("  a  \r\n  b  "), "a b");
    assert_eq!(text_preview("\u{a0}x\u{a0}"), "x");
    assert_eq!(text_preview(""), "");
    assert_eq!(text_preview("a\u{a0}\u{a0}b"), "a\u{a0}\u{a0}b");
}

#[test]
fn long_preview_is_cut_at_eighty_characters() {
    let long = "é".repeat(100);
    let p = text_preview(&long);
    assert_eq!(p, format!("{}...", "é".repeat(80)));
    assert_eq!(p.chars().count(), 83);
    let exactly = "b".repeat(80);
    assert_eq!(text_preview(&exactly), exactly);
    let spaced = "word ".repeat(30);
    let p = text_preview(&spaced);
    assert!(p.chars().count() <= 83);
    assert!(!p.contains("  "));
    assert!(p.ends_with("..."));
}

#[test]
fn which_copied_text_is_recorded() {
    assert!(is_recordable_text("hello"));
    assert!(!is_recordable_text("  \n\t"));
    assert!(!is_recordable_text(""));
    assert!(!is_recordable_text("\u{fffd}PNG\r\n"));
    assert!(is_recordable_text("PNG file"));
    assert!(!is_recordable_text("a\0b"));
}

#[test]
fn image_previews() {
    assert_eq!(image_preview(640, 480), "Image (640x480)");
    assert_eq!(image_preview(0, 1), "Image (0x1)");
}

#[test]
fn rows_show_their_entries() {
    let rich = ClipItem {
        id: "r".into(),
        content: ClipContent::RichText { plain: "bold".into(), html: "<b>bold</b>".into() },
        timestamp: 5,
        pinned: true,
        preview: "bold".into(),
    };
    let row = clip_row(&rich);
    assert_eq!(row.kind, ClipKind::RichText);
    assert_eq!(row.plain_text, "bold");
    assert_eq!(row.image_base64, "");
    assert!(row.pinned);
    assert_eq!(row.timestamp, 5);
    assert!(!wants_thumbnail(&row));
    let image = ClipItem {
        id: "i".into(),
        content: ClipContent::Image { base64: "iVBORw0KGgo=".into(), width: 2, height: 3 },
        timestamp: 6,
        pinned: false,
        preview: image_preview(2, 3),
    };
    let row = clip_row(&image);
    assert_eq!(row.kind, ClipKind::Image);
    assert_eq!(row.plain_text, "");
    assert_eq!(row.image_base64, "iVBORw0KGgo=");
    assert!(wants_thumbnail(&row));
    let empty_image = ClipItem {
        id: "e".into(),
        content: ClipContent::Image { base64: String::new(), width: 0, height: 0 },
        timestamp: 6,
        pinned: false,
        preview: String::new(),
    };
    assert!(!wants_thumbnail(&clip_row(&empty_image)));
    assert_eq!(kind_label(ClipKind::Text), "Text");
    assert_eq!(kind_label(ClipKind::RichText), "RichText");
    assert_eq!(kind_label(ClipKind::Image), "Image");
}

#[test]
fn search_ignores_case() {
    let items = vec![
        text_item("1", "Hello World"),
        text_item("2", "goodbye"),
        text_item("3", "HELLO again"),
    ];
    let rows = refresh_clips(&items, "hello");
    let ids: Vec<&str> = rows.iter().map(|r| r.id.as_str()).collect();
    assert_eq!(ids, vec!["1", "3"]);
    let rows = refresh_clips(&items, "WORLD");
    assert_eq!(rows.len(), 1);
    assert_eq!(rows[0].plain_text, "Hello World");
    assert_eq!(refresh_clips(&items, "").len(), 3);
    assert_eq!(refresh_clips(&items, "zzz").len(), 0);
    let v = |s: &str| s.chars().collect::<Vec<char>>();
    assert!(preview_matches(&v("anything"), &v("")));
    assert!(preview_matches(&v("hello world"), &v("o w")));
    assert!(!preview_matches(&v("hello"), &v("Hello")));
}

#[test]
fn paste_request_finds_first_entry_with_id() {
    let items = vec![text_item("a", "one"), text_item("b", "two"), text_item("b", "three")];
    match content_for_id(&items, "b") {
        Some(ClipContent::Text(t)) => assert_eq!(t, "two"),
        other => panic!("unexpected {:?}", other),
    }
    assert!(content_for_id(&items, "c").is_none());
    assert!(content_for_id(&Vec::new(), "a").is_none());
}

#[test]
fn watcher_records_new_clipboard_contents_once() {
    let mut watch = ClipboardWatch::new();
    let text_only = Observed { record_text: true, record_image: false };
    let nothing = Observed { record_text: false, record_image: false };
    let image_only = Observed { record_text: false, record_image: true };
    assert_eq!(watch.observe(Some(("hello", 5)), None), text_only);
    assert_eq!(watch.observe(Some(("hello", 5)), None), nothing);
    assert_eq!(watch.observe(Some(("   ", 7)), None), nothing);
    assert_eq!(watch.observe(None, Some(9)), image_only);
    assert_eq!(watch.observe(None, Some(9)), nothing);
    assert_eq!(watch.observe(Some(("hello", 5)), None), text_only);
    watch.note_image(11);
    assert_eq!(watch.observe(None, Some(11)), nothing);
}

#[test]
fn watcher_compares_images_with_the_hash_seen_before_the_look() {
    let mut watch = ClipboardWatch::new();
    assert_eq!(watch.observe(None, Some(9)), Observed { record_text: false, record_image: true });
    assert_eq!(
        watch.observe(Some(("new", 6)), Some(9)),
        Observed { record_text: true, record_image: false }
    );
    assert_eq!(
        watch.observe(Some(("new", 6)), Some(9)),
        Observed { record_text: false, record_image: true }
    );
}

#[test]
fn narrower_search_lists_a_subsequence() {
    let items = vec![
        text_item("1", "Hello World"),
        text_item("2", "help wanted"),
        text_item("3", "sell"),
        text_item("4", "HELLO again"),
    ];
    let ids = |search: &str| -> Vec<String> {
        refresh_clips(&items, search).iter().map(|r| r.id.clone()).collect()
    };
    assert_eq!(ids(""), vec!["1", "2", "3", "4"]);
    assert_eq!(ids("el"), vec!["1", "2", "3", "4"]);
    assert_eq!(ids("hel"), vec!["1", "2", "4"]);
    assert_eq!(ids("HELLO"), vec!["1", "4"]);
    assert_eq!(ids("hello w"), vec!["1"]);
}
