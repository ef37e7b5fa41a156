use base64::Engine;
use linux_clipboard::emoji::{
    category_group, emoji_matches, into_rows, picker_choices, refresh_emojis, EmojiGroup,
};
use linux_clipboard::image::{image_from_png, load_slint_image_from_base64, rgba8_from_frame};

#[test]
fn category_tabs_map_to_groups() {
    assert_eq!(category_group(0), EmojiGroup::SmileysAndEmotion);
    assert_eq!(category_group(1), EmojiGroup::PeopleAndBody);
    assert_eq!(category_group(2), EmojiGroup::AnimalsAndNature);
    assert_eq!(category_group(3), EmojiGroup::FoodAndDrink);
    assert_eq!(category_group(4), EmojiGroup::Activities);
    assert_eq!(category_group(5), EmojiGroup::TravelAndPlaces);
    assert_eq!(category_group(6), EmojiGroup::Objects);
    assert_eq!(category_group(7), EmojiGroup::Symbols);
    assert_eq!(category_group(8), EmojiGroup::Flags);
    assert_eq!(category_group(9), EmojiGroup::SmileysAndEmotion);
    assert_eq!(category_group(-1), EmojiGroup::SmileysAndEmotion);
}

#[test]
fn category_lists_the_group() {
    let smileys = picker_choices(0, "");
    assert_eq!(smileys[0].character, "😀");
    assert_eq!(smileys[0].name, "grinning face");
    assert_eq!(smileys[0].shortcode.as_deref(), Some("grinning"));
    assert_eq!(smileys.len(), emojis::Group::SmileysAndEmotion.emojis().count());
    let flags = picker_choices(8, "");
    let firsts: Vec<&str> = flags.iter().take(3).map(|e| e.character.as_str()).collect();
    assert_eq!(firsts, vec!["🏁", "🚩", "🎌"]);
    let activities = picker_choices(4, "");
    assert_eq!(activities.len(), emojis::Group::Activities.emojis().count());
    assert_eq!(picker_choices(42, "").len(), smileys.len());
}

#[test]
fn search_looks_at_names_and_shortcodes() {
    let found = picker_choices(3, "ROCKET");
    assert!(found.iter().any(|e| e.character == "🚀"));
    assert!(found.iter().all(|e| e.name.to_lowercase().contains("rocket")
        || e.shortcode.as_deref().map(|s| s.to_lowercase().contains("rocket")).unwrap_or(false)));
    let found = picker_choices(0, "+1");
    assert!(found.iter().any(|e| e.character.starts_with("👍")));
    assert!(picker_choices(0, "no emoji has this name").is_empty());
    let every = picker_choices(0, "e");
    let expected = emojis::iter()
        .filter(|e| e.name().to_lowercase().contains('e')
            || e.shortcode().map(|s| s.to_lowercase().contains('e')).unwrap_or(false))
        .count();
    assert_eq!(every.len(), expected);
}

#[test]
fn emoji_matching_is_exact() {
    let v = |s: &str| s.chars().collect::<Vec<char>>();
    assert!(emoji_matches(&v("red heart"), &None, &v("heart")));
    assert!(emoji_matches(&v("thumbs up"), &Some(v("+1")), &v("+1")));
    assert!(!emoji_matches(&v("thumbs up"), &None, &v("+1")));
}

#[test]
fn grid_rows_hold_six() {
    let rows = into_rows((1..=13).collect::<Vec<u32>>());
    assert_eq!(rows, vec![vec![1, 2, 3, 4, 5, 6], vec![7, 8, 9, 10, 11, 12], vec![13]]);
    let rows = into_rows((1..=12).collect::<Vec<u32>>());
    assert_eq!(rows.len(), 2);
    assert!(into_rows(Vec::<u32>::new()).is_empty());
    let rows = into_rows(vec![1u8]);
    assert_eq!(rows, vec![vec![1u8]]);
}

fn encode_png(width: u32, height: u32, color: png::ColorType, depth: png::BitDepth, data: &[u8]) -> Vec<u8> {
    let mut out = Vec::new();
    {
        let mut encoder = png::Encoder::new(&mut out, width, height);
        encoder.set_color(color);
        encoder.set_depth(depth);
        if color == png::ColorType::Indexed {
            encoder.set_palette(vec![10, 20, 30, 40, 50, 60]);
        }
        let mut writer = encoder.write_header().unwrap();
        writer.write_image_data(data).unwrap();
    }
    out
}

fn tiny_png() -> Vec<u8> {
    encode_png(2, 1, png::ColorType::Rgba, png::BitDepth::Eight, &[255, 0, 0, 255, 0, 0, 255, 128])
}

#[test]
fn rgb_png_becomes_opaque_rgba() {
    let file = encode_png(2, 1, png::ColorType::Rgb, png::BitDepth::Eight, &[1, 2, 3, 4, 5, 6]);
    let b64 = base64::prelude::BASE64_STANDARD.encode(&file);
    let img = load_slint_image_from_base64(&b64).expect("a valid PNG");
    assert_eq!((img.width, img.height), (2, 1));
    assert_eq!(img.pixels, vec![1, 2, 3, 255, 4, 5, 6, 255]);
}

#[test]
fn grey_png_spreads_to_rgb() {
    let file = encode_png(1, 2, png::ColorType::Grayscale, png::BitDepth::Eight, &[7, 200]);
    let img = image_from_png(file).unwrap();
    assert_eq!((img.width, img.height), (1, 2));
    assert_eq!(img.pixels, vec![7, 7, 7, 255, 200, 200, 200, 255]);
    let file = encode_png(1, 1, png::ColorType::GrayscaleAlpha, png::BitDepth::Eight, &[9, 100]);
    assert_eq!(image_from_png(file).unwrap().pixels, vec![9, 9, 9, 100]);
}

#[test]
fn palette_and_deep_pngs_come_out_as_8_bit_rgba() {
    let file = encode_png(2, 1, png::ColorType::Indexed, png::BitDepth::Eight, &[1, 0]);
    assert_eq!(image_from_png(file).unwrap().pixels, vec![40, 50, 60, 255, 10, 20, 30, 255]);
    let file = encode_png(1, 1, png::ColorType::Rgb, png::BitDepth::Sixteen, &[0x12, 0x34, 0x56, 0x78, 0x9a, 0xbc]);
    assert_eq!(image_from_png(file).unwrap().pixels, vec![0x12, 0x56, 0x9a, 255]);
}

#[test]
fn frames_convert_only_when_they_fit() {
    let img = rgba8_from_frame(1, 1, 4, 8, vec![3, 4]).unwrap();
    assert_eq!(img.pixels, vec![3, 3, 3, 4]);
    assert_eq!(rgba8_from_frame(2, 1, 6, 8, vec![1, 2, 3, 4, 5, 6, 7, 8]).unwrap().pixels,
        vec![1, 2, 3, 4, 5, 6, 7, 8]);
    assert!(rgba8_from_frame(1, 1, 2, 16, vec![0; 6]).is_none());
    assert!(rgba8_from_frame(1, 1, 3, 8, vec![0]).is_none());
    assert!(rgba8_from_frame(2, 2, 0, 8, vec![0; 3]).is_none());
    assert!(rgba8_from_frame(u32::MAX, u32::MAX, 6, 8, vec![]).is_none());
    let empty = rgba8_from_frame(0, 5, 2, 8, vec![]).unwrap();
    assert!(empty.pixels.is_empty());
}

#[test]
fn stored_image_decodes_to_pixels() {
    let b64 = base64::prelude::BASE64_STANDARD.encode(tiny_png());
    let img = load_slint_image_from_base64(&b64).expect("a valid PNG");
    assert_eq!((img.width, img.height), (2, 1));
    assert_eq!(img.pixels, vec![255, 0, 0, 255, 0, 0, 255, 128]);
    let img = image_from_png(tiny_png()).unwrap();
    assert_eq!(img.pixels.len(), 8);
}

#[test]
fn broken_images_give_nothing() {
    assert!(load_slint_image_from_base64("not base64 at all!").is_none());
    assert!(load_slint_image_from_base64("aGVsbG8=").is_none());
    assert!(load_slint_image_from_base64("").is_none());
    assert!(image_from_png(b"hello".to_vec()).is_none());
}

#[test]
fn emoji_grid_for_a_tab() {
    let rows = refresh_emojis(8, "");
    let flat: Vec<String> = rows.iter().flatten().map(|e| e.character.clone()).collect();
    let expected: Vec<String> = emojis::Group::Flags.emojis().map(|e| e.as_str().to_string()).collect();
    assert_eq!(flat, expected);
    let last = rows.len() - 1;
    assert!(rows[..last].iter().all(|r| r.len() == 6));
    assert!((1..=6).contains(&rows[last].len()));
    let found = refresh_emojis(0, "rocket");
    assert_eq!(found.len(), 1);
    assert!(found[0].iter().any(|e| e.character == "🚀"));
}
