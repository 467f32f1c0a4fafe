use clipflow::content::{
    detect_category, image_base64, image_bytes_from_data_url, is_image_content, message_kind,
    png_to_data_url, signature_for, sse_frame, strip_line_breaks,
};
use clipflow::text::{chars_of, is_blank, is_white_space, parse_i64};

#[test]
fn category_image_for_data_urls() {
    assert_eq!(detect_category("data:image/png;base64,AAAA"), "image");
    assert_eq!(detect_category("data:imagex"), "image");
    assert_eq!(detect_category("data:text/plain,hi"), "text");
}

#[test]
fn category_code_for_keywords() {
    assert_eq!(detect_category("let x = 1"), "code");
    assert_eq!(detect_category("a functional design"), "code");
    assert_eq!(detect_category("it returned"), "code");
    assert_eq!(detect_category("<?php echo 1;"), "code");
    assert_eq!(detect_category("public static void"), "code");
    assert_eq!(detect_category("x <html> y"), "code");
}

#[test]
fn category_code_for_braces_and_semicolon() {
    assert_eq!(detect_category("a;b{c}"), "code");
    assert_eq!(detect_category("a;b{c"), "text");
    assert_eq!(detect_category("a b {c}"), "text");
}

#[test]
fn category_text_otherwise() {
    assert_eq!(detect_category("hello world"), "text");
    assert_eq!(detect_category(""), "text");
    assert_eq!(detect_category("classroom"), "text");
    assert_eq!(detect_category("你好"), "text");
}

#[test]
fn signature_is_first_hundred_chars() {
    let long: String = "x".repeat(150);
    assert_eq!(signature_for(&long), "x".repeat(100));
    assert_eq!(signature_for("short"), "short");
    let wide: String = "é".repeat(120);
    assert_eq!(signature_for(&wide), "é".repeat(100));
    assert_eq!(signature_for(""), "");
}

#[test]
fn image_content_detection() {
    assert!(is_image_content("data:image/jpeg;base64,AA"));
    assert!(!is_image_content(" data:image"));
    assert!(!is_image_content("data:imag"));
}

#[test]
fn line_breaks_removed_like_replace() {
    assert_eq!(strip_line_breaks("ab\r\ncd\nef\r"), "abcdef\r");
    assert_eq!(strip_line_breaks("\r\r\n"), "\r");
    assert_eq!(strip_line_breaks("\n\n"), "");
    assert_eq!(strip_line_breaks("plain"), "plain");
}

#[test]
fn base64_payload_after_first_comma() {
    assert_eq!(image_base64("data:image/png;base64,QU\r\nJD"), Some("QUJD".to_string()));
    assert_eq!(image_base64("a,b,c"), Some("b,c".to_string()));
    assert_eq!(image_base64("no comma"), None);
    assert_eq!(image_base64("ends with,"), Some(String::new()));
}

#[test]
fn image_bytes_decoded_from_data_url() {
    assert_eq!(image_bytes_from_data_url("data:image/png;base64,QUJD"), Some(b"ABC".to_vec()));
    assert_eq!(image_bytes_from_data_url("data:image/png;base64,QU\nJD"), Some(b"ABC".to_vec()));
    assert_eq!(image_bytes_from_data_url("data:image/png;base64,@@@@"), None);
    assert_eq!(image_bytes_from_data_url("data:image/png"), None);
}

#[test]
fn png_bytes_become_data_url() {
    assert_eq!(png_to_data_url(&vec![1, 2, 3]), "data:image/png;base64,AQID");
    assert_eq!(png_to_data_url(&vec![]), "data:image/png;base64,");
}

#[test]
fn message_kind_for_phone() {
    assert_eq!(message_kind("data:image/png;base64,AA"), "image");
    assert_eq!(message_kind("hello"), "text");
}

#[test]
fn sse_frame_format() {
    assert_eq!(sse_frame("{\"a\":1}"), "event: clipboard-update\ndata: {\"a\":1}\n\n");
}

#[test]
fn parse_i64_like_std() {
    for s in ["200", "-5", "+7", "0", "007", "9223372036854775807", "-9223372036854775808"] {
        assert_eq!(parse_i64(s), s.parse::<i64>().ok(), "{}", s);
    }
    for s in ["", "+", "-", "12a", " 1", "9223372036854775808", "-9223372036854775809", "1.0", "--1"] {
        assert_eq!(parse_i64(s), None, "{}", s);
        assert!(s.parse::<i64>().is_err());
    }
}

#[test]
fn blank_text_like_trim() {
    assert!(is_blank(""));
    assert!(is_blank(" \t\r\n"));
    assert!(is_blank("\u{3000}"));
    assert!(is_blank("\u{85}\u{a0}\u{1680}\u{2000}\u{200a}\u{2028}\u{2029}\u{202f}\u{205f}\u{b}\u{c}"));
    // Zero-width space and the byte-order mark are not white space.
    assert!(!is_blank("\u{200b}"));
    assert!(!is_blank("\u{feff}"));
    assert!(!is_blank(" a "));
    assert_eq!(chars_of("añ"), vec!['a', 'ñ']);
}

#[test]
fn data_url_carries_png_bytes_back() {
    for bytes in [vec![], vec![0u8], vec![1, 2, 3], (0u8..=255).collect::<Vec<u8>>()] {
        let url = png_to_data_url(&bytes);
        assert!(is_image_content(&url));
        assert_eq!(image_bytes_from_data_url(&url), Some(bytes));
    }
}

#[test]
fn white_space_agrees_with_std_on_every_char() {
    for u in 0u32..=0x10FFFF {
        if let Some(c) = char::from_u32(u) {
            assert_eq!(is_white_space(c), c.is_whitespace(), "U+{:04X}", u);
        }
    }
}
