use base64::Engine;
use clipflow::transfer::{
    clipboard_write_for, image_copy_error, image_file_for_clipboard, image_for_clipboard, paste_write_for,
    temp_image_file_name, ClipboardWrite, WriteAttempts,
};

fn png_of(width: u32, height: u32, pixels: &[u8]) -> Vec<u8> {
    let mut out = Vec::new();
    image::write_buffer_with_format(
        &mut std::io::Cursor::new(&mut out),
        pixels,
        width,
        height,
        image::ColorType::Rgba8,
        image::ImageOutputFormat::Png,
    )
    .unwrap();
    out
}

fn data_url(bytes: &[u8]) -> String {
    format!("data:image/png;base64,{}", base64::engine::general_purpose::STANDARD.encode(bytes))
}

#[test]
fn text_goes_to_clipboard_as_text() {
    match clipboard_write_for("hello") {
        Ok(ClipboardWrite::Text(t)) => assert_eq!(t, "hello"),
        _ => panic!("expected text"),
    }
}

#[test]
fn image_url_errors_name_the_step() {
    assert_eq!(clipboard_write_for("data:image/png").err(), Some("Invalid image data URL".to_string()));
    let e = clipboard_write_for("data:image/png;base64,@@@@").err().unwrap();
    let b64 = base64::engine::general_purpose::STANDARD.decode("@@@@").unwrap_err();
    assert_eq!(e, format!("Base64 decode error: {}", b64));
    let e = clipboard_write_for("data:image/png;base64,QUJD").err().unwrap();
    let img = image::load_from_memory(b"ABC").unwrap_err();
    assert_eq!(e, format!("Image load error: {}", img));
}

#[test]
fn image_url_gives_its_pixels() {
    let pixels = vec![1u8, 2, 3, 255, 4, 5, 6, 255];
    let url = data_url(&png_of(2, 1, &pixels));
    match clipboard_write_for(&url) {
        Ok(ClipboardWrite::Image(img)) => {
            assert_eq!((img.width, img.height), (2, 1));
            assert_eq!(img.pixels, pixels);
        }
        _ => panic!("expected image"),
    }
    // Line breaks inside the Base64 text are ignored.
    let (head, tail) = url.split_at(30);
    let broken = format!("{}\r\n{}", head, tail);
    assert!(matches!(clipboard_write_for(&broken), Ok(ClipboardWrite::Image(_))));
}

#[test]
fn paste_writes_and_settle_times() {
    let p = paste_write_for("some text").ok().unwrap();
    assert_eq!(p.settle_ms, 100);
    assert!(matches!(p.write, ClipboardWrite::Text(ref t) if t == "some text"));
    assert_eq!(paste_write_for("data:image/png").err(), Some("图片数据格式错误".to_string()));
    let b64 = base64::engine::general_purpose::STANDARD.decode("@@").unwrap_err();
    assert_eq!(paste_write_for("data:image/png;base64,@@").err(), Some(b64.to_string()));
    let img = image::load_from_memory(b"ABC").unwrap_err();
    assert_eq!(paste_write_for("data:image/png;base64,QUJD").err(), Some(img.to_string()));
    let url = data_url(&png_of(1, 1, &[0, 0, 0, 255]));
    let p = paste_write_for(&url).ok().unwrap();
    assert_eq!(p.settle_ms, 200);
}

#[test]
fn paste_gives_up_after_three_failures() {
    let mut w = WriteAttempts::new();
    assert_eq!(w.final_error(), "Clipboard write failed");
    assert!(w.failed("busy 1".to_string()));
    assert!(w.failed("busy 2".to_string()));
    assert!(!w.failed("busy 3".to_string()));
    assert_eq!(w.final_error(), "busy 3");
}

#[test]
fn temp_file_names() {
    assert_eq!(temp_image_file_name(42), "clipflow_tmp_42.png");
    assert_eq!(temp_image_file_name(0), "clipflow_tmp_0.png");
    assert_eq!(temp_image_file_name(-7), "clipflow_tmp_-7.png");
    assert_eq!(temp_image_file_name(i64::MIN), format!("clipflow_tmp_{}.png", i64::MIN));
    assert_eq!(image_copy_error(), "图片处理失败");
}

#[test]
fn clipboard_image_from_bytes() {
    let png = png_of(1, 2, &[9, 9, 9, 255, 8, 8, 8, 255]);
    let img = image_for_clipboard(&png).ok().unwrap();
    assert_eq!((img.width, img.height), (1, 2));
    assert_eq!(img.pixels.len(), 8);
    let f = image_for_clipboard(&vec![1, 2, 3]).err().unwrap();
    assert!(!f.message.is_empty());
    assert!(!f.detail.is_empty());
}

#[test]
fn image_file_decoded_by_its_extension() {
    let pixels = [1u8, 2, 3, 4, 5, 6, 7, 8];
    let png = png_of(2, 1, &pixels);
    let img = image_file_for_clipboard("/pics/a.png", &png).ok().unwrap();
    assert_eq!((img.width, img.height), (2, 1));
    assert_eq!(img.pixels, pixels.to_vec());
    assert!(image_file_for_clipboard("/pics/A.PNG", &png).is_ok());
    // No extension, or one that names no image format: the format is unknown.
    assert!(image_file_for_clipboard("/pics/a", &png).is_err());
    assert!(image_file_for_clipboard("/pics/a.txt", &png).is_err());
    // A known extension that does not match the contents.
    assert!(image_file_for_clipboard("/pics/a.bmp", &png).is_err());
}
