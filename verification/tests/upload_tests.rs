use clipflow::transfer::{clipboard_write_for, ClipboardWrite};
use clipflow::upload::{
    accept_file_upload, ensure_unique_path, numbered_file_name, prepare_image_upload,
    unique_path_step, SearchStep, MAX_NUMBERED_NAMES,
    received_file_notice, saved_file_notice, shown_file_name, ImageUploadError, UploadGate,
};

fn png_of(width: u32, height: u32, pixels: &[u8]) -> Vec<u8> {
    let mut out = Vec::new();
    image::write_buffer_with_format(
        &mut std::io::Cursor::new(&mut out),
        pixels,
        width,
        height,
        image::ColorType::Rgba8,
        image::ImageOutputFormat::Png,
    )
    .unwrap();
    out
}

#[test]
fn image_upload_refusals() {
    assert!(matches!(prepare_image_upload(&Vec::new()), Err(ImageUploadError::MissingImage)));
    assert_eq!(ImageUploadError::MissingImage.message(), "Missing image");
    match prepare_image_upload(&vec![1, 2, 3]) {
        Err(e @ ImageUploadError::DecodeFailed(_)) => assert!(e.message().starts_with("图片解码失败: ")),
        _ => panic!("expected a decode failure"),
    }
    assert_eq!(ImageUploadError::PngFailed.message(), "图片转 PNG 失败");
}

#[test]
fn image_upload_normalised_to_png() {
    let first_png = png_of(1, 1, &[10, 20, 30, 255]);
    let p = prepare_image_upload(&first_png).ok().unwrap();
    assert!(p.data_url.starts_with("data:image/png;base64,"));
    let back = image::load_from_memory(&p.png).unwrap().to_rgba8();
    assert_eq!(back.into_raw(), vec![10, 20, 30, 255]);
    let again = prepare_image_upload(&first_png).ok().unwrap();
    assert_eq!(p.hash, again.hash);
    let other = prepare_image_upload(&png_of(1, 1, &[11, 20, 30, 255])).ok().unwrap();
    assert_ne!(p.hash, other.hash);
}

#[test]
fn repeated_image_within_a_second_dropped() {
    let mut g = UploadGate::new();
    assert!(g.accept(77, 1_000));
    assert!(!g.accept(77, 1_999));
    assert!(g.accept(77, 2_000));
    assert!(g.accept(78, 2_001));
    assert_eq!((g.last_hash, g.last_ms), (78, 2_001));
}

#[test]
fn file_upload_checks() {
    assert_eq!(accept_file_upload(Some("a.txt".to_string()), 0), Err("Missing file".to_string()));
    assert_eq!(accept_file_upload(None, 3), Ok("unknown_file".to_string()));
    assert_eq!(accept_file_upload(Some("a.txt".to_string()), 3), Ok("a.txt".to_string()));
}

#[test]
fn numbered_names() {
    assert_eq!(numbered_file_name("photo", 1, ".jpg"), "photo(1).jpg");
    assert_eq!(numbered_file_name("file", 12, ""), "file(12)");
}

#[test]
fn unique_paths() {
    let (p, _) = ensure_unique_path("/nonexistent_clipflow_dir", "a.txt");
    assert_eq!(p, Some("/nonexistent_clipflow_dir/a.txt".to_string()));
    // The root directory always exists; it has no stem, so numbered names
    // use `file`.
    let (p, _) = ensure_unique_path("/", "");
    assert_eq!(p, Some("/file(1)".to_string()));
}

#[test]
fn unique_path_search_steps() {
    assert_eq!(unique_path_step(0, false), SearchStep::Use(0));
    assert_eq!(unique_path_step(0, true), SearchStep::Try(1));
    assert_eq!(unique_path_step(7, true), SearchStep::Try(8));
    assert_eq!(unique_path_step(7, false), SearchStep::Use(7));
    assert_eq!(unique_path_step(MAX_NUMBERED_NAMES, true), SearchStep::GiveUp);
    assert_eq!(unique_path_step(MAX_NUMBERED_NAMES, false), SearchStep::Use(MAX_NUMBERED_NAMES));
    // Only the last extension follows the number.
    assert_eq!(numbered_file_name("a.tar", 1, ".gz"), "a.tar(1).gz");
}

#[test]
fn shown_names_and_notices() {
    assert_eq!(shown_file_name("/a/b/c.txt", "x"), "c.txt");
    assert_eq!(shown_file_name("/", "fallback"), "fallback");
    assert_eq!(saved_file_notice("c.txt"), "文件 [c.txt] 已保存");
    assert_eq!(received_file_notice("c.txt"), "收到文件: c.txt");
}

#[test]
fn uploaded_image_pastes_back_unchanged() {
    let pixels = [9u8, 8, 7, 255, 1, 2, 3, 128];
    let p = prepare_image_upload(&png_of(1, 2, &pixels)).ok().unwrap();
    match clipboard_write_for(&p.data_url) {
        Ok(ClipboardWrite::Image(back)) => {
            assert_eq!((back.width, back.height), (1, 2));
            assert_eq!(back.pixels, pixels.to_vec());
        }
        _ => panic!("expected an image write"),
    }
}
