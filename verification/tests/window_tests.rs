use clipflow::layout::{
    anchored_origin, is_external_window, origin_near_cursor, shortcut_toggle, tray_click_toggle,
    tray_command, TrayCommand, WindowMove,
};
use clipflow::translate::{
    check_translation_input, join_translation, translation_segments, translation_target, Json,
};

#[test]
fn window_next_to_taskbar() {
    assert_eq!(anchored_origin(1920, 1080, 380, 430, 20, 40), (1520, 610));
    assert_eq!(anchored_origin(100, 100, 380, 430, 20, 40), (-300, -370));
}

#[test]
fn window_near_cursor_stays_on_screen() {
    assert_eq!(origin_near_cursor(500, 400, 120, 78, 1920, 1080, 380, 430), (380, 322));
    assert_eq!(origin_near_cursor(10, 10, 120, 78, 1920, 1080, 380, 430), (0, 0));
    assert_eq!(origin_near_cursor(1900, 1070, 120, 78, 1920, 1080, 380, 430), (1540, 650));
    // A window larger than the screen ends at the (negative) limit.
    assert_eq!(origin_near_cursor(10, 10, 0, 0, 100, 100, 380, 430), (-280, -330));
}

#[test]
fn shortcut_and_tray_toggle_the_window() {
    assert!(shortcut_toggle(true, "true") == WindowMove::Hide);
    assert!(shortcut_toggle(false, "true") == WindowMove::ShowAtCursor);
    assert!(shortcut_toggle(false, "false") == WindowMove::ShowAnchored);
    assert!(shortcut_toggle(false, "") == WindowMove::ShowAnchored);
    assert!(tray_click_toggle(true) == WindowMove::Hide);
    assert!(tray_click_toggle(false) == WindowMove::ShowAnchored);
    assert!(tray_command("quit") == TrayCommand::Quit);
    assert!(tray_command("show") == TrayCommand::Show);
    assert!(tray_command("other") == TrayCommand::Nothing);
}

#[test]
fn external_windows() {
    assert!(is_external_window(10, 20));
    assert!(!is_external_window(20, 20));
    assert!(!is_external_window(0, 20));
}

#[test]
fn translation_direction_and_result() {
    assert_eq!(translation_target("hello 世界"), "en");
    assert_eq!(translation_target("hello"), "zh-CN");
    assert_eq!(translation_target("こんにちは"), "zh-CN");
    assert_eq!(check_translation_input("  \n"), Err("内容为空".to_string()));
    assert_eq!(check_translation_input(" hi "), Ok(()));
    let segs = vec![Some("Hello ".to_string()), None, Some("world".to_string())];
    assert_eq!(join_translation(&segs), Ok("Hello world".to_string()));
    assert_eq!(join_translation(&vec![None, Some(String::new())]), Err("Google翻译结果为空".to_string()));
    assert_eq!(join_translation(&Vec::new()), Err("Google翻译结果为空".to_string()));
}

fn text(s: &str) -> Json {
    Json::Text(s.to_string())
}

#[test]
fn translation_segments_from_reply() {
    // [[["Hello ","你好",null],["world","世界"],[null,"x"]],null,"zh-CN"]
    let reply = Json::Array(vec![
        Json::Array(vec![
            Json::Array(vec![text("Hello "), text("你好"), Json::Other]),
            Json::Array(vec![text("world"), text("世界")]),
            Json::Array(vec![Json::Other, text("x")]),
            Json::Array(vec![]),
        ]),
        Json::Other,
        text("zh-CN"),
    ]);
    let segs = translation_segments(&reply);
    assert_eq!(segs, vec![Some("Hello ".to_string()), Some("world".to_string()), None, None]);
    assert_eq!(join_translation(&segs), Ok("Hello world".to_string()));
    assert!(translation_segments(&Json::Other).is_empty());
    assert!(translation_segments(&Json::Array(vec![text("a")])).is_empty());
    assert!(translation_segments(&Json::Array(vec![])).is_empty());
}
