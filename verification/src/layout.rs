//! Where the main window appears, and what the shortcut and the tray icon do
//! to it.
use vstd::prelude::*;

verus! {

broadcast use vstd::string::group_string_axioms;

/// Top-left corner that puts a `win_w` x `win_h` window in the bottom-right
/// corner of a `screen_w` x `screen_h` screen, `margin` from the right edge
/// and `taskbar` above the bottom edge (all in physical pixels).
pub open spec fn anchored_origin_spec(screen_w: u32, screen_h: u32, win_w: i32, win_h: i32, margin: i32, taskbar: i32) -> (int, int) {
    ((screen_w as i32) - win_w - margin, (screen_h as i32) - win_h - taskbar)
}

/// The main window's position next to the task bar.
pub fn anchored_origin(screen_w: u32, screen_h: u32, win_w: i32, win_h: i32, margin: i32, taskbar: i32) -> (p: (i32, i32))
    requires
        i32::MIN <= (screen_w as i32) - win_w <= i32::MAX,
        i32::MIN <= (screen_w as i32) - win_w - margin <= i32::MAX,
        i32::MIN <= (screen_h as i32) - win_h <= i32::MAX,
        i32::MIN <= (screen_h as i32) - win_h - taskbar <= i32::MAX,
    ensures
        (p.0 as int, p.1 as int) == anchored_origin_spec(screen_w, screen_h, win_w, win_h, margin, taskbar),
{
    let sw = screen_w as i32;
    let sh = screen_h as i32;
    (sw - win_w - margin, sh - win_h - taskbar)
}

/// `v` raised to 0 if negative, then lowered to `hi` if above it.
pub open spec fn clamp_to_screen(v: int, hi: int) -> int {
    let low = if v < 0 { 0 } else { v };
    if low > hi { hi } else { low }
}

/// The main window's position near the cursor at (`mx`, `my`): the cursor
/// `anchor_x`, `anchor_y` inside the window, kept on a `screen_w` x
/// `screen_h` screen for a `win_w` x `win_h` window.
pub fn origin_near_cursor(
    mx: i32,
    my: i32,
    anchor_x: i32,
    anchor_y: i32,
    screen_w: u32,
    screen_h: u32,
    win_w: i32,
    win_h: i32,
) -> (p: (i32, i32))
    requires
        i32::MIN <= mx - anchor_x <= i32::MAX,
        i32::MIN <= my - anchor_y <= i32::MAX,
        i32::MIN <= (screen_w as i32) - win_w <= i32::MAX,
        i32::MIN <= (screen_h as i32) - win_h <= i32::MAX,
    ensures
        p.0 as int == clamp_to_screen(mx - anchor_x, (screen_w as i32) - win_w),
        p.1 as int == clamp_to_screen(my - anchor_y, (screen_h as i32) - win_h),
{
    let mut x = mx - anchor_x;
    let mut y = my - anchor_y;
    let max_x = screen_w as i32 - win_w;
    let max_y = screen_h as i32 - win_h;
    if x < 0 {
        x = 0;
    }
    if y < 0 {
        y = 0;
    }
    if x > max_x {
        x = max_x;
    }
    if y > max_y {
        y = max_y;
    }
    (x, y)
}

/// A window placed near the cursor lies on the screen when it fits on it.
pub proof fn law_cursor_window_on_screen(v: int, hi: int)
    requires
        hi >= 0,
    ensures
        0 <= clamp_to_screen(v, hi) <= hi,
{
}

/// What happens to the main window.
#[derive(PartialEq, Eq, Structural, Clone, Copy)]
pub enum WindowMove {
    /// Hide it.
    Hide,
    /// Place it near the cursor, show and focus it.
    ShowAtCursor,
    /// Place it next to the task bar, show and focus it.
    ShowAnchored,
}

/// The global shortcut toggles the main window: a visible window is hidden;
/// a hidden one is shown near the cursor when the `follow_mouse` setting is
/// `true`, else next to the task bar.
pub fn shortcut_toggle(visible: bool, follow_mouse: &str) -> (m: WindowMove)
    ensures
        m == (if visible {
            WindowMove::Hide
        } else if follow_mouse@ == "true"@ {
            WindowMove::ShowAtCursor
        } else {
            WindowMove::ShowAnchored
        }),
{
    if visible {
        WindowMove::Hide
    } else if String::from_str(follow_mouse) == String::from_str("true") {
        WindowMove::ShowAtCursor
    } else {
        WindowMove::ShowAnchored
    }
}

/// A left click on the tray icon toggles the main window, shown next to the
/// task bar.
pub fn tray_click_toggle(visible: bool) -> (m: WindowMove)
    ensures
        m == (if visible { WindowMove::Hide } else { WindowMove::ShowAnchored }),
{
    if visible {
        WindowMove::Hide
    } else {
        WindowMove::ShowAnchored
    }
}

/// What a tray menu entry does.
#[derive(PartialEq, Eq, Structural, Clone, Copy)]
pub enum TrayCommand {
    Quit,
    Show,
    Nothing,
}

/// The command of the tray menu entry with id `id`: `quit` or `show`.
pub fn tray_command(id: &str) -> (c: TrayCommand)
    ensures
        c == (if id@ == "quit"@ {
            TrayCommand::Quit
        } else if id@ == "show"@ {
            TrayCommand::Show
        } else {
            TrayCommand::Nothing
        }),
{
    let id = String::from_str(id);
    if id == String::from_str("quit") {
        TrayCommand::Quit
    } else if id == String::from_str("show") {
        TrayCommand::Show
    } else {
        TrayCommand::Nothing
    }
}

/// The foreground window belongs to another program (its process id is
/// known and is not ours), so it is where a paste should go.
pub fn is_external_window(window_pid: u32, own_pid: u32) -> (r: bool)
    ensures
        r == (window_pid != 0 && window_pid != own_pid),
{
    window_pid != 0 && window_pid != own_pid
}

} // verus!
