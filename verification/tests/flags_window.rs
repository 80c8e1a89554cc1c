use raycore::window::{
    clear_window_state, disable_cursor, enable_cursor, get_clipboard_text,
    get_monitor_count, hide_cursor, maximize_window, minimize_window, restore_window,
    set_clipboard_text, set_window_focused, set_window_max_size, set_window_min_size,
    set_window_position, set_window_size, set_window_state, set_window_title,
    show_cursor, toggle_borderless_windowed, toggle_fullscreen, window_should_close,
    Clipboard, ConfigFlags, Cursor, Monitors, Point, Size, Storage, Window,
};

#[test]
fn config_flag_values() {
    assert_eq!(ConfigFlags::VSYNC_HINT, 0x00000040);
    assert_eq!(ConfigFlags::FULLSCREEN_MODE, 0x00000002);
    assert_eq!(ConfigFlags::WINDOW_RESIZABLE, 0x00000004);
    assert_eq!(ConfigFlags::WINDOW_UNDECORATED, 0x00000008);
    assert_eq!(ConfigFlags::WINDOW_HIDDEN, 0x00000080);
    assert_eq!(ConfigFlags::WINDOW_MINIMIZED, 0x00000200);
    assert_eq!(ConfigFlags::WINDOW_MAXIMIZED, 0x00000400);
    assert_eq!(ConfigFlags::WINDOW_UNFOCUSED, 0x00000800);
    assert_eq!(ConfigFlags::WINDOW_TOPMOST, 0x00001000);
    assert_eq!(ConfigFlags::WINDOW_ALWAYS_RUN, 0x00000100);
    assert_eq!(ConfigFlags::WINDOW_TRANSPARENT, 0x00000010);
    assert_eq!(ConfigFlags::WINDOW_HIGHDPI, 0x00002000);
    assert_eq!(ConfigFlags::WINDOW_MOUSE_PASSTHROUGH, 0x00004000);
    assert_eq!(ConfigFlags::BORDERLESS_WINDOWED_MODE, 0x00008000);
    assert_eq!(ConfigFlags::MSAA_4X_HINT, 0x00000020);
    assert_eq!(ConfigFlags::INTERLACED_HINT, 0x00010000);
}

#[test]
fn config_flag_has_any_bit() {
    let flags = ConfigFlags(ConfigFlags::VSYNC_HINT | ConfigFlags::WINDOW_RESIZABLE);
    assert!(flags.has(ConfigFlags(ConfigFlags::VSYNC_HINT)));
    assert!(flags.has(ConfigFlags(ConfigFlags::WINDOW_RESIZABLE | ConfigFlags::WINDOW_HIDDEN)));
    assert!(!flags.has(ConfigFlags(ConfigFlags::WINDOW_HIDDEN)));
    assert!(!ConfigFlags(0).has(flags));
}

#[test]
fn config_flag_contains_all_bits() {
    let flags = ConfigFlags(ConfigFlags::VSYNC_HINT | ConfigFlags::WINDOW_RESIZABLE);
    assert!(flags.contains(ConfigFlags(ConfigFlags::VSYNC_HINT)));
    assert!(flags.contains(flags));
    assert!(!flags.contains(ConfigFlags(ConfigFlags::VSYNC_HINT | ConfigFlags::WINDOW_HIDDEN)));
}

#[test]
fn config_flag_set_and_clear() {
    let none = ConfigFlags(0);
    let with_vsync = none.set(ConfigFlags(ConfigFlags::VSYNC_HINT), true);
    assert_eq!(with_vsync.0, ConfigFlags::VSYNC_HINT);
    let cleared = with_vsync.set(ConfigFlags(ConfigFlags::VSYNC_HINT), false);
    assert_eq!(cleared.0, 0);

    let both = with_vsync.union(ConfigFlags(ConfigFlags::WINDOW_TOPMOST));
    assert_eq!(both.0, ConfigFlags::VSYNC_HINT | ConfigFlags::WINDOW_TOPMOST);
    assert_eq!(both.without(with_vsync).0, ConfigFlags::WINDOW_TOPMOST);
    assert_eq!(both.intersect(with_vsync).0, ConfigFlags::VSYNC_HINT);
    assert_eq!(both.toggle(with_vsync).0, ConfigFlags::WINDOW_TOPMOST);
}

#[test]
fn maximize_and_minimize_set_their_flags() {
    let mut w = Window::new();
    maximize_window(&mut w);
    assert!(w.flags.has(ConfigFlags(ConfigFlags::WINDOW_MAXIMIZED)));
    minimize_window(&mut w);
    assert!(w.flags.has(ConfigFlags(ConfigFlags::WINDOW_MINIMIZED)));
    restore_window(&mut w);
    assert!(!w.flags.has(ConfigFlags(
        ConfigFlags::WINDOW_MAXIMIZED | ConfigFlags::WINDOW_MINIMIZED
    )));
}

#[test]
fn window_state_set_and_clear() {
    let mut w = Window::new();
    set_window_state(
        &mut w,
        ConfigFlags(ConfigFlags::WINDOW_HIDDEN | ConfigFlags::WINDOW_TOPMOST),
    );
    assert_eq!(
        w.flags.0,
        ConfigFlags::WINDOW_HIDDEN | ConfigFlags::WINDOW_TOPMOST
    );
    clear_window_state(&mut w, ConfigFlags(ConfigFlags::WINDOW_HIDDEN));
    assert_eq!(w.flags.0, ConfigFlags::WINDOW_TOPMOST);
}

#[test]
fn fullscreen_toggles_flag_and_bit_together() {
    let mut w = Window::new();
    toggle_fullscreen(&mut w);
    assert!(w.fullscreen);
    assert!(w.flags.has(ConfigFlags(ConfigFlags::FULLSCREEN_MODE)));
    toggle_fullscreen(&mut w);
    assert!(!w.fullscreen);
    assert!(!w.flags.has(ConfigFlags(ConfigFlags::FULLSCREEN_MODE)));
}

#[test]
fn borderless_windowed_toggles() {
    let mut w = Window::new();
    toggle_borderless_windowed(&mut w);
    assert!(w.fullscreen);
    assert!(w.flags.has(ConfigFlags(ConfigFlags::BORDERLESS_WINDOWED_MODE)));
    toggle_borderless_windowed(&mut w);
    assert!(!w.fullscreen);
    assert!(!w.flags.has(ConfigFlags(ConfigFlags::BORDERLESS_WINDOWED_MODE)));
}

#[test]
fn title_position_and_sizes_are_recorded() {
    let mut w = Window::new();
    set_window_title(&mut w, "engine demo");
    assert_eq!(w.title, "engine demo");
    set_window_position(&mut w, 120, 45);
    assert_eq!(w.position, Point { x: 120, y: 45 });
    set_window_min_size(&mut w, 320, 240);
    assert_eq!(w.screen_min, Size { width: 320, height: 240 });
    set_window_max_size(&mut w, 1920, 1080);
    assert_eq!(w.screen_max, Size { width: 1920, height: 1080 });
    set_window_size(&mut w, 800, 600);
    assert_eq!(w.screen, Size { width: 800, height: 600 });
}

#[test]
fn focus_clears_unfocused_bit_only() {
    let mut w = Window::new();
    set_window_state(
        &mut w,
        ConfigFlags(ConfigFlags::WINDOW_UNFOCUSED | ConfigFlags::WINDOW_TOPMOST),
    );
    set_window_focused(&mut w);
    assert_eq!(w.flags.0, ConfigFlags::WINDOW_TOPMOST);
}

#[test]
fn should_close_needs_ready_window() {
    let mut w = Window::new();
    assert!(window_should_close(&w));
    w.ready = true;
    assert!(!window_should_close(&w));
    w.should_close = true;
    assert!(window_should_close(&w));
}

#[test]
fn cursor_visibility_and_lock() {
    let mut c = Cursor::new();
    assert!(!c.hidden && !c.locked);
    hide_cursor(&mut c);
    assert!(c.hidden);
    show_cursor(&mut c);
    assert!(!c.hidden);
    disable_cursor(&mut c);
    assert!(c.hidden && c.locked);
    enable_cursor(&mut c);
    assert!(!c.hidden && !c.locked);
}

#[test]
fn window_lifecycle_configure_then_ready() {
    let mut w = Window::new();
    w.configure(800, 450, "engine demo");
    assert_eq!(w.title, "engine demo");
    assert_eq!(w.screen, Size { width: 800, height: 450 });
    assert!(!w.event_waiting);
    assert!(!w.ready);

    w.mark_ready(Size { width: 2560, height: 1440 });
    assert!(w.ready);
    assert_eq!(w.display, Size { width: 2560, height: 1440 });
    assert_eq!(w.render, Size { width: 800, height: 450 });
    assert_eq!(w.current_fbo, Size { width: 800, height: 450 });
    assert!(!window_should_close(&w));
}

#[test]
fn storage_starts_without_base_path() {
    let s = Storage::new();
    assert!(s.base_path.is_none());
}

#[test]
fn clipboard_round_trips_text() {
    let mut c = Clipboard::new();
    assert_eq!(get_clipboard_text(&c), "");
    set_clipboard_text(&mut c, "copied text");
    assert_eq!(get_clipboard_text(&c), "copied text");
    set_clipboard_text(&mut c, "");
    assert_eq!(get_clipboard_text(&c), "");
}

#[test]
fn monitor_count_reads_back_as_recorded() {
    let mut m = Monitors::new();
    assert_eq!(get_monitor_count(&m), 0);
    m.record(2);
    assert_eq!(get_monitor_count(&m), 2);
    m.record(1);
    assert_eq!(get_monitor_count(&m), 1);
}
