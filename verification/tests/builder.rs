use bgui::{BGuiBuilder, WinMode};

#[test]
fn new_builder_is_incomplete() {
    let b = BGuiBuilder::new();
    assert_eq!(b.get_width(), None);
    assert_eq!(b.get_height(), None);
}

#[test]
fn width_alone_is_incomplete() {
    let w = BGuiBuilder::new().width(800);
    assert_eq!(w.get_width(), Some(800));
    assert_eq!(w.get_height(), None);
    let h = BGuiBuilder::new().height(600);
    assert_eq!(h.get_width(), None);
    assert_eq!(h.get_height(), Some(600));
}

#[test]
fn default_title_is_no_title() {
    let s = BGuiBuilder::new().width(800).height(600).window_settings();
    assert_eq!(s.title, "No Title");
    assert!(!s.resizable);
    assert_eq!(s.width, 800);
    assert_eq!(s.height, 600);
}

#[test]
fn all_settings_carried_over() {
    let s = BGuiBuilder::new()
        .title("Hello")
        .resizable()
        .mode(WinMode::FULL)
        .width(1280)
        .height(720)
        .window_settings();
    assert_eq!(s.title, "Hello");
    assert!(s.resizable);
    assert_eq!(s.width, 1280);
    assert_eq!(s.height, 720);
}

#[test]
fn last_setting_wins() {
    let s = BGuiBuilder::new()
        .width(1)
        .width(2)
        .height(3)
        .height(4)
        .title("a")
        .title("b")
        .window_settings();
    assert_eq!(s.width, 2);
    assert_eq!(s.height, 4);
    assert_eq!(s.title, "b");
}

#[test]
fn setters_commute() {
    let a = BGuiBuilder::new().title("t").width(10).resizable().height(20).window_settings();
    let b = BGuiBuilder::new().height(20).resizable().width(10).title("t").window_settings();
    assert_eq!(a.title, b.title);
    assert_eq!(a.resizable, b.resizable);
    assert_eq!(a.width, b.width);
    assert_eq!(a.height, b.height);
}

#[test]
fn mode_does_not_change_settings() {
    let a = BGuiBuilder::new().width(5).height(6).mode(WinMode::WINDOW).window_settings();
    let b = BGuiBuilder::new().width(5).height(6).window_settings();
    assert_eq!(a.title, b.title);
    assert_eq!(a.resizable, b.resizable);
    assert_eq!((a.width, a.height), (b.width, b.height));
}

#[test]
fn empty_title_is_kept() {
    let s = BGuiBuilder::new().title("").width(0).height(0).window_settings();
    assert_eq!(s.title, "");
    assert_eq!(s.width, 0);
    assert_eq!(s.height, 0);
}

#[test]
fn resizable_twice_is_resizable() {
    let s = BGuiBuilder::new().resizable().resizable().width(u32::MAX).height(u32::MAX).window_settings();
    assert!(s.resizable);
    assert_eq!(s.width, u32::MAX);
}
