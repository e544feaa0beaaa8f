use nexus::dyn_windows::{get_or_create_window, WindowConfig};

#[test]
fn sidebar_config_and_plan() {
    let c = WindowConfig::sidebar();
    assert_eq!((c.label, c.title, c.url), ("sidebar", "NEXUS Response", "sidebar.html"));
    assert_eq!((c.width, c.height, c.min_width, c.min_height), (600, 1000, Some(600), Some(1000)));
    assert!(c.transparent && c.always_on_top && c.skip_taskbar && !c.decorations && !c.focus);
    let p = get_or_create_window(&c);
    assert_eq!(p.min_size, Some((600, 1000)));
    assert!(!p.center && !p.maximized && p.sidebar_effects);
}

#[test]
fn main_stage_is_maximised() {
    let c = WindowConfig::main();
    assert_eq!((c.label, c.width, c.height), ("main", 200, 200));
    let p = get_or_create_window(&c);
    assert!(p.maximized && !p.sidebar_effects && !p.center);
    assert_eq!(p.min_size, None);
}

#[test]
fn dialogs_are_centred() {
    for c in [WindowConfig::setup(), WindowConfig::settings(), WindowConfig::architect()] {
        assert!(c.decorations && c.focus && c.center && c.shadow && !c.transparent);
        let p = get_or_create_window(&c);
        assert!(p.center && !p.maximized && !p.sidebar_effects);
    }
    assert_eq!(WindowConfig::setup().url, "setup.html");
    assert_eq!((WindowConfig::settings().width, WindowConfig::settings().height), (600, 720));
    let a = WindowConfig::architect();
    assert!(a.resizable);
    assert_eq!(get_or_create_window(&a).min_size, Some((900, 600)));
}

#[test]
fn architect_sidebar_gets_sidebar_treatment() {
    let c = WindowConfig::architect_sidebar();
    assert_eq!((c.label, c.width), ("architect-sidebar", 900));
    assert!(get_or_create_window(&c).sidebar_effects);
}
