//! The assistant's windows, created on demand (each web view costs hundreds
//! of megabytes) and destroyed when closed: their attributes, and how a
//! window is built from them.

use vstd::prelude::*;
use crate::text::eq_str;

verus! {

broadcast use vstd::string::group_string_axioms;

/// The attributes a window is created with. Sizes are logical pixels; every
/// window's sizes are whole numbers.
pub struct WindowConfig {
    pub label: &'static str,
    pub title: &'static str,
    pub url: &'static str,
    pub width: u32,
    pub height: u32,
    pub min_width: Option<u32>,
    pub min_height: Option<u32>,
    pub resizable: bool,
    pub decorations: bool,
    pub transparent: bool,
    pub always_on_top: bool,
    pub skip_taskbar: bool,
    pub shadow: bool,
    pub focus: bool,
    pub center: bool,
    pub hidden_title: bool,
}

/// The window style flags, in field order: resizable, decorations,
/// transparent, always on top, skip taskbar, shadow, focus, center, hidden
/// title.
pub open spec fn style_of(c: WindowConfig) -> Seq<bool> {
    seq![
        c.resizable, c.decorations, c.transparent, c.always_on_top, c.skip_taskbar, c.shadow, c.focus,
        c.center, c.hidden_title,
    ]
}

/// A borderless, transparent, always-on-top panel that stays off the taskbar
/// and does not take focus.
pub open spec fn panel_style() -> Seq<bool> {
    seq![false, false, true, true, true, false, false, false, true]
}

/// A framed dialog that takes focus and opens centred.
pub open spec fn dialog_style(resizable: bool) -> Seq<bool> {
    seq![resizable, true, false, false, false, true, true, true, false]
}

/// The label, title, page and sizes of a configuration.
pub open spec fn identity_of(c: WindowConfig) -> (Seq<char>, Seq<char>, Seq<char>, u32, u32, Option<u32>, Option<u32>) {
    (c.label@, c.title@, c.url@, c.width, c.height, c.min_width, c.min_height)
}

impl WindowConfig {
    /// The orb's stage: a transparent panel (maximised when created) inside
    /// which the orb moves.
    pub fn main() -> (r: Self)
        ensures
            identity_of(r) == ("main"@, "NEXUS"@, "index.html"@, 200u32, 200u32, None::<u32>, None::<u32>),
            style_of(r) == panel_style(),
    {
        let r = WindowConfig {
            label: "main",
            title: "NEXUS",
            url: "index.html",
            width: 200,
            height: 200,
            min_width: None,
            min_height: None,
            resizable: false,
            decorations: false,
            transparent: true,
            always_on_top: true,
            skip_taskbar: true,
            shadow: false,
            focus: false,
            center: false,
            hidden_title: true,
        };
        proof {
            assert(style_of(r) =~= panel_style());
        }
        r
    }

    /// The setup wizard.
    pub fn setup() -> (r: Self)
        ensures
            identity_of(r) == ("setup"@, "NEXUS Setup"@, "setup.html"@, 520u32, 680u32, None::<u32>, None::<u32>),
            style_of(r) == dialog_style(false),
    {
        let r = WindowConfig {
            label: "setup",
            title: "NEXUS Setup",
            url: "setup.html",
            width: 520,
            height: 680,
            min_width: None,
            min_height: None,
            resizable: false,
            decorations: true,
            transparent: false,
            always_on_top: false,
            skip_taskbar: false,
            shadow: true,
            focus: true,
            center: true,
            hidden_title: false,
        };
        proof {
            assert(style_of(r) =~= dialog_style(false));
        }
        r
    }

    /// The settings window.
    pub fn settings() -> (r: Self)
        ensures
            identity_of(r) == ("settings"@, "NEXUS Settings"@, "settings.html"@, 600u32, 720u32, None::<u32>, None::<u32>),
            style_of(r) == dialog_style(false),
    {
        let r = WindowConfig {
            label: "settings",
            title: "NEXUS Settings",
            url: "settings.html",
            width: 600,
            height: 720,
            min_width: None,
            min_height: None,
            resizable: false,
            decorations: true,
            transparent: false,
            always_on_top: false,
            skip_taskbar: false,
            shadow: true,
            focus: true,
            center: true,
            hidden_title: false,
        };
        proof {
            assert(style_of(r) =~= dialog_style(false));
        }
        r
    }

    /// The response sidebar.
    pub fn sidebar() -> (r: Self)
        ensures
            identity_of(r) == ("sidebar"@, "NEXUS Response"@, "sidebar.html"@, 600u32, 1000u32, Some(600u32), Some(1000u32)),
            style_of(r) == panel_style(),
    {
        let r = WindowConfig {
            label: "sidebar",
            title: "NEXUS Response",
            url: "sidebar.html",
            width: 600,
            height: 1000,
            min_width: Some(600),
            min_height: Some(1000),
            resizable: false,
            decorations: false,
            transparent: true,
            always_on_top: true,
            skip_taskbar: true,
            shadow: false,
            focus: false,
            center: false,
            hidden_title: true,
        };
        proof {
            assert(style_of(r) =~= panel_style());
        }
        r
    }

    /// The architecture mapper.
    pub fn architect() -> (r: Self)
        ensures
            identity_of(r) == ("architect"@, "NEXUS Architecture Mapper"@, "architect.html"@, 1400u32, 900u32, Some(900u32), Some(600u32)),
            style_of(r) == dialog_style(true),
    {
        let r = WindowConfig {
            label: "architect",
            title: "NEXUS Architecture Mapper",
            url: "architect.html",
            width: 1400,
            height: 900,
            min_width: Some(900),
            min_height: Some(600),
            resizable: true,
            decorations: true,
            transparent: false,
            always_on_top: false,
            skip_taskbar: false,
            shadow: true,
            focus: true,
            center: true,
            hidden_title: false,
        };
        proof {
            assert(style_of(r) =~= dialog_style(true));
        }
        r
    }

    /// The architecture mapper's wide sidebar.
    pub fn architect_sidebar() -> (r: Self)
        ensures
            identity_of(r) == ("architect-sidebar"@, "NEXUS Architecture Mapper"@, "architect.html"@, 900u32, 1000u32, Some(900u32), Some(1000u32)),
            style_of(r) == panel_style(),
    {
        let r = WindowConfig {
            label: "architect-sidebar",
            title: "NEXUS Architecture Mapper",
            url: "architect.html",
            width: 900,
            height: 1000,
            min_width: Some(900),
            min_height: Some(1000),
            resizable: false,
            decorations: false,
            transparent: true,
            always_on_top: true,
            skip_taskbar: true,
            shadow: false,
            focus: false,
            center: false,
            hidden_title: true,
        };
        proof {
            assert(style_of(r) =~= panel_style());
        }
        r
    }
}

/// How a new window is built beyond its attributes.
pub struct BuildPlan {
    /// The minimum size, set only when both bounds are given.
    pub min_size: Option<(u32, u32)>,
    /// Open centred on the screen.
    pub center: bool,
    /// Open maximised (the orb's stage).
    pub maximized: bool,
    /// Apply the sidebar treatment: rounded corners and exclusion from screen
    /// capture on Windows, vibrancy on macOS.
    pub sidebar_effects: bool,
}

/// The build plan for a configuration.
pub open spec fn build_plan_of(c: WindowConfig) -> (Option<(u32, u32)>, bool, bool, bool) {
    (
        match (c.min_width, c.min_height) {
            (Some(w), Some(h)) => Some((w, h)),
            _ => None,
        },
        c.center,
        c.label@ == "main"@,
        c.label@ == "sidebar"@ || c.label@ == "architect-sidebar"@,
    )
}

/// Works out how a window that does not exist yet is built (windows that
/// exist are reused as they are).
pub fn get_or_create_window(config: &WindowConfig) -> (r: BuildPlan)
    ensures
        (r.min_size, r.center, r.maximized, r.sidebar_effects) == build_plan_of(*config),
{
    let min_size = match (config.min_width, config.min_height) {
        (Some(w), Some(h)) => Some((w, h)),
        _ => None,
    };
    let label = crate::text::str_chars(config.label);
    let maximized = eq_str(&label, "main");
    let sidebar_effects = eq_str(&label, "sidebar") || eq_str(&label, "architect-sidebar");
    BuildPlan { min_size, center: config.center, maximized, sidebar_effects }
}

} // verus!
