//! The response sidebar: the content waiting for a freshly created sidebar
//! window to ask for it, when to capture the desktop backdrop, where the
//! window goes on screen, and when a live-blur frame is worth sending.

use vstd::prelude::*;

verus! {

/// A `serde_json::Value`, carried through unread (the repository analysis
/// shown by the sidebar dashboard).
#[verifier::external_type_specification]
#[verifier::external_body]
pub struct ExJsonValue(serde_json::Value);

/// What the sidebar shows once its page has loaded.
pub struct PendingSidebar {
    pub query: String,
    pub text: String,
    /// The blurred desktop behind the window, as a `data:` URI.
    pub backdrop: Option<String>,
    /// Structured analysis data for the dashboard view.
    pub analysis: Option<serde_json::Value>,
}

/// Holds at most one piece of pending sidebar content. A newer one replaces
/// an older one; the page takes it once, on mount.
pub struct SidebarSlot {
    pending: Option<PendingSidebar>,
}

impl SidebarSlot {
    /// The content waiting in the slot.
    pub closed spec fn held(&self) -> Option<PendingSidebar> {
        self.pending
    }

    /// An empty slot.
    pub fn new() -> (r: Self)
        ensures
            r.held() is None,
    {
        SidebarSlot { pending: None }
    }

    /// Stores content for the page, replacing whatever was waiting.
    pub fn store(&mut self, content: PendingSidebar)
        ensures
            final(self).held() == Some(content),
    {
        self.pending = Some(content);
    }

    /// Hands out the waiting content, if any, and empties the slot: content
    /// is delivered at most once.
    pub fn take(&mut self) -> (r: Option<PendingSidebar>)
        ensures
            r == old(self).held(),
            final(self).held() is None,
    {
        self.pending.take()
    }
}

/// The backdrop is captured unless the window already existed and is on
/// screen (it would capture itself).
pub fn should_capture_backdrop(window_existed: bool, visible: bool) -> (r: bool)
    ensures
        r == !(window_existed && visible),
{
    !(window_existed && visible)
}

/// The top-left corner of the sidebar: against the right edge, `gap` pixels
/// in, and above the taskbar, but never above the top of the screen.
pub open spec fn sidebar_origin_of(
    screen_w: int,
    screen_h: int,
    phys_w: int,
    phys_h: int,
    taskbar: int,
    gap: int,
) -> (int, int) {
    let y = screen_h - phys_h - taskbar - gap;
    (screen_w - phys_w - gap, if y < 0 { 0 } else { y })
}

/// Computes where the sidebar goes, all sizes in physical pixels (the
/// monitor's width and height are read as `i32`, as the window API takes
/// them).
pub fn sidebar_origin(
    screen_w: u32,
    screen_h: u32,
    phys_w: i32,
    phys_h: i32,
    taskbar: i32,
    gap: i32,
) -> (r: (i32, i32))
    requires
        i32::MIN <= (screen_w as i32) - phys_w <= i32::MAX,
        i32::MIN <= (screen_w as i32) - phys_w - gap <= i32::MAX,
        i32::MIN <= (screen_h as i32) - phys_h <= i32::MAX,
        i32::MIN <= (screen_h as i32) - phys_h - taskbar <= i32::MAX,
        i32::MIN <= (screen_h as i32) - phys_h - taskbar - gap <= i32::MAX,
    ensures
        (r.0 as int, r.1 as int) == sidebar_origin_of(
            screen_w as i32 as int,
            screen_h as i32 as int,
            phys_w as int,
            phys_h as int,
            taskbar as int,
            gap as int,
        ),
{
    let sw = screen_w as i32;
    let sh = screen_h as i32;
    let x = sw - phys_w - gap;
    let y = sh - phys_h - taskbar - gap;
    (x, if y < 0 { 0 } else { y })
}

/// A frame with this hash is sent, given the hash of the frame before it
/// (`None` right after a reset).
pub open spec fn frame_sent(last: Option<u64>, hash: u64) -> bool {
    match last {
        Some(prev) => prev != hash,
        None => true,
    }
}

/// The first frame after a reset is always sent; a frame identical to the one
/// before it never is, and one that differs always is.
pub proof fn law_frames_sent_on_change(prev: u64, hash: u64)
    ensures
        frame_sent(None, hash),
        !frame_sent(Some(hash), hash),
        prev != hash ==> frame_sent(Some(prev), hash),
{
}

/// Remembers the hash of the last captured frame behind the sidebar, so the
/// expensive blur is only redone when the background changed.
pub struct FrameChangeDetector {
    last: Option<u64>,
}

impl FrameChangeDetector {
    /// The hash of the last frame seen since the last reset.
    pub closed spec fn last_seen(&self) -> Option<u64> {
        self.last
    }

    /// A detector that has seen no frame.
    pub fn new() -> (r: Self)
        ensures
            r.last_seen() is None,
    {
        FrameChangeDetector { last: None }
    }

    /// Records a frame's hash and says whether it should be sent: the first
    /// frame after a reset always is, later ones only when they differ from
    /// the one before.
    pub fn observe(&mut self, hash: u64) -> (send: bool)
        ensures
            send == frame_sent(old(self).last_seen(), hash),
            final(self).last_seen() == Some(hash),
    {
        let send = match self.last {
            Some(prev) => prev != hash,
            None => true,
        };
        self.last = Some(hash);
        send
    }

    /// Forgets the last frame, so that the next one is sent.
    pub fn reset(&mut self)
        ensures
            final(self).last_seen() is None,
    {
        self.last = None;
    }
}

} // verus!
