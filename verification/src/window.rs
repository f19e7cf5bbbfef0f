//! Window targets: the capturability filter and lookup by name.
//!
//! A window is described by what the OS reports about it — its text,
//! class, visibility, ancestry, styles and cloaking state. The
//! embedding enumerates top-level windows and probes these facts; every
//! decision about them is made here.

use vstd::prelude::*;

use crate::geometry::{CaptureBox, Point, Rect};
use crate::util::{chars_vec, contains_chars, lower_of, spec_contains, str_eq, to_lowercase};

verus! {

/// Style bit marking a disabled window.
pub const WS_DISABLED: i32 = 0x0800_0000;

/// Extended-style bit marking a tool window.
pub const WS_EX_TOOLWINDOW: i32 = 0x80;

/// Cloak-attribute value meaning the shell cloaked the window.
pub const DWM_CLOAKED_SHELL: u32 = 2;

/// What the OS reports about one window, probed at enumeration time.
#[derive(Clone, Copy, Debug, PartialEq, Eq, Structural)]
pub struct WindowFacts {
    /// Whether the window is visible.
    pub visible: bool,
    /// The shell window's handle at probe time.
    pub shell_handle: isize,
    /// The console window's handle at probe time.
    pub console_handle: isize,
    /// The window's top-level ancestor.
    pub root_handle: isize,
    /// The window's style bits.
    pub style: i32,
    /// The window's extended-style bits.
    pub ex_style: i32,
    /// The cloak attribute, when the OS could report it.
    pub cloaked: Option<u32>,
}

/// One window: its identity, text, class and probed facts.
#[derive(Clone, Debug)]
pub struct Window {
    /// The window's raw handle.
    pub handle: isize,
    /// The window's title text.
    pub title: String,
    /// The window's class name.
    pub class_name: String,
    /// What the OS reported about it.
    pub facts: WindowFacts,
}

impl Window {
    /// Package a window's identity, text and probed facts.
    pub fn new(handle: isize, title: String, class_name: String, facts: WindowFacts) -> (w: Self)
        ensures
            w.handle == handle,
            w.title == title,
            w.class_name == class_name,
            w.facts == facts,
    {
        Window { handle, title, class_name, facts }
    }

    /// Whether the window carries exactly this title and class name.
    pub open spec fn spec_matches_title_and_class_name(
        self,
        title: Seq<char>,
        class_name: Seq<char>,
    ) -> bool {
        self.title@ == title && self.class_name@ == class_name
    }

    /// Whether the window carries exactly this title and class name.
    pub fn matches_title_and_class_name(&self, title: &str, class_name: &str) -> (r: bool)
        ensures
            r == self.spec_matches_title_and_class_name(title@, class_name@),
    {
        str_eq(self.title.as_str(), title) && str_eq(self.class_name.as_str(), class_name)
    }

    /// The fixed set of (title, class) pairs that are known not to be
    /// capturable: the shell's task view, XAML island hosts and XAML
    /// popups.
    pub open spec fn spec_is_known_blocked_window(self) -> bool {
        ||| self.spec_matches_title_and_class_name(
            "Task View"@,
            "Windows.UI.Core.CoreWindow"@,
        )
        ||| self.spec_matches_title_and_class_name(
            "DesktopWindowXamlSource"@,
            "Windows.UI.Core.CoreWindow"@,
        )
        ||| self.spec_matches_title_and_class_name("PopupHost"@, "Xaml_WindowedPopupClass"@)
    }

    /// Whether the window matches one of the known-blocked pairs.
    pub fn is_known_blocked_window(&self) -> (r: bool)
        ensures
            r == self.spec_is_known_blocked_window(),
    {
        self.matches_title_and_class_name("Task View", "Windows.UI.Core.CoreWindow")
            || self.matches_title_and_class_name(
            "DesktopWindowXamlSource",
            "Windows.UI.Core.CoreWindow",
        ) || self.matches_title_and_class_name("PopupHost", "Xaml_WindowedPopupClass")
    }

    /// Whether the window is visible.
    pub fn is_visible(&self) -> (r: bool)
        ensures
            r == self.facts.visible,
    {
        self.facts.visible
    }

    /// Whether the window is the shell window.
    pub fn is_shell_window(&self) -> (r: bool)
        ensures
            r == (self.handle == self.facts.shell_handle),
    {
        self.handle == self.facts.shell_handle
    }

    /// Whether the window is the console window.
    pub fn is_console_window(&self) -> (r: bool)
        ensures
            r == (self.handle == self.facts.console_handle),
    {
        self.handle == self.facts.console_handle
    }

    /// The window's top-level ancestor.
    pub fn get_root(&self) -> (r: isize)
        ensures
            r == self.facts.root_handle,
    {
        self.facts.root_handle
    }

    /// Whether the window is its own top-level ancestor.
    pub fn is_top_level(&self) -> (r: bool)
        ensures
            r == (self.facts.root_handle == self.handle),
    {
        self.get_root() == self.handle
    }

    /// The window's style bits.
    pub fn get_style(&self) -> (r: i32)
        ensures
            r == self.facts.style,
    {
        self.facts.style
    }

    /// The window's extended-style bits.
    pub fn get_ex_style(&self) -> (r: i32)
        ensures
            r == self.facts.ex_style,
    {
        self.facts.ex_style
    }

    /// Whether the window is disabled.
    pub open spec fn spec_is_disabled(self) -> bool {
        self.facts.style & WS_DISABLED != 0
    }

    /// Whether the window is disabled.
    pub fn is_disabled(&self) -> (r: bool)
        ensures
            r == self.spec_is_disabled(),
    {
        self.get_style() & WS_DISABLED != 0
    }

    /// Whether the window carries the tool-window style.
    pub open spec fn spec_is_tooltip(self) -> bool {
        self.facts.ex_style & WS_EX_TOOLWINDOW != 0
    }

    /// Whether the window carries the tool-window style.
    pub fn is_tooltip(&self) -> (r: bool)
        ensures
            r == self.spec_is_tooltip(),
    {
        self.get_ex_style() & WS_EX_TOOLWINDOW != 0
    }

    /// Whether the class identifies the window as a UWP host.
    pub open spec fn spec_is_uwp_window(self) -> bool {
        self.class_name@ == "Windows.UI.Core.CoreWindow"@ || self.class_name@
            == "ApplicationFrameWindow"@
    }

    /// Whether the class identifies the window as a UWP host.
    pub fn is_uwp_window(&self) -> (r: bool)
        ensures
            r == self.spec_is_uwp_window(),
    {
        str_eq(self.class_name.as_str(), "Windows.UI.Core.CoreWindow") || str_eq(
            self.class_name.as_str(),
            "ApplicationFrameWindow",
        )
    }

    /// Whether the shell has cloaked the window.
    pub open spec fn spec_is_dwm_cloaked(self) -> bool {
        self.facts.cloaked == Some(DWM_CLOAKED_SHELL)
    }

    /// Whether the shell has cloaked the window: the cloak attribute
    /// was readable and reports shell cloaking.
    pub fn is_dwm_cloaked(&self) -> (r: bool)
        ensures
            r == self.spec_is_dwm_cloaked(),
    {
        match self.facts.cloaked {
            Some(v) => v == DWM_CLOAKED_SHELL,
            None => false,
        }
    }

    /// The capturability predicate: a window is capturable iff it is
    /// visible, is not the shell window, is not the console window, is
    /// its own top-level ancestor, is not disabled, does not carry the
    /// tool-window style, matches no known-blocked (title, class) pair,
    /// and — only when its class identifies it as a UWP host — is not
    /// cloaked by the shell.
    pub open spec fn spec_is_capturable(self) -> bool {
        &&& self.facts.visible
        &&& self.handle != self.facts.shell_handle
        &&& self.handle != self.facts.console_handle
        &&& self.facts.root_handle == self.handle
        &&& !self.spec_is_disabled()
        &&& !self.spec_is_tooltip()
        &&& !self.spec_is_known_blocked_window()
        &&& !(self.spec_is_uwp_window() && self.spec_is_dwm_cloaked())
    }

    /// Decide capturability from the window's probed facts.
    pub fn is_capturable(&self) -> (r: bool)
        ensures
            r == self.spec_is_capturable(),
    {
        if !self.is_visible() || self.is_shell_window() || self.is_console_window()
            || !self.is_top_level() || self.is_disabled() || self.is_tooltip()
            || self.is_known_blocked_window() {
            return false;
        }
        if self.is_uwp_window() && self.is_dwm_cloaked() {
            return false;
        }
        true
    }

    /// An owned copy with the same identity, text and facts.
    pub fn duplicate(&self) -> (r: Self)
        ensures
            r == *self,
    {
        Window {
            handle: self.handle,
            title: self.title.clone(),
            class_name: self.class_name.clone(),
            facts: self.facts,
        }
    }

    /// The subregion of a window's backend surface that covers its
    /// client area, computed from the geometry the OS reports: the
    /// window rectangle, the client rectangle, and the client origin in
    /// screen coordinates. The client column starts one pixel into the
    /// surface; the client row starts where the client origin falls
    /// below the window's top edge.
    pub fn get_client_box(&self, geom: &WindowGeometry) -> (b: CaptureBox)
        requires
            geom.client_rect.wf(),
            geom.client_origin.y >= geom.window_rect.top,
            1 + geom.client_rect.spec_width() <= u32::MAX,
            geom.client_origin.y - geom.window_rect.top + geom.client_rect.spec_height()
                <= u32::MAX,
        ensures
            b.left == 1,
            b.right == 1 + geom.client_rect.spec_width(),
            b.top == geom.client_origin.y - geom.window_rect.top,
            b.bottom == b.top + geom.client_rect.spec_height(),
            b.front == 0,
            b.back == 1,
            b.wf(),
    {
        let width = (geom.client_rect.right as i64 - geom.client_rect.left as i64) as u32;
        let height = (geom.client_rect.bottom as i64 - geom.client_rect.top as i64) as u32;
        let top = (geom.client_origin.y as i64 - geom.window_rect.top as i64) as u32;
        CaptureBox { left: 1, top, right: 1 + width, bottom: top + height, front: 0, back: 1 }
    }

    /// Find the first capturable window whose title contains the query,
    /// both compared lowercase.
    pub fn find_first(candidates: &Vec<Window>, window_name: &str) -> (r: Option<Window>)
        ensures
            ({
                let matching = candidates@.filter(
                    |w: Window| spec_selectable(w, window_name@),
                );
                match r {
                    Some(w) => matching.len() > 0 && w == matching[0],
                    None => matching.len() == 0,
                }
            }),
    {
        let mut found = find_by_name(candidates, window_name);
        if found.len() > 0 {
            Some(found.remove(0))
        } else {
            None
        }
    }
}

/// The geometry the OS reports for a window, from which its client
/// subregion is computed.
#[derive(Clone, Copy, Debug, PartialEq, Eq, Structural)]
pub struct WindowGeometry {
    /// The window's whole rectangle, in screen coordinates.
    pub window_rect: Rect,
    /// The client area, in client coordinates (origin zero).
    pub client_rect: Rect,
    /// The client area's origin, in screen coordinates.
    pub client_origin: Point,
}

/// Whether a window both passes the capturability filter and carries
/// the query in its title, compared lowercase.
pub open spec fn spec_selectable(w: Window, query: Seq<char>) -> bool {
    w.spec_is_capturable() && spec_contains(lower_of(w.title@), lower_of(query))
}

/// All capturable windows whose title contains the query, both compared
/// lowercase, in enumeration order.
pub fn find_by_name(candidates: &Vec<Window>, window_name: &str) -> (found: Vec<Window>)
    ensures
        found@ == candidates@.filter(|w: Window| spec_selectable(w, window_name@)),
{
    let ghost pred = |w: Window| spec_selectable(w, window_name@);
    let name_lower = to_lowercase(window_name);
    let needle = chars_vec(name_lower.as_str());
    let mut found: Vec<Window> = Vec::new();
    let mut i: usize = 0;
    while i < candidates.len()
        invariant
            i <= candidates@.len(),
            needle@ == lower_of(window_name@),
            pred == (|w: Window| spec_selectable(w, window_name@)),
            found@ == candidates@.take(i as int).filter(pred),
        decreases candidates@.len() - i,
    {
        let w = &candidates[i];
        if w.is_capturable() {
            let title_lower = to_lowercase(w.title.as_str());
            let hay = chars_vec(title_lower.as_str());
            if contains_chars(&hay, &needle) {
                found.push(w.duplicate());
            }
        }
        proof {
            reveal_with_fuel(Seq::<Window>::filter, 2);
            let prefix = candidates@.take(i as int);
            let next = candidates@.take(i + 1);
            assert(next.drop_last() =~= prefix);
            assert(next.last() == candidates@[i as int]);
            if pred(candidates@[i as int]) {
                assert(next.filter(pred) == prefix.filter(pred).push(candidates@[i as int]));
            } else {
                assert(next.filter(pred) == prefix.filter(pred));
            }
        }
        i = i + 1;
    }
    proof {
        assert(candidates@.take(candidates@.len() as int) =~= candidates@);
    }
    found
}

} // verus!
