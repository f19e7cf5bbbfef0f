//! Display (monitor) targets.
//!
//! The embedding enumerates monitors and reports each one's handle,
//! device name and virtual-screen rectangle; lookup by index and the
//! derived sizes and copy regions are decided here.

use vstd::prelude::*;

use crate::error::CaptureError;
use crate::geometry::{CaptureBox, Rect};

verus! {

/// One display: its identity, device name and virtual-screen bounds.
#[derive(Clone, Debug)]
pub struct Display {
    /// The monitor's raw handle.
    pub handle: isize,
    /// The monitor's device name.
    pub display_name: String,
    /// The monitor's rectangle in virtual-screen coordinates.
    pub monitor_rect: Rect,
}

impl Display {
    /// A display's bounds are well formed and fit the copy-region
    /// arithmetic.
    pub open spec fn wf(self) -> bool {
        &&& self.monitor_rect.wf()
        &&& self.monitor_rect.spec_width() <= u32::MAX
        &&& self.monitor_rect.spec_height() <= u32::MAX
    }

    /// Package a monitor's identity, name and bounds.
    pub fn new(handle: isize, display_name: String, monitor_rect: Rect) -> (d: Self)
        ensures
            d.handle == handle,
            d.display_name == display_name,
            d.monitor_rect == monitor_rect,
    {
        Display { handle, display_name, monitor_rect }
    }

    /// Index into the enumeration order: the display at the given
    /// index, or `TargetNotFound` when the index is out of range.
    pub fn find_by_id(mut displays: Vec<Display>, id: usize) -> (r: Result<Display, CaptureError>)
        ensures
            id < displays@.len() ==> r == Ok::<Display, CaptureError>(displays@[id as int]),
            id >= displays@.len() ==> r == Err::<Display, CaptureError>(
                CaptureError::TargetNotFound,
            ),
    {
        if id < displays.len() {
            Ok(displays.remove(id))
        } else {
            Err(CaptureError::TargetNotFound)
        }
    }

    /// The display's size in virtual-screen pixels.
    pub fn get_virtual_size(&self) -> (s: (i32, i32))
        requires
            self.monitor_rect.wf(),
            self.monitor_rect.spec_width() <= i32::MAX,
            self.monitor_rect.spec_height() <= i32::MAX,
        ensures
            s.0 == self.monitor_rect.spec_width(),
            s.1 == self.monitor_rect.spec_height(),
    {
        let w = (self.monitor_rect.right as i64 - self.monitor_rect.left as i64) as i32;
        let h = (self.monitor_rect.bottom as i64 - self.monitor_rect.top as i64) as i32;
        (w, h)
    }

    /// The subregion of a display's backend surface that is copied: its
    /// whole virtual rectangle.
    pub fn get_client_box(&self) -> (b: CaptureBox)
        requires
            self.wf(),
        ensures
            b.left == 0,
            b.right == self.monitor_rect.spec_width(),
            b.top == 0,
            b.bottom == self.monitor_rect.spec_height(),
            b.front == 0,
            b.back == 1,
            b.wf(),
    {
        let w = (self.monitor_rect.right as i64 - self.monitor_rect.left as i64) as u32;
        let h = (self.monitor_rect.bottom as i64 - self.monitor_rect.top as i64) as u32;
        CaptureBox { left: 0, top: 0, right: w, bottom: h, front: 0, back: 1 }
    }
}

} // verus!
