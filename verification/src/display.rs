//! Display enumeration model.
//!
//! Displays have no durable identity across the platform's display APIs other
//! than the order in which an enumeration pass reports them, so a display id
//! is defined purely as a 0-based position in that order. The platform walk
//! itself is I/O and happens outside the library; callers hand in the ordered
//! list of bounding rectangles it produced.

use vstd::prelude::*;

verus! {

/// A display's bounding rectangle in virtual-screen pixel coordinates.
///
/// A physically meaningful rectangle has `right > left` and `bottom > top`.
#[derive(Clone, Copy, PartialEq, Eq, Structural, Debug)]
pub struct DisplayRect {
    pub left: u32,
    pub top: u32,
    pub right: u32,
    pub bottom: u32,
}

impl DisplayRect {
    /// A rectangle is well formed when both axes have positive extent.
    pub open spec fn well_formed(self) -> bool {
        self.right > self.left && self.bottom > self.top
    }

    /// Width in pixels of a well-formed rectangle.
    pub open spec fn spec_width(self) -> int {
        self.right - self.left
    }

    /// Height in pixels of a well-formed rectangle.
    pub open spec fn spec_height(self) -> int {
        self.bottom - self.top
    }

    /// Width in pixels.
    pub fn width(&self) -> (w: u32)
        requires
            self.well_formed(),
        ensures
            w == self.spec_width(),
    {
        self.right - self.left
    }

    /// Height in pixels.
    pub fn height(&self) -> (h: u32)
        requires
            self.well_formed(),
        ensures
            h == self.spec_height(),
    {
        self.bottom - self.top
    }
}

/// The position of the first occurrence of `r` in `s`, if any.
pub open spec fn spec_index_of(s: Seq<DisplayRect>, r: DisplayRect) -> Option<int>
    decreases s.len(),
{
    if s.len() == 0 {
        None
    } else if s[0] == r {
        Some(0)
    } else {
        match spec_index_of(s.skip(1), r) {
            Some(i) => Some(i + 1),
            None => None,
        }
    }
}

/// The first occurrence really is an occurrence, lies before every other
/// occurrence, and exists exactly when `r` occurs in `s` at all.
pub proof fn lemma_spec_index_of(s: Seq<DisplayRect>, r: DisplayRect)
    ensures
        match spec_index_of(s, r) {
            Some(i) => 0 <= i < s.len() && s[i] == r && forall|j: int| 0 <= j < i ==> s[j] != r,
            None => forall|j: int| 0 <= j < s.len() ==> s[j] != r,
        },
    decreases s.len(),
{
    if s.len() > 0 && s[0] != r {
        let sub = s.skip(1);
        lemma_spec_index_of(sub, r);
        assert(forall|j: int| 0 <= j < sub.len() ==> sub[j] == s[j + 1]);
        match spec_index_of(sub, r) {
            Some(i) => {
                assert(sub[i] == r);
                assert forall|j: int| 0 <= j < i + 1 implies s[j] != r by {
                    if j > 0 {
                        assert(sub[j - 1] != r);
                    }
                }
            },
            None => {
                assert forall|j: int| 0 <= j < s.len() implies s[j] != r by {
                    if j > 0 {
                        assert(sub[j - 1] != r);
                    }
                }
            },
        }
    }
}

/// Resolves a display id to that display's bounding rectangle: a lookup in
/// the canonical enumeration order, absent when the id is out of range.
pub fn rect_for_display(displays: &Vec<DisplayRect>, display_id: u32) -> (r: Option<DisplayRect>)
    ensures
        display_id < displays@.len() ==> r == Some(displays@[display_id as int]),
        display_id >= displays@.len() ==> r is None,
{
    if (display_id as usize) < displays.len() {
        Some(displays[display_id as usize])
    } else {
        None
    }
}

/// Given the enumeration order and the bounding rectangle of the display that
/// hosts the focused window, reports that display's id, width and height.
///
/// Absent when no display was resolved for the focused window, when the
/// resolved rectangle does not appear in the enumeration, or when it is
/// degenerate (no positive extent on some axis).
pub fn get_focused_display_info(displays: &Vec<DisplayRect>, focused: Option<DisplayRect>) -> (r:
    Option<(u32, u32, u32)>)
    requires
        displays@.len() <= u32::MAX,
    ensures
        match focused {
            None => r is None,
            Some(rect) => match spec_index_of(displays@, rect) {
                Some(i) => if rect.well_formed() {
                    r == Some(
                        (i as u32, rect.spec_width() as u32, rect.spec_height() as u32),
                    )
                } else {
                    r is None
                },
                None => r is None,
            },
        },
{
    let rect = match focused {
        Some(rect) => rect,
        None => {
            return None;
        },
    };
    proof {
        lemma_spec_index_of(displays@, rect);
    }
    let mut i: usize = 0;
    while i < displays.len()
        invariant
            focused == Some(rect),
            i <= displays@.len(),
            displays@.len() <= u32::MAX,
            forall|j: int| 0 <= j < i ==> displays@[j] != rect,
            spec_index_of(displays@, rect) matches Some(k) ==> 0 <= k < displays@.len()
                && displays@[k] == rect && (forall|j: int| 0 <= j < k ==> displays@[j] != rect),
            spec_index_of(displays@, rect) is None ==> forall|j: int|
                0 <= j < displays@.len() ==> displays@[j] != rect,
        decreases displays@.len() - i,
    {
        if displays[i] == rect {
            proof {
                let idx = spec_index_of(displays@, rect);
                if idx is None {
                    assert(displays@[i as int] != rect);
                }
                let k = idx->Some_0;
                if k < i {
                    assert(displays@[k] != rect);
                }
                if k > i {
                    assert(displays@[i as int] != rect);
                }
            }
            if rect.right > rect.left && rect.bottom > rect.top {
                return Some((i as u32, rect.width(), rect.height()));
            } else {
                return None;
            }
        }
        i += 1;
    }
    proof {
        let idx = spec_index_of(displays@, rect);
        if idx is Some {
            assert(displays@[idx->Some_0] != rect);
        }
    }
    None
}

} // verus!
