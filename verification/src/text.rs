//! Names as they are given on a command line.

use vstd::prelude::*;
use vstd::string::StrSliceExecFns;
use crate::renderer::ColorMode;
use crate::waffle::Size;

verus! {

/// Whether two strings hold the same characters.
pub fn same_text(a: &str, b: &str) -> (same: bool)
    ensures
        same == (a@ == b@),
{
    let n: usize = a.unicode_len();
    if n != b.unicode_len() {
        return false;
    }
    let mut i: usize = 0;
    while i < n
        invariant
            i <= n,
            n == a@.len(),
            n == b@.len(),
            forall|k: int| 0 <= k < i ==> a@[k] == b@[k],
        decreases n - i,
    {
        if a.get_char(i) != b.get_char(i) {
            return false;
        }
        i += 1;
    }
    proof {
        assert(a@ =~= b@);
    }
    true
}

/// The size that a name stands for: `small`, `large`, and medium for
/// every other name.
pub open spec fn size_named(name: Seq<char>) -> Size {
    if name == "small"@ {
        Size::Small
    } else if name == "large"@ {
        Size::Large
    } else {
        Size::Medium
    }
}

/// The colour mode that a name stands for: `rainbow`, `fire`, and normal
/// for every other name.
pub open spec fn color_mode_named(name: Seq<char>) -> ColorMode {
    if name == "rainbow"@ {
        ColorMode::Rainbow
    } else if name == "fire"@ {
        ColorMode::Fire
    } else {
        ColorMode::Normal
    }
}

impl Size {
    /// The size that a name stands for.
    pub fn from_name(name: &str) -> (size: Size)
        ensures
            size == size_named(name@),
    {
        if same_text(name, "small") {
            Size::Small
        } else if same_text(name, "large") {
            Size::Large
        } else {
            Size::Medium
        }
    }
}

impl ColorMode {
    /// The colour mode that a name stands for.
    pub fn from_name(name: &str) -> (mode: ColorMode)
        ensures
            mode == color_mode_named(name@),
    {
        if same_text(name, "rainbow") {
            ColorMode::Rainbow
        } else if same_text(name, "fire") {
            ColorMode::Fire
        } else {
            ColorMode::Normal
        }
    }
}

} // verus!
