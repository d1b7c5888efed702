//! The normalized monitor model shared by every compositor backend.

use vstd::prelude::*;

verus! {

/// Physical rotation of a monitor, as reported by the compositor.
///
/// The set of variants is closed: a transform outside this table is a
/// reported error at the backend boundary, never a silent default.
#[derive(Clone, Copy, Debug, PartialEq, Eq, Structural)]
pub enum Rotation {
    Normal,
    /// Rotated 90 degrees clockwise.
    Normal90,
    /// Rotated 180 degrees.
    Normal180,
    /// Rotated 90 degrees anti-clockwise.
    Normal270,
    /// Flipped horizontally.
    Flipped,
    /// Flipped and rotated clockwise.
    Flipped90,
    /// Flipped and rotated 180 degrees.
    Flipped180,
    /// Flipped and rotated anti-clockwise.
    Flipped270,
}

/// The encoder filter stage that reorients a frame captured from a monitor
/// with the given rotation; empty exactly for `Rotation::Normal`.
pub open spec fn transpose_spec(r: Rotation) -> Seq<char> {
    match r {
        Rotation::Normal => ""@,
        Rotation::Normal90 => "transpose=1"@,
        Rotation::Normal270 => "transpose=2"@,
        Rotation::Normal180 => "transpose=1,transpose=1"@,
        Rotation::Flipped => "hflip"@,
        Rotation::Flipped90 => "transpose=0"@,
        Rotation::Flipped270 => "transpose=3"@,
        Rotation::Flipped180 => "hflip,transpose=1,transpose=1"@,
    }
}

impl Rotation {
    /// The transpose / flip filter stage for this rotation.
    pub fn ffmpeg_transpose(&self) -> (r: String)
        ensures
            r@ == transpose_spec(*self),
    {
        match self {
            Rotation::Normal => String::from_str(""),
            Rotation::Normal90 => String::from_str("transpose=1"),
            Rotation::Normal270 => String::from_str("transpose=2"),
            Rotation::Normal180 => String::from_str("transpose=1,transpose=1"),
            Rotation::Flipped => String::from_str("hflip"),
            Rotation::Flipped90 => String::from_str("transpose=0"),
            Rotation::Flipped270 => String::from_str("transpose=3"),
            Rotation::Flipped180 => String::from_str("hflip,transpose=1,transpose=1"),
        }
    }
}

/// Failure to obtain a normalized monitor model from a compositor backend.
#[derive(Debug, Clone, Copy, PartialEq, Eq, Structural)]
pub enum QueryFailure {
    /// A transform outside the closed rotation table was reported.
    UnsupportedTransform,
    /// No monitor reported itself focused.
    NoFocusedMonitor,
    /// A monitor reported no current mode.
    NoCurrentMode,
    /// The monitor is disabled and has no logical geometry.
    MonitorDisabled,
}

/// The rotation a compositor's transform name denotes, if any: the eight
/// names of the closed table and nothing else.
pub open spec fn rotation_of_name(s: Seq<char>) -> Option<Rotation> {
    if s == "normal"@ {
        Option::Some(Rotation::Normal)
    } else if s == "90"@ {
        Option::Some(Rotation::Normal90)
    } else if s == "180"@ {
        Option::Some(Rotation::Normal180)
    } else if s == "270"@ {
        Option::Some(Rotation::Normal270)
    } else if s == "flipped"@ {
        Option::Some(Rotation::Flipped)
    } else if s == "flipped-90"@ {
        Option::Some(Rotation::Flipped90)
    } else if s == "flipped-180"@ {
        Option::Some(Rotation::Flipped180)
    } else if s == "flipped-270"@ {
        Option::Some(Rotation::Flipped270)
    } else {
        Option::None
    }
}

impl Rotation {
    /// Maps a compositor's transform name onto the rotation table; a name
    /// outside the table yields `None` and is reported, never defaulted.
    pub fn from_name(s: &str) -> (r: Option<Rotation>)
        ensures
            r == rotation_of_name(s@),
    {
        if crate::strutil::str_eq(s, "normal") {
            Some(Rotation::Normal)
        } else if crate::strutil::str_eq(s, "90") {
            Some(Rotation::Normal90)
        } else if crate::strutil::str_eq(s, "180") {
            Some(Rotation::Normal180)
        } else if crate::strutil::str_eq(s, "270") {
            Some(Rotation::Normal270)
        } else if crate::strutil::str_eq(s, "flipped") {
            Some(Rotation::Flipped)
        } else if crate::strutil::str_eq(s, "flipped-90") {
            Some(Rotation::Flipped90)
        } else if crate::strutil::str_eq(s, "flipped-180") {
            Some(Rotation::Flipped180)
        } else if crate::strutil::str_eq(s, "flipped-270") {
            Some(Rotation::Flipped270)
        } else {
            None
        }
    }
}

/// A monitor in desktop logical space.
///
/// `scale_mil` is the device pixel ratio in thousandths: 1000 stands for a
/// ratio of exactly 1.
#[derive(Clone, Debug, PartialEq)]
pub struct FocalMonitor {
    pub name: String,
    pub x: i32,
    pub y: i32,
    pub w: i32,
    pub h: i32,
    pub scale_mil: u32,
    pub rotation: Rotation,
}

impl FocalMonitor {
    /// A geometrically sane monitor: non-negative size, bounding box within
    /// the coordinate type, and a positive, bounded scale.
    pub open spec fn wf(&self) -> bool {
        &&& 0 <= self.w
        &&& 0 <= self.h
        &&& self.x + self.w <= i32::MAX
        &&& self.y + self.h <= i32::MAX
        &&& 0 < self.scale_mil <= 100_000
    }
}

/// Width of the bounding box of all monitors: the maximum of `x + w`,
/// starting from 0.
pub open spec fn total_w(mons: Seq<FocalMonitor>) -> int
    decreases mons.len(),
{
    if mons.len() == 0 {
        0
    } else {
        let prev = total_w(mons.drop_last());
        let last = mons.last().x + mons.last().w;
        if last > prev {
            last
        } else {
            prev
        }
    }
}

/// Height of the bounding box of all monitors: the maximum of `y + h`,
/// starting from 0.
pub open spec fn total_h(mons: Seq<FocalMonitor>) -> int
    decreases mons.len(),
{
    if mons.len() == 0 {
        0
    } else {
        let prev = total_h(mons.drop_last());
        let last = mons.last().y + mons.last().h;
        if last > prev {
            last
        } else {
            prev
        }
    }
}

/// Total dimensions across all monitors: the far corner of their common
/// bounding box, measured from the desktop origin.
pub fn total_dimensions(monitors: &Vec<FocalMonitor>) -> (r: (i32, i32))
    requires
        forall|i: int| 0 <= i < monitors@.len() ==> (#[trigger] monitors@[i]).wf(),
    ensures
        r.0 == total_w(monitors@),
        r.1 == total_h(monitors@),
{
    let mut w: i32 = 0;
    let mut h: i32 = 0;
    let mut i: usize = 0;
    while i < monitors.len()
        invariant
            0 <= i <= monitors@.len(),
            forall|k: int| 0 <= k < monitors@.len() ==> (#[trigger] monitors@[k]).wf(),
            w == total_w(monitors@.take(i as int)),
            h == total_h(monitors@.take(i as int)),
        decreases monitors@.len() - i,
    {
        let mon = &monitors[i];
        let xw = mon.x + mon.w;
        let yh = mon.y + mon.h;
        if xw > w {
            w = xw;
        }
        if yh > h {
            h = yh;
        }
        proof {
            assert(monitors@.take(i + 1 as int).drop_last() =~= monitors@.take(i as int));
        }
        i = i + 1;
    }
    proof {
        assert(monitors@.take(monitors@.len() as int) =~= monitors@);
    }
    (w, h)
}

} // verus!
