//! The generic wlroots backend: a JSON mode/output enumeration for monitor
//! geometry, combined with a line-oriented query for the focused monitor.

use vstd::prelude::*;

use crate::monitor::FocalMonitor;
use crate::monitor::QueryFailure;
use crate::monitor::Rotation;
use crate::monitor::rotation_of_name;
use crate::slurp::SlurpGeom;
use crate::strutil::is_suffix_of;
use crate::strutil::span_ends_with;
use crate::strutil::str_eq;

verus! {

/// One display mode of an output.
#[derive(Debug, Clone, Copy, PartialEq, Eq, Structural)]
pub struct Mode {
    pub width: i32,
    pub height: i32,
    pub current: bool,
}

/// An output's position in desktop logical space.
#[derive(Debug, Clone, Copy, PartialEq, Eq, Structural)]
pub struct Position {
    pub x: i32,
    pub y: i32,
}

/// An output as the JSON-emitting enumeration reports it.
#[derive(Debug)]
pub struct WlrMonitor {
    pub name: String,
    pub enabled: bool,
    pub modes: Vec<Mode>,
    pub position: Position,
    pub transform: String,
    pub scale_mil: u32,
}

/// Index of the first mode at or after `i` that is current, or the length
/// of the list.
pub open spec fn find_current_mode_from(modes: Seq<Mode>, i: int) -> int
    decreases modes.len() - i,
{
    if i < 0 || i >= modes.len() {
        i
    } else if modes[i].current {
        i
    } else {
        find_current_mode_from(modes, i + 1)
    }
}

/// The normalized monitor an output denotes: its current mode gives the
/// size; no current mode, or a transform name outside the rotation table,
/// is fatal.
pub open spec fn wlr_monitor_spec(m: WlrMonitor) -> Result<FocalMonitor, QueryFailure> {
    let j = find_current_mode_from(m.modes@, 0);
    if j < m.modes@.len() {
        match rotation_of_name(m.transform@) {
            Option::Some(rot) => Result::Ok(
                FocalMonitor {
                    name: m.name,
                    x: m.position.x,
                    y: m.position.y,
                    w: m.modes@[j].width,
                    h: m.modes@[j].height,
                    scale_mil: m.scale_mil,
                    rotation: rot,
                },
            ),
            Option::None => Result::Err(QueryFailure::UnsupportedTransform),
        }
    } else {
        Result::Err(QueryFailure::NoCurrentMode)
    }
}

/// The enabled outputs normalized, in order; the first failure wins.
pub open spec fn mango_all_spec(mons: Seq<WlrMonitor>) -> Result<Seq<FocalMonitor>, QueryFailure>
    decreases mons.len(),
{
    if mons.len() == 0 {
        Result::Ok(Seq::empty())
    } else {
        match mango_all_spec(mons.drop_last()) {
            Result::Err(e) => Result::Err(e),
            Result::Ok(ms) => if !mons.last().enabled {
                Result::Ok(ms)
            } else {
                match wlr_monitor_spec(mons.last()) {
                    Result::Ok(m) => Result::Ok(ms + seq![m]),
                    Result::Err(e) => Result::Err(e),
                }
            },
        }
    }
}

proof fn lemma_mango_all_err(mons: Seq<WlrMonitor>, i: int, e: QueryFailure)
    requires
        0 <= i < mons.len(),
        mango_all_spec(mons.take(i)) is Ok,
        mons[i].enabled,
        wlr_monitor_spec(mons[i]) == Result::Err::<FocalMonitor, QueryFailure>(e),
    ensures
        mango_all_spec(mons) == Result::Err::<Seq<FocalMonitor>, QueryFailure>(e),
    decreases mons.len(),
{
    if i == mons.len() - 1 {
        assert(mons.drop_last() =~= mons.take(i));
    } else {
        assert(mons.drop_last().take(i) =~= mons.take(i));
        assert(mons.drop_last()[i] == mons[i]);
        lemma_mango_all_err(mons.drop_last(), i, e);
    }
}

/// First newline at or after `i`, or the end of the text.
pub open spec fn line_end(s: Seq<char>, i: int) -> int
    decreases s.len() - i,
{
    if i < 0 || i >= s.len() {
        i
    } else if s[i] == '\n' {
        i
    } else {
        line_end(s, i + 1)
    }
}

pub proof fn lemma_line_end(s: Seq<char>, i: int)
    requires
        0 <= i <= s.len(),
    ensures
        i <= line_end(s, i) <= s.len(),
        line_end(s, i) < s.len() ==> s[line_end(s, i)] == '\n',
    decreases s.len() - i,
{
    if i < s.len() && s[i] != '\n' {
        lemma_line_end(s, i + 1);
    }
}

/// A line with any trailing carriage return removed.
pub open spec fn strip_cr(t: Seq<char>) -> Seq<char> {
    if t.len() > 0 && t.last() == '\r' {
        t.drop_last()
    } else {
        t
    }
}

/// The lines of a text, split on newlines, each without its trailing
/// carriage return; a trailing newline ends the last line rather than
/// opening an empty one.
pub open spec fn lines_from(s: Seq<char>, i: int) -> Seq<Seq<char>>
    decreases s.len() - i,
    when 0 <= i <= s.len()
    via lines_from_decreases
{
    if i >= s.len() {
        Seq::empty()
    } else {
        let e = line_end(s, i);
        if e >= s.len() {
            seq![strip_cr(s.subrange(i, e))]
        } else {
            seq![strip_cr(s.subrange(i, e))] + lines_from(s, e + 1)
        }
    }
}

#[via_fn]
proof fn lines_from_decreases(s: Seq<char>, i: int) {
    if i < s.len() {
        lemma_line_end(s, i);
    }
}

/// First space at or after `i`, or the end of the line.
pub open spec fn space_pos(t: Seq<char>, i: int) -> int
    decreases t.len() - i,
{
    if i < 0 || i >= t.len() {
        i
    } else if t[i] == ' ' {
        i
    } else {
        space_pos(t, i + 1)
    }
}

pub proof fn lemma_space_pos(t: Seq<char>, i: int)
    requires
        0 <= i <= t.len(),
    ensures
        i <= space_pos(t, i) <= t.len(),
    decreases t.len() - i,
{
    if i < t.len() && t[i] != ' ' {
        lemma_space_pos(t, i + 1);
    }
}

/// The part of a line before its first space: the output name in the
/// focused-output listing.
pub open spec fn first_word(t: Seq<char>) -> Seq<char> {
    t.subrange(0, space_pos(t, 0))
}

/// The marker suffix that flags the focused output's line.
pub open spec fn selmon_marker() -> Seq<char> {
    "selmon 1"@
}

/// Index of the first line at or after `i` carrying the marker suffix, or
/// the length of the list.
pub open spec fn find_selmon_from(ls: Seq<Seq<char>>, i: int) -> int
    decreases ls.len() - i,
{
    if i < 0 || i >= ls.len() {
        i
    } else if is_suffix_of(selmon_marker(), ls[i]) {
        i
    } else {
        find_selmon_from(ls, i + 1)
    }
}

/// The focused output's name, if the listing flags one: the first word of
/// the first line ending in the marker.
pub open spec fn mmsg_selmon_name(out: Seq<char>) -> Option<Seq<char>> {
    let ls = lines_from(out, 0);
    let k = find_selmon_from(ls, 0);
    if k < ls.len() {
        Option::Some(first_word(ls[k]))
    } else {
        Option::None
    }
}

/// Index of the first monitor at or after `i` bearing the name, or the
/// length of the list.
pub open spec fn find_name_from(ms: Seq<FocalMonitor>, name: Seq<char>, i: int) -> int
    decreases ms.len() - i,
{
    if i < 0 || i >= ms.len() {
        i
    } else if ms[i].name@ == name {
        i
    } else {
        find_name_from(ms, name, i + 1)
    }
}

/// Scans to the end of the line starting at `i`.
fn line_end_exec(s: &str, i: usize, n: usize) -> (e: usize)
    requires
        n == s@.len(),
        i <= n,
    ensures
        e == line_end(s@, i as int),
        i <= e <= n,
{
    let mut j: usize = i;
    while j < n
        invariant
            i <= j <= n == s@.len(),
            line_end(s@, i as int) == line_end(s@, j as int),
        decreases n - j,
    {
        if s.get_char(j) == '\n' {
            return j;
        }
        j = j + 1;
    }
    j
}

/// Scans to the first space in `s[i..e]`.
fn space_pos_exec(s: &str, i: usize, e: usize) -> (w: usize)
    requires
        i <= e <= s@.len(),
    ensures
        i <= w <= e,
        w - i == space_pos(s@.subrange(i as int, e as int), 0),
{
    let ghost t = s@.subrange(i as int, e as int);
    let mut j: usize = i;
    while j < e
        invariant
            i <= j <= e <= s@.len(),
            t == s@.subrange(i as int, e as int),
            space_pos(t, 0) == space_pos(t, j - i),
        decreases e - j,
    {
        proof {
            assert(t[j - i] == s@[j as int]);
        }
        if s.get_char(j) == ' ' {
            return j;
        }
        j = j + 1;
    }
    j
}

/// The generic wlroots backend.
pub struct MangoMonitors;

fn to_focal_monitor(m: &WlrMonitor) -> (r: Result<FocalMonitor, QueryFailure>)
    ensures
        r == wlr_monitor_spec(*m),
{
    let n = m.modes.len();
    let mut idx: usize = 0;
    while idx < n
        invariant
            0 <= idx <= n == m.modes@.len(),
            find_current_mode_from(m.modes@, 0) == find_current_mode_from(m.modes@, idx as int),
        ensures
            idx <= n,
            find_current_mode_from(m.modes@, 0) == idx as int,
        decreases n - idx,
    {
        if m.modes[idx].current {
            break ;
        }
        idx = idx + 1;
    }
    if idx >= n {
        return Err(QueryFailure::NoCurrentMode);
    }
    let mode = m.modes[idx];
    match Rotation::from_name(m.transform.as_str()) {
        Some(rot) => Ok(
            FocalMonitor {
                name: m.name.clone(),
                x: m.position.x,
                y: m.position.y,
                w: mode.width,
                h: mode.height,
                scale_mil: m.scale_mil,
                rotation: rot,
            },
        ),
        None => Err(QueryFailure::UnsupportedTransform),
    }
}

impl MangoMonitors {
    /// Normalizes the enabled outputs; a missing current mode or an
    /// unknown transform name on any of them is fatal for the query.
    pub fn all(monitors: &Vec<WlrMonitor>) -> (r: Result<Vec<FocalMonitor>, QueryFailure>)
        ensures
            match r {
                Ok(ms) => mango_all_spec(monitors@) == Result::Ok::<Seq<FocalMonitor>,
                    QueryFailure,
                >(ms@),
                Err(e) => mango_all_spec(monitors@) == Result::Err::<Seq<FocalMonitor>,
                    QueryFailure,
                >(e),
            },
    {
        let mut acc: Vec<FocalMonitor> = Vec::new();
        let mut i: usize = 0;
        while i < monitors.len()
            invariant
                0 <= i <= monitors@.len(),
                mango_all_spec(monitors@.take(i as int)) == Result::Ok::<Seq<FocalMonitor>,
                    QueryFailure,
                >(acc@),
            decreases monitors@.len() - i,
        {
            let m = &monitors[i];
            proof {
                assert(monitors@.take(i + 1 as int).drop_last() =~= monitors@.take(i as int));
                assert(monitors@.take(i + 1 as int).last() == monitors@[i as int]);
            }
            let ghost old_acc = acc@;
            if m.enabled {
                match to_focal_monitor(m) {
                    Ok(fm) => {
                        acc.push(fm);
                        proof {
                            assert(acc@ =~= old_acc + seq![fm]);
                        }
                    },
                    Err(e) => {
                        proof {
                            lemma_mango_all_err(monitors@, i as int, e);
                        }
                        return Err(e);
                    },
                }
            }
            proof {
                assert(mango_all_spec(monitors@.take(i + 1 as int)) == Result::Ok::<
                    Seq<FocalMonitor>,
                    QueryFailure,
                >(acc@));
            }
            i = i + 1;
        }
        proof {
            assert(monitors@.take(monitors@.len() as int) =~= monitors@);
        }
        Ok(acc)
    }

    /// Determines the focused monitor: the line-oriented listing flags its
    /// line with a marker suffix and opens it with the output's name, which
    /// is then looked up among the normalized outputs. A listing without
    /// the marker, or a name matching no output, is fatal for the query.
    pub fn focused(monitors: &Vec<WlrMonitor>, mmsg_output: &str) -> (r: Result<
        FocalMonitor,
        QueryFailure,
    >)
        ensures
            match mmsg_selmon_name(mmsg_output@) {
                Option::None => r == Err::<FocalMonitor, QueryFailure>(
                    QueryFailure::NoFocusedMonitor,
                ),
                Option::Some(nm) => match mango_all_spec(monitors@) {
                    Result::Err(e) => r == Err::<FocalMonitor, QueryFailure>(e),
                    Result::Ok(ms) => {
                        let j = find_name_from(ms, nm, 0);
                        if j < ms.len() {
                            r == Ok::<FocalMonitor, QueryFailure>(ms[j])
                        } else {
                            r == Err::<FocalMonitor, QueryFailure>(QueryFailure::NoFocusedMonitor)
                        }
                    },
                },
            },
    {
        let n = mmsg_output.unicode_len();
        let ghost ls = lines_from(mmsg_output@, 0);
        let ghost mut k: int = 0;
        let mut i: usize = 0;
        loop
            invariant_except_break
                ls.skip(k) == lines_from(mmsg_output@, i as int),
            invariant
                0 <= i <= n == mmsg_output@.len(),
                ls == lines_from(mmsg_output@, 0),
                0 <= k <= ls.len(),
                find_selmon_from(ls, 0) == find_selmon_from(ls, k),
            ensures
                k == ls.len(),
                find_selmon_from(ls, 0) == ls.len(),
            decreases n - i,
        {
            if i >= n {
                proof {
                    assert(ls.skip(k).len() == 0);
                    assert(k == ls.len());
                }
                break ;
            }
            let e = line_end_exec(mmsg_output, i, n);
            proof {
                lemma_line_end(mmsg_output@, i as int);
            }
            let e2: usize = if e > i && mmsg_output.get_char(e - 1) == '\r' {
                e - 1
            } else {
                e
            };
            let ghost line = strip_cr(mmsg_output@.subrange(i as int, e as int));
            proof {
                if e > i && mmsg_output@[e - 1] == '\r' {
                    assert(mmsg_output@.subrange(i as int, e as int).drop_last() =~= mmsg_output@.subrange(
                        i as int,
                        e - 1,
                    ));
                }
                assert(line =~= mmsg_output@.subrange(i as int, e2 as int));
                if e >= n {
                    assert(lines_from(mmsg_output@, i as int) == seq![line]);
                } else {
                    assert(lines_from(mmsg_output@, i as int) == seq![line] + lines_from(mmsg_output@, e + 1 as int));
                }
                assert(ls.skip(k).len() == ls.len() - k);
                assert(k < ls.len());
                assert(ls.skip(k)[0] == line);
                assert(ls[k] == ls.skip(k)[0]);
                assert(ls[k] == line);
            }
            if span_ends_with(mmsg_output, i, e2, "selmon 1") {
                proof {
                    assert(find_selmon_from(ls, k) == k);
                }
                let w = space_pos_exec(mmsg_output, i, e2);
                let name = String::from_str(mmsg_output.substring_char(i, w));
                proof {
                    lemma_space_pos(line, 0);
                    assert forall|q: int| 0 <= q < w - i implies mmsg_output@.subrange(i as int, w as int)[q]
                        == first_word(line)[q] by {
                        assert(mmsg_output@.subrange(i as int, w as int)[q] == mmsg_output@[i + q]);
                        assert(first_word(line)[q] == line[q]);
                        assert(line[q] == mmsg_output@[i + q]);
                    }
                    assert(mmsg_output@.subrange(i as int, w as int) =~= first_word(line));
                    assert(mmsg_selmon_name(mmsg_output@) == Option::Some(name@));
                }
                let ms = match Self::all(monitors) {
                    Ok(ms) => ms,
                    Err(e) => {
                        return Err(e);
                    },
                };
                let mut j: usize = 0;
                let nm = ms.len();
                while j < nm
                    invariant
                        0 <= j <= nm == ms@.len(),
                        find_name_from(ms@, name@, 0) == find_name_from(ms@, name@, j as int),
                    ensures
                        j <= nm,
                        find_name_from(ms@, name@, 0) == j as int,
                    decreases nm - j,
                {
                    if str_eq(ms[j].name.as_str(), name.as_str()) {
                        break ;
                    }
                    j = j + 1;
                }
                if j >= nm {
                    return Err(QueryFailure::NoFocusedMonitor);
                }
                let m = &ms[j];
                return Ok(
                    FocalMonitor {
                        name: m.name.clone(),
                        x: m.x,
                        y: m.y,
                        w: m.w,
                        h: m.h,
                        scale_mil: m.scale_mil,
                        rotation: m.rotation,
                    },
                );
            }
            proof {
                assert(ls.skip(k + 1) =~= ls.skip(k).skip(1));
                if e < n {
                    assert(ls.skip(k).skip(1) =~= lines_from(mmsg_output@, e + 1 as int));
                } else {
                    assert(ls.skip(k).len() == 1);
                    assert(ls.skip(k + 1) =~= lines_from(mmsg_output@, n as int));
                }
                k = k + 1;
            }
            if e >= n {
                i = n;
            } else {
                i = e + 1;
            }
        }
        Err(QueryFailure::NoFocusedMonitor)
    }

    /// This backend exposes no per-window geometry: the empty list is its
    /// valid degraded answer, distinct from a failed query.
    pub fn window_geoms() -> (r: Vec<SlurpGeom>)
        ensures
            r@ == Seq::<SlurpGeom>::empty(),
    {
        Vec::new()
    }
}

} // verus!
