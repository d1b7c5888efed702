//! Selected screen regions: parsing and resolution to encoder crop filters.

use vstd::prelude::*;

use crate::monitor::FocalMonitor;
use crate::monitor::Rotation;
use crate::monitor::transpose_spec;
use crate::numstr::int_to_chars;
use crate::numstr::i32_to_string;
use crate::numstr::parse_i32_span;
use crate::numstr::token_int_val;
use crate::numstr::valid_int_chars;

verus! {

/// Failure to read a selection string.
#[derive(Debug)]
pub struct ParseError {
    pub message: String,
}

impl ParseError {
    /// A parse error carrying the given diagnostic.
    pub fn new(msg: &str) -> (r: Self)
        ensures
            r.message@ == msg@,
    {
        ParseError { message: String::from_str(msg) }
    }
}

/// A selected rectangle in absolute desktop logical coordinates.
#[derive(Debug, Clone, Copy, PartialEq, Eq, Structural)]
pub struct SlurpGeom {
    pub w: i32,
    pub h: i32,
    pub x: i32,
    pub y: i32,
}

/// Characters that separate the four tokens of a selection string.
pub open spec fn is_delim(c: char) -> bool {
    ||| c == ','
    ||| c == 'x'
    ||| c == ' '
    ||| c == '\t'
    ||| c == '\n'
    ||| c == '\r'
    ||| c == '\u{b}'
    ||| c == '\u{c}'
}

/// First position at or after `i` holding a delimiter, or the end of `s`.
pub open spec fn token_end(s: Seq<char>, i: int) -> int
    decreases s.len() - i,
{
    if i < 0 || i >= s.len() {
        i
    } else if is_delim(s[i]) {
        i
    } else {
        token_end(s, i + 1)
    }
}

/// First position at or after `i` holding a non-delimiter, or the end of `s`.
pub open spec fn run_end(s: Seq<char>, i: int) -> int
    decreases s.len() - i,
{
    if i < 0 || i >= s.len() {
        i
    } else if !is_delim(s[i]) {
        i
    } else {
        run_end(s, i + 1)
    }
}

pub proof fn lemma_token_end(s: Seq<char>, i: int)
    requires
        0 <= i <= s.len(),
    ensures
        i <= token_end(s, i) <= s.len(),
        forall|k: int| i <= k < token_end(s, i) ==> !is_delim(s[k]),
        token_end(s, i) < s.len() ==> is_delim(s[token_end(s, i)]),
    decreases s.len() - i,
{
    if i < s.len() && !is_delim(s[i]) {
        lemma_token_end(s, i + 1);
    }
}

pub proof fn lemma_run_end(s: Seq<char>, i: int)
    requires
        0 <= i <= s.len(),
    ensures
        i <= run_end(s, i) <= s.len(),
        forall|k: int| i <= k < run_end(s, i) ==> is_delim(s[k]),
        run_end(s, i) < s.len() ==> !is_delim(s[run_end(s, i)]),
    decreases s.len() - i,
{
    if i < s.len() && is_delim(s[i]) {
        lemma_run_end(s, i + 1);
    }
}

/// The tokens of `s` from position `i` on: maximal delimiter runs separate
/// tokens, and a delimiter run touching either end of the string contributes
/// an empty token there.
pub open spec fn split_from(s: Seq<char>, i: int) -> Seq<Seq<char>>
    decreases s.len() - i,
    when 0 <= i <= s.len()
    via split_from_decreases
{
    let e = token_end(s, i);
    if e >= s.len() {
        seq![s.subrange(i, e)]
    } else {
        seq![s.subrange(i, e)] + split_from(s, run_end(s, e))
    }
}

#[via_fn]
proof fn split_from_decreases(s: Seq<char>, i: int) {
    lemma_token_end(s, i);
    if token_end(s, i) < s.len() {
        lemma_run_end(s, token_end(s, i));
    }
}

/// The token sequence of a whole selection string.
pub open spec fn tokens_of(s: Seq<char>) -> Seq<Seq<char>> {
    split_from(s, 0)
}

/// Whether a token is an integer numeral whose value fits in `i32`.
pub open spec fn valid_i32_token(t: Seq<char>) -> bool {
    valid_int_chars(t) && i32::MIN <= token_int_val(t) <= i32::MAX
}

/// Whether every token of a token sequence is a fitting integer numeral.
pub open spec fn all_tokens_valid(toks: Seq<Seq<char>>) -> bool {
    forall|k: int| 0 <= k < toks.len() ==> valid_i32_token(#[trigger] toks[k])
}

/// The region a selection string denotes: defined exactly when the string
/// splits into four integer tokens, in the order x, y, w, h.
pub open spec fn parse_spec(s: Seq<char>) -> Option<SlurpGeom> {
    let toks = tokens_of(s);
    if toks.len() == 4 && all_tokens_valid(toks) {
        Some(
            SlurpGeom {
                x: token_int_val(toks[0]) as i32,
                y: token_int_val(toks[1]) as i32,
                w: token_int_val(toks[2]) as i32,
                h: token_int_val(toks[3]) as i32,
            },
        )
    } else {
        None
    }
}

/// Equivalent token sequences denote the same region: the parse result
/// depends on the tokens alone, never on which delimiters produced them.
pub proof fn lemma_parse_same_tokens(s1: Seq<char>, s2: Seq<char>)
    requires
        tokens_of(s1) == tokens_of(s2),
    ensures
        parse_spec(s1) == parse_spec(s2),
{
}

/// Whether a character separates selection-string tokens.
fn is_delim_exec(c: char) -> (b: bool)
    ensures
        b == is_delim(c),
{
    c == ',' || c == 'x' || c == ' ' || c == '\t' || c == '\n' || c == '\r' || c == '\u{b}'
        || c == '\u{c}'
}

/// Scans to the end of the token starting at `i`.
fn token_end_exec(s: &str, i: usize, n: usize) -> (e: usize)
    requires
        n == s@.len(),
        i <= n,
    ensures
        e == token_end(s@, i as int),
        i <= e <= n,
{
    let mut j: usize = i;
    while j < n
        invariant
            i <= j <= n == s@.len(),
            token_end(s@, i as int) == token_end(s@, j as int),
        decreases n - j,
    {
        let c = s.get_char(j);
        if is_delim_exec(c) {
            return j;
        }
        j = j + 1;
    }
    j
}

/// Scans past the delimiter run starting at `i`.
fn run_end_exec(s: &str, i: usize, n: usize) -> (e: usize)
    requires
        n == s@.len(),
        i <= n,
    ensures
        e == run_end(s@, i as int),
        i <= e <= n,
{
    let mut j: usize = i;
    while j < n
        invariant
            i <= j <= n == s@.len(),
            run_end(s@, i as int) == run_end(s@, j as int),
        decreases n - j,
    {
        let c = s.get_char(j);
        if !is_delim_exec(c) {
            return j;
        }
        j = j + 1;
    }
    j
}

impl SlurpGeom {
    /// Reads a selection string: four integer tokens, in the order x, y, w,
    /// h, separated by commas, whitespace or `x`.
    ///
    /// Returns the region exactly when the string is well formed; otherwise
    /// reports whether a token was not an integer or the token count was
    /// wrong.
    pub fn from_str(s: &str) -> (r: Result<SlurpGeom, ParseError>)
        ensures
            match r {
                Ok(g) => parse_spec(s@) == Some(g),
                Err(e) => {
                    &&& parse_spec(s@) is None
                    &&& e.message@ == if tokens_of(s@).len() == 4 {
                        "Failed to parse slurp"@
                    } else {
                        "Slurp geom must have 4 parts"@
                    }
                },
            },
    {
        let n = s.unicode_len();
        let mut vals: Vec<i32> = Vec::new();
        let mut bad_token: bool = false;
        let mut i: usize = 0;
        let ghost toks = tokens_of(s@);
        let ghost mut done: Seq<Seq<char>> = Seq::empty();
        loop
            invariant_except_break
                toks =~= done + split_from(s@, i as int),
            invariant
                0 <= i <= n == s@.len(),
                toks == tokens_of(s@),
                vals@.len() == done.len(),
                !bad_token ==> forall|k: int|
                    0 <= k < done.len() ==> valid_i32_token(#[trigger] done[k])
                        && token_int_val(done[k]) == vals@[k] as int,
                bad_token ==> !all_tokens_valid(toks),
            ensures
                toks =~= done,
                vals@.len() == done.len(),
                !bad_token ==> forall|k: int|
                    0 <= k < done.len() ==> valid_i32_token(#[trigger] done[k])
                        && token_int_val(done[k]) == vals@[k] as int,
                bad_token ==> !all_tokens_valid(toks),
            decreases n - i,
        {
            let e = token_end_exec(s, i, n);
            proof {
                lemma_token_end(s@, i as int);
            }
            match parse_i32_span(s, i, e) {
                Some(v) => {
                    vals.push(v);
                },
                None => {
                    bad_token = true;
                    vals.push(0);
                    proof {
                        let k = done.len() as int;
                        assert(toks[k] == s@.subrange(i as int, e as int));
                        assert(!valid_i32_token(toks[k]));
                    }
                },
            }
            proof {
                done = done + seq![s@.subrange(i as int, e as int)];
            }
            if e >= n {
                proof {
                    assert(toks =~= done);
                }
                break;
            }
            let r = run_end_exec(s, e, n);
            proof {
                lemma_run_end(s@, e as int);
            }
            i = r;
        }
        if bad_token {
            if vals.len() == 4 {
                Err(ParseError::new("Failed to parse slurp"))
            } else {
                Err(ParseError::new("Slurp geom must have 4 parts"))
            }
        } else if vals.len() != 4 {
            Err(ParseError::new("Slurp geom must have 4 parts"))
        } else {
            let g = SlurpGeom { x: vals[0], y: vals[1], w: vals[2], h: vals[3] };
            proof {
                assert(parse_spec(s@) == Some(g));
            }
            Ok(g)
        }
    }
}

/// Rounds down to an even value: odd values are decremented, even values are
/// returned unchanged.
pub open spec fn round2_spec(n: int) -> int {
    if n % 2 == 0 {
        n
    } else {
        n - 1
    }
}

/// Forces a value to be even, as 4:2:0 video encoders require of frame
/// dimensions, by decrementing odd values.
pub fn round2(n: i32) -> (r: i32)
    ensures
        r == round2_spec(n as int),
        r % 2 == 0,
        r <= n,
        n - 1 <= r,
{
    if n % 2 != 0 {
        n - 1
    } else {
        n
    }
}

/// Rounding to even changes nothing the second time: the step is idempotent.
pub proof fn lemma_round2_idempotent(n: int)
    ensures
        round2_spec(round2_spec(n)) == round2_spec(n),
{
}

/// Failure to resolve a region against the monitor layout.
#[derive(Debug, Clone, Copy, PartialEq, Eq, Structural)]
pub enum GeometryError {
    /// No monitor's bounding box contains the region's origin.
    NoMonitorForRegion,
    /// A rotation outside the closed transform table was reported.
    UnsupportedTransform,
}

/// Whether the monitor's bounding box contains the point, edges included.
pub open spec fn mon_contains(m: FocalMonitor, x: int, y: int) -> bool {
    m.x <= x <= m.x + m.w && m.y <= y <= m.y + m.h
}

/// Index of the first monitor at or after `i` whose bounding box contains
/// the point, or the length of the list.
pub open spec fn find_mon_from(mons: Seq<FocalMonitor>, x: int, y: int, i: int) -> int
    decreases mons.len() - i,
{
    if i < 0 || i >= mons.len() {
        i
    } else if mon_contains(mons[i], x, y) {
        i
    } else {
        find_mon_from(mons, x, y, i + 1)
    }
}

pub proof fn lemma_find_mon_from(mons: Seq<FocalMonitor>, x: int, y: int, i: int)
    requires
        0 <= i <= mons.len(),
    ensures
        i <= find_mon_from(mons, x, y, i) <= mons.len(),
        find_mon_from(mons, x, y, i) < mons.len() ==> mon_contains(
            mons[find_mon_from(mons, x, y, i)],
            x,
            y,
        ),
    decreases mons.len() - i,
{
    if i < mons.len() && !mon_contains(mons[i], x, y) {
        lemma_find_mon_from(mons, x, y, i + 1);
    }
}

/// The region coordinate scaled by a device pixel ratio in thousandths and
/// rounded to the nearest device pixel, half away from zero.
pub open spec fn scale_round(v: int, mil: int) -> int {
    if v >= 0 {
        (v * mil + 500) / 1000
    } else {
        -(((-v) * mil + 500) / 1000)
    }
}

/// A value clipped to the `i32` range.
pub open spec fn clip_i32(v: int) -> int {
    if v < i32::MIN {
        i32::MIN as int
    } else if v > i32::MAX {
        i32::MAX as int
    } else {
        v
    }
}

/// Device-pixel correction: the identity for a unit scale, otherwise
/// rounded scaling clipped to the coordinate type.
pub open spec fn scaled(v: int, mil: int) -> int {
    if mil == 1000 {
        v
    } else {
        clip_i32(scale_round(v, mil))
    }
}

/// Applies the device-pixel correction for a monitor scale in thousandths.
fn scaled_exec(v: i32, mil: u32) -> (r: i32)
    requires
        0 < mil <= 100_000,
    ensures
        r as int == scaled(v as int, mil as int),
{
    if mil == 1000 {
        return v;
    }
    if v >= 0 {
        proof {
            assert((v as u64) * (mil as u64) <= 2147483647u64 * 100_000u64) by (nonlinear_arith)
                requires
                    0 <= v as u64 <= 2147483647u64,
                    mil as u64 <= 100_000u64,
            ;
        }
        let t: u64 = ((v as u64) * (mil as u64) + 500) / 1000;
        if t > 2147483647u64 {
            2147483647i32
        } else {
            t as i32
        }
    } else {
        let mag: u64 = (-(v as i64)) as u64;
        proof {
            assert(mag * (mil as u64) <= 2147483648u64 * 100_000u64) by (nonlinear_arith)
                requires
                    mag <= 2147483648u64,
                    mil as u64 <= 100_000u64,
            ;
        }
        let t: u64 = (mag * (mil as u64) + 500) / 1000;
        if t > 2147483648u64 {
            i32::MIN
        } else {
            (-(t as i64)) as i32
        }
    }
}

/// The crop stage of an encoder filter chain.
pub open spec fn crop_chars(w: int, h: int, x: int, y: int) -> Seq<char> {
    "crop=w="@ + int_to_chars(w) + ":h="@ + int_to_chars(h) + ":x="@ + int_to_chars(x) + ":y="@
        + int_to_chars(y)
}

/// A full filter chain: the reorienting stage for a rotated monitor,
/// followed by the crop stage in source coordinates.
pub open spec fn filter_chars(rot: Rotation, w: int, h: int, x: int, y: int) -> Seq<char> {
    if rot == Rotation::Normal {
        crop_chars(w, h, x, y)
    } else {
        transpose_spec(rot) + ", "@ + crop_chars(w, h, x, y)
    }
}

/// The filter chain a region resolves to on a given monitor: coordinates
/// made monitor-relative, corrected for the device pixel ratio, width and
/// height forced even, and the monitor's reorienting stage prepended.
pub open spec fn resolve_with(g: SlurpGeom, m: FocalMonitor) -> Seq<char> {
    let xs = scaled(g.x - m.x, m.scale_mil as int);
    let ys = scaled(g.y - m.y, m.scale_mil as int);
    let ws = round2_spec(scaled(g.w as int, m.scale_mil as int));
    let hs = round2_spec(scaled(g.h as int, m.scale_mil as int));
    filter_chars(m.rotation, ws, hs, xs, ys)
}

/// On a monitor with unit scale and no rotation, a region resolves to the
/// bare crop of its monitor-relative coordinates, with no reorienting stage.
pub proof fn lemma_resolve_normal_unit_scale(g: SlurpGeom, m: FocalMonitor)
    requires
        m.scale_mil == 1000,
        m.rotation == Rotation::Normal,
    ensures
        resolve_with(g, m) == crop_chars(
            round2_spec(g.w as int),
            round2_spec(g.h as int),
            g.x - m.x,
            g.y - m.y,
        ),
{
}

impl SlurpGeom {
    /// Resolves the region to the monitor containing its origin and the
    /// encoder filter chain that selects it there.
    ///
    /// Returns the first such monitor's name and filter; when no monitor
    /// contains the origin, reports `NoMonitorForRegion`.
    pub fn to_ffmpeg_geom(self, monitors: &Vec<FocalMonitor>) -> (r: Result<
        (String, String),
        GeometryError,
    >)
        requires
            forall|i: int| 0 <= i < monitors@.len() ==> (#[trigger] monitors@[i]).wf(),
        ensures
            ({
                let j = find_mon_from(monitors@, self.x as int, self.y as int, 0);
                if j < monitors@.len() {
                    match r {
                        Ok(p) => p.0@ == monitors@[j].name@ && p.1@ == resolve_with(
                            self,
                            monitors@[j],
                        ),
                        Err(_) => false,
                    }
                } else {
                    r == Err::<(String, String), GeometryError>(GeometryError::NoMonitorForRegion)
                }
            }),
    {
        let n = monitors.len();
        let mut idx: usize = 0;
        while idx < n
            invariant
                0 <= idx <= n == monitors@.len(),
                forall|i: int| 0 <= i < monitors@.len() ==> (#[trigger] monitors@[i]).wf(),
                find_mon_from(monitors@, self.x as int, self.y as int, 0) == find_mon_from(
                    monitors@,
                    self.x as int,
                    self.y as int,
                    idx as int,
                ),
            ensures
                idx <= n,
                find_mon_from(monitors@, self.x as int, self.y as int, 0) == idx as int,
            decreases n - idx,
        {
            let m = &monitors[idx];
            if self.x >= m.x && self.x <= m.x + m.w && self.y >= m.y && self.y <= m.y + m.h {
                break ;
            }
            idx = idx + 1;
        }
        if idx >= n {
            return Err(GeometryError::NoMonitorForRegion);
        }
        proof {
            lemma_find_mon_from(monitors@, self.x as int, self.y as int, 0);
        }
        let mon = &monitors[idx];
        let x0 = self.x - mon.x;
        let y0 = self.y - mon.y;
        let xs = scaled_exec(x0, mon.scale_mil);
        let ys = scaled_exec(y0, mon.scale_mil);
        let ws = scaled_exec(self.w, mon.scale_mil);
        let hs = scaled_exec(self.h, mon.scale_mil);
        let w2 = round2(ws);
        let h2 = round2(hs);
        let transpose = mon.rotation.ffmpeg_transpose();
        let mut f = String::new();
        match mon.rotation {
            Rotation::Normal => {},
            _ => {
                f.append(transpose.as_str());
                f.append(", ");
            },
        }
        f.append("crop=w=");
        f.append(i32_to_string(w2).as_str());
        f.append(":h=");
        f.append(i32_to_string(h2).as_str());
        f.append(":x=");
        f.append(i32_to_string(xs).as_str());
        f.append(":y=");
        f.append(i32_to_string(ys).as_str());
        proof {
            assert(f@ =~= resolve_with(self, monitors@[idx as int]));
        }
        Ok((mon.name.clone(), f))
    }
}

/// A compositor animation setting, as the native IPC reports it: its name,
/// whether it is enabled, its speed as the compositor prints it, and its
/// bezier curve name.
#[derive(Debug)]
pub struct HyprAnimation {
    pub name: String,
    pub enabled: bool,
    pub speed: String,
    pub bezier: String,
}

/// The keyword value that re-applies an animation setting:
/// `name,enabled,speed,bezier`.
pub open spec fn anim_config(a: HyprAnimation) -> Seq<char> {
    a.name@ + ","@ + (if a.enabled {
        "1"@
    } else {
        "0"@
    }) + ","@ + a.speed@ + ","@ + a.bezier@
}

/// The name of the animation that fades selection overlays in and out.
pub open spec fn fade_name() -> Seq<char> {
    "fadeLayers"@
}

/// Index of the first animation at or after `i` bearing the fade name, or
/// the length of the list.
pub open spec fn find_fade_from(anims: Seq<HyprAnimation>, i: int) -> int
    decreases anims.len() - i,
{
    if i < 0 || i >= anims.len() {
        i
    } else if anims[i].name@ == fade_name() {
        i
    } else {
        find_fade_from(anims, i + 1)
    }
}

/// The display form of a region: `x,y wxh`, as the selection tool prints it.
pub open spec fn geom_chars(g: SlurpGeom) -> Seq<char> {
    int_to_chars(g.x as int) + ","@ + int_to_chars(g.y as int) + " "@ + int_to_chars(g.w as int)
        + "x"@ + int_to_chars(g.h as int)
}

/// Index of the first region at or after `i` whose display form equals
/// `sel`, or the length of the list.
pub open spec fn find_geom_from(geoms: Seq<SlurpGeom>, sel: Seq<char>, i: int) -> int
    decreases geoms.len() - i,
{
    if i < 0 || i >= geoms.len() {
        i
    } else if geom_chars(geoms[i]) == sel {
        i
    } else {
        find_geom_from(geoms, sel, i + 1)
    }
}

impl SlurpGeom {
    /// Renders the region as the selection tool would print it.
    pub fn to_geom_string(&self) -> (r: String)
        ensures
            r@ == geom_chars(*self),
    {
        let mut r = i32_to_string(self.x);
        r.append(",");
        r.append(i32_to_string(self.y).as_str());
        r.append(" ");
        r.append(i32_to_string(self.w).as_str());
        r.append("x");
        r.append(i32_to_string(self.h).as_str());
        proof {
            assert(r@ =~= geom_chars(*self));
        }
        r
    }

    /// The keyword value that restores the fade animation after a capture:
    /// the configuration of the first animation named for fading overlays,
    /// or nothing when no such animation is reported.
    pub fn disable_fade_animation(anims: &Vec<HyprAnimation>) -> (r: Option<String>)
        ensures
            ({
                let j = find_fade_from(anims@, 0);
                if j < anims@.len() {
                    match r {
                        Option::Some(s) => s@ == anim_config(anims@[j]),
                        Option::None => false,
                    }
                } else {
                    r is None
                }
            }),
    {
        let n = anims.len();
        let mut idx: usize = 0;
        while idx < n
            invariant
                0 <= idx <= n == anims@.len(),
                find_fade_from(anims@, 0) == find_fade_from(anims@, idx as int),
            ensures
                idx <= n,
                find_fade_from(anims@, 0) == idx as int,
            decreases n - idx,
        {
            if crate::strutil::str_eq(anims[idx].name.as_str(), "fadeLayers") {
                break ;
            }
            idx = idx + 1;
        }
        if idx >= n {
            return None;
        }
        let a = &anims[idx];
        let mut s = a.name.clone();
        s.append(",");
        if a.enabled {
            s.append("1");
        } else {
            s.append("0");
        }
        s.append(",");
        s.append(a.speed.as_str());
        s.append(",");
        s.append(a.bezier.as_str());
        proof {
            assert(s@ =~= anim_config(anims@[idx as int]));
        }
        Some(s)
    }

    /// The keyword value to set when restoring the fade animation: exactly
    /// the configuration that was saved, or nothing when none was.
    pub fn reset_fade_animation(anim: &Option<String>) -> (r: Option<String>)
        ensures
            r == *anim,
    {
        match anim {
            Some(a) => Some(a.clone()),
            None => None,
        }
    }

    /// Interprets what the selection tool returned: a selection equal,
    /// field for field, to an enumerated window geometry is window-scoped;
    /// anything else is parsed as a free rectangle.
    ///
    /// Returns the region and whether it was window-scoped.
    pub fn from_selection(sel: &str, window_geoms: &Vec<SlurpGeom>) -> (r: Result<
        (SlurpGeom, bool),
        ParseError,
    >)
        ensures
            ({
                let j = find_geom_from(window_geoms@, sel@, 0);
                if j < window_geoms@.len() {
                    r == Ok::<(SlurpGeom, bool), ParseError>((window_geoms@[j], true))
                } else {
                    match r {
                        Ok(p) => parse_spec(sel@) == Some(p.0) && p.1 == false,
                        Err(e) => parse_spec(sel@) is None && e.message@ == (if tokens_of(
                            sel@,
                        ).len() == 4 {
                            "Failed to parse slurp"@
                        } else {
                            "Slurp geom must have 4 parts"@
                        }),
                    }
                }
            }),
    {
        let n = window_geoms.len();
        let mut idx: usize = 0;
        while idx < n
            invariant
                0 <= idx <= n == window_geoms@.len(),
                find_geom_from(window_geoms@, sel@, 0) == find_geom_from(
                    window_geoms@,
                    sel@,
                    idx as int,
                ),
            ensures
                idx <= n,
                find_geom_from(window_geoms@, sel@, 0) == idx as int,
            decreases n - idx,
        {
            let gs = window_geoms[idx].to_geom_string();
            if crate::strutil::str_eq(gs.as_str(), sel) {
                break ;
            }
            idx = idx + 1;
        }
        if idx < n {
            return Ok((window_geoms[idx], true));
        }
        match Self::from_str(sel) {
            Ok(g) => Ok((g, false)),
            Err(e) => Err(e),
        }
    }
}

} // verus!
