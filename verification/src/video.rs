//! The recording session: its persisted record and its lifecycle.
//!
//! One file at a well-known path is the only cross-invocation state: its
//! presence means a recording is in progress, and its contents say what to
//! clean up when the recording stops.

use vstd::prelude::*;

use crate::monitor::FocalMonitor;
use crate::monitor::transpose_spec;
use crate::numstr::i64_to_string;
use crate::numstr::int_to_chars;
use crate::numstr::lemma_int_to_chars_numeral;
use crate::numstr::parse_i64_span;
use crate::numstr::token_int_val;
use crate::numstr::valid_int_chars;
use crate::slurp::GeometryError;
use crate::slurp::SlurpGeom;
use crate::slurp::find_mon_from;
use crate::slurp::resolve_with;
use crate::strutil::has_prefix_at;
use crate::wf_recorder::WfRecorder;

verus! {

/// The persisted session record: the output file of the running recording
/// and, when corner rounding was overridden for it, the value to restore.
#[derive(Debug, PartialEq)]
pub struct LockFile {
    pub video: String,
    pub rounding: Option<i64>,
}

/// How one character of a record field is written: quotes and backslashes
/// gain a backslash, everything else stands for itself.
pub open spec fn esc_char(c: char) -> Seq<char> {
    if c == '"' || c == '\\' {
        seq!['\\', c]
    } else {
        seq![c]
    }
}

/// The written form of a record field.
pub open spec fn esc(s: Seq<char>) -> Seq<char>
    decreases s.len(),
{
    if s.len() == 0 {
        Seq::empty()
    } else {
        esc_char(s[0]) + esc(s.skip(1))
    }
}

/// Whether a string can be written into a record: no control characters.
pub open spec fn json_escapable(s: Seq<char>) -> bool {
    forall|i: int| 0 <= i < s.len() ==> (#[trigger] s[i]) as int >= 32
}

/// The serialized session record.
pub open spec fn lock_json(l: LockFile) -> Seq<char> {
    "{\"video\":\""@ + esc(l.video@) + "\",\"rounding\":"@ + (match l.rounding {
        Option::None => "null"@,
        Option::Some(r) => int_to_chars(r as int),
    }) + "}"@
}

/// Reads an escaped field from position `i` up to its closing quote:
/// returns the field's characters and the position after the quote.
pub open spec fn unesc_scan(s: Seq<char>, i: int) -> Option<(Seq<char>, int)>
    decreases s.len() - i,
{
    if i < 0 || i >= s.len() {
        Option::None
    } else if s[i] == '"' {
        Option::Some((Seq::empty(), i + 1))
    } else if s[i] == '\\' {
        if i + 1 < s.len() && (s[i + 1] == '"' || s[i + 1] == '\\') {
            match unesc_scan(s, i + 2) {
                Option::None => Option::None,
                Option::Some((c, j)) => Option::Some((seq![s[i + 1]] + c, j)),
            }
        } else {
            Option::None
        }
    } else if s[i] as int >= 32 {
        match unesc_scan(s, i + 1) {
            Option::None => Option::None,
            Option::Some((c, j)) => Option::Some((seq![s[i]] + c, j)),
        }
    } else {
        Option::None
    }
}

/// The record a string of text denotes, if any: the video path and the
/// rounding override, which is either `null` or an integer.
pub open spec fn lock_parse(s: Seq<char>) -> Option<(Seq<char>, Option<i64>)> {
    let p1 = "{\"video\":\""@;
    if !(p1.len() <= s.len() && s.subrange(0, p1.len() as int) == p1) {
        Option::None
    } else {
        match unesc_scan(s, p1.len() as int) {
            Option::None => Option::None,
            Option::Some((video, j)) => {
                let p2 = ",\"rounding\":"@;
                if !(0 <= j && j + p2.len() <= s.len() && s.subrange(j, j + p2.len() as int)
                    == p2) {
                    Option::None
                } else {
                    let k = j + p2.len() as int;
                    if !(k < s.len() && s[s.len() - 1] == '}') {
                        Option::None
                    } else {
                        let body = s.subrange(k, s.len() - 1);
                        if body == "null"@ {
                            Option::Some((video, Option::None))
                        } else if valid_int_chars(body) && i64::MIN <= token_int_val(body)
                            <= i64::MAX {
                            Option::Some((video, Option::Some(token_int_val(body) as i64)))
                        } else {
                            Option::None
                        }
                    }
                }
            },
        }
    }
}

pub proof fn lemma_esc_append(a: Seq<char>, b: Seq<char>)
    ensures
        esc(a + b) == esc(a) + esc(b),
    decreases a.len(),
{
    if a.len() == 0 {
        assert(a + b =~= b);
        assert(esc(a) + esc(b) =~= esc(b));
    } else {
        let t = a + b;
        assert(t[0] == a[0]);
        assert(t.skip(1) =~= a.skip(1) + b);
        lemma_esc_append(a.skip(1), b);
        assert(esc_char(a[0]) + (esc(a.skip(1)) + esc(b)) =~= (esc_char(a[0]) + esc(a.skip(1)))
            + esc(b));
    }
}

proof fn lemma_unesc_scan_of_escaped(s: Seq<char>, i: int, v: Seq<char>, rest: Seq<char>)
    requires
        json_escapable(v),
        0 <= i <= s.len(),
        s.skip(i) == esc(v) + seq!['"'] + rest,
    ensures
        unesc_scan(s, i) == Option::Some((v, i + esc(v).len() + 1)),
    decreases v.len(),
{
    assert(s.skip(i).len() == s.len() - i);
    if v.len() == 0 {
        assert(esc(v) =~= Seq::<char>::empty());
        assert(s.skip(i) =~= seq!['"'] + rest);
        assert(i < s.len());
        assert(s[i] == s.skip(i)[0]);
        assert(s[i] == '"');
    } else {
        let c = v[0];
        assert(c as int >= 32);
        assert(esc(v) == esc_char(c) + esc(v.skip(1)));
        assert(json_escapable(v.skip(1)));
        if c == '"' || c == '\\' {
            assert(esc_char(c) =~= seq!['\\', c]);
            assert(s.skip(i).len() >= 3);
            assert(s[i] == s.skip(i)[0]);
            assert(s[i + 1] == s.skip(i)[1]);
            assert(s[i] == '\\');
            assert(s[i + 1] == c);
            assert(s.skip(i + 2) =~= esc(v.skip(1)) + seq!['"'] + rest) by {
                assert forall|k: int| 0 <= k < s.len() - i - 2 implies s.skip(i + 2)[k] == (esc(
                    v.skip(1),
                ) + seq!['"'] + rest)[k] by {
                    assert(s.skip(i + 2)[k] == s.skip(i)[k + 2]);
                }
            }
            lemma_unesc_scan_of_escaped(s, i + 2, v.skip(1), rest);
            assert(seq![s[i + 1]] + v.skip(1) =~= v);
        } else {
            assert(esc_char(c) =~= seq![c]);
            assert(s[i] == s.skip(i)[0]);
            assert(s[i] == c);
            assert(s[i] != '"' && s[i] != '\\');
            assert(s.skip(i + 1) =~= esc(v.skip(1)) + seq!['"'] + rest) by {
                assert forall|k: int| 0 <= k < s.len() - i - 1 implies s.skip(i + 1)[k] == (esc(
                    v.skip(1),
                ) + seq!['"'] + rest)[k] by {
                    assert(s.skip(i + 1)[k] == s.skip(i)[k + 1]);
                }
            }
            lemma_unesc_scan_of_escaped(s, i + 1, v.skip(1), rest);
            assert(seq![s[i]] + v.skip(1) =~= v);
        }
    }
}

/// Writing a record and reading the text back yields the record: the codec
/// round-trips on every record whose path is free of control characters.
pub proof fn lemma_lock_roundtrip(l: LockFile)
    requires
        l.wf(),
    ensures
        lock_parse(lock_json(l)) == Option::Some((l.video@, l.rounding)),
{
    let s = lock_json(l);
    let num = match l.rounding {
        Option::None => "null"@,
        Option::Some(r) => int_to_chars(r as int),
    };
    reveal_strlit("{\"video\":\"");
    reveal_strlit("\",\"rounding\":");
    reveal_strlit(",\"rounding\":");
    reveal_strlit("null");
    reveal_strlit("}");
    match l.rounding {
        Option::Some(rv) => lemma_int_to_chars_numeral(rv as int),
        Option::None => (),
    }
    assert(num.len() >= 1);
    assert(s.subrange(0, 10) =~= "{\"video\":\""@);
    let rest = ",\"rounding\":"@ + num + "}"@;
    assert("\",\"rounding\":"@ =~= seq!['"'] + ",\"rounding\":"@);
    assert(s.skip(10) =~= esc(l.video@) + seq!['"'] + rest);
    lemma_unesc_scan_of_escaped(s, 10, l.video@, rest);
    let j: int = 10 + esc(l.video@).len() as int + 1;
    assert(s.subrange(j, j + 12) =~= ",\"rounding\":"@);
    let k: int = j + 12;
    assert(s.len() - 1 == k + num.len());
    assert(s[s.len() - 1] == '}');
    assert(s.subrange(k, s.len() - 1) =~= num);
    match l.rounding {
        Option::None => {
        },
        Option::Some(rv) => {
            assert(is_digit_ok(num[0]));
            assert(num != "null"@);
        },
    }
}

/// Whether a numeral may start with this character: a sign or a digit,
/// never the letter that opens `null`.
spec fn is_digit_ok(c: char) -> bool {
    c == '-' || crate::numstr::is_digit_char(c)
}

/// Reads an escaped field from position `i`, returning its characters and
/// the position after the closing quote.
fn unesc_scan_exec(s: &str, i: usize, n: usize) -> (r: Option<(String, usize)>)
    requires
        n == s@.len(),
        i <= n,
    ensures
        match r {
            Option::Some(p) => unesc_scan(s@, i as int) == Option::Some((p.0@, p.1 as int)) && i
                < p.1 <= n,
            Option::None => unesc_scan(s@, i as int) is None,
        },
    decreases n - i,
{
    if i >= n {
        return None;
    }
    let c = s.get_char(i);
    if c == '"' {
        Some((String::new(), i + 1))
    } else if c == '\\' {
        if i + 1 < n {
            let c2 = s.get_char(i + 1);
            if c2 == '"' || c2 == '\\' {
                match unesc_scan_exec(s, i + 2, n) {
                    None => None,
                    Some((content, j)) => {
                        let mut out = String::from_str(s.substring_char(i + 1, i + 2));
                        out.append(content.as_str());
                        proof {
                            assert(s@.subrange(i + 1 as int, i + 2 as int) =~= seq![s@[i + 1]]);
                            assert(out@ =~= seq![s@[i + 1]] + content@);
                        }
                        Some((out, j))
                    },
                }
            } else {
                None
            }
        } else {
            None
        }
    } else if (c as u32) >= 32 {
        match unesc_scan_exec(s, i + 1, n) {
            None => None,
            Some((content, j)) => {
                let mut out = String::from_str(s.substring_char(i, i + 1));
                out.append(content.as_str());
                proof {
                    assert(s@.subrange(i as int, i + 1 as int) =~= seq![s@[i as int]]);
                    assert(out@ =~= seq![s@[i as int]] + content@);
                }
                Some((out, j))
            },
        }
    } else {
        None
    }
}

impl LockFile {
    /// A record that can be written faithfully: its path holds no control
    /// characters.
    pub open spec fn wf(&self) -> bool {
        json_escapable(self.video@)
    }

    /// Serializes the record.
    pub fn to_json(&self) -> (r: String)
        ensures
            r@ == lock_json(*self),
    {
        let mut r = String::from_str("{\"video\":\"");
        append_escaped(&mut r, self.video.as_str());
        r.append("\",\"rounding\":");
        match self.rounding {
            Some(v) => r.append(i64_to_string(v).as_str()),
            None => r.append("null"),
        }
        r.append("}");
        proof {
            assert(r@ =~= lock_json(*self));
        }
        r
    }

    /// Reads a record back from text; any text that does not denote a
    /// record yields `None`, which callers treat the same as an absent
    /// record.
    pub fn parse(s: &str) -> (r: Option<LockFile>)
        ensures
            match r {
                Option::Some(l) => lock_parse(s@) == Option::Some((l.video@, l.rounding)),
                Option::None => lock_parse(s@) is None,
            },
    {
        let n = s.unicode_len();
        let p1 = "{\"video\":\"";
        let l1 = p1.unicode_len();
        if !has_prefix_at(s, 0, p1) {
            return None;
        }
        match unesc_scan_exec(s, l1, n) {
            None => None,
            Some((video, j)) => {
                let p2 = ",\"rounding\":";
                let l2 = p2.unicode_len();
                if !has_prefix_at(s, j, p2) {
                    return None;
                }
                let k = j + l2;
                if !(k < n) {
                    return None;
                }
                if s.get_char(n - 1) != '}' {
                    return None;
                }
                let ghost body = s@.subrange(k as int, n - 1 as int);
                if has_prefix_at(s, k, "null") && n - 1 - k == 4 {
                    proof {
                        reveal_strlit("null");
                        assert(body =~= "null"@);
                    }
                    Some(LockFile { video, rounding: None })
                } else {
                    proof {
                        if body == "null"@ {
                            reveal_strlit("null");
                            assert(body.len() == 4);
                            assert(s@.subrange(k as int, k + 4 as int) == body);
                            assert(false);
                        }
                    }
                    match parse_i64_span(s, k, n - 1) {
                        Some(v) => Some(LockFile { video, rounding: Some(v) }),
                        None => None,
                    }
                }
            },
        }
    }

    /// Whether a session record exists: the sole signal that a recording
    /// is in progress.
    pub fn record_exists(state: &SessionState) -> (r: bool)
        ensures
            r == !state.is_idle(),
    {
        match &state.record {
            Some(_) => true,
            None => false,
        }
    }
}

/// Appends the written form of `s`, escaping quotes and backslashes.
fn append_escaped(r: &mut String, s: &str) -> (u: ())
    ensures
        final(r)@ == old(r)@ + esc(s@),
{
    let n = s.unicode_len();
    let mut i: usize = 0;
    while i < n
        invariant
            0 <= i <= n == s@.len(),
            r@ == old(r)@ + esc(s@.take(i as int)),
        decreases n - i,
    {
        let c = s.get_char(i);
        if c == '"' {
            r.append("\\\"");
            proof {
                reveal_strlit("\\\"");
            }
        } else if c == '\\' {
            r.append("\\\\");
            proof {
                reveal_strlit("\\\\");
            }
        } else {
            r.append(s.substring_char(i, i + 1));
            proof {
                assert(s@.subrange(i as int, i + 1 as int) =~= seq![s@[i as int]]);
            }
        }
        proof {
            assert(s@.take(i + 1 as int) =~= s@.take(i as int) + seq![s@[i as int]]);
            lemma_esc_append(s@.take(i as int), seq![s@[i as int]]);
            let single = seq![s@[i as int]];
            assert(single.skip(1) =~= Seq::<char>::empty());
            assert(esc(single) == esc_char(single[0]) + esc(single.skip(1)));
            assert(esc(single) =~= esc_char(s@[i as int]));
            assert(r@ =~= old(r)@ + esc(s@.take(i + 1 as int)));
        }
        i = i + 1;
    }
    proof {
        assert(s@.take(n as int) =~= s@);
    }
}

/// The session as one invocation sees it: whether a record exists, and its
/// contents if so. A fresh invocation starts idle.
#[derive(Debug)]
pub struct SessionState {
    pub record: Option<LockFile>,
}

impl SessionState {
    /// No recording is in progress.
    pub open spec fn is_idle(&self) -> bool {
        self.record is None
    }

    /// The idle session: no record exists.
    pub fn new() -> (r: Self)
        ensures
            r.is_idle(),
    {
        SessionState { record: None }
    }
}

/// Starting a recording persists its record.
pub open spec fn begin_state(s: SessionState, lock: LockFile) -> SessionState {
    SessionState { record: Option::Some(lock) }
}

/// Stopping removes whatever record existed.
pub open spec fn stop_state(s: SessionState) -> SessionState {
    SessionState { record: Option::None }
}

/// The cleanup a stop performs: whether a recording was found, the rounding
/// override to restore, and the video to announce when asked to notify.
#[derive(Debug, PartialEq)]
pub struct StopPlan {
    pub found: bool,
    pub restore_rounding: Option<i64>,
    pub notify_video: Option<String>,
}

/// What a stop reports and cleans up, given the session it found.
pub open spec fn stop_plan_spec(s: SessionState, notify: bool) -> StopPlan {
    match s.record {
        Option::Some(l) => StopPlan {
            found: true,
            restore_rounding: l.rounding,
            notify_video: if notify {
                Option::Some(l.video)
            } else {
                Option::None
            },
        },
        Option::None => StopPlan {
            found: false,
            restore_rounding: Option::None,
            notify_video: Option::None,
        },
    }
}

/// Everything an invocation must do to begin a capture: the recorder to
/// spawn, the clipboard entry to offer, the record that was persisted, and,
/// for a timed capture, the delay and the cleanup to run after it.
#[derive(Debug)]
pub struct CapturePlan {
    pub recorder: WfRecorder,
    pub copy_uri: String,
    pub lock: LockFile,
    pub timed_stop: Option<(u64, StopPlan)>,
}

/// A screen recording command: what to record, where to put it, and how to
/// behave while doing so.
#[derive(Debug)]
pub struct Screencast {
    pub delay: Option<u64>,
    pub icons: bool,
    pub audio: Option<String>,
    pub no_rounded_windows: bool,
    pub notify: bool,
    pub duration: Option<u64>,
    pub slurp: Option<String>,
    pub output: String,
}

impl Screencast {
    /// Stops the session: removes the record if one exists and reports what
    /// to clean up. Stopping an idle session finds nothing and is a no-op.
    pub fn stop(state: &mut SessionState, notify: bool) -> (r: StopPlan)
        ensures
            *final(state) == stop_state(*old(state)),
            r == stop_plan_spec(*old(state), notify),
            r.found == !old(state).is_idle(),
    {
        let r = match &state.record {
            Some(l) => StopPlan {
                found: true,
                restore_rounding: l.rounding,
                notify_video: if notify {
                    Some(l.video.clone())
                } else {
                    None
                },
            },
            None => StopPlan { found: false, restore_rounding: None, notify_video: None },
        };
        state.record = None;
        r
    }

    /// Begins a capture of the given monitor with the given filter chain:
    /// persists the session record after the recorder is prepared, and for
    /// a timed capture stops the session again after the duration.
    pub fn capture(&self, state: &mut SessionState, mon: &str, filter: &str, rounding: Option<
        i64,
    >) -> (r: CapturePlan)
        ensures
            r.recorder.monitor@ == mon@,
            r.recorder.video == self.output,
            r.recorder.filter@ == filter@,
            r.recorder.audio == self.audio,
            r.copy_uri@ == "file://"@ + self.output@,
            r.lock == (LockFile { video: self.output, rounding }),
            match self.duration {
                Option::None => *final(state) == begin_state(
                    *old(state),
                    LockFile { video: self.output, rounding },
                ) && r.timed_stop is None,
                Option::Some(d) => {
                    &&& *final(state) == stop_state(
                        begin_state(*old(state), LockFile { video: self.output, rounding }),
                    )
                    &&& match r.timed_stop {
                        Option::Some(p) => p.0 == d && p.1 == stop_plan_spec(
                            begin_state(*old(state), LockFile { video: self.output, rounding }),
                            false,
                        ),
                        Option::None => false,
                    }
                },
            },
    {
        let audio_ref = match &self.audio {
            Some(a) => Some(a),
            None => None,
        };
        let recorder = WfRecorder::new(mon, self.output.clone()).audio(audio_ref).filter(filter);
        let mut copy_uri = String::from_str("file://");
        copy_uri.append(self.output.as_str());
        let lock = LockFile { video: self.output.clone(), rounding };
        state.record = Some(LockFile { video: self.output.clone(), rounding });
        let timed_stop = match self.duration {
            Some(d) => Some((d, Self::stop(state, false))),
            None => None,
        };
        CapturePlan { recorder, copy_uri, lock, timed_stop }
    }

    /// Records the focused monitor whole: the filter chain is just the
    /// monitor's reorienting stage, and no rounding override is involved.
    pub fn monitor(&self, state: &mut SessionState, focused: &FocalMonitor) -> (r: CapturePlan)
        ensures
            r.recorder.monitor@ == focused.name@,
            r.recorder.filter@ == transpose_spec(focused.rotation),
            r.recorder.video == self.output,
            r.recorder.audio == self.audio,
            r.lock == (LockFile { video: self.output, rounding: Option::None }),
            match self.duration {
                Option::None => *final(state) == begin_state(
                    *old(state),
                    LockFile { video: self.output, rounding: Option::None },
                ) && r.timed_stop is None,
                Option::Some(_) => *final(state) == stop_state(
                    begin_state(
                        *old(state),
                        LockFile { video: self.output, rounding: Option::None },
                    ),
                ) && r.timed_stop is Some,
            },
    {
        let transpose = focused.rotation.ffmpeg_transpose();
        self.capture(state, focused.name.as_str(), transpose.as_str(), None)
    }

    /// Records a selected region: resolves it against the monitor layout
    /// and begins a capture on the monitor containing it. When no monitor
    /// contains the region's origin, reports the error and changes nothing.
    pub fn selection(&self, state: &mut SessionState, monitors: &Vec<FocalMonitor>, geom: SlurpGeom, rounding: Option<
        i64,
    >) -> (r: Result<CapturePlan, GeometryError>)
        requires
            forall|i: int| 0 <= i < monitors@.len() ==> (#[trigger] monitors@[i]).wf(),
        ensures
            ({
                let j = find_mon_from(monitors@, geom.x as int, geom.y as int, 0);
                if j < monitors@.len() {
                    match r {
                        Ok(p) => {
                            &&& p.recorder.monitor@ == monitors@[j].name@
                            &&& p.recorder.filter@ == resolve_with(geom, monitors@[j])
                            &&& p.recorder.video == self.output
                            &&& p.lock == (LockFile { video: self.output, rounding })
                            &&& match self.duration {
                                Option::None => *final(state) == begin_state(
                                    *old(state),
                                    LockFile { video: self.output, rounding },
                                ),
                                Option::Some(_) => *final(state) == stop_state(
                                    begin_state(
                                        *old(state),
                                        LockFile { video: self.output, rounding },
                                    ),
                                ),
                            }
                        },
                        Err(_) => false,
                    }
                } else {
                    r == Err::<CapturePlan, GeometryError>(GeometryError::NoMonitorForRegion)
                        && *final(state) == *old(state)
                }
            }),
    {
        match geom.to_ffmpeg_geom(monitors) {
            Ok((mon, filter)) => Ok(self.capture(state, mon.as_str(), filter.as_str(), rounding)),
            Err(e) => Err(e),
        }
    }

    /// Whether a window-scoped capture should disable corner rounding for
    /// its duration.
    pub fn should_disable_rounding(&self, is_window: bool) -> (r: bool)
        ensures
            r == (is_window && self.no_rounded_windows),
    {
        is_window && self.no_rounded_windows
    }
}

/// A start followed at once by a stop reports the recording it finds,
/// restores exactly the rounding override the start persisted, and leaves
/// no record behind.
pub proof fn lemma_start_then_stop(s: SessionState, l: LockFile, notify: bool)
    ensures
        stop_state(begin_state(s, l)).is_idle(),
        stop_plan_spec(begin_state(s, l), notify).found,
        stop_plan_spec(begin_state(s, l), notify).restore_rounding == l.rounding,
{
}

/// A timed capture ends with its record removed, in exactly the state an
/// explicit stop would have produced.
pub proof fn lemma_timed_capture_matches_stop(s: SessionState, l: LockFile)
    ensures
        stop_state(begin_state(s, l)).is_idle(),
        stop_state(begin_state(s, l)) == stop_state(s),
{
}

/// A stop while idle finds nothing, restores nothing, announces nothing,
/// and leaves the session idle.
pub proof fn lemma_stop_while_idle(s: SessionState, notify: bool)
    requires
        s.is_idle(),
    ensures
        !stop_plan_spec(s, notify).found,
        stop_plan_spec(s, notify).restore_rounding is None,
        stop_plan_spec(s, notify).notify_video is None,
        stop_state(s).is_idle(),
{
}

} // verus!
