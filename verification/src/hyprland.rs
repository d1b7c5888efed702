//! The native-IPC compositor backend: normalizes monitors and clients as
//! the compositor's structured IPC reports them.

use vstd::prelude::*;

use crate::monitor::FocalMonitor;
use crate::monitor::QueryFailure;
use crate::monitor::Rotation;
use crate::slurp::SlurpGeom;

verus! {

/// A monitor as the native IPC reports it. The transform is the IPC's
/// numeric encoding, mapped one to one onto the rotation table.
#[derive(Debug)]
pub struct HyprMonitor {
    pub name: String,
    pub x: i32,
    pub y: i32,
    pub width: i32,
    pub height: i32,
    pub scale_mil: u32,
    pub transform: u8,
    pub active_workspace_id: i64,
    pub focused: bool,
}

/// A client window as the native IPC reports it.
#[derive(Debug, Clone, Copy, PartialEq, Eq, Structural)]
pub struct HyprClient {
    pub workspace_id: i64,
    pub x: i32,
    pub y: i32,
    pub w: i32,
    pub h: i32,
}

/// The rotation a numeric transform code denotes: the eight codes of the
/// closed table and nothing else.
pub open spec fn rotation_of_code(c: int) -> Option<Rotation> {
    if c == 0 {
        Option::Some(Rotation::Normal)
    } else if c == 1 {
        Option::Some(Rotation::Normal90)
    } else if c == 2 {
        Option::Some(Rotation::Normal180)
    } else if c == 3 {
        Option::Some(Rotation::Normal270)
    } else if c == 4 {
        Option::Some(Rotation::Flipped)
    } else if c == 5 {
        Option::Some(Rotation::Flipped90)
    } else if c == 6 {
        Option::Some(Rotation::Flipped180)
    } else if c == 7 {
        Option::Some(Rotation::Flipped270)
    } else {
        Option::None
    }
}

impl Rotation {
    /// Maps the IPC's numeric transform code onto the rotation table.
    pub fn from_code(c: u8) -> (r: Option<Rotation>)
        ensures
            r == rotation_of_code(c as int),
    {
        match c {
            0 => Some(Rotation::Normal),
            1 => Some(Rotation::Normal90),
            2 => Some(Rotation::Normal180),
            3 => Some(Rotation::Normal270),
            4 => Some(Rotation::Flipped),
            5 => Some(Rotation::Flipped90),
            6 => Some(Rotation::Flipped180),
            7 => Some(Rotation::Flipped270),
            _ => None,
        }
    }
}

/// The normalized monitor a reported monitor denotes, unless its transform
/// code falls outside the rotation table.
pub open spec fn hypr_monitor_spec(m: HyprMonitor) -> Option<FocalMonitor> {
    match rotation_of_code(m.transform as int) {
        Option::Some(rot) => Option::Some(
            FocalMonitor {
                name: m.name,
                x: m.x,
                y: m.y,
                w: m.width,
                h: m.height,
                scale_mil: m.scale_mil,
                rotation: rot,
            },
        ),
        Option::None => Option::None,
    }
}

/// Every monitor normalized, in order; defined only when every transform
/// code is in the rotation table.
pub open spec fn hypr_all_spec(mons: Seq<HyprMonitor>) -> Option<Seq<FocalMonitor>>
    decreases mons.len(),
{
    if mons.len() == 0 {
        Option::Some(Seq::empty())
    } else {
        match (hypr_all_spec(mons.drop_last()), hypr_monitor_spec(mons.last())) {
            (Option::Some(ms), Option::Some(m)) => Option::Some(ms + seq![m]),
            _ => Option::None,
        }
    }
}

proof fn lemma_hypr_all_none(mons: Seq<HyprMonitor>, i: int)
    requires
        0 <= i < mons.len(),
        hypr_monitor_spec(mons[i]) is None,
    ensures
        hypr_all_spec(mons) is None,
    decreases mons.len(),
{
    if i < mons.len() - 1 {
        assert(mons.drop_last()[i] == mons[i]);
        lemma_hypr_all_none(mons.drop_last(), i);
    }
}

/// Index of the first monitor at or after `i` that reports itself focused,
/// or the length of the list.
pub open spec fn find_hypr_focused_from(mons: Seq<HyprMonitor>, i: int) -> int
    decreases mons.len() - i,
{
    if i < 0 || i >= mons.len() {
        i
    } else if mons[i].focused {
        i
    } else {
        find_hypr_focused_from(mons, i + 1)
    }
}

/// The workspaces currently shown: one active workspace per monitor.
pub open spec fn active_ids(mons: Seq<HyprMonitor>) -> Seq<i64> {
    mons.map_values(|m: HyprMonitor| m.active_workspace_id)
}

/// Whether a client stands on one of the active workspaces.
pub open spec fn on_active(c: HyprClient, ids: Seq<i64>) -> bool {
    exists|j: int| 0 <= j < ids.len() && ids[j] == c.workspace_id
}

/// The geometry of a reported client window.
pub open spec fn client_geom(c: HyprClient) -> SlurpGeom {
    SlurpGeom { x: c.x, y: c.y, w: c.w, h: c.h }
}

/// The geometries of the clients standing on active workspaces, in order.
pub open spec fn hypr_geoms_of(cs: Seq<HyprClient>, ids: Seq<i64>) -> Seq<SlurpGeom>
    decreases cs.len(),
{
    if cs.len() == 0 {
        Seq::empty()
    } else {
        hypr_geoms_of(cs.drop_last(), ids) + (if on_active(cs.last(), ids) {
            seq![client_geom(cs.last())]
        } else {
            Seq::empty()
        })
    }
}

fn contains_i64(v: &Vec<i64>, x: i64) -> (r: bool)
    ensures
        r == exists|j: int| 0 <= j < v@.len() && v@[j] == x,
{
    let mut i: usize = 0;
    while i < v.len()
        invariant
            0 <= i <= v@.len(),
            forall|j: int| 0 <= j < i ==> v@[j] != x,
        decreases v@.len() - i,
    {
        if v[i] == x {
            return true;
        }
        i = i + 1;
    }
    false
}

fn to_focal_monitor(m: &HyprMonitor) -> (r: Result<FocalMonitor, QueryFailure>)
    ensures
        match hypr_monitor_spec(*m) {
            Option::Some(fm) => r == Ok::<FocalMonitor, QueryFailure>(fm),
            Option::None => r == Err::<FocalMonitor, QueryFailure>(
                QueryFailure::UnsupportedTransform,
            ),
        },
{
    match Rotation::from_code(m.transform) {
        Some(rot) => Ok(
            FocalMonitor {
                name: m.name.clone(),
                x: m.x,
                y: m.y,
                w: m.width,
                h: m.height,
                scale_mil: m.scale_mil,
                rotation: rot,
            },
        ),
        None => Err(QueryFailure::UnsupportedTransform),
    }
}

/// The native-IPC backend.
pub struct HyprMonitors;

impl HyprMonitors {
    /// Normalizes the reported monitors; an unknown transform code on any
    /// of them is fatal for the query.
    pub fn all(monitors: &Vec<HyprMonitor>) -> (r: Result<Vec<FocalMonitor>, QueryFailure>)
        ensures
            match r {
                Ok(ms) => hypr_all_spec(monitors@) == Option::Some(ms@),
                Err(e) => hypr_all_spec(monitors@) is None && e
                    == QueryFailure::UnsupportedTransform,
            },
    {
        let mut acc: Vec<FocalMonitor> = Vec::new();
        let mut i: usize = 0;
        while i < monitors.len()
            invariant
                0 <= i <= monitors@.len(),
                hypr_all_spec(monitors@.take(i as int)) == Option::Some(acc@),
            decreases monitors@.len() - i,
        {
            match to_focal_monitor(&monitors[i]) {
                Ok(m) => {
                    acc.push(m);
                    proof {
                        assert(monitors@.take(i + 1 as int).drop_last() =~= monitors@.take(
                            i as int,
                        ));
                        assert(monitors@.take(i + 1 as int).last() == monitors@[i as int]);
                    }
                },
                Err(e) => {
                    proof {
                        lemma_hypr_all_none(monitors@, i as int);
                    }
                    return Err(e);
                },
            }
            i = i + 1;
        }
        proof {
            assert(monitors@.take(monitors@.len() as int) =~= monitors@);
        }
        Ok(acc)
    }

    /// Normalizes the first monitor that reports itself focused; no such
    /// monitor is fatal for the query.
    pub fn focused(monitors: &Vec<HyprMonitor>) -> (r: Result<FocalMonitor, QueryFailure>)
        ensures
            ({
                let j = find_hypr_focused_from(monitors@, 0);
                if j < monitors@.len() {
                    match hypr_monitor_spec(monitors@[j]) {
                        Option::Some(m) => r == Ok::<FocalMonitor, QueryFailure>(m),
                        Option::None => r == Err::<FocalMonitor, QueryFailure>(
                            QueryFailure::UnsupportedTransform,
                        ),
                    }
                } else {
                    r == Err::<FocalMonitor, QueryFailure>(QueryFailure::NoFocusedMonitor)
                }
            }),
    {
        let n = monitors.len();
        let mut idx: usize = 0;
        while idx < n
            invariant
                0 <= idx <= n == monitors@.len(),
                find_hypr_focused_from(monitors@, 0) == find_hypr_focused_from(
                    monitors@,
                    idx as int,
                ),
            ensures
                idx <= n,
                find_hypr_focused_from(monitors@, 0) == idx as int,
            decreases n - idx,
        {
            if monitors[idx].focused {
                break ;
            }
            idx = idx + 1;
        }
        if idx >= n {
            return Err(QueryFailure::NoFocusedMonitor);
        }
        to_focal_monitor(&monitors[idx])
    }

    /// Geometries of the visible client windows: the clients standing on
    /// the active workspace of some monitor.
    pub fn window_geoms(monitors: &Vec<HyprMonitor>, clients: &Vec<HyprClient>) -> (r: Vec<
        SlurpGeom,
    >)
        ensures
            r@ == hypr_geoms_of(clients@, active_ids(monitors@)),
    {
        let mut ids: Vec<i64> = Vec::new();
        let mut i: usize = 0;
        while i < monitors.len()
            invariant
                0 <= i <= monitors@.len(),
                ids@ =~= active_ids(monitors@.take(i as int)),
            decreases monitors@.len() - i,
        {
            ids.push(monitors[i].active_workspace_id);
            proof {
                assert(active_ids(monitors@.take(i + 1 as int)) =~= active_ids(
                    monitors@.take(i as int),
                ).push(monitors@[i as int].active_workspace_id));
            }
            i = i + 1;
        }
        proof {
            assert(monitors@.take(monitors@.len() as int) =~= monitors@);
            assert(ids@ =~= active_ids(monitors@));
        }
        let mut r: Vec<SlurpGeom> = Vec::new();
        let mut k: usize = 0;
        while k < clients.len()
            invariant
                0 <= k <= clients@.len(),
                ids@ == active_ids(monitors@),
                r@ == hypr_geoms_of(clients@.take(k as int), ids@),
            decreases clients@.len() - k,
        {
            let c = &clients[k];
            if contains_i64(&ids, c.workspace_id) {
                r.push(SlurpGeom { x: c.x, y: c.y, w: c.w, h: c.h });
            }
            proof {
                assert(clients@.take(k + 1 as int).drop_last() =~= clients@.take(k as int));
                assert(clients@.take(k + 1 as int).last() == clients@[k as int]);
            }
            k = k + 1;
        }
        proof {
            assert(clients@.take(clients@.len() as int) =~= clients@);
        }
        r
    }
}

} // verus!
