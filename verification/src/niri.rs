//! The socket-IPC compositor backend: both the monitor list and the
//! focused monitor derive from one output enumeration, filtered by the
//! presence of a logical geometry.

use vstd::prelude::*;

use crate::monitor::FocalMonitor;
use crate::monitor::QueryFailure;
use crate::monitor::Rotation;
use crate::slurp::SlurpGeom;

verus! {

/// The logical geometry of an enabled output.
#[derive(Debug, Clone, Copy, PartialEq, Eq, Structural)]
pub struct LogicalOutput {
    pub x: i32,
    pub y: i32,
    pub width: i32,
    pub height: i32,
    pub scale_mil: u32,
    pub transform: Rotation,
}

/// One enumerated output; a disabled output has no logical geometry.
#[derive(Debug)]
pub struct NiriOutput {
    pub name: String,
    pub logical: Option<LogicalOutput>,
}

/// The normalized monitor an enabled output denotes.
pub open spec fn niri_monitor_spec(o: NiriOutput) -> Option<FocalMonitor> {
    match o.logical {
        Option::Some(l) => Option::Some(
            FocalMonitor {
                name: o.name,
                x: l.x,
                y: l.y,
                w: l.width,
                h: l.height,
                scale_mil: l.scale_mil,
                rotation: l.transform,
            },
        ),
        Option::None => Option::None,
    }
}

/// The enabled outputs normalized, in order; disabled outputs are skipped,
/// not reported as zero-sized.
pub open spec fn niri_enabled_of(outs: Seq<NiriOutput>) -> Seq<FocalMonitor>
    decreases outs.len(),
{
    if outs.len() == 0 {
        Seq::empty()
    } else {
        niri_enabled_of(outs.drop_last()) + (match niri_monitor_spec(outs.last()) {
            Option::Some(m) => seq![m],
            Option::None => Seq::empty(),
        })
    }
}

/// The socket-IPC backend.
pub struct NiriMonitors;

impl NiriMonitors {
    /// Normalizes the enabled outputs, skipping disabled ones.
    pub fn all(outputs: &Vec<NiriOutput>) -> (r: Vec<FocalMonitor>)
        ensures
            r@ == niri_enabled_of(outputs@),
    {
        let mut r: Vec<FocalMonitor> = Vec::new();
        let mut i: usize = 0;
        while i < outputs.len()
            invariant
                0 <= i <= outputs@.len(),
                r@ == niri_enabled_of(outputs@.take(i as int)),
            decreases outputs@.len() - i,
        {
            let o = &outputs[i];
            match &o.logical {
                Some(l) => {
                    r.push(
                        FocalMonitor {
                            name: o.name.clone(),
                            x: l.x,
                            y: l.y,
                            w: l.width,
                            h: l.height,
                            scale_mil: l.scale_mil,
                            rotation: l.transform,
                        },
                    );
                },
                None => {},
            }
            proof {
                assert(outputs@.take(i + 1 as int).drop_last() =~= outputs@.take(i as int));
                assert(outputs@.take(i + 1 as int).last() == outputs@[i as int]);
            }
            i = i + 1;
        }
        proof {
            assert(outputs@.take(outputs@.len() as int) =~= outputs@);
        }
        r
    }

    /// Normalizes the focused output; a disabled focused output is fatal
    /// for the query.
    pub fn focused(output: &NiriOutput) -> (r: Result<FocalMonitor, QueryFailure>)
        ensures
            match niri_monitor_spec(*output) {
                Option::Some(m) => r == Ok::<FocalMonitor, QueryFailure>(m),
                Option::None => r == Err::<FocalMonitor, QueryFailure>(
                    QueryFailure::MonitorDisabled,
                ),
            },
    {
        match &output.logical {
            Some(l) => Ok(
                FocalMonitor {
                    name: output.name.clone(),
                    x: l.x,
                    y: l.y,
                    w: l.width,
                    h: l.height,
                    scale_mil: l.scale_mil,
                    rotation: l.transform,
                },
            ),
            None => Err(QueryFailure::MonitorDisabled),
        }
    }

    /// This backend exposes no per-window geometry: the empty list is its
    /// valid degraded answer, distinct from a failed query.
    pub fn window_geoms() -> (r: Vec<SlurpGeom>)
        ensures
            r@ == Seq::<SlurpGeom>::empty(),
    {
        Vec::new()
    }
}

} // verus!
