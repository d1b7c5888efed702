//! Screenshot capture plans: what the capture tool is asked to grab.

use vstd::prelude::*;

use crate::monitor::FocalMonitor;
use crate::monitor::total_dimensions;
use crate::monitor::total_h;
use crate::monitor::total_w;
use crate::numstr::i32_to_string;
use crate::numstr::int_to_chars;
use crate::slurp::SlurpGeom;
use crate::slurp::geom_chars;

verus! {

/// One invocation of the capture tool: an optional target monitor, an
/// optional geometry, and the output file.
#[derive(Debug, PartialEq)]
pub struct Grim {
    pub monitor: String,
    pub geometry: String,
    pub output: String,
}

/// The argument list the capture tool is launched with: the monitor flag
/// when a monitor is set, the geometry flag when a geometry is set, then
/// the output file.
pub open spec fn grim_args(g: Grim) -> Seq<Seq<char>> {
    (if g.monitor@.len() > 0 {
        seq!["-o"@, g.monitor@]
    } else {
        Seq::empty()
    }) + (if g.geometry@.len() > 0 {
        seq!["-g"@, g.geometry@]
    } else {
        Seq::empty()
    }) + seq![g.output@]
}

impl Grim {
    /// A capture of everything, into the given output file.
    pub fn new(output: String) -> (r: Self)
        ensures
            r.output == output,
            r.monitor@ == Seq::<char>::empty(),
            r.geometry@ == Seq::<char>::empty(),
    {
        Grim { monitor: String::new(), geometry: String::new(), output }
    }

    /// Restricts the capture to a geometry.
    pub fn geometry(self, geometry: &str) -> (r: Self)
        ensures
            r.output == self.output,
            r.monitor == self.monitor,
            r.geometry@ == geometry@,
    {
        Grim { geometry: String::from_str(geometry), ..self }
    }

    /// Restricts the capture to a monitor.
    pub fn monitor(self, monitor: &str) -> (r: Self)
        ensures
            r.output == self.output,
            r.geometry == self.geometry,
            r.monitor@ == monitor@,
    {
        Grim { monitor: String::from_str(monitor), ..self }
    }

    /// The argument list to launch the capture tool with.
    pub fn args(&self) -> (r: Vec<String>)
        ensures
            r.deep_view() == grim_args(*self),
    {
        let mut r: Vec<String> = Vec::new();
        if !self.monitor.as_str().is_empty() {
            r.push(String::from_str("-o"));
            r.push(self.monitor.clone());
        }
        if !self.geometry.as_str().is_empty() {
            r.push(String::from_str("-g"));
            r.push(self.geometry.clone());
        }
        r.push(self.output.clone());
        proof {
            assert(r.deep_view() =~~= grim_args(*self));
        }
        r
    }
}

/// The geometry string that selects the whole desktop: from the origin to
/// the far corner of the monitors' bounding box.
pub open spec fn all_monitors_geometry(mons: Seq<FocalMonitor>) -> Seq<char> {
    "0,0 "@ + int_to_chars(total_w(mons)) + "x"@ + int_to_chars(total_h(mons))
}

/// A screenshot command: what to capture, where to put it, and what to do
/// with it afterwards.
#[derive(Debug)]
pub struct Screenshot {
    pub delay: Option<u64>,
    pub no_rounded_windows: bool,
    pub freeze: bool,
    pub edit: Option<String>,
    pub icons: bool,
    pub notify: bool,
    pub slurp: Option<String>,
    pub ocr: Option<String>,
    pub output: String,
}

impl Screenshot {
    /// The capture of one whole monitor: the focused one, by name.
    pub fn monitor(&self, focused: &FocalMonitor) -> (g: Grim)
        ensures
            g.monitor@ == focused.name@,
            g.geometry@ == Seq::<char>::empty(),
            g.output == self.output,
    {
        Grim::new(self.output.clone()).monitor(focused.name.as_str())
    }

    /// The capture of a selected region, in absolute desktop coordinates.
    pub fn selection(&self, geom: &SlurpGeom) -> (g: Grim)
        ensures
            g.monitor@ == Seq::<char>::empty(),
            g.geometry@ == geom_chars(*geom),
            g.output == self.output,
    {
        let gs = geom.to_geom_string();
        Grim::new(self.output.clone()).geometry(gs.as_str())
    }

    /// The capture of all monitors at once: the whole bounding box, from
    /// the desktop origin.
    pub fn all(&self, monitors: &Vec<FocalMonitor>) -> (g: Grim)
        requires
            forall|i: int| 0 <= i < monitors@.len() ==> (#[trigger] monitors@[i]).wf(),
        ensures
            g.monitor@ == Seq::<char>::empty(),
            g.geometry@ == all_monitors_geometry(monitors@),
            g.output == self.output,
    {
        let (w, h) = total_dimensions(monitors);
        let mut gs = String::from_str("0,0 ");
        gs.append(i32_to_string(w).as_str());
        gs.append("x");
        gs.append(i32_to_string(h).as_str());
        proof {
            assert(gs@ =~= all_monitors_geometry(monitors@));
        }
        Grim::new(self.output.clone()).geometry(gs.as_str())
    }
}

} // verus!
