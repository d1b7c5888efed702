//! Arguments of the recording subcommand.

use vstd::prelude::*;

use crate::cli::focal::CommonArgs;
use crate::cli::focal::RofiArgs;

verus! {

/// The kind of area a recording captures.
#[derive(Debug, Clone, Copy, PartialEq, Eq, Structural)]
pub enum CaptureArea {
    Monitor,
    Selection,
}

/// The area choice: either the explicit option or one of its shorthands.
#[derive(Debug)]
pub struct AreaArgs {
    pub area: Option<CaptureArea>,
    pub selection: bool,
    pub monitor: bool,
}

impl AreaArgs {
    /// The area the arguments select: shorthand flags take precedence, in
    /// a fixed order, over the explicit option.
    pub open spec fn parse_spec(&self) -> Option<CaptureArea> {
        if self.selection {
            Option::Some(CaptureArea::Selection)
        } else if self.monitor {
            Option::Some(CaptureArea::Monitor)
        } else {
            self.area
        }
    }

    /// Resolves the area choice.
    pub fn parse(&self) -> (r: Option<CaptureArea>)
        ensures
            r == self.parse_spec(),
    {
        if self.selection {
            Some(CaptureArea::Selection)
        } else if self.monitor {
            Some(CaptureArea::Monitor)
        } else {
            self.area
        }
    }
}

/// Arguments of the recording subcommand.
#[derive(Debug)]
pub struct VideoArgs {
    pub area_args: AreaArgs,
    pub common_args: CommonArgs,
    pub rofi_args: RofiArgs,
    pub stop: bool,
    pub audio: Option<String>,
    pub duration: Option<u64>,
    pub filename: Option<String>,
}

impl VideoArgs {
    /// The external programs this invocation needs: the recorder and the
    /// signalling tool always; the menu and selection tools when the menu
    /// runs; the selection tool when a region is selected.
    pub open spec fn required_programs_spec(&self) -> Seq<Seq<char>> {
        seq!["wf-recorder"@, "pkill"@] + (if self.rofi_args.rofi {
            seq!["rofi"@, "slurp"@]
        } else {
            Seq::empty()
        }) + (if self.area_args.parse_spec() == Option::Some(CaptureArea::Selection) {
            seq!["slurp"@]
        } else {
            Seq::empty()
        })
    }

    /// Lists the external programs this invocation needs.
    pub fn required_programs(&self) -> (r: Vec<&'static str>)
        ensures
            r.deep_view() == self.required_programs_spec(),
    {
        let mut progs: Vec<&'static str> = Vec::new();
        progs.push("wf-recorder");
        progs.push("pkill");
        if self.rofi_args.rofi {
            progs.push("rofi");
            progs.push("slurp");
        }
        match self.area_args.parse() {
            Some(CaptureArea::Selection) => progs.push("slurp"),
            _ => (),
        }
        proof {
            assert(progs.deep_view() =~~= self.required_programs_spec());
        }
        progs
    }
}

} // verus!
