//! Arguments of the screenshot subcommand.

use vstd::prelude::*;

use crate::cli::focal::CommonArgs;
use crate::cli::focal::RofiArgs;

verus! {

/// The kind of area a screenshot captures.
#[derive(Debug, Clone, Copy, PartialEq, Eq, Structural)]
pub enum CaptureArea {
    Monitor,
    Selection,
    Window,
    All,
}

/// The area choice: either the explicit option or one of its shorthands.
#[derive(Debug)]
pub struct AreaArgs {
    pub area: Option<CaptureArea>,
    pub selection: bool,
    pub window: bool,
    pub monitor: bool,
    pub all: bool,
}

impl AreaArgs {
    /// The area the arguments select: shorthand flags take precedence, in
    /// a fixed order, over the explicit option.
    pub open spec fn parse_spec(&self) -> Option<CaptureArea> {
        if self.selection {
            Option::Some(CaptureArea::Selection)
        } else if self.window {
            Option::Some(CaptureArea::Window)
        } else if self.monitor {
            Option::Some(CaptureArea::Monitor)
        } else if self.all {
            Option::Some(CaptureArea::All)
        } else {
            self.area
        }
    }

    /// Resolves the area choice.
    pub fn parse(&self) -> (r: Option<CaptureArea>)
        ensures
            r == self.parse_spec(),
    {
        if self.selection {
            Some(CaptureArea::Selection)
        } else if self.window {
            Some(CaptureArea::Window)
        } else if self.monitor {
            Some(CaptureArea::Monitor)
        } else if self.all {
            Some(CaptureArea::All)
        } else {
            self.area
        }
    }
}

/// Arguments of the screenshot subcommand.
#[derive(Debug)]
pub struct ImageArgs {
    pub area_args: AreaArgs,
    pub freeze: bool,
    pub common_args: CommonArgs,
    pub rofi_args: RofiArgs,
    pub edit: Option<String>,
    pub ocr: Option<String>,
    pub filename: Option<String>,
}

impl ImageArgs {
    /// The external programs this invocation needs: the capture tool
    /// always; the menu and selection tools when the menu runs; the
    /// selection tool when a region is selected; the OCR tool when OCR is
    /// asked for.
    pub open spec fn required_programs_spec(&self) -> Seq<Seq<char>> {
        seq!["grim"@] + (if self.rofi_args.rofi {
            seq!["rofi"@, "slurp"@]
        } else {
            Seq::empty()
        }) + (if self.area_args.parse_spec() == Option::Some(CaptureArea::Selection) {
            seq!["slurp"@]
        } else {
            Seq::empty()
        }) + (if self.ocr is Some {
            seq!["tesseract"@]
        } else {
            Seq::empty()
        })
    }

    /// Lists the external programs this invocation needs.
    pub fn required_programs(&self) -> (r: Vec<&'static str>)
        ensures
            r.deep_view() == self.required_programs_spec(),
    {
        let mut progs: Vec<&'static str> = Vec::new();
        progs.push("grim");
        if self.rofi_args.rofi {
            progs.push("rofi");
            progs.push("slurp");
        }
        match self.area_args.parse() {
            Some(CaptureArea::Selection) => progs.push("slurp"),
            _ => (),
        }
        if self.ocr.is_some() {
            progs.push("tesseract");
        }
        proof {
            assert(progs.deep_view() =~~= self.required_programs_spec());
        }
        progs
    }
}

} // verus!
