//! Builds the recorder subprocess invocation.

use vstd::prelude::*;

verus! {

/// One recorder invocation: target monitor, optional audio device, output
/// file and encoder filter chain.
#[derive(Debug, PartialEq)]
pub struct WfRecorder {
    pub monitor: String,
    pub audio: Option<String>,
    pub video: String,
    pub filter: String,
}

/// The argument list the recorder is launched with: the filter when one is
/// set, the audio flags when audio is requested, then the target monitor
/// and output file.
pub open spec fn recorder_args(w: WfRecorder) -> Seq<Seq<char>> {
    (if w.filter@.len() > 0 {
        seq!["--filter"@, w.filter@]
    } else {
        Seq::empty()
    }) + (match w.audio {
        Option::None => Seq::empty(),
        Option::Some(a) => seq!["--audio"@] + (if a@.len() > 0 {
            seq!["--device"@, a@]
        } else {
            Seq::empty()
        }),
    }) + seq!["--output"@, w.monitor@, "--overwrite"@, "-f"@, w.video@]
}

impl WfRecorder {
    /// A recorder for the given monitor and output file, with no audio and
    /// no filter.
    pub fn new(monitor: &str, video: String) -> (r: Self)
        ensures
            r.monitor@ == monitor@,
            r.video == video,
            r.audio is None,
            r.filter@ == Seq::<char>::empty(),
    {
        WfRecorder {
            monitor: String::from_str(monitor),
            audio: None,
            video,
            filter: String::new(),
        }
    }

    /// Sets the audio device: an empty device records from the default one.
    pub fn audio(self, audio: Option<&String>) -> (r: Self)
        ensures
            r.monitor == self.monitor,
            r.video == self.video,
            r.filter == self.filter,
            r.audio == match audio {
                Option::None => Option::<String>::None,
                Option::Some(a) => Option::Some(*a),
            },
    {
        let audio = match audio {
            Some(a) => Some(a.clone()),
            None => None,
        };
        WfRecorder { audio, ..self }
    }

    /// Sets the encoder filter chain.
    pub fn filter(self, filter: &str) -> (r: Self)
        ensures
            r.monitor == self.monitor,
            r.video == self.video,
            r.audio == self.audio,
            r.filter@ == filter@,
    {
        WfRecorder { filter: String::from_str(filter), ..self }
    }

    /// The argument list to launch the recorder with.
    pub fn args(&self) -> (r: Vec<String>)
        ensures
            r.deep_view() == recorder_args(*self),
    {
        let mut r: Vec<String> = Vec::new();
        if !self.filter.as_str().is_empty() {
            r.push(String::from_str("--filter"));
            r.push(self.filter.clone());
        }
        match &self.audio {
            Some(a) => {
                r.push(String::from_str("--audio"));
                if !a.as_str().is_empty() {
                    r.push(String::from_str("--device"));
                    r.push(a.clone());
                }
            },
            None => {},
        }
        r.push(String::from_str("--output"));
        r.push(self.monitor.clone());
        r.push(String::from_str("--overwrite"));
        r.push(String::from_str("-f"));
        r.push(self.video.clone());
        proof {
            assert(r.deep_view() =~~= recorder_args(*self));
        }
        r
    }
}

} // verus!
