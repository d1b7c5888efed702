use focal::monitor::FocalMonitor;
use focal::monitor::Rotation;
use focal::video::LockFile;
use focal::video::Screencast;
use focal::video::SessionState;
use focal::wf_recorder::WfRecorder;

fn cast(output: &str, audio: Option<&str>, duration: Option<u64>) -> Screencast {
    Screencast {
        delay: None,
        icons: true,
        audio: audio.map(str::to_string),
        no_rounded_windows: false,
        notify: true,
        duration,
        slurp: None,
        output: output.to_string(),
    }
}

#[test]
fn lock_file_serializes_canonically() {
    let l = LockFile { video: "/tmp/a.mp4".to_string(), rounding: None };
    assert_eq!(l.to_json(), "{\"video\":\"/tmp/a.mp4\",\"rounding\":null}");
    let l = LockFile { video: "/tmp/a.mp4".to_string(), rounding: Some(10) };
    assert_eq!(l.to_json(), "{\"video\":\"/tmp/a.mp4\",\"rounding\":10}");
    let l = LockFile { video: "/tmp/a.mp4".to_string(), rounding: Some(-3) };
    assert_eq!(l.to_json(), "{\"video\":\"/tmp/a.mp4\",\"rounding\":-3}");
}

#[test]
fn lock_file_round_trips() {
    for l in [
        LockFile { video: "/tmp/a.mp4".to_string(), rounding: None },
        LockFile { video: "/home/u/Videos/rec.mp4".to_string(), rounding: Some(12) },
        LockFile { video: "odd \"name\" with \\slash".to_string(), rounding: Some(-1) },
        LockFile { video: String::new(), rounding: None },
    ] {
        let text = l.to_json();
        let back = LockFile::parse(&text).expect("round trip failed");
        assert_eq!(back, l);
    }
}

#[test]
fn lock_file_parse_rejects_other_text() {
    assert!(LockFile::parse("").is_none());
    assert!(LockFile::parse("hello").is_none());
    assert!(LockFile::parse("{\"video\":\"x\"}").is_none());
    assert!(LockFile::parse("{\"video\":\"x\",\"rounding\":}").is_none());
    assert!(LockFile::parse("{\"video\":\"x\",\"rounding\":ten}").is_none());
    assert!(LockFile::parse("{\"video\":\"x\",\"rounding\":1").is_none());
}

#[test]
fn stop_while_idle_is_a_no_op() {
    let mut state = SessionState::new();
    let plan = Screencast::stop(&mut state, true);
    assert!(!plan.found);
    assert_eq!(plan.restore_rounding, None);
    assert_eq!(plan.notify_video, None);
    assert!(state.record.is_none());
}

#[test]
fn start_then_stop_restores_rounding_and_record() {
    let sc = cast("/tmp/rec.mp4", None, None);
    let mut state = SessionState::new();
    let plan = sc.capture(&mut state, "eDP-1", "crop=w=2:h=2:x=0:y=0", Some(8));
    assert_eq!(
        state.record,
        Some(LockFile { video: "/tmp/rec.mp4".to_string(), rounding: Some(8) })
    );
    assert_eq!(plan.lock, LockFile { video: "/tmp/rec.mp4".to_string(), rounding: Some(8) });
    assert!(plan.timed_stop.is_none());

    let stop = Screencast::stop(&mut state, true);
    assert!(stop.found);
    assert_eq!(stop.restore_rounding, Some(8));
    assert_eq!(stop.notify_video, Some("/tmp/rec.mp4".to_string()));
    assert!(state.record.is_none());
}

#[test]
fn timed_capture_self_terminates() {
    let sc = cast("/tmp/rec.mp4", None, Some(5));
    let mut state = SessionState::new();
    let plan = sc.capture(&mut state, "eDP-1", "", None);
    // the record is already removed, exactly as after an explicit stop
    assert!(state.record.is_none());
    let (delay, stop) = plan.timed_stop.expect("timed capture carries its stop");
    assert_eq!(delay, 5);
    assert!(stop.found);
    assert_eq!(stop.restore_rounding, None);
    assert_eq!(stop.notify_video, None);
}

#[test]
fn capture_plan_carries_recorder_and_clipboard_entry() {
    let sc = cast("/tmp/rec.mp4", Some("mic"), None);
    let mut state = SessionState::new();
    let plan = sc.capture(&mut state, "DP-1", "crop=w=4:h=4:x=0:y=0", None);
    assert_eq!(plan.copy_uri, "file:///tmp/rec.mp4");
    assert_eq!(plan.recorder.monitor, "DP-1");
    assert_eq!(plan.recorder.video, "/tmp/rec.mp4");
    assert_eq!(plan.recorder.filter, "crop=w=4:h=4:x=0:y=0");
    assert_eq!(plan.recorder.audio.as_deref(), Some("mic"));
    assert_eq!(
        plan.recorder.args(),
        vec![
            "--filter",
            "crop=w=4:h=4:x=0:y=0",
            "--audio",
            "--device",
            "mic",
            "--output",
            "DP-1",
            "--overwrite",
            "-f",
            "/tmp/rec.mp4",
        ]
    );
}

#[test]
fn recorder_args_omit_unset_options() {
    let r = WfRecorder::new("eDP-1", "/tmp/v.mp4".to_string());
    assert_eq!(r.args(), vec!["--output", "eDP-1", "--overwrite", "-f", "/tmp/v.mp4"]);
    // an empty audio device records from the default one
    let r = WfRecorder::new("eDP-1", "/tmp/v.mp4".to_string()).audio(Some(&String::new()));
    assert_eq!(r.args(), vec!["--audio", "--output", "eDP-1", "--overwrite", "-f", "/tmp/v.mp4"]);
}

#[test]
fn monitor_capture_uses_transpose_as_filter() {
    let sc = cast("/tmp/rec.mp4", None, None);
    let mut state = SessionState::new();
    let focused = FocalMonitor {
        name: "HDMI-A-1".to_string(),
        x: 0,
        y: 0,
        w: 1080,
        h: 1920,
        scale_mil: 1000,
        rotation: Rotation::Normal90,
    };
    let plan = sc.monitor(&mut state, &focused);
    assert_eq!(plan.recorder.monitor, "HDMI-A-1");
    assert_eq!(plan.recorder.filter, "transpose=1");
    assert_eq!(state.record, Some(LockFile { video: "/tmp/rec.mp4".to_string(), rounding: None }));
}

#[test]
fn selection_capture_resolves_and_records() {
    let sc = cast("/tmp/rec.mp4", None, None);
    let mut state = SessionState::new();
    let monitors = vec![FocalMonitor {
        name: "eDP-1".to_string(),
        x: 0,
        y: 0,
        w: 1920,
        h: 1080,
        scale_mil: 1000,
        rotation: Rotation::Normal,
    }];
    let geom = focal::slurp::SlurpGeom { x: 100, y: 100, w: 300, h: 200 };
    let plan = sc.selection(&mut state, &monitors, geom, None).unwrap();
    assert_eq!(plan.recorder.monitor, "eDP-1");
    assert_eq!(plan.recorder.filter, "crop=w=300:h=200:x=100:y=100");
    assert!(state.record.is_some());

    let mut idle = SessionState::new();
    let off = focal::slurp::SlurpGeom { x: 9000, y: 0, w: 1, h: 1 };
    assert!(sc.selection(&mut idle, &monitors, off, None).is_err());
    assert!(idle.record.is_none());
}

#[test]
fn record_exists_mirrors_session_state() {
    let mut state = SessionState::new();
    assert!(!LockFile::record_exists(&state));
    let sc = cast("/tmp/rec.mp4", None, None);
    sc.capture(&mut state, "eDP-1", "", None);
    assert!(LockFile::record_exists(&state));
}
