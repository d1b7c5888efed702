use focal::cli::focal::CommonArgs;
use focal::cli::focal::RofiArgs;
use focal::cli::image;
use focal::cli::video;
use focal::cli::waybar;
use focal::numstr::i32_to_string;
use focal::numstr::i64_to_string;
use focal::numstr::parse_i32_span;
use focal::numstr::parse_i64_span;
use focal::rofi::Rofi;
use focal::strutil::ends_with;
use focal::strutil::str_eq;

fn common() -> CommonArgs {
    CommonArgs { delay: None, slurp: None, no_rounded_windows: false, no_notify: false, no_save: false }
}

fn rofi_args(rofi: bool) -> RofiArgs {
    RofiArgs { rofi, no_icons: false, theme: None }
}

fn image_args(area: image::AreaArgs, rofi: bool, ocr: Option<&str>) -> image::ImageArgs {
    image::ImageArgs {
        area_args: area,
        freeze: false,
        common_args: common(),
        rofi_args: rofi_args(rofi),
        edit: None,
        ocr: ocr.map(str::to_string),
        filename: None,
    }
}

fn image_area(
    area: Option<image::CaptureArea>,
    selection: bool,
    window: bool,
    monitor: bool,
    all: bool,
) -> image::AreaArgs {
    image::AreaArgs { area, selection, window, monitor, all }
}

#[test]
fn area_shorthands_take_precedence() {
    let a = image_area(Some(image::CaptureArea::All), true, false, false, false);
    assert_eq!(a.parse(), Some(image::CaptureArea::Selection));
    let a = image_area(None, false, true, true, false);
    assert_eq!(a.parse(), Some(image::CaptureArea::Window));
    let a = image_area(Some(image::CaptureArea::Monitor), false, false, false, false);
    assert_eq!(a.parse(), Some(image::CaptureArea::Monitor));
    let a = image_area(None, false, false, false, false);
    assert_eq!(a.parse(), None);

    let v = video::AreaArgs { area: None, selection: false, monitor: true };
    assert_eq!(v.parse(), Some(video::CaptureArea::Monitor));
    let v = video::AreaArgs { area: Some(video::CaptureArea::Monitor), selection: true, monitor: false };
    assert_eq!(v.parse(), Some(video::CaptureArea::Selection));
}

#[test]
fn image_required_programs_follow_the_flags() {
    let args = image_args(image_area(None, false, false, true, false), false, None);
    assert_eq!(args.required_programs(), vec!["grim"]);
    let args = image_args(image_area(None, true, false, false, false), false, None);
    assert_eq!(args.required_programs(), vec!["grim", "slurp"]);
    let args = image_args(image_area(None, false, false, false, false), true, None);
    assert_eq!(args.required_programs(), vec!["grim", "rofi", "slurp"]);
    let args = image_args(image_area(None, true, false, false, false), true, Some("eng"));
    assert_eq!(args.required_programs(), vec!["grim", "rofi", "slurp", "slurp", "tesseract"]);
}

#[test]
fn video_required_programs_follow_the_flags() {
    let args = video::VideoArgs {
        area_args: video::AreaArgs { area: None, selection: false, monitor: true },
        common_args: common(),
        rofi_args: rofi_args(false),
        stop: false,
        audio: None,
        duration: None,
        filename: None,
    };
    assert_eq!(args.required_programs(), vec!["wf-recorder", "pkill"]);
    let args = video::VideoArgs {
        area_args: video::AreaArgs { area: None, selection: true, monitor: false },
        common_args: common(),
        rofi_args: rofi_args(true),
        stop: false,
        audio: None,
        duration: None,
        filename: None,
    };
    assert_eq!(
        args.required_programs(),
        vec!["wf-recorder", "pkill", "rofi", "slurp", "slurp"]
    );
}

#[test]
fn waybar_status_picks_the_message() {
    let cli = waybar::Cli {
        command: None,
        recording: "REC".to_string(),
        stopped: String::new(),
    };
    assert_eq!(cli.status(true).as_str(), "REC");
    assert_eq!(cli.status(false).as_str(), "");
}

#[test]
fn rofi_builder_collects_menu_state() {
    let choices = vec!["Selection".to_string(), "Monitor".to_string(), "All".to_string()];
    let rofi = Rofi::new(&choices)
        .arg("-kb-custom-1")
        .arg("Alt-a")
        .message("Audio can be recorded using Alt+a")
        .theme("menu.rasi".to_string());
    assert_eq!(rofi.input(), "Selection|Monitor|All");
    assert_eq!(rofi.extra_args, vec!["-kb-custom-1", "Alt-a"]);
    assert_eq!(rofi.message, "Audio can be recorded using Alt+a");
    assert_eq!(rofi.theme, "menu.rasi");

    let one = Rofi::new(&vec!["0s".to_string()]);
    assert_eq!(one.input(), "0s");
    let none = Rofi::new(&Vec::new());
    assert_eq!(none.input(), "");
}

#[test]
fn decimal_rendering_matches_std() {
    for v in [0i32, 7, -7, 42, 1000, i32::MAX, i32::MIN] {
        assert_eq!(i32_to_string(v), v.to_string());
    }
    for v in [0i64, -1, i64::MAX, i64::MIN] {
        assert_eq!(i64_to_string(v), v.to_string());
    }
}

#[test]
fn span_parsing_matches_std() {
    let s = "123 -45 +6 2147483648 -2147483648 junk";
    assert_eq!(parse_i32_span(s, 0, 3), Some(123));
    assert_eq!(parse_i32_span(s, 4, 7), Some(-45));
    assert_eq!(parse_i32_span(s, 8, 10), Some(6));
    assert_eq!(parse_i32_span(s, 11, 21), None);
    assert_eq!(parse_i32_span(s, 22, 33), Some(i32::MIN));
    assert_eq!(parse_i32_span(s, 34, 38), None);
    assert_eq!(parse_i32_span(s, 0, 0), None);
    assert_eq!(parse_i64_span("9223372036854775807", 0, 19), Some(i64::MAX));
    assert_eq!(parse_i64_span("-9223372036854775808", 0, 20), Some(i64::MIN));
    assert_eq!(parse_i64_span("9223372036854775808", 0, 19), None);
}

#[test]
fn string_helpers_compare_by_characters() {
    assert!(str_eq("abc", "abc"));
    assert!(!str_eq("abc", "abd"));
    assert!(!str_eq("abc", "ab"));
    assert!(ends_with("eDP-1 selmon 1", "selmon 1"));
    assert!(!ends_with("selmon 0", "selmon 1"));
    assert!(!ends_with("1", "selmon 1"));
}
