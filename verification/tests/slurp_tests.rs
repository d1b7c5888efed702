use focal::monitor::FocalMonitor;
use focal::monitor::Rotation;
use focal::slurp::GeometryError;
use focal::slurp::HyprAnimation;
use focal::slurp::SlurpGeom;
use focal::slurp::round2;

fn mon(name: &str, x: i32, y: i32, w: i32, h: i32, scale_mil: u32, rotation: Rotation) -> FocalMonitor {
    FocalMonitor { name: name.to_string(), x, y, w, h, scale_mil, rotation }
}

#[test]
fn parse_mixed_delimiters_agree() {
    let expected = SlurpGeom { x: 100, y: 100, w: 300, h: 200 };
    for s in [
        "100,100 300x200",
        "100 100 300 200",
        "100,100,300,200",
        "100x100x300x200",
        "100, 100 300x200",
        "100 ,100\t300 x 200",
    ] {
        let g = SlurpGeom::from_str(s).unwrap();
        assert_eq!(g, expected, "input {s:?}");
    }
}

#[test]
fn parse_negative_coordinates() {
    let g = SlurpGeom::from_str("-1920,-5 300x200").unwrap();
    assert_eq!(g, SlurpGeom { x: -1920, y: -5, w: 300, h: 200 });
}

#[test]
fn parse_wrong_token_count_is_error() {
    let e = SlurpGeom::from_str("1,2,3").unwrap_err();
    assert_eq!(e.message, "Slurp geom must have 4 parts");
    let e = SlurpGeom::from_str("1,2,3,4,5").unwrap_err();
    assert_eq!(e.message, "Slurp geom must have 4 parts");
    let e = SlurpGeom::from_str("").unwrap_err();
    assert_eq!(e.message, "Slurp geom must have 4 parts");
    // a leading delimiter opens an empty first token
    let e = SlurpGeom::from_str(",1,2,3,4").unwrap_err();
    assert_eq!(e.message, "Slurp geom must have 4 parts");
}

#[test]
fn parse_non_integer_token_is_error() {
    let e = SlurpGeom::from_str("a,b,c,d").unwrap_err();
    assert_eq!(e.message, "Failed to parse slurp");
    let e = SlurpGeom::from_str("1,2,3,2147483648").unwrap_err();
    assert_eq!(e.message, "Failed to parse slurp");
}

#[test]
fn parse_extreme_values() {
    let g = SlurpGeom::from_str("-2147483648,2147483647 0x1").unwrap();
    assert_eq!(g, SlurpGeom { x: -2147483648, y: 2147483647, w: 0, h: 1 });
}

#[test]
fn round2_decrements_odd_values() {
    assert_eq!(round2(5), 4);
    assert_eq!(round2(4), 4);
    assert_eq!(round2(0), 0);
    assert_eq!(round2(1), 0);
    assert_eq!(round2(-3), -4);
    assert_eq!(round2(-4), -4);
    assert_eq!(round2(i32::MIN), i32::MIN);
}

#[test]
fn round2_is_idempotent_on_samples() {
    for n in [-7, -2, 0, 1, 2, 9, 1000, 12345] {
        assert_eq!(round2(round2(n)), round2(n));
        assert!(round2(n) <= n);
        assert_eq!(round2(n) % 2, 0);
    }
}

#[test]
fn resolve_single_monitor_end_to_end() {
    // one monitor, unit scale, no rotation
    let monitors = vec![mon("eDP-1", 0, 0, 1920, 1080, 1000, Rotation::Normal)];
    let g = SlurpGeom::from_str("100,100 300x200").unwrap();
    let (name, filter) = g.to_ffmpeg_geom(&monitors).unwrap();
    assert_eq!(name, "eDP-1");
    assert_eq!(filter, "crop=w=300:h=200:x=100:y=100");
}

#[test]
fn resolve_picks_adjacent_monitor() {
    let monitors = vec![
        mon("DP-1", 0, 0, 1920, 1080, 1000, Rotation::Normal),
        mon("DP-2", 1920, 0, 1920, 1080, 1000, Rotation::Normal),
    ];
    let g = SlurpGeom { x: 2000, y: 100, w: 300, h: 200 };
    let (name, filter) = g.to_ffmpeg_geom(&monitors).unwrap();
    assert_eq!(name, "DP-2");
    assert_eq!(filter, "crop=w=300:h=200:x=80:y=100");
}

#[test]
fn resolve_forces_even_dimensions() {
    let monitors = vec![mon("eDP-1", 0, 0, 1920, 1080, 1000, Rotation::Normal)];
    let g = SlurpGeom { x: 10, y: 20, w: 301, h: 201 };
    let (_, filter) = g.to_ffmpeg_geom(&monitors).unwrap();
    assert_eq!(filter, "crop=w=300:h=200:x=10:y=20");
}

#[test]
fn resolve_applies_scale_with_rounding() {
    let monitors = vec![mon("eDP-1", 0, 0, 1280, 800, 1500, Rotation::Normal)];
    // 1.5 times 3 is 4.5, which rounds away from zero to 5, then down to 4
    let g = SlurpGeom { x: 1, y: 2, w: 3, h: 10 };
    let (_, filter) = g.to_ffmpeg_geom(&monitors).unwrap();
    assert_eq!(filter, "crop=w=4:h=14:x=2:y=3");
}

#[test]
fn resolve_skips_scale_step_for_unit_scale() {
    let monitors = vec![mon("eDP-1", 0, 0, 1920, 1080, 1000, Rotation::Normal)];
    let g = SlurpGeom { x: 7, y: 8, w: 10, h: 12 };
    let (_, filter) = g.to_ffmpeg_geom(&monitors).unwrap();
    assert_eq!(filter, "crop=w=10:h=12:x=7:y=8");
}

#[test]
fn resolve_prepends_transpose_for_rotated_monitor() {
    let monitors = vec![mon("HDMI-A-1", 0, 0, 1080, 1920, 1000, Rotation::Normal90)];
    let g = SlurpGeom { x: 10, y: 20, w: 100, h: 50 };
    let (_, filter) = g.to_ffmpeg_geom(&monitors).unwrap();
    assert_eq!(filter, "transpose=1, crop=w=100:h=50:x=10:y=20");
}

#[test]
fn resolve_outside_all_monitors_is_error() {
    let monitors = vec![mon("eDP-1", 0, 0, 1920, 1080, 1000, Rotation::Normal)];
    let g = SlurpGeom { x: 5000, y: 100, w: 10, h: 10 };
    assert_eq!(g.to_ffmpeg_geom(&monitors), Err(GeometryError::NoMonitorForRegion));
}

#[test]
fn geom_string_has_selection_format() {
    let g = SlurpGeom { x: 100, y: 100, w: 300, h: 200 };
    assert_eq!(g.to_geom_string(), "100,100 300x200");
    let g = SlurpGeom { x: -5, y: 0, w: 1, h: 2 };
    assert_eq!(g.to_geom_string(), "-5,0 1x2");
}

#[test]
fn from_selection_detects_window_match() {
    let windows = vec![
        SlurpGeom { x: 0, y: 0, w: 800, h: 600 },
        SlurpGeom { x: 10, y: 20, w: 300, h: 200 },
    ];
    let (g, is_window) = SlurpGeom::from_selection("10,20 300x200", &windows).unwrap();
    assert_eq!(g, windows[1]);
    assert!(is_window);
}

#[test]
fn from_selection_parses_free_region() {
    let windows = vec![SlurpGeom { x: 0, y: 0, w: 800, h: 600 }];
    let (g, is_window) = SlurpGeom::from_selection("1,2 3x4", &windows).unwrap();
    assert_eq!(g, SlurpGeom { x: 1, y: 2, w: 3, h: 4 });
    assert!(!is_window);
    assert!(SlurpGeom::from_selection("nonsense", &windows).is_err());
}

#[test]
fn fade_animation_config_round_trip() {
    let anims = vec![
        HyprAnimation {
            name: "windows".to_string(),
            enabled: true,
            speed: "8.0".to_string(),
            bezier: "default".to_string(),
        },
        HyprAnimation {
            name: "fadeLayers".to_string(),
            enabled: true,
            speed: "4.5".to_string(),
            bezier: "easeOut".to_string(),
        },
    ];
    let saved = SlurpGeom::disable_fade_animation(&anims);
    assert_eq!(saved.as_deref(), Some("fadeLayers,1,4.5,easeOut"));
    assert_eq!(SlurpGeom::reset_fade_animation(&saved), saved);
    assert_eq!(SlurpGeom::disable_fade_animation(&Vec::new()), None);
    assert_eq!(SlurpGeom::reset_fade_animation(&None), None);
}
