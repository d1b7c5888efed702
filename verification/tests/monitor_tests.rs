use focal::hyprland::HyprClient;
use focal::hyprland::HyprMonitor;
use focal::hyprland::HyprMonitors;
use focal::image::Screenshot;
use focal::mango::MangoMonitors;
use focal::mango::Mode;
use focal::mango::Position;
use focal::mango::WlrMonitor;
use focal::monitor::FocalMonitor;
use focal::monitor::QueryFailure;
use focal::monitor::Rotation;
use focal::monitor::total_dimensions;
use focal::niri::LogicalOutput;
use focal::niri::NiriMonitors;
use focal::niri::NiriOutput;
use focal::slurp::SlurpGeom;
use focal::sway::GetOutput;
use focal::sway::GetTreeWindowNode;
use focal::sway::Rect;
use focal::sway::SwayMonitors;

fn mon(name: &str, x: i32, y: i32, w: i32, h: i32) -> FocalMonitor {
    FocalMonitor {
        name: name.to_string(),
        x,
        y,
        w,
        h,
        scale_mil: 1000,
        rotation: Rotation::Normal,
    }
}

#[test]
fn transpose_table_is_closed() {
    assert_eq!(Rotation::Normal.ffmpeg_transpose(), "");
    assert_eq!(Rotation::Normal90.ffmpeg_transpose(), "transpose=1");
    assert_eq!(Rotation::Normal180.ffmpeg_transpose(), "transpose=1,transpose=1");
    assert_eq!(Rotation::Normal270.ffmpeg_transpose(), "transpose=2");
    assert_eq!(Rotation::Flipped.ffmpeg_transpose(), "hflip");
    assert_eq!(Rotation::Flipped90.ffmpeg_transpose(), "transpose=0");
    assert_eq!(Rotation::Flipped180.ffmpeg_transpose(), "hflip,transpose=1,transpose=1");
    assert_eq!(Rotation::Flipped270.ffmpeg_transpose(), "transpose=3");
}

#[test]
fn rotation_names_map_onto_the_table() {
    assert_eq!(Rotation::from_name("normal"), Some(Rotation::Normal));
    assert_eq!(Rotation::from_name("90"), Some(Rotation::Normal90));
    assert_eq!(Rotation::from_name("180"), Some(Rotation::Normal180));
    assert_eq!(Rotation::from_name("270"), Some(Rotation::Normal270));
    assert_eq!(Rotation::from_name("flipped"), Some(Rotation::Flipped));
    assert_eq!(Rotation::from_name("flipped-90"), Some(Rotation::Flipped90));
    assert_eq!(Rotation::from_name("flipped-180"), Some(Rotation::Flipped180));
    assert_eq!(Rotation::from_name("flipped-270"), Some(Rotation::Flipped270));
    assert_eq!(Rotation::from_name("upside-down"), None);
    assert_eq!(Rotation::from_name(""), None);
}

#[test]
fn rotation_codes_map_onto_the_table() {
    assert_eq!(Rotation::from_code(0), Some(Rotation::Normal));
    assert_eq!(Rotation::from_code(3), Some(Rotation::Normal270));
    assert_eq!(Rotation::from_code(7), Some(Rotation::Flipped270));
    assert_eq!(Rotation::from_code(8), None);
}

#[test]
fn total_dimensions_cover_all_monitors() {
    let monitors = vec![mon("a", 0, 0, 1920, 1080), mon("b", 1920, 0, 1920, 1080)];
    assert_eq!(total_dimensions(&monitors), (3840, 1080));
    assert_eq!(total_dimensions(&Vec::new()), (0, 0));
    let monitors = vec![mon("a", 0, 240, 1920, 1080), mon("b", 1920, 0, 1080, 1920)];
    assert_eq!(total_dimensions(&monitors), (3000, 1920));
}

fn sway_output(name: &str, x: i32, y: i32, transform: &str, focused: bool) -> GetOutput {
    GetOutput {
        name: name.to_string(),
        rect: Rect { x, y, width: 1920, height: 1080 },
        scale_mil: 1000,
        transform: transform.to_string(),
        focused,
    }
}

#[test]
fn sway_outputs_normalize() {
    let outs = vec![
        sway_output("eDP-1", 0, 0, "normal", false),
        sway_output("DP-1", 1920, 0, "90", true),
    ];
    let ms = SwayMonitors::all(&outs).unwrap();
    assert_eq!(ms.len(), 2);
    assert_eq!(ms[0].name, "eDP-1");
    assert_eq!(ms[0].rotation, Rotation::Normal);
    assert_eq!(ms[1].x, 1920);
    assert_eq!(ms[1].rotation, Rotation::Normal90);
    let focused = SwayMonitors::focused(&outs).unwrap();
    assert_eq!(focused.name, "DP-1");
}

#[test]
fn sway_unknown_transform_is_fatal() {
    let outs = vec![sway_output("eDP-1", 0, 0, "diagonal", true)];
    assert_eq!(SwayMonitors::all(&outs), Err(QueryFailure::UnsupportedTransform));
    assert_eq!(SwayMonitors::focused(&outs), Err(QueryFailure::UnsupportedTransform));
    assert_eq!(
        SwayMonitors::focused(&Vec::new()),
        Err(QueryFailure::NoFocusedMonitor)
    );
}

fn leaf(x: i32, y: i32, w: i32, h: i32, visible: Option<bool>) -> GetTreeWindowNode {
    GetTreeWindowNode { rect: Rect { x, y, width: w, height: h }, nodes: Vec::new(), visible }
}

#[test]
fn window_tree_yields_visible_leaves() {
    let tree = GetTreeWindowNode {
        rect: Rect { x: 0, y: 0, width: 3840, height: 1080 },
        nodes: vec![
            GetTreeWindowNode {
                rect: Rect { x: 0, y: 0, width: 1920, height: 1080 },
                nodes: vec![leaf(0, 0, 800, 600, Some(true)), leaf(800, 0, 400, 300, Some(false))],
                visible: None,
            },
            leaf(1920, 0, 640, 480, Some(true)),
        ],
        visible: None,
    };
    let leaves = tree.leaf_nodes();
    assert_eq!(leaves.len(), 3);
    let geoms = SwayMonitors::window_geoms(&tree);
    assert_eq!(
        geoms,
        vec![SlurpGeom { x: 0, y: 0, w: 800, h: 600 }, SlurpGeom { x: 1920, y: 0, w: 640, h: 480 }]
    );
}

#[test]
fn leaf_nodes_of_a_leaf_is_itself() {
    let t = leaf(1, 2, 3, 4, Some(true));
    let leaves = t.leaf_nodes();
    assert_eq!(leaves.len(), 1);
    assert_eq!(leaves[0].rect, Rect { x: 1, y: 2, width: 3, height: 4 });
}

#[test]
fn hypr_window_geoms_filter_by_active_workspace() {
    let monitors = vec![
        HyprMonitor {
            name: "eDP-1".to_string(),
            x: 0,
            y: 0,
            width: 1920,
            height: 1080,
            scale_mil: 1000,
            transform: 0,
            active_workspace_id: 1,
            focused: true,
        },
        HyprMonitor {
            name: "DP-1".to_string(),
            x: 1920,
            y: 0,
            width: 1920,
            height: 1080,
            scale_mil: 1000,
            transform: 1,
            active_workspace_id: 3,
            focused: false,
        },
    ];
    let clients = vec![
        HyprClient { workspace_id: 1, x: 0, y: 0, w: 800, h: 600 },
        HyprClient { workspace_id: 2, x: 5, y: 5, w: 10, h: 10 },
        HyprClient { workspace_id: 3, x: 2000, y: 0, w: 640, h: 480 },
    ];
    let geoms = HyprMonitors::window_geoms(&monitors, &clients);
    assert_eq!(
        geoms,
        vec![SlurpGeom { x: 0, y: 0, w: 800, h: 600 }, SlurpGeom { x: 2000, y: 0, w: 640, h: 480 }]
    );
    let ms = HyprMonitors::all(&monitors).unwrap();
    assert_eq!(ms[1].rotation, Rotation::Normal90);
    assert_eq!(HyprMonitors::focused(&monitors).unwrap().name, "eDP-1");
}

#[test]
fn hypr_unknown_transform_code_is_fatal() {
    let monitors = vec![HyprMonitor {
        name: "eDP-1".to_string(),
        x: 0,
        y: 0,
        width: 1920,
        height: 1080,
        scale_mil: 1000,
        transform: 9,
        active_workspace_id: 1,
        focused: true,
    }];
    assert_eq!(HyprMonitors::all(&monitors), Err(QueryFailure::UnsupportedTransform));
}

fn wlr(name: &str, x: i32, enabled: bool, transform: &str, modes: Vec<Mode>) -> WlrMonitor {
    WlrMonitor {
        name: name.to_string(),
        enabled,
        modes,
        position: Position { x, y: 0 },
        transform: transform.to_string(),
        scale_mil: 1000,
    }
}

#[test]
fn mango_outputs_use_current_mode() {
    let mons = vec![
        wlr(
            "eDP-1",
            0,
            true,
            "normal",
            vec![
                Mode { width: 1280, height: 720, current: false },
                Mode { width: 1920, height: 1080, current: true },
            ],
        ),
        wlr("DP-9", 1920, false, "normal", Vec::new()),
    ];
    let ms = MangoMonitors::all(&mons).unwrap();
    // the disabled output is skipped, not reported
    assert_eq!(ms.len(), 1);
    assert_eq!(ms[0].w, 1920);
    assert_eq!(ms[0].h, 1080);
}

#[test]
fn mango_missing_current_mode_is_fatal() {
    let mons = vec![wlr("eDP-1", 0, true, "normal", vec![Mode {
        width: 1920,
        height: 1080,
        current: false,
    }])];
    assert_eq!(MangoMonitors::all(&mons), Err(QueryFailure::NoCurrentMode));
}

#[test]
fn mango_focused_follows_the_marker_line() {
    let mons = vec![
        wlr("eDP-1", 0, true, "normal", vec![Mode { width: 1920, height: 1080, current: true }]),
        wlr("DP-1", 1920, true, "normal", vec![Mode { width: 2560, height: 1440, current: true }]),
    ];
    let listing = "eDP-1 1920x1080 selmon 0\nDP-1 2560x1440 selmon 1\n";
    let focused = MangoMonitors::focused(&mons, listing).unwrap();
    assert_eq!(focused.name, "DP-1");
    assert_eq!(focused.w, 2560);

    let no_marker = "eDP-1 1920x1080 selmon 0\n";
    assert_eq!(
        MangoMonitors::focused(&mons, no_marker),
        Err(QueryFailure::NoFocusedMonitor)
    );
    let unknown_name = "ghost selmon 1\n";
    assert_eq!(
        MangoMonitors::focused(&mons, unknown_name),
        Err(QueryFailure::NoFocusedMonitor)
    );
    assert_eq!(MangoMonitors::window_geoms(), Vec::new());
}

#[test]
fn niri_outputs_skip_disabled() {
    let outs = vec![
        NiriOutput {
            name: "eDP-1".to_string(),
            logical: Some(LogicalOutput {
                x: 0,
                y: 0,
                width: 1920,
                height: 1080,
                scale_mil: 1000,
                transform: Rotation::Normal,
            }),
        },
        NiriOutput { name: "DP-1".to_string(), logical: None },
    ];
    let ms = NiriMonitors::all(&outs);
    assert_eq!(ms.len(), 1);
    assert_eq!(ms[0].name, "eDP-1");
    assert_eq!(NiriMonitors::focused(&outs[0]).unwrap().w, 1920);
    assert_eq!(NiriMonitors::focused(&outs[1]), Err(QueryFailure::MonitorDisabled));
    assert_eq!(NiriMonitors::window_geoms(), Vec::new());
}

#[test]
fn screenshot_plans_name_their_targets() {
    let shot = Screenshot {
        delay: None,
        no_rounded_windows: false,
        freeze: false,
        edit: None,
        icons: true,
        notify: true,
        slurp: None,
        ocr: None,
        output: "/tmp/shot.png".to_string(),
    };
    let focused = mon("eDP-1", 0, 0, 1920, 1080);
    let g = shot.monitor(&focused);
    assert_eq!(g.monitor, "eDP-1");
    assert_eq!(g.geometry, "");
    assert_eq!(g.args(), vec!["-o", "eDP-1", "/tmp/shot.png"]);

    let g = shot.selection(&SlurpGeom { x: 1, y: 2, w: 3, h: 4 });
    assert_eq!(g.geometry, "1,2 3x4");
    assert_eq!(g.args(), vec!["-g", "1,2 3x4", "/tmp/shot.png"]);

    let monitors = vec![mon("a", 0, 0, 1920, 1080), mon("b", 1920, 0, 1920, 1080)];
    let g = shot.all(&monitors);
    assert_eq!(g.geometry, "0,0 3840x1080");
    assert_eq!(g.args(), vec!["-g", "0,0 3840x1080", "/tmp/shot.png"]);
}
