use linkshot::capture::{
    capture_command, capture_failure_message, decode_error_message, fullscreen_backends, is_wayland,
    join_path, launch_error_message, on_path_candidates, path_entries_of, temp_capture_name, Backend,
    CaptureAction, CaptureEvent, CapturePhase, CaptureRun, Platform,
};

fn names(bs: &[Backend]) -> Vec<String> {
    bs.iter().map(|b| b.program.clone()).collect()
}

#[test]
fn linux_x11_backends_in_order() {
    let bs = fullscreen_backends(Platform::Linux, false);
    assert_eq!(names(&bs), vec!["maim", "scrot", "import", "gnome-screenshot"]);
    assert_eq!(bs[2].args, vec!["-window", "root", "@OUT@"]);
    assert_eq!(bs[3].args, vec!["-f", "@OUT@"]);
    for b in &bs {
        assert_eq!(b.required, vec![b.program.clone()]);
        assert!(b.shell.is_none());
    }
}

#[test]
fn linux_wayland_backends_come_first() {
    let bs = fullscreen_backends(Platform::Linux, true);
    assert_eq!(
        names(&bs),
        vec!["grim", "gnome-screenshot", "spectacle", "maim", "scrot", "import", "gnome-screenshot"]
    );
    assert_eq!(bs[2].args, vec!["-b", "-n", "-f", "-o", "@OUT@"]);
}

#[test]
fn macos_and_other_backends() {
    let bs = fullscreen_backends(Platform::MacOs, false);
    assert_eq!(names(&bs), vec!["screencapture"]);
    assert_eq!(bs[0].args, vec!["-x", "-t", "png", "@OUT@"]);
    assert!(fullscreen_backends(Platform::Other, true).is_empty());
}

#[test]
fn wayland_detection() {
    assert!(is_wayland(true, None));
    assert!(is_wayland(false, Some("wayland")));
    assert!(!is_wayland(false, Some("x11")));
    assert!(!is_wayland(false, None));
}

#[test]
fn path_lookup_candidates() {
    assert_eq!(path_entries_of("/usr/bin:/bin::/opt/x/"), vec!["/usr/bin", "/bin", "", "/opt/x/"]);
    assert_eq!(path_entries_of(""), vec![""]);
    assert_eq!(
        on_path_candidates(Some("/usr/bin:/opt/x/:"), "grim"),
        vec!["/usr/bin/grim", "/opt/x/grim", "grim"]
    );
    assert!(on_path_candidates(None, "grim").is_empty());
    assert_eq!(join_path("/usr/bin", "/abs/tool"), "/abs/tool");
}

#[test]
fn path_join_agrees_with_std() {
    for (d, b) in [("/usr/bin", "grim"), ("/usr/bin/", "grim"), ("", "grim"), ("rel", "x")] {
        let std_join = std::path::Path::new(d).join(b);
        assert_eq!(join_path(d, b), std_join.to_str().unwrap());
    }
}

#[test]
fn command_substitutes_output_path() {
    let bs = fullscreen_backends(Platform::Linux, true);
    let c = capture_command(&bs[2], "/tmp/cap.png");
    assert_eq!(c.program, "spectacle");
    assert_eq!(c.args, vec!["-b", "-n", "-f", "-o", "/tmp/cap.png"]);
    let shell = Backend {
        required: vec!["grim".to_string()],
        program: "ignored".to_string(),
        args: vec![],
        shell: Some("grim - > @OUT@ && echo @OUT@".to_string()),
    };
    let c = capture_command(&shell, "/o.png");
    assert_eq!(c.program, "sh");
    assert_eq!(c.args, vec!["-c", "grim - > /o.png && echo /o.png"]);
}

#[test]
fn capture_file_name() {
    assert_eq!(temp_capture_name(4242), "linkshot-capture-4242.png");
    assert_eq!(temp_capture_name(0), "linkshot-capture-0.png");
}

#[test]
fn capture_messages() {
    assert_eq!(
        capture_failure_message(&vec![]),
        "No screenshot tool found. Install one of: grim, gnome-screenshot, spectacle, maim, scrot, or ImageMagick (import)."
    );
    assert_eq!(
        capture_failure_message(&vec!["maim".to_string(), "scrot".to_string()]),
        "Full-screen capture failed using: maim, scrot"
    );
    assert_eq!(launch_error_message("grim"), "failed to launch capture tool `grim`");
    assert_eq!(decode_error_message("/tmp/c.png"), "failed to decode capture from /tmp/c.png");
}

fn fail_text(a: CaptureAction) -> String {
    match a {
        CaptureAction::Fail(m) => m,
        _ => panic!("expected a failure"),
    }
}

#[test]
fn capture_run_with_no_tools_installed() {
    let mut run = CaptureRun::new(Platform::Linux, false, "/tmp/c.png".to_string());
    let mut a = run.step(CaptureEvent::Begin);
    let mut checked = Vec::new();
    while let CaptureAction::CheckAvailable(tools) = a {
        checked.push(tools[0].clone());
        a = run.step(CaptureEvent::Availability(false));
    }
    assert_eq!(checked, vec!["maim", "scrot", "import", "gnome-screenshot"]);
    assert!(fail_text(a).starts_with("No screenshot tool found."));
    assert!(run.finished());
}

#[test]
fn capture_run_reports_tools_that_failed() {
    let mut run = CaptureRun::new(Platform::Linux, false, "/tmp/c.png".to_string());
    assert!(matches!(run.step(CaptureEvent::Begin), CaptureAction::CheckAvailable(_)));
    match run.step(CaptureEvent::Availability(true)) {
        CaptureAction::Run(c) => {
            assert_eq!(c.program, "maim");
            assert_eq!(c.args, vec!["/tmp/c.png"]);
        }
        _ => panic!("expected a run"),
    }
    assert!(matches!(
        run.step(CaptureEvent::Exited { success: false, output_exists: false }),
        CaptureAction::CheckAvailable(_)
    ));
    assert!(matches!(run.step(CaptureEvent::Availability(true)), CaptureAction::Run(_)));
    assert!(matches!(
        run.step(CaptureEvent::Exited { success: true, output_exists: false }),
        CaptureAction::CheckAvailable(_)
    ));
    assert!(matches!(run.step(CaptureEvent::Availability(false)), CaptureAction::CheckAvailable(_)));
    let a = run.step(CaptureEvent::Availability(false));
    assert_eq!(fail_text(a), "Full-screen capture failed using: maim, scrot");
}

#[test]
fn capture_run_success_and_decode_failure() {
    let mut run = CaptureRun::new(Platform::MacOs, false, "/tmp/c.png".to_string());
    run.step(CaptureEvent::Begin);
    match run.step(CaptureEvent::Availability(true)) {
        CaptureAction::Run(c) => {
            assert_eq!(c.program, "screencapture");
            assert_eq!(c.args, vec!["-x", "-t", "png", "/tmp/c.png"]);
        }
        _ => panic!("expected a run"),
    }
    assert!(matches!(
        run.step(CaptureEvent::Exited { success: true, output_exists: true }),
        CaptureAction::Decode
    ));
    assert_eq!(run.phase, CapturePhase::Decoding);
    let mut ok = CaptureRun { phase: CapturePhase::Decoding, ..CaptureRun::new(Platform::MacOs, false, "/x".into()) };
    assert!(matches!(ok.step(CaptureEvent::Decoded(true)), CaptureAction::Done));
    let a = run.step(CaptureEvent::Decoded(false));
    assert_eq!(fail_text(a), "failed to decode capture from /tmp/c.png");
}

#[test]
fn capture_run_launch_failure_ends_run() {
    let mut run = CaptureRun::new(Platform::Linux, true, "/o.png".to_string());
    run.step(CaptureEvent::Begin);
    run.step(CaptureEvent::Availability(true));
    let a = run.step(CaptureEvent::LaunchFailed);
    assert_eq!(fail_text(a), "failed to launch capture tool `grim`");
    assert!(run.finished());
    assert_eq!(run.tried, vec!["grim"]);
}

#[test]
fn capture_run_on_platform_without_tools() {
    let mut run = CaptureRun::new(Platform::Other, false, "/o.png".to_string());
    let a = run.step(CaptureEvent::Begin);
    assert!(fail_text(a).starts_with("No screenshot tool found."));
}
