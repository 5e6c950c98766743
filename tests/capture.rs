use raspicam::capture::{
    build_args, classify, CaptureAction, CaptureEvent, CaptureOutcome, CapturePhase,
    CaptureSession, LaunchError, ToolRun, CAPTURE_TOOL,
};
use raspicam::settings::{CameraSettings, ImageSettings};

fn strings(items: &[&str]) -> Vec<String> {
    items.iter().map(|s| s.to_string()).collect()
}

fn default_args() -> Vec<String> {
    strings(&[
        "--contrast", "1", "--sharpness", "1", "--brightness", "0.3", "--saturation", "2",
        "--quality", "93", "-t", "10ms", "-o", "./out.jpg", "--width", "0", "--height", "0",
        "--autofocus-mode=manual", "--lens-position=1",
    ])
}

fn run(code: Option<i32>, stdout: &str, stderr: &str) -> ToolRun {
    ToolRun { exit_code: code, stdout: stdout.as_bytes().to_vec(), stderr: stderr.as_bytes().to_vec() }
}

#[test]
fn default_settings_give_the_documented_arguments() {
    let args = build_args(&CameraSettings::default(), &ImageSettings::default());
    assert_eq!(args, default_args());
    assert_eq!(CAPTURE_TOOL, "rpicam-still");
}

#[test]
fn arguments_forward_each_value_after_its_flag() {
    let camera = CameraSettings {
        contrast: "50".to_string(),
        sharpness: "30".to_string(),
        brightness: "60".to_string(),
        saturation: "0".to_string(),
        quality: "100".to_string(),
        timeout: "3000".to_string(),
        iso: "800".to_string(),
        output: "/tmp/shot.jpg".to_string(),
    };
    let image = ImageSettings {
        width: "640".to_string(),
        height: "480".to_string(),
        rotation: "90".to_string(),
        horizontal_flip: "true".to_string(),
        vertical_flip: "true".to_string(),
    };
    let args = build_args(&camera, &image);
    assert_eq!(
        args,
        strings(&[
            "--contrast", "50", "--sharpness", "30", "--brightness", "60", "--saturation", "0",
            "--quality", "100", "-t", "3000", "-o", "/tmp/shot.jpg", "--width", "640",
            "--height", "480", "--autofocus-mode=manual", "--lens-position=1",
        ])
    );
}

#[test]
fn arguments_are_the_same_on_every_call() {
    let camera = CameraSettings { timeout: "5s".to_string(), ..Default::default() };
    let image = ImageSettings { height: "720".to_string(), ..Default::default() };
    let first = build_args(&camera, &image);
    let second = build_args(&camera.clone(), &image.clone());
    assert_eq!(first, second);
    assert_eq!(first.len(), 20);
    assert_eq!(&first[18..], &strings(&["--autofocus-mode=manual", "--lens-position=1"])[..]);
}

#[test]
fn classify_zero_exit_is_success() {
    let out = classify("./a.jpg".to_string(), run(Some(0), "ok", ""));
    assert_eq!(
        out,
        CaptureOutcome::Success {
            output: "./a.jpg".to_string(),
            stdout: b"ok".to_vec(),
            stderr: Vec::new(),
        }
    );
}

#[test]
fn classify_nonzero_exit_is_tool_failure() {
    let out = classify("./a.jpg".to_string(), run(Some(255), "", "no camera"));
    assert_eq!(
        out,
        CaptureOutcome::ToolFailure {
            exit_code: Some(255),
            stdout: Vec::new(),
            stderr: b"no camera".to_vec(),
        }
    );
}

#[test]
fn classify_signal_end_is_tool_failure() {
    let out = classify("./a.jpg".to_string(), run(None, "", ""));
    assert_eq!(
        out,
        CaptureOutcome::ToolFailure { exit_code: None, stdout: Vec::new(), stderr: Vec::new() }
    );
}

#[test]
fn capture_first_removes_the_output_file() {
    let camera = CameraSettings { output: "/nonexistent/dir/x.jpg".to_string(), ..Default::default() };
    let (session, action) = CaptureSession::begin(camera, ImageSettings::default());
    assert_eq!(action, CaptureAction::RemoveFile("/nonexistent/dir/x.jpg".to_string()));
    assert_eq!(session.phase, CapturePhase::Cleanup);
}

#[test]
fn tool_runs_only_after_cleanup_report() {
    let (mut session, _) = CaptureSession::begin(CameraSettings::default(), ImageSettings::default());
    assert_eq!(session.step(CaptureEvent::ToolExited(run(Some(0), "", ""))), None);
    assert_eq!(session.phase, CapturePhase::Cleanup);
    assert_eq!(session.step(CaptureEvent::CleanupDone), Some(CaptureAction::RunTool(default_args())));
    assert_eq!(session.phase, CapturePhase::Launch);
    assert_eq!(session.step(CaptureEvent::CleanupDone), None);
    assert_eq!(session.phase, CapturePhase::Launch);
}

#[test]
fn launch_failure_is_reported_and_ends_the_capture() {
    let (mut session, _) = CaptureSession::begin(CameraSettings::default(), ImageSettings::default());
    session.step(CaptureEvent::CleanupDone);
    let error = LaunchError { os_code: Some(2), message: "No such file or directory".to_string() };
    assert_eq!(
        session.step(CaptureEvent::LaunchFailed(error.clone())),
        Some(CaptureAction::Report(Err(error)))
    );
    assert_eq!(session.phase, CapturePhase::Finished);
    assert_eq!(session.step(CaptureEvent::CleanupDone), None);
    assert_eq!(session.step(CaptureEvent::ToolExited(run(Some(0), "", ""))), None);
}

#[test]
fn tool_failure_is_reported_and_nothing_follows() {
    let (mut session, _) = CaptureSession::begin(CameraSettings::default(), ImageSettings::default());
    session.step(CaptureEvent::CleanupDone);
    assert_eq!(
        session.step(CaptureEvent::ToolExited(run(Some(1), "", "timeout"))),
        Some(CaptureAction::Report(Ok(CaptureOutcome::ToolFailure {
            exit_code: Some(1),
            stdout: Vec::new(),
            stderr: b"timeout".to_vec(),
        })))
    );
    assert_eq!(session.phase, CapturePhase::Finished);
    assert_eq!(session.step(CaptureEvent::CleanupDone), None);
}

#[test]
fn end_to_end_capture_with_succeeding_tool() {
    let camera = CameraSettings { output: "./out.jpg".to_string(), ..Default::default() };
    let (mut session, first) = CaptureSession::begin(camera, ImageSettings::default());
    assert_eq!(first, CaptureAction::RemoveFile("./out.jpg".to_string()));
    let args = match session.step(CaptureEvent::CleanupDone) {
        Some(CaptureAction::RunTool(args)) => args,
        other => panic!("expected the tool to run, got {:?}", other),
    };
    assert_eq!(&args[..2], &strings(&["--contrast", "1"])[..]);
    assert_eq!(&args[args.len() - 2..], &strings(&["--autofocus-mode=manual", "--lens-position=1"])[..]);
    let report = session.step(CaptureEvent::ToolExited(run(Some(0), "captured", "")));
    assert_eq!(
        report,
        Some(CaptureAction::Report(Ok(CaptureOutcome::Success {
            output: "./out.jpg".to_string(),
            stdout: b"captured".to_vec(),
            stderr: Vec::new(),
        })))
    );
}
