use vstd::prelude::*;
use crate::settings::{CameraSettings, CameraSettingsView, ImageSettings, ImageSettingsView};

verus! {

/// Name of the still-capture program that is run by default.
pub const CAPTURE_TOOL: &'static str = "rpicam-still";

pub const CONTRAST_FLAG: &'static str = "--contrast";

pub const SHARPNESS_FLAG: &'static str = "--sharpness";

pub const BRIGHTNESS_FLAG: &'static str = "--brightness";

pub const SATURATION_FLAG: &'static str = "--saturation";

pub const QUALITY_FLAG: &'static str = "--quality";

/// Shutter delay; the value may carry a unit suffix such as "ms".
pub const TIMEOUT_FLAG: &'static str = "-t";

pub const OUTPUT_FLAG: &'static str = "-o";

pub const WIDTH_FLAG: &'static str = "--width";

pub const HEIGHT_FLAG: &'static str = "--height";

/// Every capture switches autofocus to manual, whatever the settings.
pub const AUTOFOCUS_MANUAL: &'static str = "--autofocus-mode=manual";

/// Every capture holds the lens at this fixed position, whatever the settings.
pub const LENS_POSITION: &'static str = "--lens-position=1";

/// The argument list handed to the capture tool, flag before value, in a
/// fixed order; the two focus literals close it whatever the settings.
pub open spec fn capture_args(camera: CameraSettingsView, image: ImageSettingsView) -> Seq<
    Seq<char>,
> {
    seq![
        CONTRAST_FLAG@,
        camera.contrast,
        SHARPNESS_FLAG@,
        camera.sharpness,
        BRIGHTNESS_FLAG@,
        camera.brightness,
        SATURATION_FLAG@,
        camera.saturation,
        QUALITY_FLAG@,
        camera.quality,
        TIMEOUT_FLAG@,
        camera.timeout,
        OUTPUT_FLAG@,
        camera.output,
        WIDTH_FLAG@,
        image.width,
        HEIGHT_FLAG@,
        image.height,
        AUTOFOCUS_MANUAL@,
        LENS_POSITION@,
    ]
}

fn push_flag(args: &mut Vec<String>, flag: &str)
    ensures
        final(args).deep_view() == old(args).deep_view().push(flag@),
{
    args.push(String::from_str(flag));
    assert(final(args).deep_view() =~= old(args).deep_view().push(flag@));
}

fn push_pair(args: &mut Vec<String>, flag: &str, value: &String)
    ensures
        final(args).deep_view() == old(args).deep_view().push(flag@).push(value@),
{
    push_flag(args, flag);
    args.push(value.clone());
    assert(final(args).deep_view() =~= old(args).deep_view().push(flag@).push(value@));
}

/// Assembles the capture tool's arguments for one (camera, image) pair.
pub fn build_args(camera: &CameraSettings, image: &ImageSettings) -> (r: Vec<String>)
    ensures
        r.deep_view() == capture_args(camera@, image@),
{
    let mut args: Vec<String> = Vec::new();
    push_pair(&mut args, CONTRAST_FLAG, &camera.contrast);
    push_pair(&mut args, SHARPNESS_FLAG, &camera.sharpness);
    push_pair(&mut args, BRIGHTNESS_FLAG, &camera.brightness);
    push_pair(&mut args, SATURATION_FLAG, &camera.saturation);
    push_pair(&mut args, QUALITY_FLAG, &camera.quality);
    push_pair(&mut args, TIMEOUT_FLAG, &camera.timeout);
    push_pair(&mut args, OUTPUT_FLAG, &camera.output);
    push_pair(&mut args, WIDTH_FLAG, &image.width);
    push_pair(&mut args, HEIGHT_FLAG, &image.height);
    push_flag(&mut args, AUTOFOCUS_MANUAL);
    push_flag(&mut args, LENS_POSITION);
    assert(args.deep_view() =~= capture_args(camera@, image@));
    args
}

/// How a run of the capture tool ended, as the operating system reported it.
#[derive(Debug, Clone, PartialEq, Eq)]
pub struct ToolRun {
    /// The exit code; `None` when the process was ended by a signal.
    pub exit_code: Option<i32>,
    pub stdout: Vec<u8>,
    pub stderr: Vec<u8>,
}

/// The capture tool could not be started (missing binary, permissions, or
/// another failure of the operating system).
#[derive(Debug, Clone, PartialEq, Eq)]
pub struct LaunchError {
    /// The operating system's error code, where it gave one.
    pub os_code: Option<i32>,
    pub message: String,
}

/// How a capture that did launch the tool ended. The tool's output streams
/// are kept for diagnostics only.
#[derive(Debug, Clone, PartialEq, Eq)]
pub enum CaptureOutcome {
    Success { output: String, stdout: Vec<u8>, stderr: Vec<u8> },
    ToolFailure { exit_code: Option<i32>, stdout: Vec<u8>, stderr: Vec<u8> },
}

/// A run succeeded exactly when the tool exited with status zero; an end by
/// signal is no success.
pub open spec fn succeeded(run: ToolRun) -> bool {
    run.exit_code == Some(0i32)
}

/// The outcome of a run that wrote (or should have written) to `output`.
pub open spec fn outcome_of(output: String, run: ToolRun) -> CaptureOutcome {
    if succeeded(run) {
        CaptureOutcome::Success { output, stdout: run.stdout, stderr: run.stderr }
    } else {
        CaptureOutcome::ToolFailure {
            exit_code: run.exit_code,
            stdout: run.stdout,
            stderr: run.stderr,
        }
    }
}

/// Classifies a finished run of the capture tool by its exit status.
pub fn classify(output: String, run: ToolRun) -> (r: CaptureOutcome)
    ensures
        r == outcome_of(output, run),
{
    let succeeded = match run.exit_code {
        Some(code) => code == 0,
        None => false,
    };
    if succeeded {
        CaptureOutcome::Success { output, stdout: run.stdout, stderr: run.stderr }
    } else {
        CaptureOutcome::ToolFailure {
            exit_code: run.exit_code,
            stdout: run.stdout,
            stderr: run.stderr,
        }
    }
}

/// Where a capture stands: the old output is being removed, the tool is
/// running, or the outcome has been reported.
#[derive(Debug, Clone, Copy, PartialEq, Eq, Structural)]
pub enum CapturePhase {
    Cleanup,
    Launch,
    Finished,
}

/// What the surrounding program reports back after performing an action.
#[derive(Debug, Clone, PartialEq, Eq)]
pub enum CaptureEvent {
    /// The removal of the old output file was attempted. Whether it removed
    /// anything, or failed, is deliberately not reported.
    CleanupDone,
    /// The capture tool could not be started.
    LaunchFailed(LaunchError),
    /// The capture tool ran and exited.
    ToolExited(ToolRun),
}

/// What the surrounding program is asked to do next.
#[derive(Debug, PartialEq, Eq)]
pub enum CaptureAction {
    /// Remove this file if it exists, ignoring any failure.
    RemoveFile(String),
    /// Start the capture tool with these arguments and wait for it to exit.
    RunTool(Vec<String>),
    /// The capture is over; hand this result to the caller.
    Report(Result<CaptureOutcome, LaunchError>),
}

/// One capture attempt, from the cleanup of the old output to the report.
#[derive(Debug)]
pub struct CaptureSession {
    pub camera: CameraSettings,
    pub image: ImageSettings,
    pub phase: CapturePhase,
}

/// The phase that `event` leads to from `phase`, or `None` where the event
/// does not belong to that phase.
pub open spec fn next_phase(phase: CapturePhase, event: CaptureEvent) -> Option<CapturePhase> {
    match (phase, event) {
        (CapturePhase::Cleanup, CaptureEvent::CleanupDone) => Some(CapturePhase::Launch),
        (CapturePhase::Launch, CaptureEvent::LaunchFailed(_)) => Some(CapturePhase::Finished),
        (CapturePhase::Launch, CaptureEvent::ToolExited(_)) => Some(CapturePhase::Finished),
        _ => None,
    }
}

/// The action that answers `event` in a session over `camera` and `image`
/// that stands at `phase`, where the event belongs to that phase.
pub open spec fn answers(
    camera: CameraSettings,
    image: ImageSettings,
    phase: CapturePhase,
    event: CaptureEvent,
    action: CaptureAction,
) -> bool {
    match (phase, event) {
        (CapturePhase::Cleanup, CaptureEvent::CleanupDone) => action matches CaptureAction::RunTool(
            args,
        ) && args.deep_view() == capture_args(camera@, image@),
        (CapturePhase::Launch, CaptureEvent::LaunchFailed(e)) => action == CaptureAction::Report(
            Err(e),
        ),
        (CapturePhase::Launch, CaptureEvent::ToolExited(run)) => action == CaptureAction::Report(
            Ok(outcome_of(camera.output, run)),
        ),
        _ => false,
    }
}

impl CaptureSession {
    /// Starts a capture: the first action is always the removal of the file
    /// at the output path, whether or not it exists.
    pub fn begin(camera: CameraSettings, image: ImageSettings) -> (r: (
        CaptureSession,
        CaptureAction,
    ))
        ensures
            r.0.camera == camera,
            r.0.image == image,
            r.0.phase == CapturePhase::Cleanup,
            r.1 == CaptureAction::RemoveFile(camera.output),
    {
        let path = camera.output.clone();
        let session = CaptureSession { camera, image, phase: CapturePhase::Cleanup };
        (session, CaptureAction::RemoveFile(path))
    }

    /// Takes the report of the last action and says what to do next; an
    /// event that does not belong to the current phase changes nothing and
    /// asks for nothing.
    pub fn step(&mut self, event: CaptureEvent) -> (r: Option<CaptureAction>)
        ensures
            final(self).camera == old(self).camera,
            final(self).image == old(self).image,
            match next_phase(old(self).phase, event) {
                None => r is None && final(self).phase == old(self).phase,
                Some(p) => {
                    &&& final(self).phase == p
                    &&& r is Some
                    &&& answers(old(self).camera, old(self).image, old(self).phase, event, r->0)
                },
            },
    {
        match (self.phase, event) {
            (CapturePhase::Cleanup, CaptureEvent::CleanupDone) => {
                self.phase = CapturePhase::Launch;
                Some(CaptureAction::RunTool(build_args(&self.camera, &self.image)))
            },
            (CapturePhase::Launch, CaptureEvent::LaunchFailed(e)) => {
                self.phase = CapturePhase::Finished;
                Some(CaptureAction::Report(Err(e)))
            },
            (CapturePhase::Launch, CaptureEvent::ToolExited(run)) => {
                self.phase = CapturePhase::Finished;
                Some(CaptureAction::Report(Ok(classify(self.camera.output.clone(), run))))
            },
            _ => None,
        }
    }
}

/// The phase after one step: an event that does not belong changes nothing.
pub open spec fn advance(phase: CapturePhase, event: CaptureEvent) -> CapturePhase {
    match next_phase(phase, event) {
        Some(p) => p,
        None => phase,
    }
}

/// The phase reached from `phase` by stepping through `events` in order.
pub open spec fn phase_after(phase: CapturePhase, events: Seq<CaptureEvent>) -> CapturePhase
    decreases events.len(),
{
    if events.len() == 0 {
        phase
    } else {
        advance(phase_after(phase, events.drop_last()), events.last())
    }
}

/// Whether a session at `phase` answers `event` by running the tool.
pub open spec fn runs_tool(phase: CapturePhase, event: CaptureEvent) -> bool {
    next_phase(phase, event) == Some(CapturePhase::Launch)
}

proof fn lemma_phase_after_concat(
    phase: CapturePhase,
    first: Seq<CaptureEvent>,
    rest: Seq<CaptureEvent>,
)
    ensures
        phase_after(phase, first + rest) == phase_after(phase_after(phase, first), rest),
    decreases rest.len(),
{
    if rest.len() == 0 {
        assert(first + rest =~= first);
    } else {
        assert((first + rest).drop_last() =~= first + rest.drop_last());
        lemma_phase_after_concat(phase, first, rest.drop_last());
    }
}

proof fn lemma_no_return_to_cleanup(phase: CapturePhase, events: Seq<CaptureEvent>)
    requires
        phase != CapturePhase::Cleanup,
    ensures
        phase_after(phase, events) != CapturePhase::Cleanup,
    decreases events.len(),
{
    if events.len() > 0 {
        lemma_no_return_to_cleanup(phase, events.drop_last());
    }
}

/// The argument list depends on the settings' text alone: settings with
/// equal text give equal lists. Every list has twenty entries, opens with
/// the contrast flag and its value, and closes with the two focus literals
/// whatever the settings.
pub proof fn lemma_args_stable(
    camera1: CameraSettings,
    image1: ImageSettings,
    camera2: CameraSettings,
    image2: ImageSettings,
)
    requires
        camera1@ == camera2@,
        image1@ == image2@,
    ensures
        capture_args(camera1@, image1@) == capture_args(camera2@, image2@),
        capture_args(camera1@, image1@).len() == 20,
        capture_args(camera1@, image1@).take(2) == seq![CONTRAST_FLAG@, camera1.contrast@],
        capture_args(camera1@, image1@).skip(18) == seq![AUTOFOCUS_MANUAL@, LENS_POSITION@],
{
    let a = capture_args(camera1@, image1@);
    assert(a.take(2) =~= seq![CONTRAST_FLAG@, camera1.contrast@]);
    assert(a.skip(18) =~= seq![AUTOFOCUS_MANUAL@, LENS_POSITION@]);
}

/// A session, which `begin` opens with the request to remove the old output,
/// runs the tool only in answer to the report that the removal was
/// attempted, and at most once whatever events follow.
pub proof fn lemma_tool_runs_once(events: Seq<CaptureEvent>, j: int, k: int)
    requires
        0 <= j < k < events.len(),
    ensures
        runs_tool(phase_after(CapturePhase::Cleanup, events.take(j)), events[j]) ==> events[j]
            == CaptureEvent::CleanupDone,
        !(runs_tool(phase_after(CapturePhase::Cleanup, events.take(j)), events[j]) && runs_tool(
            phase_after(CapturePhase::Cleanup, events.take(k)),
            events[k],
        )),
{
    let pj = phase_after(CapturePhase::Cleanup, events.take(j));
    if runs_tool(pj, events[j]) {
        assert(events.take(j + 1).drop_last() =~= events.take(j));
        assert(phase_after(CapturePhase::Cleanup, events.take(j + 1)) == CapturePhase::Launch);
        let rest = events.subrange(j + 1, k);
        assert(events.take(k) =~= events.take(j + 1) + rest);
        lemma_phase_after_concat(CapturePhase::Cleanup, events.take(j + 1), rest);
        lemma_no_return_to_cleanup(CapturePhase::Launch, rest);
    }
}

/// A finished session stays finished and asks for nothing more, whatever
/// events follow: no action of any kind comes after the report.
pub proof fn lemma_finished_is_final(events: Seq<CaptureEvent>)
    ensures
        phase_after(CapturePhase::Finished, events) == CapturePhase::Finished,
        forall|k: int|
            0 <= k < events.len() ==> next_phase(CapturePhase::Finished, #[trigger] events[k])
                is None,
    decreases events.len(),
{
    if events.len() > 0 {
        lemma_finished_is_final(events.drop_last());
    }
}

/// When the tool cannot be started, the capture reports that launch error
/// and finishes.
pub proof fn lemma_launch_failure_reported(
    camera: CameraSettings,
    image: ImageSettings,
    error: LaunchError,
    action: CaptureAction,
)
    ensures
        next_phase(CapturePhase::Launch, CaptureEvent::LaunchFailed(error)) == Some(
            CapturePhase::Finished,
        ),
        answers(camera, image, CapturePhase::Launch, CaptureEvent::LaunchFailed(error), action)
            <==> action == CaptureAction::Report(Err(error)),
{
}

/// When the tool exits with a status other than zero, the capture reports a
/// tool failure carrying that status and finishes; when it exits with zero,
/// it reports success with the output path.
pub proof fn lemma_exit_status_classified(
    camera: CameraSettings,
    image: ImageSettings,
    run: ToolRun,
    action: CaptureAction,
)
    ensures
        next_phase(CapturePhase::Launch, CaptureEvent::ToolExited(run)) == Some(
            CapturePhase::Finished,
        ),
        answers(camera, image, CapturePhase::Launch, CaptureEvent::ToolExited(run), action) ==> {
            &&& action matches CaptureAction::Report(Ok(outcome))
            &&& run.exit_code != Some(0i32) ==> outcome == (CaptureOutcome::ToolFailure {
                exit_code: run.exit_code,
                stdout: run.stdout,
                stderr: run.stderr,
            })
            &&& run.exit_code == Some(0i32) ==> outcome == (CaptureOutcome::Success {
                output: camera.output,
                stdout: run.stdout,
                stderr: run.stderr,
            })
        },
{
}

} // verus!
