//! The steps of first-run setup.
use vstd::prelude::*;

verus! {

/// A page of the setup tour.
#[derive(Clone, Copy, Debug, PartialEq, Eq, Structural)]
pub enum SetupStep {
    Welcome,
    HowItWorks,
    Shortcuts,
    MicCheck,
    Downloading,
    DetectHardware,
    Measuring,
    Ready,
}

/// What can move setup from one page to another.
#[derive(Clone, Copy, Debug, PartialEq, Eq, Structural)]
pub enum StepEvent {
    NavNext,
    NavBack,
    StartDownload,
    DownloadFinished,
    DownloadCancelled,
    DownloadFailed,
}

/// The page that `event` leads to from `step`, if it leads anywhere.
pub open spec fn step_after(step: SetupStep, event: StepEvent) -> Option<SetupStep> {
    match event {
        StepEvent::NavNext => match step {
            SetupStep::Welcome => Some(SetupStep::HowItWorks),
            SetupStep::HowItWorks => Some(SetupStep::Shortcuts),
            SetupStep::Shortcuts => Some(SetupStep::MicCheck),
            SetupStep::DetectHardware => Some(SetupStep::Measuring),
            SetupStep::Measuring => Some(SetupStep::Ready),
            _ => None,
        },
        StepEvent::NavBack => match step {
            SetupStep::HowItWorks => Some(SetupStep::Welcome),
            SetupStep::Shortcuts => Some(SetupStep::HowItWorks),
            SetupStep::MicCheck => Some(SetupStep::Shortcuts),
            SetupStep::DetectHardware => Some(SetupStep::MicCheck),
            SetupStep::Measuring => Some(SetupStep::DetectHardware),
            _ => None,
        },
        StepEvent::StartDownload => if step == SetupStep::MicCheck {
            Some(SetupStep::Downloading)
        } else {
            None
        },
        StepEvent::DownloadFinished => if step == SetupStep::Downloading {
            Some(SetupStep::DetectHardware)
        } else {
            None
        },
        StepEvent::DownloadCancelled | StepEvent::DownloadFailed => if step
            == SetupStep::Downloading {
            Some(SetupStep::MicCheck)
        } else {
            None
        },
    }
}

/// The page that `event` leads to from `step`, or `None` where the event means
/// nothing there.
pub fn next_step(step: SetupStep, event: StepEvent) -> (next: Option<SetupStep>)
    ensures
        next == step_after(step, event),
{
    match (step, event) {
        (SetupStep::Welcome, StepEvent::NavNext) => Some(SetupStep::HowItWorks),
        (SetupStep::HowItWorks, StepEvent::NavNext) => Some(SetupStep::Shortcuts),
        (SetupStep::HowItWorks, StepEvent::NavBack) => Some(SetupStep::Welcome),
        (SetupStep::Shortcuts, StepEvent::NavNext) => Some(SetupStep::MicCheck),
        (SetupStep::Shortcuts, StepEvent::NavBack) => Some(SetupStep::HowItWorks),
        (SetupStep::MicCheck, StepEvent::NavBack) => Some(SetupStep::Shortcuts),
        (SetupStep::MicCheck, StepEvent::StartDownload) => Some(SetupStep::Downloading),
        (SetupStep::Downloading, StepEvent::DownloadFinished) => Some(SetupStep::DetectHardware),
        (SetupStep::Downloading, StepEvent::DownloadCancelled) => Some(SetupStep::MicCheck),
        (SetupStep::Downloading, StepEvent::DownloadFailed) => Some(SetupStep::MicCheck),
        (SetupStep::DetectHardware, StepEvent::NavNext) => Some(SetupStep::Measuring),
        (SetupStep::DetectHardware, StepEvent::NavBack) => Some(SetupStep::MicCheck),
        (SetupStep::Measuring, StepEvent::NavNext) => Some(SetupStep::Ready),
        (SetupStep::Measuring, StepEvent::NavBack) => Some(SetupStep::DetectHardware),
        _ => None,
    }
}

/// How far along a page is.
pub open spec fn position(step: SetupStep) -> int {
    match step {
        SetupStep::Welcome => 0,
        SetupStep::HowItWorks => 1,
        SetupStep::Shortcuts => 2,
        SetupStep::MicCheck => 3,
        SetupStep::Downloading => 4,
        SetupStep::DetectHardware => 5,
        SetupStep::Measuring => 6,
        SetupStep::Ready => 7,
    }
}

/// Back undoes Next, except that there is no way back from the last page.
pub proof fn back_undoes_next(step: SetupStep)
    requires
        step_after(step, StepEvent::NavNext) is Some,
        step_after(step, StepEvent::NavNext)->0 != SetupStep::Ready,
    ensures
        step_after(step_after(step, StepEvent::NavNext)->0, StepEvent::NavBack) == Some(step),
{
}

/// Next and a finished or started download move on to the page that follows; Back
/// and a download that did not finish move back.
pub proof fn events_keep_direction(step: SetupStep, event: StepEvent)
    requires
        step_after(step, event) is Some,
    ensures
        match event {
            StepEvent::NavNext
            | StepEvent::StartDownload
            | StepEvent::DownloadFinished => position(step_after(step, event)->0) == position(step)
                + 1,
            StepEvent::NavBack
            | StepEvent::DownloadCancelled
            | StepEvent::DownloadFailed => position(step_after(step, event)->0) < position(step),
        },
{
}

/// The page that a run of events ends on; events that mean nothing are ignored.
pub open spec fn walk(step: SetupStep, events: Seq<StepEvent>) -> SetupStep
    decreases events.len(),
{
    if events.len() == 0 {
        step
    } else {
        let before = walk(step, events.drop_last());
        match step_after(before, events.last()) {
            Some(next) => next,
            None => before,
        }
    }
}

/// No run of events gets from the tour past the download without a finished
/// download among them.
pub proof fn hardware_pages_need_a_finished_download(step: SetupStep, events: Seq<StepEvent>)
    requires
        position(step) <= position(SetupStep::Downloading),
        position(walk(step, events)) > position(SetupStep::Downloading),
    ensures
        events.contains(StepEvent::DownloadFinished),
    decreases events.len(),
{
    if events.len() > 0 {
        let before = walk(step, events.drop_last());
        if position(before) > position(SetupStep::Downloading) {
            hardware_pages_need_a_finished_download(step, events.drop_last());
            let i = choose|i: int|
                0 <= i < events.drop_last().len() && events.drop_last()[i]
                    == StepEvent::DownloadFinished;
            assert(events[i] == StepEvent::DownloadFinished);
        } else {
            assert(events.last() == StepEvent::DownloadFinished);
        }
    }
}

/// The pages can be turned but for the download, which is begun at the microphone check,
/// leads to the hardware when it is finished, and back when it is not; nothing follows
/// the last page, and every other event is ignored.
pub proof fn pages_turn_in_order(step: SetupStep)
    ensures
        step_after(step, StepEvent::NavNext) is Some <==> step == SetupStep::Welcome || step
            == SetupStep::HowItWorks || step == SetupStep::Shortcuts || step
            == SetupStep::DetectHardware || step == SetupStep::Measuring,
        step_after(step, StepEvent::NavBack) is Some <==> step == SetupStep::HowItWorks || step
            == SetupStep::Shortcuts || step == SetupStep::MicCheck || step
            == SetupStep::DetectHardware || step == SetupStep::Measuring,
        step_after(SetupStep::DetectHardware, StepEvent::NavBack) == Some(SetupStep::MicCheck),
        step_after(SetupStep::Measuring, StepEvent::NavNext) == Some(SetupStep::Ready),
        step_after(step, StepEvent::StartDownload) == (if step == SetupStep::MicCheck {
            Some(SetupStep::Downloading)
        } else {
            None
        }),
        step_after(step, StepEvent::DownloadFinished) == (if step == SetupStep::Downloading {
            Some(SetupStep::DetectHardware)
        } else {
            None
        }),
        step_after(step, StepEvent::DownloadCancelled) == (if step == SetupStep::Downloading {
            Some(SetupStep::MicCheck)
        } else {
            None
        }),
        step_after(step, StepEvent::DownloadFailed) == step_after(
            step,
            StepEvent::DownloadCancelled,
        ),
{
}

} // verus!
