//! A window's entry in the taskbar.
use vstd::prelude::*;

verus! {

pub const TBPF_NOPROGRESS: i32 = 0;

pub const TBPF_INDETERMINATE: i32 = 1;

pub const TBPF_NORMAL: i32 = 2;

pub const TBPF_ERROR: i32 = 4;

pub const TBPF_PAUSED: i32 = 8;

#[derive(Clone, Copy, Debug, PartialEq, Eq, Structural)]
pub enum ProgressBarStatus {
    NoProgress,
    Normal,
    Indeterminate,
    Paused,
    Error,
}

/// A change of the progress bar. What is `None` stays as it is.
#[derive(Clone, Copy, Debug, PartialEq, Eq, Structural)]
pub struct ProgressBarState {
    pub status: Option<ProgressBarStatus>,
    pub progress: Option<u64>,
}

/// The taskbar's flag for a status.
pub open spec fn status_flag(status: ProgressBarStatus) -> i32 {
    match status {
        ProgressBarStatus::NoProgress => TBPF_NOPROGRESS,
        ProgressBarStatus::Normal => TBPF_NORMAL,
        ProgressBarStatus::Indeterminate => TBPF_INDETERMINATE,
        ProgressBarStatus::Paused => TBPF_PAUSED,
        ProgressBarStatus::Error => TBPF_ERROR,
    }
}

/// What to tell the taskbar: a state flag, then a value out of a total.
#[derive(Clone, Copy, Debug, PartialEq, Eq)]
pub struct ProgressUpdate {
    pub flag: Option<i32>,
    pub value: Option<(u64, u64)>,
}

/// What the taskbar is told of a change of the progress bar.
pub open spec fn told_of(state: ProgressBarState) -> ProgressUpdate {
    ProgressUpdate {
        flag: match state.status {
            Some(status) => Some(status_flag(status)),
            None => None,
        },
        value: match state.progress {
            Some(progress) => Some((if progress < 100 { progress } else { 100 }, 100u64)),
            None => None,
        },
    }
}

/// Decides what to tell the taskbar of a change of the progress bar. The
/// progress is in percent; more than all counts as all.
pub fn set_progress_bar(state: ProgressBarState) -> (update: ProgressUpdate)
    ensures
        update.flag == match state.status {
            Some(status) => Some(status_flag(status)),
            None => None,
        },
        update.value == match state.progress {
            Some(progress) => Some((if progress < 100 { progress } else { 100 }, 100u64)),
            None => None,
        },
        update == told_of(state),
{
    let flag: Option<i32> = match state.status {
        Some(ProgressBarStatus::NoProgress) => Some(TBPF_NOPROGRESS),
        Some(ProgressBarStatus::Normal) => Some(TBPF_NORMAL),
        Some(ProgressBarStatus::Indeterminate) => Some(TBPF_INDETERMINATE),
        Some(ProgressBarStatus::Paused) => Some(TBPF_PAUSED),
        Some(ProgressBarStatus::Error) => Some(TBPF_ERROR),
        None => None,
    };
    let value: Option<(u64, u64)> = match state.progress {
        Some(progress) => Some((if progress < 100 { progress } else { 100 }, 100)),
        None => None,
    };
    ProgressUpdate { flag, value }
}

/// One thing to do to a window's overlay icon. Icons are handles of the window
/// system.
#[derive(Clone, Copy, Debug, PartialEq, Eq, Structural)]
pub enum OverlayIconStep {
    Show(usize),
    Destroy(usize),
    Clear,
}

/// Shows an icon over the taskbar entry, or none. The taskbar keeps a copy, so
/// the icon that was made for it is destroyed afterwards.
pub fn set_overlay_icon(icon: Option<usize>) -> (steps: Vec<OverlayIconStep>)
    ensures
        steps@ == match icon {
            Some(icon) => seq![OverlayIconStep::Show(icon), OverlayIconStep::Destroy(icon)],
            None => seq![OverlayIconStep::Clear],
        },
{
    let mut steps: Vec<OverlayIconStep> = Vec::new();
    match icon {
        Some(icon) => {
            steps.push(OverlayIconStep::Show(icon));
            steps.push(OverlayIconStep::Destroy(icon));
        },
        None => {
            steps.push(OverlayIconStep::Clear);
        },
    }
    steps
}

/// The taskbar is told of what changes and of nothing else. Progress is told in
/// percent, as it is up to all of it; more is told as all.
pub proof fn law_progress_is_told_as_it_is(state: ProgressBarState)
    ensures
        told_of(state).flag is Some <==> state.status is Some,
        told_of(state).value is Some <==> state.progress is Some,
        state.progress matches Some(progress) ==> (told_of(state).value matches Some(
            (completed, total),
        ) && {
            &&& total == 100
            &&& progress <= 100 ==> completed == progress
            &&& progress > 100 ==> completed == 100
        }),
{
}

/// Each status has its flag: none for no progress, one for an indeterminate one,
/// two for a normal one, four for an error and eight for a pause.
pub proof fn law_statuses_have_their_flags(status: ProgressBarStatus, progress: Option<u64>)
    ensures
        told_of(ProgressBarState { status: Some(status), progress }).flag == Some(
            match status {
                ProgressBarStatus::NoProgress => 0i32,
                ProgressBarStatus::Indeterminate => 1i32,
                ProgressBarStatus::Normal => 2i32,
                ProgressBarStatus::Error => 4i32,
                ProgressBarStatus::Paused => 8i32,
            },
        ),
{
}

} // verus!
