//! What each step of handling an event leads to, in terms of the window, the
//! event and the host's answer alone.
use crate::app_window::{AppWindow, OffscreenInputState};
use crate::handling::{self, Phase, Reply, Step};
use crate::ime_request;
use crate::input_laws;
use crate::offscreen::OffscreenImeCursorArea;
use crate::offscreen_input::{self, Ime, InputEvent};
use vstd::prelude::*;

verus! {

/// The event is taken: one that enables the input method asks for a native
/// caret, unless there is one. Any other is performed, and the input method is
/// to be informed once more just if the composition has changed.
pub open spec fn is_taken(
    appwindow: AppWindow,
    event: InputEvent,
    phase: Phase,
    input: OffscreenInputState,
    step: Step,
) -> bool {
    let enables = event == InputEvent::Ime(Ime::Enabled);
    let composes = event matches InputEvent::Ime(Ime::Preedit(_, _));
    &&& enables && !appwindow.offscreen_input.ime_caret_created ==> {
        &&& step == Step::CreateCaret
        &&& phase == Phase::AwaitCaret
        &&& input == appwindow.offscreen_input
    }
    &&& !enables || appwindow.offscreen_input.ime_caret_created ==> {
        &&& step matches Step::Perform(actions) && actions@ == offscreen_input::actions_for(
            appwindow,
            event,
        )
        &&& input == offscreen_input::input_after(appwindow.offscreen_input, event)
        &&& composes ==> phase == (Phase::Sync { last: true })
        &&& !composes ==> phase == Phase::Done
    }
}

/// The handling is over, and has left the input state alone.
pub open spec fn is_over(
    appwindow: AppWindow,
    phase: Phase,
    input: OffscreenInputState,
    step: Step,
) -> bool {
    &&& step == Step::Done
    &&& phase == Phase::Done
    &&& input == appwindow.offscreen_input
}

/// The input method is to be told every area that it was not told last: where
/// it was told none, and where the area differs in its place or in either
/// extent. It is not to be told the same area again, or none.
pub proof fn law_every_new_area_is_told(input: OffscreenInputState, area: OffscreenImeCursorArea)
    ensures
        input.ime_cursor_area is None ==> handling::news(input, Some(area)) == Some(area),
        input.ime_cursor_area matches Some(told) ==> {
            &&& told.x != area.x || told.y != area.y || told.width != area.width || told.height
                != area.height ==> handling::news(input, Some(area)) == Some(area)
            &&& told.x == area.x && told.y == area.y && told.width == area.width && told.height
                == area.height ==> handling::news(input, Some(area)) is None
        },
        handling::news(input, None) is None,
{
}

/// While there is a composition with a cursor, the topmost webview that is shown
/// is asked where that cursor is.
pub proof fn law_the_topmost_webview_is_asked(
    appwindow: AppWindow,
    event: InputEvent,
    last: bool,
    reply: Reply,
    phase: Phase,
    input: OffscreenInputState,
    step: Step,
    child: usize,
)
    requires
        handling::stepped(Phase::Sync { last }, appwindow, event, reply, phase, input, step),
    ensures
        appwindow.offscreen_input.ime_cursor matches Some(cursor) ==> {
            input_laws::is_topmost_shown(appwindow, child) ==> {
                &&& step == (Step::QueryCursorArea { child, cursor })
                &&& phase == (Phase::AwaitArea { last })
                &&& input == appwindow.offscreen_input
            }
        },
        appwindow.offscreen_input.ime_cursor is None || input_laws::none_shown(appwindow) ==> {
            &&& last ==> is_over(appwindow, phase, input, step)
            &&& !last ==> is_taken(appwindow, event, phase, input, step)
        },
{
    input_laws::law_keys_go_to_the_topmost_webview(appwindow, child);
}

/// An area that the input method was not told last is sent to it, with its place
/// and its extents. Else there is nothing to send.
pub proof fn law_new_areas_are_sent(
    appwindow: AppWindow,
    event: InputEvent,
    last: bool,
    reply: Reply,
    phase: Phase,
    input: OffscreenInputState,
    step: Step,
)
    requires
        handling::stepped(Phase::AwaitArea { last }, appwindow, event, reply, phase, input, step),
    ensures
        reply matches Reply::CursorArea(Some(area)) ==> {
            let known = appwindow.offscreen_input.ime_cursor_area matches Some(told) && {
                &&& told.x == area.x
                &&& told.y == area.y
                &&& told.width == area.width
                &&& told.height == area.height
            };
            !known ==> {
                &&& step == Step::UpdateCursorArea(
                    ime_request::cursor_area_data(area.x, area.y, area.width, area.height),
                )
                &&& phase == (Phase::AwaitUpdate { area, last })
                &&& input == appwindow.offscreen_input
            }
        },
        ({
            let answered = reply matches Reply::CursorArea(Some(area))
                && appwindow.offscreen_input.ime_cursor_area != Some(area);
            !answered ==> {
                &&& last ==> is_over(appwindow, phase, input, step)
                &&& !last ==> is_taken(appwindow, event, phase, input, step)
            }
        }),
{
}

/// An area that the window system has taken is remembered as told, and a native
/// caret is moved to it. One that it has refused is not remembered.
pub proof fn law_taken_areas_are_remembered(
    appwindow: AppWindow,
    event: InputEvent,
    area: OffscreenImeCursorArea,
    last: bool,
    reply: Reply,
    phase: Phase,
    input: OffscreenInputState,
    step: Step,
)
    requires
        handling::stepped(
            Phase::AwaitUpdate { area, last },
            appwindow,
            event,
            reply,
            phase,
            input,
            step,
        ),
    ensures
        ({
            let told = OffscreenInputState {
                ime_cursor_area: Some(area),
                ..appwindow.offscreen_input
            };
            let window = AppWindow { children: appwindow.children, offscreen_input: told };
            &&& reply == Reply::Updated(true) && told.ime_caret_created ==> {
                &&& step == (Step::PositionCaret { x: area.x, y: area.y, height: area.height })
                &&& input == told
                &&& last ==> phase == Phase::Done
                &&& !last ==> phase == Phase::Dispatch
            }
            &&& reply == Reply::Updated(true) && !told.ime_caret_created ==> {
                &&& last ==> is_over(window, phase, input, step)
                &&& !last ==> is_taken(window, event, phase, input, step)
            }
            &&& reply != Reply::Updated(true) ==> {
                &&& last ==> is_over(appwindow, phase, input, step)
                &&& !last ==> is_taken(appwindow, event, phase, input, step)
            }
        }),
{
}

/// After a caret was moved the event is taken. Whether a caret was created is
/// remembered as the host says. Then the handling is over, and stays so.
pub proof fn law_the_caret_is_as_the_host_says(
    appwindow: AppWindow,
    event: InputEvent,
    before: Phase,
    reply: Reply,
    phase: Phase,
    input: OffscreenInputState,
    step: Step,
)
    requires
        handling::stepped(before, appwindow, event, reply, phase, input, step),
    ensures
        before == Phase::Dispatch ==> is_taken(appwindow, event, phase, input, step),
        before == Phase::AwaitCaret ==> {
            &&& step == Step::Done
            &&& phase == Phase::Done
            &&& input == (OffscreenInputState {
                ime_caret_created: reply == Reply::CaretCreated(true),
                ..appwindow.offscreen_input
            })
        },
        before == Phase::Done ==> is_over(appwindow, phase, input, step),
{
}

} // verus!
