//! The course of handling one input event.
//!
//! Around an event the input method is kept informed of the cursor area: before
//! every event, and once more after a change of the composition. That takes
//! answers from outside: the area of the cursor comes from the webview's
//! surface, and the window system may refuse it. So a [`Handling`] goes in
//! steps. The host performs each step and hands its outcome to the next one.
use crate::app_window::{top_child, AppWebview, AppWindow, OffscreenInputState};
use crate::ime_request::{self, cursor_area_update};
use crate::offscreen::OffscreenImeCursorArea;
use crate::offscreen_input::{self, dispatch, Ime, InputAction, InputEvent};
use vstd::prelude::*;
use winit::window::ImeRequestData;

verus! {

/// The webview to ask, and the cursor in UTF-16 code units to ask for, while
/// there is a composition and a visible webview.
pub open spec fn cursor_query(appwindow: AppWindow) -> Option<(usize, usize)> {
    match (appwindow.top(), appwindow.offscreen_input.ime_cursor) {
        (Some(child), Some(cursor)) => Some((child, cursor)),
        _ => None,
    }
}

/// Whose cursor area to ask for, if any.
pub fn query_ime_cursor_area(appwindow: &AppWindow) -> (query: Option<(usize, usize)>)
    ensures
        query == cursor_query(*appwindow),
{
    match appwindow.offscreen_input.ime_cursor {
        Some(cursor) => match top_child(appwindow) {
            Some(child) => Some((child, cursor)),
            None => None,
        },
        None => None,
    }
}

/// The area to tell the input method, unless it was told the same before.
pub open spec fn news(
    input: OffscreenInputState,
    area: Option<OffscreenImeCursorArea>,
) -> Option<OffscreenImeCursorArea> {
    if input.ime_cursor_area == area {
        None
    } else {
        area
    }
}

/// Decides whether the input method is to be told of the cursor area.
pub fn sync_ime_cursor_area(
    appwindow: &AppWindow,
    area: Option<OffscreenImeCursorArea>,
) -> (update: Option<OffscreenImeCursorArea>)
    ensures
        update == news(appwindow.offscreen_input, area),
{
    match area {
        Some(area) => match appwindow.offscreen_input.ime_cursor_area {
            Some(told) => if told == area {
                None
            } else {
                Some(area)
            },
            None => Some(area),
        },
        None => None,
    }
}

/// How far an event has been handled.
#[derive(Clone, Copy, Debug, PartialEq, Eq, Structural)]
pub enum Phase {
    /// The input method is to be informed. `last` once the event is taken.
    Sync { last: bool },
    /// The webview was asked for the cursor area.
    AwaitArea { last: bool },
    /// The input method was told the area.
    AwaitUpdate { area: OffscreenImeCursorArea, last: bool },
    /// The event is to be taken.
    Dispatch,
    /// The native caret is being created.
    AwaitCaret,
    Done,
}

impl Phase {
    /// A bound on the steps that are left.
    pub open spec fn rank(self) -> nat {
        match self {
            Phase::Sync { last } => if last { 3 } else { 7 },
            Phase::AwaitArea { last } => if last { 2 } else { 6 },
            Phase::AwaitUpdate { last, .. } => if last { 1 } else { 5 },
            Phase::Dispatch => 4,
            Phase::AwaitCaret => 1,
            Phase::Done => 0,
        }
    }
}

/// The outcome of the step before. One that does not fit that step counts as a
/// failure of it.
#[derive(Clone, Copy, Debug, PartialEq, Eq, Structural)]
pub enum Reply {
    /// There is nothing to say.
    Ready,
    /// The cursor area that the webview knows.
    CursorArea(Option<OffscreenImeCursorArea>),
    /// Whether the window system took the update.
    Updated(bool),
    /// Whether the native caret was created.
    CaretCreated(bool),
}

impl Reply {
    pub open spec fn cursor_area(self) -> Option<OffscreenImeCursorArea> {
        match self {
            Reply::CursorArea(area) => area,
            _ => None,
        }
    }

    pub open spec fn confirms_update(self) -> bool {
        self == Reply::Updated(true)
    }

    pub open spec fn confirms_caret(self) -> bool {
        self == Reply::CaretCreated(true)
    }
}

/// What the host is to do next.
#[derive(Debug)]
pub enum Step {
    /// Ask the webview's surface for the area of the cursor. Answered by
    /// [`Reply::CursorArea`].
    QueryCursorArea { child: usize, cursor: usize },
    /// Send the update to the input method. Answered by [`Reply::Updated`].
    UpdateCursorArea(ImeRequestData),
    /// Move the native caret to this area.
    PositionCaret { x: i32, y: i32, height: u32 },
    /// Perform these actions, in order.
    Perform(Vec<InputAction>),
    /// Create a native caret. Answered by [`Reply::CaretCreated`].
    CreateCaret,
    /// The event is handled.
    Done,
}

/// The window with another input state.
pub open spec fn with_input(appwindow: AppWindow, input: OffscreenInputState) -> AppWindow {
    AppWindow { offscreen_input: input, ..appwindow }
}

/// The event asks for a native caret that the window does not have.
pub open spec fn wants_caret(input: OffscreenInputState, event: InputEvent) -> bool {
    event == InputEvent::Ime(Ime::Enabled) && !input.ime_caret_created
}

/// The event changes the composition.
pub open spec fn is_preedit(event: InputEvent) -> bool {
    event matches InputEvent::Ime(Ime::Preedit(_, _))
}

/// Taking the event leads to this phase, input state and step.
pub open spec fn taken(
    appwindow: AppWindow,
    event: InputEvent,
    phase: Phase,
    input: OffscreenInputState,
    step: Step,
) -> bool {
    if wants_caret(appwindow.offscreen_input, event) {
        &&& phase == Phase::AwaitCaret
        &&& input == appwindow.offscreen_input
        &&& step == Step::CreateCaret
    } else {
        &&& phase == if is_preedit(event) {
            Phase::Sync { last: true }
        } else {
            Phase::Done
        }
        &&& input == offscreen_input::input_after(appwindow.offscreen_input, event)
        &&& step matches Step::Perform(actions) && actions@ == offscreen_input::actions_for(
            appwindow,
            event,
        )
    }
}

/// Once the input method is informed, the event is taken, or all is done.
pub open spec fn resumed(
    appwindow: AppWindow,
    event: InputEvent,
    last: bool,
    phase: Phase,
    input: OffscreenInputState,
    step: Step,
) -> bool {
    if last {
        &&& phase == Phase::Done
        &&& input == appwindow.offscreen_input
        &&& step == Step::Done
    } else {
        taken(appwindow, event, phase, input, step)
    }
}

/// A confirmed update of the cursor area leads to this phase, input state and
/// step.
pub open spec fn updated(
    appwindow: AppWindow,
    event: InputEvent,
    area: OffscreenImeCursorArea,
    last: bool,
    phase: Phase,
    input: OffscreenInputState,
    step: Step,
) -> bool {
    let told = OffscreenInputState {
        ime_cursor_area: Some(area),
        ..appwindow.offscreen_input
    };
    if told.ime_caret_created {
        &&& phase == if last {
            Phase::Done
        } else {
            Phase::Dispatch
        }
        &&& input == told
        &&& step == (Step::PositionCaret { x: area.x, y: area.y, height: area.height })
    } else {
        resumed(with_input(appwindow, told), event, last, phase, input, step)
    }
}

/// One step leads from a phase and a window to this phase, input state and
/// step.
pub open spec fn stepped(
    before: Phase,
    appwindow: AppWindow,
    event: InputEvent,
    reply: Reply,
    phase: Phase,
    input: OffscreenInputState,
    step: Step,
) -> bool {
    match before {
        Phase::Sync { last } => match cursor_query(appwindow) {
            Some((child, cursor)) => {
                &&& phase == (Phase::AwaitArea { last })
                &&& input == appwindow.offscreen_input
                &&& step == (Step::QueryCursorArea { child, cursor })
            },
            None => resumed(appwindow, event, last, phase, input, step),
        },
        Phase::AwaitArea { last } => match news(appwindow.offscreen_input, reply.cursor_area()) {
            Some(area) => {
                &&& phase == (Phase::AwaitUpdate { area, last })
                &&& input == appwindow.offscreen_input
                &&& step == Step::UpdateCursorArea(
                    ime_request::cursor_area_data(area.x, area.y, area.width, area.height),
                )
            },
            None => resumed(appwindow, event, last, phase, input, step),
        },
        Phase::AwaitUpdate { area, last } => if reply.confirms_update() {
            updated(appwindow, event, area, last, phase, input, step)
        } else {
            resumed(appwindow, event, last, phase, input, step)
        },
        Phase::Dispatch => taken(appwindow, event, phase, input, step),
        Phase::AwaitCaret => {
            &&& phase == Phase::Done
            &&& input == (OffscreenInputState {
                ime_caret_created: reply.confirms_caret(),
                ..appwindow.offscreen_input
            })
            &&& step == Step::Done
        },
        Phase::Done => {
            &&& phase == Phase::Done
            &&& input == appwindow.offscreen_input
            &&& step == Step::Done
        },
    }
}

/// The handling of one event.
#[derive(Debug)]
pub struct Handling {
    pub event: InputEvent,
    pub phase: Phase,
}

/// Starts to handle an event.
pub fn handle(event: InputEvent) -> (handling: Handling)
    ensures
        handling.event == event,
        handling.phase == (Phase::Sync { last: false }),
{
    Handling { event, phase: Phase::Sync { last: false } }
}

impl Handling {
    fn take(&mut self, appwindow: &mut AppWindow) -> (step: Step)
        requires
            old(self).event.wf(),
        ensures
            final(self).event == old(self).event,
            final(appwindow).children == old(appwindow).children,
            taken(
                *old(appwindow),
                old(self).event,
                final(self).phase,
                final(appwindow).offscreen_input,
                step,
            ),
    {
        self.phase = Phase::Done;
        match &self.event {
            InputEvent::Ime(Ime::Enabled) => {
                if !appwindow.offscreen_input.ime_caret_created {
                    self.phase = Phase::AwaitCaret;
                    return Step::CreateCaret;
                }
            },
            InputEvent::Ime(Ime::Preedit(_, _)) => {
                self.phase = Phase::Sync { last: true };
            },
            _ => {},
        }
        Step::Perform(dispatch(appwindow, &self.event))
    }

    fn resume(&mut self, appwindow: &mut AppWindow, last: bool) -> (step: Step)
        requires
            old(self).event.wf(),
        ensures
            final(self).event == old(self).event,
            final(appwindow).children == old(appwindow).children,
            resumed(
                *old(appwindow),
                old(self).event,
                last,
                final(self).phase,
                final(appwindow).offscreen_input,
                step,
            ),
    {
        if last {
            self.phase = Phase::Done;
            Step::Done
        } else {
            self.take(appwindow)
        }
    }

    /// Goes on, with the outcome of the step before.
    pub fn step(&mut self, appwindow: &mut AppWindow, reply: Reply) -> (step: Step)
        requires
            old(self).event.wf(),
        ensures
            final(self).event == old(self).event,
            final(appwindow).children == old(appwindow).children,
            stepped(
                old(self).phase,
                *old(appwindow),
                old(self).event,
                reply,
                final(self).phase,
                final(appwindow).offscreen_input,
                step,
            ),
            old(self).phase != Phase::Done ==> final(self).phase.rank() < old(self).phase.rank(),
    {
        match self.phase {
            Phase::Sync { last } => match query_ime_cursor_area(appwindow) {
                Some((child, cursor)) => {
                    self.phase = Phase::AwaitArea { last };
                    Step::QueryCursorArea { child, cursor }
                },
                None => self.resume(appwindow, last),
            },
            Phase::AwaitArea { last } => {
                let area = match reply {
                    Reply::CursorArea(area) => area,
                    _ => None,
                };
                match sync_ime_cursor_area(appwindow, area) {
                    Some(area) => {
                        self.phase = Phase::AwaitUpdate { area, last };
                        Step::UpdateCursorArea(cursor_area_update(area))
                    },
                    None => self.resume(appwindow, last),
                }
            },
            Phase::AwaitUpdate { area, last } => match reply {
                Reply::Updated(true) => {
                    appwindow.offscreen_input.ime_cursor_area = Some(area);
                    if appwindow.offscreen_input.ime_caret_created {
                        self.phase = if last {
                            Phase::Done
                        } else {
                            Phase::Dispatch
                        };
                        Step::PositionCaret { x: area.x, y: area.y, height: area.height }
                    } else {
                        self.resume(appwindow, last)
                    }
                },
                _ => self.resume(appwindow, last),
            },
            Phase::Dispatch => self.take(appwindow),
            Phase::AwaitCaret => {
                appwindow.offscreen_input.ime_caret_created = match reply {
                    Reply::CaretCreated(created) => created,
                    _ => false,
                };
                self.phase = Phase::Done;
                Step::Done
            },
            Phase::Done => Step::Done,
        }
    }
}

/// After a commit, or without an input method, there is no cursor to ask for.
pub proof fn law_commit_ends_the_composition(appwindow: AppWindow, event: InputEvent)
    requires
        event matches InputEvent::Ime(Ime::Commit(_)) || event == InputEvent::Ime(Ime::Disabled),
    ensures
        cursor_query(
            with_input(
                appwindow,
                offscreen_input::input_after(appwindow.offscreen_input, event),
            ),
        ) is None,
{
}

/// An area that the input method was told is not told again; after a change of
/// the composition every area is news.
pub proof fn law_areas_are_told_once(
    input: OffscreenInputState,
    area: OffscreenImeCursorArea,
    preedit: InputEvent,
)
    requires
        is_preedit(preedit),
    ensures
        news(OffscreenInputState { ime_cursor_area: Some(area), ..input }, Some(area)) is None,
        news(offscreen_input::input_after(input, preedit), Some(area)) == Some(area),
{
}

/// The step is one that takes an event.
pub open spec fn is_taking(step: Step) -> bool {
    step is Perform || step is CreateCaret
}

/// The event is taken exactly once: by the only steps that lead from the phases
/// before it to those after it.
pub proof fn law_events_are_taken_once(
    before: Phase,
    appwindow: AppWindow,
    event: InputEvent,
    reply: Reply,
    phase: Phase,
    input: OffscreenInputState,
    step: Step,
)
    requires
        stepped(before, appwindow, event, reply, phase, input, step),
    ensures
        is_taking(step) <==> before.rank() >= Phase::Dispatch.rank()
            > phase.rank(),
{
}

/// A handling that has begun ends: each step comes closer to the end, which is
/// reached when no step is left.
pub proof fn law_handling_ends(
    before: Phase,
    appwindow: AppWindow,
    event: InputEvent,
    reply: Reply,
    phase: Phase,
    input: OffscreenInputState,
    step: Step,
)
    requires
        stepped(before, appwindow, event, reply, phase, input, step),
    ensures
        before == Phase::Done || phase.rank() < before.rank(),
        (Phase::Sync { last: false }).rank() == 7,
        step == Step::Done ==> phase == Phase::Done,
        before == Phase::Done ==> step == Step::Done,
{
}

/// The native caret is moved only while there is one, and only created while
/// there is none.
pub proof fn law_caret_is_moved_while_it_exists(
    before: Phase,
    appwindow: AppWindow,
    event: InputEvent,
    reply: Reply,
    phase: Phase,
    input: OffscreenInputState,
    step: Step,
)
    requires
        stepped(before, appwindow, event, reply, phase, input, step),
    ensures
        step is PositionCaret ==> appwindow.offscreen_input.ime_caret_created,
        step == Step::CreateCaret ==> !appwindow.offscreen_input.ime_caret_created,
{
}

/// An area counts as told only once the window system has taken it. Until then
/// every step but that of taking the event leaves the input state alone.
pub proof fn law_refused_areas_are_not_remembered(
    before: Phase,
    appwindow: AppWindow,
    event: InputEvent,
    reply: Reply,
    phase: Phase,
    input: OffscreenInputState,
    step: Step,
)
    requires
        stepped(before, appwindow, event, reply, phase, input, step),
        !reply.confirms_update(),
        before != Phase::AwaitCaret,
        !(step is Perform),
    ensures
        input == appwindow.offscreen_input,
{
}

/// The input states differ in nothing but the cursor area that was told.
pub open spec fn same_but_area(a: OffscreenInputState, b: OffscreenInputState) -> bool {
    a == (OffscreenInputState { ime_cursor_area: a.ime_cursor_area, ..b })
}

/// What the input method was told has no influence on what an event does.
pub proof fn law_areas_do_not_steer_events(
    appwindow: AppWindow,
    input: OffscreenInputState,
    event: InputEvent,
)
    requires
        same_but_area(input, appwindow.offscreen_input),
    ensures
        offscreen_input::actions_for(with_input(appwindow, input), event)
            == offscreen_input::actions_for(appwindow, event),
        same_but_area(
            offscreen_input::input_after(input, event),
            offscreen_input::input_after(appwindow.offscreen_input, event),
        ),
        wants_caret(input, event) == wants_caret(appwindow.offscreen_input, event),
{
    let other = with_input(appwindow, input);
    assert(other.visible() == appwindow.visible());
    assert(offscreen_input::leave_actions(appwindow.visible(), input)
        == offscreen_input::leave_actions(appwindow.visible(), appwindow.offscreen_input));
    if let InputEvent::KeyboardInput { state, logical_key, text } = event {
        if let (Some(child), Some(text)) = (appwindow.top(), text) {
            let units = crate::utf16::encode(text@);
            assert(offscreen_input::text_actions(child, input, logical_key, units)
                == offscreen_input::text_actions(
                child,
                appwindow.offscreen_input,
                logical_key,
                units,
            ));
        }
    }
}

/// The webviews that one step of a handling met, the outcome it was given, and
/// where it leaves things. Webviews may change between steps.
pub struct Moment {
    pub children: Vec<AppWebview>,
    pub reply: Reply,
    pub phase: Phase,
    pub input: OffscreenInputState,
    pub step: Step,
}

/// The phase that the moments have led to.
pub open spec fn phase_after(moments: Seq<Moment>) -> Phase {
    if moments.len() == 0 {
        Phase::Sync { last: false }
    } else {
        moments.last().phase
    }
}

/// The input state that the moments have led to.
pub open spec fn input_reached(start: OffscreenInputState, moments: Seq<Moment>) -> OffscreenInputState {
    if moments.len() == 0 {
        start
    } else {
        moments.last().input
    }
}

/// The window as the step meets it, with the given input state.
pub open spec fn met_window(moment: Moment, input: OffscreenInputState) -> AppWindow {
    AppWindow { children: moment.children, offscreen_input: input }
}

/// The moments are those of handling the event, from its start on.
pub open spec fn is_course(
    start: OffscreenInputState,
    event: InputEvent,
    moments: Seq<Moment>,
) -> bool
    decreases moments.len(),
{
    moments.len() > 0 ==> {
        &&& is_course(start, event, moments.drop_last())
        &&& stepped(
            phase_after(moments.drop_last()),
            met_window(moments.last(), input_reached(start, moments.drop_last())),
            event,
            moments.last().reply,
            moments.last().phase,
            moments.last().input,
            moments.last().step,
        )
    }
}

/// Up to the taking of the event the input state changes in nothing but the
/// told area; from then on it is the one after the event, but for the told area
/// and for a caret that was asked for.
spec fn on_course(
    before: OffscreenInputState,
    event: InputEvent,
    phase: Phase,
    input: OffscreenInputState,
) -> bool {
    if phase.rank() >= Phase::Dispatch.rank() {
        same_but_area(input, before)
    } else if wants_caret(before, event) {
        &&& same_but_area(
            OffscreenInputState { ime_caret_created: false, ..input },
            before,
        )
        &&& phase == Phase::AwaitCaret || phase == Phase::Done
    } else {
        &&& same_but_area(input, offscreen_input::input_after(before, event))
        &&& phase != Phase::AwaitCaret
    }
}

/// The step does what the event asks for.
pub open spec fn takes(appwindow: AppWindow, event: InputEvent, step: Step) -> bool {
    if wants_caret(appwindow.offscreen_input, event) {
        step == Step::CreateCaret
    } else {
        step matches Step::Perform(actions) && actions@ == offscreen_input::actions_for(
            appwindow,
            event,
        )
    }
}

/// The step with this index, and no other, takes the event, and does what it
/// asks for in the window as it then is, with the input state from the start.
pub open spec fn takes_at(
    start: OffscreenInputState,
    event: InputEvent,
    moments: Seq<Moment>,
    index: int,
) -> bool {
    &&& 0 <= index < moments.len()
    &&& takes(met_window(moments[index], start), event, moments[index].step)
    &&& forall|i: int|
        0 <= i < moments.len() && i != index ==> !is_taking((#[trigger] moments[i]).step)
}

proof fn lemma_taken_on_course(
    appwindow: AppWindow,
    event: InputEvent,
    met: OffscreenInputState,
    phase: Phase,
    input: OffscreenInputState,
    step: Step,
)
    requires
        same_but_area(met, appwindow.offscreen_input),
        taken(with_input(appwindow, met), event, phase, input, step),
    ensures
        phase.rank() < Phase::Dispatch.rank(),
        on_course(appwindow.offscreen_input, event, phase, input),
        takes(appwindow, event, step),
{
    law_areas_do_not_steer_events(appwindow, met, event);
}

proof fn lemma_step_on_course(
    appwindow: AppWindow,
    event: InputEvent,
    before: Phase,
    met: OffscreenInputState,
    moment: Moment,
)
    requires
        on_course(appwindow.offscreen_input, event, before, met),
        stepped(
            before,
            with_input(appwindow, met),
            event,
            moment.reply,
            moment.phase,
            moment.input,
            moment.step,
        ),
    ensures
        on_course(appwindow.offscreen_input, event, moment.phase, moment.input),
        before.rank() >= Phase::Dispatch.rank() > moment.phase.rank() ==> takes(
            appwindow,
            event,
            moment.step,
        ),
{
    let Moment { reply, phase, input, step, .. } = moment;
    match before {
        Phase::Sync { last: false } => {
            if cursor_query(with_input(appwindow, met)) is None {
                lemma_taken_on_course(appwindow, event, met, phase, input, step);
            }
        },
        Phase::AwaitArea { last: false } => {
            if news(met, reply.cursor_area()) is None {
                lemma_taken_on_course(appwindow, event, met, phase, input, step);
            }
        },
        Phase::AwaitUpdate { area, last: false } => {
            let told = OffscreenInputState { ime_cursor_area: Some(area), ..met };
            if !reply.confirms_update() {
                lemma_taken_on_course(appwindow, event, met, phase, input, step);
            } else if !met.ime_caret_created {
                assert(with_input(with_input(appwindow, met), told) == with_input(appwindow, told));
                lemma_taken_on_course(appwindow, event, told, phase, input, step);
            }
        },
        Phase::Dispatch => {
            lemma_taken_on_course(appwindow, event, met, phase, input, step);
        },
        _ => {},
    }
}

proof fn lemma_course(start: OffscreenInputState, event: InputEvent, moments: Seq<Moment>) -> (index:
    int)
    requires
        is_course(start, event, moments),
    ensures
        on_course(start, event, phase_after(moments), input_reached(start, moments)),
        if phase_after(moments).rank() >= Phase::Dispatch.rank() {
            forall|i: int| 0 <= i < moments.len() ==> !is_taking((#[trigger] moments[i]).step)
        } else {
            takes_at(start, event, moments, index)
        },
    decreases moments.len(),
{
    if moments.len() == 0 {
        0
    } else {
        let fewer = moments.drop_last();
        let moment = moments.last();
        let index = lemma_course(start, event, fewer);
        let input = input_reached(start, fewer);
        let appwindow = met_window(moment, start);
        assert(met_window(moment, input) == with_input(appwindow, input));
        lemma_step_on_course(appwindow, event, phase_after(fewer), input, moment);
        law_events_are_taken_once(
            phase_after(fewer),
            met_window(moment, input),
            event,
            moment.reply,
            moment.phase,
            moment.input,
            moment.step,
        );
        assert forall|i: int| 0 <= i < fewer.len() implies #[trigger] moments[i] == fewer[i] by {}
        if phase_after(fewer).rank() >= Phase::Dispatch.rank() > moment.phase.rank() {
            moments.len() - 1
        } else {
            index
        }
    }
}

/// Whatever the host answers, a handling that has come to its end has taken the
/// event exactly once. What that asked to be done depends on the webviews as
/// they then were and on the input state from the start alone.
pub proof fn law_handling_takes_the_event(
    start: OffscreenInputState,
    event: InputEvent,
    moments: Seq<Moment>,
)
    requires
        is_course(start, event, moments),
        moments.len() > 0,
        moments.last().phase == Phase::Done,
    ensures
        exists|index: int| #[trigger] takes_at(start, event, moments, index),
{
    let index = lemma_course(start, event, moments);
    assert(takes_at(start, event, moments, index));
}

/// Whatever the host answers, a handling that has come to its end leaves the
/// input state that the event leads to, but for the cursor area that the input
/// method was told, and for a caret that was asked for.
pub proof fn law_handling_leads_to_the_input_after(
    start: OffscreenInputState,
    event: InputEvent,
    moments: Seq<Moment>,
)
    requires
        is_course(start, event, moments),
        moments.len() > 0,
        moments.last().phase == Phase::Done,
    ensures
        ({
            let input = moments.last().input;
            let after = offscreen_input::input_after(start, event);
            if wants_caret(start, event) {
                same_but_area(OffscreenInputState { ime_caret_created: false, ..input }, after)
            } else {
                same_but_area(input, after)
            }
        }),
{
    lemma_course(start, event, moments);
}

} // verus!
