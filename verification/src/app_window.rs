//! A window, its webviews and the input state it keeps for them.
use crate::offscreen::{OffscreenImeCursorArea, OffscreenSurface};
use vstd::prelude::*;

verus! {

/// A pointer position in physical pixels, within the window.
///
/// Both coordinates are bit patterns of IEEE 754 doubles.
#[derive(Clone, Copy, Debug, PartialEq, Eq, Structural)]
pub struct PointerPosition {
    pub x: u64,
    pub y: u64,
}

/// What a window remembers between input events.
#[derive(Clone, Copy, Debug, PartialEq, Eq, Structural)]
pub struct OffscreenInputState {
    /// Where the pointer was last seen.
    pub cursor: PointerPosition,
    /// The active keyboard modifiers, as the bits of a `ModifiersState`.
    pub modifiers: u32,
    /// The event flags of the mouse buttons that are held down.
    pub pressed_buttons: u32,
    /// The composition's cursor, in UTF-16 code units.
    pub ime_cursor: Option<usize>,
    /// The cursor area that the input method was last told.
    pub ime_cursor_area: Option<OffscreenImeCursorArea>,
    /// Whether the window holds a native caret for the input method.
    pub ime_caret_created: bool,
}

/// The input state of a window that has seen no event.
pub open spec fn initial_input() -> OffscreenInputState {
    OffscreenInputState {
        cursor: PointerPosition { x: 0, y: 0 },
        modifiers: 0,
        pressed_buttons: 0,
        ime_cursor: None,
        ime_cursor_area: None,
        ime_caret_created: false,
    }
}

impl Default for OffscreenInputState {
    fn default() -> (input: Self)
        ensures
            input == initial_input(),
    {
        OffscreenInputState {
            cursor: PointerPosition { x: 0, y: 0 },
            modifiers: 0,
            pressed_buttons: 0,
            ime_cursor: None,
            ime_cursor_area: None,
            ime_caret_created: false,
        }
    }
}

/// A webview of a window. Only a windowless one has a surface.
#[derive(Debug)]
pub struct AppWebview {
    pub offscreen_surface: Option<OffscreenSurface>,
}

impl AppWebview {
    /// The webview takes part in input: it has a surface, and that is visible.
    pub open spec fn visible(self) -> bool {
        self.offscreen_surface matches Some(surface) && surface@.visible
    }
}

/// A window. Its webviews are stacked in order, the last one on top.
#[derive(Debug)]
pub struct AppWindow {
    pub children: Vec<AppWebview>,
    pub offscreen_input: OffscreenInputState,
}

/// The positions of the visible webviews among the first `count`, ascending.
pub open spec fn visible_among(children: Seq<AppWebview>, count: nat) -> Seq<usize>
    decreases count,
{
    if count == 0 {
        seq![]
    } else {
        let before = visible_among(children, (count - 1) as nat);
        if children[count - 1].visible() {
            before.push((count - 1) as usize)
        } else {
            before
        }
    }
}

impl AppWindow {
    /// The positions of the visible webviews, ascending.
    pub open spec fn visible(self) -> Seq<usize> {
        visible_among(self.children@, self.children@.len())
    }

    /// The visible webview on top of the others.
    pub open spec fn top(self) -> Option<usize> {
        if self.visible().len() == 0 {
            None
        } else {
            Some(self.visible().last())
        }
    }
}

/// The webviews that take part in input, from the lowest to the topmost.
pub fn visible_children(appwindow: &AppWindow) -> (visible: Vec<usize>)
    ensures
        visible@ == appwindow.visible(),
{
    let mut visible: Vec<usize> = Vec::new();
    let count: usize = appwindow.children.len();
    for i in 0..count
        invariant
            count == appwindow.children@.len(),
            visible@ == visible_among(appwindow.children@, i as nat),
    {
        let shown: bool = match &appwindow.children[i].offscreen_surface {
            Some(surface) => surface.is_visible(),
            None => false,
        };
        if shown {
            visible.push(i);
        }
    }
    visible
}

/// The webview that keyboard and text input goes to.
pub fn top_child(appwindow: &AppWindow) -> (top: Option<usize>)
    ensures
        top == appwindow.top(),
{
    let visible = visible_children(appwindow);
    if visible.len() == 0 {
        None
    } else {
        Some(visible[visible.len() - 1])
    }
}

/// The visible webviews are listed in ascending order, each once, and no other
/// webview is.
pub proof fn law_visible_children(children: Seq<AppWebview>, count: nat)
    requires
        count <= children.len() <= usize::MAX,
    ensures
        forall|k: int| #![auto] 0 <= k < visible_among(children, count).len() ==> {
            &&& visible_among(children, count)[k] < count
            &&& children[visible_among(children, count)[k] as int].visible()
        },
        forall|j: int, k: int| 0 <= j < k < visible_among(children, count).len() ==>
            visible_among(children, count)[j] < visible_among(children, count)[k],
        forall|i: int| 0 <= i < count && #[trigger] children[i].visible() ==> visible_among(
            children,
            count,
        ).contains(i as usize),
    decreases count,
{
    if count > 0 {
        let before = visible_among(children, (count - 1) as nat);
        let after = visible_among(children, count);
        law_visible_children(children, (count - 1) as nat);
        assert forall|i: int| 0 <= i < count && #[trigger] children[i].visible() implies
            after.contains(i as usize) by {
            if i == count - 1 {
                assert(after[before.len() as int] == i as usize);
            } else {
                let k = choose|k: int| 0 <= k < before.len() && before[k] == i as usize;
                assert(after[k] == i as usize);
            }
        }
    }
}

/// The webview on top is visible, and no webview above it is.
pub proof fn law_top_child(appwindow: AppWindow)
    requires
        appwindow.children@.len() <= usize::MAX,
    ensures
        match appwindow.top() {
            Some(top) => {
                &&& top < appwindow.children@.len()
                &&& appwindow.children@[top as int].visible()
                &&& forall|i: int|
                    top < i < appwindow.children@.len() ==> !(
                    #[trigger] appwindow.children@[i].visible())
            },
            None => forall|i: int|
                0 <= i < appwindow.children@.len() ==> !(
                #[trigger] appwindow.children@[i].visible()),
        },
{
    let visible = appwindow.visible();
    law_visible_children(appwindow.children@, appwindow.children@.len());
    assert forall|i: int|
        0 <= i < appwindow.children@.len() && #[trigger] appwindow.children@[i].visible() implies
        visible.len() > 0 && i <= visible.last() by {
        let k = choose|k: int| 0 <= k < visible.len() && visible[k] == i as usize;
        assert(visible[k] <= visible[visible.len() - 1]);
    }
}

/// A window that has seen no event has its pointer at the origin, no modifier, no
/// button, no composition and no caret.
pub proof fn law_fresh_windows_have_seen_nothing()
    ensures
        initial_input().cursor == (PointerPosition { x: 0, y: 0 }),
        initial_input().modifiers == 0,
        initial_input().pressed_buttons == 0,
        initial_input().ime_cursor is None,
        initial_input().ime_cursor_area is None,
        !initial_input().ime_caret_created,
{
}

} // verus!
