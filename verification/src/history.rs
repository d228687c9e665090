//! The history of a surface.
//!
//! A fresh surface and the operations on it, in order, determine what it shows.
//! All handles that the host has to one surface operate on it in turn, so their
//! operations make up one history.
use crate::offscreen::{self, OffscreenBounds, OffscreenFrame, OffscreenRect, OffscreenState};
use std::sync::Arc;
use vstd::prelude::*;

verus! {

/// An operation that changes a surface, with its arguments.
#[allow(inconsistent_fields)]
pub enum Operation {
    SetBounds(OffscreenBounds),
    SetVisible(bool),
    SetPopupVisible(bool),
    SetPopupRect { x: i64, y: i64, width: i64, height: i64 },
    Publish { popup: bool, width: u32, height: u32, pixels: Arc<[u8]> },
}

/// The state that an operation leads to.
pub open spec fn after(state: OffscreenState, operation: Operation) -> OffscreenState {
    match operation {
        Operation::SetBounds(bounds) => state.with_bounds(bounds),
        Operation::SetVisible(visible) => state.with_visible(visible),
        Operation::SetPopupVisible(visible) => state.with_popup_visible(visible),
        Operation::SetPopupRect { x, y, width, height } => state.with_popup_rect(
            offscreen::popup_place(x, y, width, height),
        ),
        Operation::Publish { popup, width, height, pixels } => state.published(
            popup,
            width,
            height,
            pixels,
        ),
    }
}

/// The state that operations lead to, one after the other.
pub open spec fn after_all(state: OffscreenState, operations: Seq<Operation>) -> OffscreenState
    decreases operations.len(),
{
    if operations.len() == 0 {
        state
    } else {
        after(after_all(state, operations.drop_last()), operations.last())
    }
}

/// How many of the operations publish a frame, be it the view's or the popup's.
pub open spec fn publishes(operations: Seq<Operation>) -> nat
    decreases operations.len(),
{
    if operations.len() == 0 {
        0
    } else {
        publishes(operations.drop_last()) + if operations.last() is Publish {
            1nat
        } else {
            0nat
        }
    }
}

/// The serial of the frame that is the `k`th to be published, counted from one.
pub open spec fn kth_serial(k: nat) -> u64 {
    ((k - 1) % (u64::MAX as int) + 1) as u64
}

/// The frame that the operation with this index publishes.
pub open spec fn frame_at(operations: Seq<Operation>, index: int) -> OffscreenFrame {
    OffscreenFrame {
        width: operations[index]->Publish_width,
        height: operations[index]->Publish_height,
        pixels: operations[index]->pixels,
        serial: kth_serial(publishes(operations.take(index + 1))),
    }
}

pub open spec fn publishes_view() -> spec_fn(Operation) -> bool {
    |operation: Operation| operation matches Operation::Publish { popup, .. } && !popup
}

pub open spec fn publishes_popup() -> spec_fn(Operation) -> bool {
    |operation: Operation| operation matches Operation::Publish { popup, .. } && popup
}

pub open spec fn toggles_popup() -> spec_fn(Operation) -> bool {
    |operation: Operation| operation is SetPopupVisible
}

pub open spec fn hides_popup() -> spec_fn(Operation) -> bool {
    |operation: Operation| operation == Operation::SetPopupVisible(false)
}

pub open spec fn places_popup() -> spec_fn(Operation) -> bool {
    |operation: Operation| operation is SetPopupRect
}

pub open spec fn sets_bounds() -> spec_fn(Operation) -> bool {
    |operation: Operation| operation is SetBounds
}

pub open spec fn sets_visible() -> spec_fn(Operation) -> bool {
    |operation: Operation| operation is SetVisible
}

/// None of the operations is such a one.
pub open spec fn none_such(operations: Seq<Operation>, such: spec_fn(Operation) -> bool) -> bool {
    forall|i: int| 0 <= i < operations.len() ==> !such(#[trigger] operations[i])
}

/// The operation with this index is such a one, and none after it is.
pub open spec fn last_such(
    operations: Seq<Operation>,
    such: spec_fn(Operation) -> bool,
    index: int,
) -> bool {
    &&& 0 <= index < operations.len()
    &&& such(operations[index])
    &&& forall|i: int| index < i < operations.len() ==> !such(#[trigger] operations[i])
}

/// The popup was last shown, and not hidden.
pub open spec fn popup_is_shown(operations: Seq<Operation>) -> bool {
    exists|i: int|
        #[trigger] last_such(operations, toggles_popup(), i) && operations[i]
            == Operation::SetPopupVisible(true)
}

/// A popup frame was published that no hiding followed.
pub open spec fn popup_has_frame(operations: Seq<Operation>) -> bool {
    exists|i: int|
        0 <= i < operations.len() && publishes_popup()(#[trigger] operations[i]) && none_such(
            operations.skip(i),
            hides_popup(),
        )
}

proof fn lemma_last_such(operations: Seq<Operation>, such: spec_fn(Operation) -> bool, index: int)
    requires
        operations.len() > 0,
    ensures
        last_such(operations, such, index) <==> if such(operations.last()) {
            index == operations.len() - 1
        } else {
            last_such(operations.drop_last(), such, index)
        },
{
    let fewer = operations.drop_last();
    let last = operations.len() - 1;
    assert(operations[last] == operations.last());
    if !such(operations.last()) && last_such(fewer, such, index) {
        assert forall|i: int| index < i < operations.len() implies !such(
            #[trigger] operations[i],
        ) by {
            if i < last {
                assert(operations[i] == fewer[i]);
            }
        }
    }
    if !such(operations.last()) && last_such(operations, such, index) {
        assert forall|i: int| index < i < fewer.len() implies !such(#[trigger] fewer[i]) by {
            assert(operations[i] == fewer[i]);
        }
    }
}

proof fn lemma_none_such(operations: Seq<Operation>, such: spec_fn(Operation) -> bool)
    requires
        operations.len() > 0,
    ensures
        none_such(operations, such) <==> !such(operations.last()) && none_such(
            operations.drop_last(),
            such,
        ),
{
    let fewer = operations.drop_last();
    let last = operations.len() - 1;
    assert(operations[last] == operations.last());
    if none_such(operations, such) {
        assert forall|i: int| 0 <= i < fewer.len() implies !such(#[trigger] fewer[i]) by {
            assert(operations[i] == fewer[i]);
        }
    }
    if !such(operations.last()) && none_such(fewer, such) {
        assert forall|i: int| 0 <= i < operations.len() implies !such(
            #[trigger] operations[i],
        ) by {
            if i < last {
                assert(operations[i] == fewer[i]);
            }
        }
    }
}

proof fn lemma_next_serial(fresh: OffscreenState, operations: Seq<Operation>)
    requires
        fresh.initial(),
    ensures
        after_all(fresh, operations).next_serial == offscreen::serial_after_many(
            1,
            publishes(operations),
        ),
        after_all(fresh, operations).next_serial == kth_serial(publishes(operations) + 1),
    decreases operations.len(),
{
    if operations.len() > 0 {
        lemma_next_serial(fresh, operations.drop_last());
    }
    offscreen::law_serials_count_up(1, publishes(operations));
}

/// The frame of a history's last operation is the next one of the history
/// before it; earlier frames are the same in both.
proof fn lemma_frames(fresh: OffscreenState, operations: Seq<Operation>)
    requires
        fresh.initial(),
        operations.len() > 0,
    ensures
        operations.last() matches Operation::Publish { width, height, pixels, .. } ==> frame_at(
            operations,
            operations.len() - 1,
        ) == after_all(fresh, operations.drop_last()).next_frame(width, height, pixels),
        forall|i: int|
            0 <= i < operations.len() - 1 ==> #[trigger] frame_at(operations, i) == frame_at(
                operations.drop_last(),
                i,
            ),
{
    let fewer = operations.drop_last();
    assert(operations.take(operations.len() as int) == operations);
    lemma_next_serial(fresh, fewer);
    assert forall|i: int| 0 <= i < fewer.len() implies #[trigger] frame_at(operations, i)
        == frame_at(fewer, i) by {
        assert(operations.take(i + 1) == fewer.take(i + 1));
    }
}

/// Frames are numbered in the order in which they are published, whichever of
/// the two they are and whatever else is done in between. The `k`th frame of a
/// surface has the serial `k`, up to the greatest serial; then they start again
/// from one.
pub proof fn law_the_kth_frame_has_the_kth_serial(
    fresh: OffscreenState,
    operations: Seq<Operation>,
    popup: bool,
    width: u32,
    height: u32,
    pixels: Arc<[u8]>,
)
    requires
        fresh.initial(),
    ensures
        ({
            let history = operations.push(Operation::Publish { popup, width, height, pixels });
            let k = publishes(history);
            let state = after_all(fresh, history);
            let serial = ((k - 1) % (u64::MAX as int) + 1) as u64;
            &&& k == publishes(operations) + 1
            &&& 1 <= (k - 1) % (u64::MAX as int) + 1 <= u64::MAX
            &&& (if popup { state.popup } else { state.view }) == Some(
                OffscreenFrame { width, height, pixels, serial },
            )
        }),
{
    let history = operations.push(Operation::Publish { popup, width, height, pixels });
    assert(history.drop_last() == operations);
    lemma_next_serial(fresh, operations);
    vstd::arithmetic::div_mod::lemma_mod_bound(publishes(operations) as int, u64::MAX as int);
}

/// A snapshot shows the view frame that was published last; there is none just
/// as long as none was published.
pub proof fn law_the_last_view_is_shown(
    fresh: OffscreenState,
    operations: Seq<Operation>,
    index: int,
)
    requires
        fresh.initial(),
    ensures
        after_all(fresh, operations).shown().view is None <==> none_such(
            operations,
            publishes_view(),
        ),
        last_such(operations, publishes_view(), index) ==> after_all(
            fresh,
            operations,
        ).shown().view == Some(frame_at(operations, index)),
    decreases operations.len(),
{
    let view = publishes_view();
    if operations.len() > 0 {
        law_the_last_view_is_shown(fresh, operations.drop_last(), index);
        lemma_none_such(operations, view);
        lemma_last_such(operations, view, index);
        lemma_frames(fresh, operations);
    }
}

proof fn lemma_popup_is_shown(fresh: OffscreenState, operations: Seq<Operation>)
    requires
        fresh.initial(),
    ensures
        after_all(fresh, operations).popup_visible <==> popup_is_shown(operations),
    decreases operations.len(),
{
    let toggle = toggles_popup();
    if operations.len() > 0 {
        let fewer = operations.drop_last();
        let last = operations.len() - 1;
        lemma_popup_is_shown(fresh, fewer);
        assert forall|i: int| #[trigger] last_such(operations, toggle, i) <==> if toggle(
            operations.last(),
        ) {
            i == last
        } else {
            last_such(fewer, toggle, i)
        } by {
            lemma_last_such(operations, toggle, i);
        }
        if toggle(operations.last()) {
            assert(last_such(operations, toggle, last));
        } else if popup_is_shown(fewer) {
            let i = choose|i: int|
                #[trigger] last_such(fewer, toggle, i) && fewer[i] == Operation::SetPopupVisible(
                    true,
                );
            assert(last_such(operations, toggle, i) && operations[i] == fewer[i]);
        } else if popup_is_shown(operations) {
            let i = choose|i: int|
                #[trigger] last_such(operations, toggle, i) && operations[i]
                    == Operation::SetPopupVisible(true);
            assert(last_such(fewer, toggle, i) && operations[i] == fewer[i]);
        }
    }
}

proof fn lemma_popup_has_frame(fresh: OffscreenState, operations: Seq<Operation>)
    requires
        fresh.initial(),
    ensures
        after_all(fresh, operations).popup is Some <==> popup_has_frame(operations),
    decreases operations.len(),
{
    let hiding = hides_popup();
    if operations.len() > 0 {
        let fewer = operations.drop_last();
        let last = operations.len() - 1;
        lemma_popup_has_frame(fresh, fewer);
        assert(operations[last] == operations.last());
        assert forall|i: int| 0 <= i < last implies none_such(
            #[trigger] operations.skip(i),
            hiding,
        ) == (none_such(fewer.skip(i), hiding) && !hiding(operations.last())) by {
            assert(operations.skip(i).drop_last() == fewer.skip(i));
            lemma_none_such(operations.skip(i), hiding);
        }
        if publishes_popup()(operations.last()) {
            assert(operations.skip(last) == seq![operations.last()]);
            assert(none_such(operations.skip(last), hiding));
        } else {
            if popup_has_frame(operations) {
                let i = choose|i: int|
                    0 <= i < operations.len() && publishes_popup()(#[trigger] operations[i])
                        && none_such(operations.skip(i), hiding);
                assert(fewer[i] == operations[i]);
            }
            if popup_has_frame(fewer) && !hiding(operations.last()) {
                let i = choose|i: int|
                    0 <= i < fewer.len() && publishes_popup()(#[trigger] fewer[i]) && none_such(
                        fewer.skip(i),
                        hiding,
                    );
                assert(operations[i] == fewer[i]);
                assert(none_such(operations.skip(i), hiding));
            }
        }
    }
}

proof fn lemma_last_popup(fresh: OffscreenState, operations: Seq<Operation>, index: int)
    requires
        fresh.initial(),
        last_such(operations, publishes_popup(), index),
    ensures
        after_all(fresh, operations).popup matches Some(frame) ==> frame == frame_at(
            operations,
            index,
        ),
    decreases operations.len(),
{
    lemma_last_such(operations, publishes_popup(), index);
    lemma_frames(fresh, operations);
    if !publishes_popup()(operations.last()) {
        lemma_last_popup(fresh, operations.drop_last(), index);
    }
}

/// A snapshot shows a popup frame just if the popup was last shown and not
/// hidden, and a popup frame was published after it was last hidden. It is the
/// popup frame that was published last.
pub proof fn law_the_last_popup_is_shown(
    fresh: OffscreenState,
    operations: Seq<Operation>,
    index: int,
)
    requires
        fresh.initial(),
    ensures
        after_all(fresh, operations).shown().popup is Some <==> popup_is_shown(operations)
            && popup_has_frame(operations),
        last_such(operations, publishes_popup(), index) && after_all(
            fresh,
            operations,
        ).shown().popup is Some ==> after_all(fresh, operations).shown().popup == Some(
            frame_at(operations, index),
        ),
{
    lemma_popup_is_shown(fresh, operations);
    lemma_popup_has_frame(fresh, operations);
    if last_such(operations, publishes_popup(), index) {
        lemma_last_popup(fresh, operations, index);
    }
}

/// A surface has the bounds that were set last, and the initial ones until
/// then.
pub proof fn law_the_last_bounds_hold(
    fresh: OffscreenState,
    operations: Seq<Operation>,
    index: int,
)
    requires
        fresh.initial(),
    ensures
        none_such(operations, sets_bounds()) ==> after_all(fresh, operations).bounds
            == offscreen::initial_bounds(),
        last_such(operations, sets_bounds(), index) ==> operations[index]
            == Operation::SetBounds(after_all(fresh, operations).bounds),
    decreases operations.len(),
{
    let such = sets_bounds();
    if operations.len() > 0 {
        law_the_last_bounds_hold(fresh, operations.drop_last(), index);
        lemma_none_such(operations, such);
        lemma_last_such(operations, such, index);
    }
}

/// A surface is visible unless it was last hidden.
pub proof fn law_the_last_visibility_holds(
    fresh: OffscreenState,
    operations: Seq<Operation>,
    index: int,
)
    requires
        fresh.initial(),
    ensures
        none_such(operations, sets_visible()) ==> after_all(
            fresh,
            operations,
        ).visible,
        last_such(operations, sets_visible(), index) ==> operations[index]
            == Operation::SetVisible(after_all(fresh, operations).visible),
    decreases operations.len(),
{
    let such = sets_visible();
    if operations.len() > 0 {
        law_the_last_visibility_holds(fresh, operations.drop_last(), index);
        lemma_none_such(operations, such);
        lemma_last_such(operations, such, index);
    }
}

/// A snapshot has the place of the popup as it was handed over last, whether or
/// not the popup is visible. New bounds, with another scale factor, do not move
/// it.
pub proof fn law_the_last_popup_place_is_kept(
    fresh: OffscreenState,
    operations: Seq<Operation>,
    index: int,
)
    requires
        fresh.initial(),
    ensures
        none_such(operations, places_popup()) ==> after_all(
            fresh,
            operations,
        ).shown().popup_rect == (OffscreenRect { x: 0, y: 0, width: 0, height: 0 }),
        last_such(operations, places_popup(), index) ==> (
        operations[index] matches Operation::SetPopupRect { x, y, width, height } && after_all(
            fresh,
            operations,
        ).shown().popup_rect == offscreen::popup_place(x, y, width, height)),
    decreases operations.len(),
{
    let such = places_popup();
    if operations.len() > 0 {
        law_the_last_popup_place_is_kept(fresh, operations.drop_last(), index);
        lemma_none_such(operations, such);
        lemma_last_such(operations, such, index);
    }
}

/// A place within the ranges is kept as it is.
pub proof fn law_popup_places_in_range_are_exact(x: i32, y: i32, width: u32, height: u32)
    ensures
        offscreen::popup_place(x as i64, y as i64, width as i64, height as i64) == (
        OffscreenRect { x, y, width, height }),
{
}

} // verus!
