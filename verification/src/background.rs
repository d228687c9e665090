//! A window's background, and the frame around it.
use vstd::prelude::*;

verus! {

/// Red, green, blue and alpha.
#[derive(Clone, Copy, Debug, PartialEq, Eq, Structural)]
pub struct Color(pub u8, pub u8, pub u8, pub u8);

/// The pixel of a background color: blue in the lowest byte, then green, then
/// red. Without a color it is black.
pub open spec fn pixel_of(color: Option<Color>) -> u32 {
    match color {
        Some(Color(red, green, blue, _)) => (red * 0x1_0000 + green * 0x100 + blue) as u32,
        None => 0,
    }
}

/// The pixel to fill the background with.
pub fn background_pixel(color: Option<Color>) -> (pixel: u32)
    ensures
        pixel == pixel_of(color),
{
    match color {
        Some(Color(red, green, blue, _alpha)) => {
            let r: u32 = red as u32;
            let g: u32 = green as u32;
            let b: u32 = blue as u32;
            assert(b | (g << 8) | (r << 16) == r * 0x1_0000 + g * 0x100 + b) by (bit_vector)
                requires
                    r < 0x100,
                    g < 0x100,
                    b < 0x100,
            ;
            b | (g << 8) | (r << 16)
        },
        None => 0,
    }
}

/// The next thing to do to bring the background up to date.
#[derive(Clone, Copy, Debug, PartialEq, Eq, Structural)]
pub enum BackgroundStep {
    /// Drop the background surface: the window needs none.
    Discard,
    /// Make the background surface.
    Make { width: u32, height: u32, pixel: u32 },
    /// Give the background surface the window's extents.
    Resize { width: u32, height: u32, pixel: u32 },
    /// Open the background surface's buffer.
    Open { pixel: u32 },
    /// Fill the buffer with the pixel and show it.
    Show { pixel: u32 },
    /// There is nothing left to do.
    Stop,
}

/// The drawing of a window's background: what to do next, and whether the
/// window has a background surface.
#[derive(Clone, Copy, Debug, PartialEq, Eq, Structural)]
pub struct BackgroundDrawing {
    pub step: BackgroundStep,
    pub present: bool,
}

/// A window has a background surface if it is transparent or has a background
/// color.
pub open spec fn needs_surface(transparent: bool, color: Option<Color>) -> bool {
    transparent || color is Some
}

/// How the drawing of a background begins.
pub open spec fn first_drawing(
    transparent: bool,
    color: Option<Color>,
    width: u32,
    height: u32,
    present: bool,
) -> BackgroundDrawing {
    let pixel = pixel_of(color);
    BackgroundDrawing {
        step: if !needs_surface(transparent, color) {
            BackgroundStep::Discard
        } else if width == 0 || height == 0 {
            BackgroundStep::Stop
        } else if present {
            BackgroundStep::Resize { width, height, pixel }
        } else {
            BackgroundStep::Make { width, height, pixel }
        },
        present,
    }
}

/// Starts to draw the background. `present` says whether the window has its
/// background surface already; that one is used again.
pub fn draw_background_surface(
    transparent: bool,
    color: Option<Color>,
    width: u32,
    height: u32,
    present: bool,
) -> (drawing: BackgroundDrawing)
    ensures
        drawing == first_drawing(transparent, color, width, height, present),
{
    let pixel: u32 = background_pixel(color);
    let step = if !transparent && color.is_none() {
        BackgroundStep::Discard
    } else if width == 0 || height == 0 {
        BackgroundStep::Stop
    } else if present {
        BackgroundStep::Resize { width, height, pixel }
    } else {
        BackgroundStep::Make { width, height, pixel }
    };
    BackgroundDrawing { step, present }
}

/// How a drawing goes on once its step was tried. A failed step ends it; what
/// failed to be made is not there, and what was there stays.
pub open spec fn drawing_after(drawing: BackgroundDrawing, succeeded: bool) -> BackgroundDrawing {
    BackgroundDrawing {
        step: match drawing.step {
            BackgroundStep::Make { width, height, pixel } if succeeded => BackgroundStep::Resize {
                width,
                height,
                pixel,
            },
            BackgroundStep::Resize { pixel, .. } if succeeded => BackgroundStep::Open { pixel },
            BackgroundStep::Open { pixel } if succeeded => BackgroundStep::Show { pixel },
            _ => BackgroundStep::Stop,
        },
        present: match drawing.step {
            BackgroundStep::Discard => false,
            BackgroundStep::Make { .. } => succeeded,
            _ => drawing.present,
        },
    }
}

impl BackgroundDrawing {
    /// Goes on, once the step was tried.
    pub fn proceed(&mut self, succeeded: bool)
        ensures
            *final(self) == drawing_after(*old(self), succeeded),
    {
        let done = self.step;
        self.step = BackgroundStep::Stop;
        match done {
            BackgroundStep::Discard => {
                self.present = false;
            },
            BackgroundStep::Make { width, height, pixel } => {
                self.present = succeeded;
                if succeeded {
                    self.step = BackgroundStep::Resize { width, height, pixel };
                }
            },
            BackgroundStep::Resize { pixel, .. } => {
                if succeeded {
                    self.step = BackgroundStep::Open { pixel };
                }
            },
            BackgroundStep::Open { pixel } => {
                if succeeded {
                    self.step = BackgroundStep::Show { pixel };
                }
            },
            BackgroundStep::Show { .. } => {},
            BackgroundStep::Stop => {},
        }
    }
}

/// How a drawing stands after its steps were tried, with these outcomes.
pub open spec fn drawing_after_all(drawing: BackgroundDrawing, outcomes: Seq<bool>) -> BackgroundDrawing
    decreases outcomes.len(),
{
    if outcomes.len() == 0 {
        drawing
    } else {
        drawing_after(drawing_after_all(drawing, outcomes.drop_last()), outcomes.last())
    }
}

/// A bound on the steps that are left.
spec fn steps_left(step: BackgroundStep) -> int {
    match step {
        BackgroundStep::Make { .. } => 4,
        BackgroundStep::Resize { .. } => 3,
        BackgroundStep::Open { .. } => 2,
        BackgroundStep::Show { .. } => 1,
        BackgroundStep::Discard => 1,
        BackgroundStep::Stop => 0,
    }
}

proof fn lemma_steps_left(drawing: BackgroundDrawing, outcomes: Seq<bool>)
    ensures
        steps_left(drawing_after_all(drawing, outcomes).step) <= if outcomes.len() >= 4 {
            0
        } else {
            4 - outcomes.len()
        },
    decreases outcomes.len(),
{
    if outcomes.len() > 0 {
        lemma_steps_left(drawing, outcomes.drop_last());
    }
}

/// While a drawing goes on, all its steps have succeeded, and it keeps its pixel.
proof fn lemma_on_the_way(drawing: BackgroundDrawing, outcomes: Seq<bool>, pixel: u32)
    requires
        match drawing.step {
            BackgroundStep::Make { pixel: own, .. } => own == pixel,
            BackgroundStep::Resize { pixel: own, .. } => own == pixel,
            BackgroundStep::Open { pixel: own } => own == pixel,
            BackgroundStep::Show { pixel: own } => own == pixel,
            _ => true,
        },
    ensures
        match drawing_after_all(drawing, outcomes).step {
            BackgroundStep::Make { pixel: own, .. } => own == pixel,
            BackgroundStep::Resize { pixel: own, .. } => own == pixel,
            BackgroundStep::Open { pixel: own } => own == pixel,
            BackgroundStep::Show { pixel: own } => own == pixel,
            _ => true,
        },
        drawing_after_all(drawing, outcomes).step == BackgroundStep::Stop || forall|i: int|
            0 <= i < outcomes.len() ==> #[trigger] outcomes[i],
    decreases outcomes.len(),
{
    if outcomes.len() > 0 {
        let fewer = outcomes.drop_last();
        lemma_on_the_way(drawing, fewer, pixel);
        assert forall|i: int| 0 <= i < fewer.len() implies #[trigger] outcomes[i] == fewer[i] by {}
        assert(outcomes[outcomes.len() - 1] == outcomes.last());
    }
}

/// A background surface that could not be made is not there, nothing is shown,
/// and the next drawing tries to make it again.
pub proof fn law_failed_making_is_tried_again(
    transparent: bool,
    color: Option<Color>,
    width: u32,
    height: u32,
)
    requires
        needs_surface(transparent, color),
        width > 0,
        height > 0,
    ensures
        ({
            let first = first_drawing(transparent, color, width, height, false);
            let failed = drawing_after(first, false);
            &&& first.step == (BackgroundStep::Make { width, height, pixel: pixel_of(color) })
            &&& failed == (BackgroundDrawing { step: BackgroundStep::Stop, present: false })
            &&& first_drawing(transparent, color, width, height, failed.present) == first
        }),
{
}

/// A background surface that is there is used again and stays, whatever fails,
/// as long as the window needs one.
pub proof fn law_present_surface_stays(
    transparent: bool,
    color: Option<Color>,
    width: u32,
    height: u32,
    outcomes: Seq<bool>,
)
    requires
        needs_surface(transparent, color),
    ensures
        ({
            let drawing = drawing_after_all(
                first_drawing(transparent, color, width, height, true),
                outcomes,
            );
            &&& drawing.present
            &&& !(drawing.step is Make)
            &&& !(drawing.step is Discard)
        }),
    decreases outcomes.len(),
{
    if outcomes.len() > 0 {
        law_present_surface_stays(transparent, color, width, height, outcomes.drop_last());
    }
}

/// A background surface that was made stays, whatever fails afterwards.
pub proof fn law_made_surface_stays(
    transparent: bool,
    color: Option<Color>,
    width: u32,
    height: u32,
    outcomes: Seq<bool>,
)
    requires
        needs_surface(transparent, color),
        width > 0,
        height > 0,
        outcomes.len() > 0,
        outcomes[0],
    ensures
        ({
            let drawing = drawing_after_all(
                first_drawing(transparent, color, width, height, false),
                outcomes,
            );
            &&& drawing.present
            &&& !(drawing.step is Make)
            &&& !(drawing.step is Discard)
        }),
    decreases outcomes.len(),
{
    if outcomes.len() == 1 {
        assert(outcomes.drop_last().len() == 0);
        reveal_with_fuel(drawing_after_all, 2);
    } else {
        law_made_surface_stays(transparent, color, width, height, outcomes.drop_last());
    }
}

/// A drawing shows the background only after all its steps succeeded, and with
/// the pixel of its color.
pub proof fn law_nothing_is_shown_after_a_failure(
    transparent: bool,
    color: Option<Color>,
    width: u32,
    height: u32,
    present: bool,
    outcomes: Seq<bool>,
)
    ensures
        ({
            let first = first_drawing(transparent, color, width, height, present);
            drawing_after_all(first, outcomes).step matches BackgroundStep::Show { pixel } ==> {
                &&& pixel == pixel_of(color)
                &&& forall|i: int| 0 <= i < outcomes.len() ==> #[trigger] outcomes[i]
            }
        }),
{
    lemma_on_the_way(
        first_drawing(transparent, color, width, height, present),
        outcomes,
        pixel_of(color),
    );
}

/// A drawing whose steps all succeed shows the background: after the surface
/// was made, where there was none, it is given its extents and opened.
pub proof fn law_background_is_shown(
    transparent: bool,
    color: Option<Color>,
    width: u32,
    height: u32,
    present: bool,
)
    requires
        needs_surface(transparent, color),
        width > 0,
        height > 0,
    ensures
        ({
            let first = first_drawing(transparent, color, width, height, present);
            let outcomes = if present {
                seq![true, true]
            } else {
                seq![true, true, true]
            };
            drawing_after_all(first, outcomes) == (BackgroundDrawing {
                step: BackgroundStep::Show { pixel: pixel_of(color) },
                present: true,
            })
        }),
{
    let two: Seq<bool> = seq![true, true];
    let three: Seq<bool> = seq![true, true, true];
    assert(three.drop_last() == two);
    assert(two.drop_last() == seq![true]);
    assert(seq![true].drop_last().len() == 0);
    reveal_with_fuel(drawing_after_all, 4);
}

/// A drawing ends after four steps at most.
pub proof fn law_drawing_ends(drawing: BackgroundDrawing, outcomes: Seq<bool>)
    requires
        outcomes.len() >= 4,
    ensures
        drawing_after_all(drawing, outcomes).step == BackgroundStep::Stop,
{
    lemma_steps_left(drawing, outcomes);
}

/// A transparent window, and any with a background color, whatever its alpha, has
/// its background drawn: the first step is for the window's extents and the
/// color's pixel, and makes the surface only if there is none. A window that is
/// neither has its surface dropped, and no other window has. Without an extent
/// nothing is done.
pub proof fn law_backgrounds_are_drawn(
    transparent: bool,
    color: Option<Color>,
    width: u32,
    height: u32,
    present: bool,
)
    ensures
        ({
            let first = first_drawing(transparent, color, width, height, present);
            let pixel = pixel_of(color);
            &&& first.present == present
            &&& first.step == BackgroundStep::Discard <==> !transparent && color is None
            &&& (transparent || color is Some) && width > 0 && height > 0 ==> {
                &&& present ==> first.step == (BackgroundStep::Resize { width, height, pixel })
                &&& !present ==> first.step == (BackgroundStep::Make { width, height, pixel })
            }
            &&& (transparent || color is Some) && (width == 0 || height == 0) ==> first.step
                == BackgroundStep::Stop
        }),
{
}

/// A surface that was made is given the extents, one that has them is opened, and
/// an opened one is filled, each with the same pixel. Whatever fails ends the
/// drawing, and so do showing and dropping. Making and dropping alone change
/// whether there is a surface.
pub proof fn law_steps_follow_each_other(
    width: u32,
    height: u32,
    pixel: u32,
    present: bool,
    step: BackgroundStep,
    succeeded: bool,
)
    ensures
        drawing_after(
            BackgroundDrawing { step: BackgroundStep::Make { width, height, pixel }, present },
            true,
        ) == (BackgroundDrawing {
            step: BackgroundStep::Resize { width, height, pixel },
            present: true,
        }),
        drawing_after(
            BackgroundDrawing { step: BackgroundStep::Resize { width, height, pixel }, present },
            true,
        ) == (BackgroundDrawing { step: BackgroundStep::Open { pixel }, present }),
        drawing_after(
            BackgroundDrawing { step: BackgroundStep::Open { pixel }, present },
            true,
        ) == (BackgroundDrawing { step: BackgroundStep::Show { pixel }, present }),
        !succeeded || step is Show || step is Discard || step is Stop ==> drawing_after(
            BackgroundDrawing { step, present },
            succeeded,
        ).step == BackgroundStep::Stop,
        step is Discard ==> !drawing_after(BackgroundDrawing { step, present }, succeeded).present,
        step is Make ==> drawing_after(BackgroundDrawing { step, present }, succeeded).present
            == succeeded,
        !(step is Discard) && !(step is Make) ==> drawing_after(
            BackgroundDrawing { step, present },
            succeeded,
        ).present == present,
{
}

/// The upper and lower edge of a window's visible frame.
#[derive(Clone, Copy, Debug, PartialEq, Eq, Structural)]
pub struct FrameEdges {
    pub top: i32,
    pub bottom: i32,
}

/// The height between two edges, as the two's complement pattern of their
/// distance.
pub open spec fn height_of(edges: FrameEdges) -> u32 {
    (if edges.bottom >= edges.top {
        edges.bottom - edges.top
    } else {
        edges.bottom - edges.top + 0x1_0000_0000
    }) as u32
}

/// The height of a window's visible frame, without the invisible border that
/// belongs to its outer size. `None` where the window system does not know the
/// frame. For a frame turned upside down it is the two's complement pattern of
/// the negative height.
pub fn dwm_visible_frame_height(frame: Option<FrameEdges>) -> (height: Option<u32>)
    requires
        frame matches Some(edges) ==> i32::MIN <= edges.bottom - edges.top <= i32::MAX,
    ensures
        height == match frame {
            Some(edges) => Some(
                (if edges.bottom >= edges.top {
                    edges.bottom - edges.top
                } else {
                    edges.bottom - edges.top + 0x1_0000_0000
                }) as u32,
            ),
            None => None,
        },
        frame matches Some(edges) ==> height == Some(height_of(edges)),
{
    match frame {
        Some(edges) => {
            let height: i64 = edges.bottom as i64 - edges.top as i64;
            if height >= 0 {
                Some(height as u32)
            } else {
                Some((height + 0x1_0000_0000) as u32)
            }
        },
        None => None,
    }
}

/// The pixel has the color's channels in its bytes, and nothing of its alpha.
/// Without a color it is zero.
pub proof fn law_pixel_holds_the_channels(color: Color)
    ensures
        pixel_of(Some(color)) / 0x1_0000 == color.0,
        (pixel_of(Some(color)) / 0x100) % 0x100 == color.1,
        pixel_of(Some(color)) % 0x100 == color.2,
        pixel_of(None) == 0,
{
}

/// The lower edge is the height below the upper one.
pub proof fn law_heights_lead_from_edge_to_edge(edges: FrameEdges)
    requires
        -0x8000_0000 <= edges.bottom - edges.top <= 0x7fff_ffff,
    ensures
        edges.bottom >= edges.top ==> edges.top + height_of(edges) == edges.bottom,
        edges.bottom < edges.top ==> edges.top + height_of(edges) == edges.bottom + 0x1_0000_0000,
{
}

} // verus!
