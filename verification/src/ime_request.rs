//! Requests to the window system's input method.
use crate::offscreen::{OffscreenBounds, OffscreenImeCursorArea};
use vstd::prelude::*;
use winit::window::{ImeEnableRequest, ImeRequestData};

verus! {

/// `winit`'s description of what to tell the input method.
#[verifier::external_type_specification]
#[verifier::external_body]
pub struct ExImeRequestData(winit::window::ImeRequestData);

/// `winit`'s request to enable the input method.
#[verifier::external_type_specification]
#[verifier::external_body]
pub struct ExImeEnableRequest(winit::window::ImeEnableRequest);

/// What `ImeRequestData::with_cursor_area` makes of the default request data
/// and of an area in physical pixels.
pub uninterp spec fn cursor_area_data(
    x: i32,
    y: i32,
    width: u32,
    height: u32,
) -> winit::window::ImeRequestData;

/// What `ImeEnableRequest::new` makes of the cursor area capability and of
/// request data with an area in physical pixels.
pub uninterp spec fn cursor_area_enable(
    x: i32,
    y: i32,
    width: u32,
    height: u32,
) -> Option<winit::window::ImeEnableRequest>;

/// Calls `ImeRequestData::with_cursor_area`. The result is a function of the
/// area alone.
#[verifier::external_body]
fn cursor_area_request(x: i32, y: i32, width: u32, height: u32) -> (data: ImeRequestData)
    ensures
        data == cursor_area_data(x, y, width, height),
{
    ImeRequestData::default().with_cursor_area(
        winit::dpi::PhysicalPosition::new(x, y).into(),
        winit::dpi::PhysicalSize::new(width, height).into(),
    )
}

/// Calls `ImeEnableRequest::new` with the cursor area as the only capability.
/// The result is a function of the area alone. There always is one, for
/// the data holds an initial value for that capability and for no other.
#[verifier::external_body]
fn cursor_area_enable_request(x: i32, y: i32, width: u32, height: u32) -> (request: Option<
    ImeEnableRequest,
>)
    ensures
        request == cursor_area_enable(x, y, width, height),
        request is Some,
{
    ImeEnableRequest::new(
        winit::window::ImeCapabilities::new().with_cursor_area(),
        ImeRequestData::default().with_cursor_area(
            winit::dpi::PhysicalPosition::new(x, y).into(),
            winit::dpi::PhysicalSize::new(width, height).into(),
        ),
    )
}

/// The request that moves the input method's cursor area.
pub fn cursor_area_update(area: OffscreenImeCursorArea) -> (data: ImeRequestData)
    ensures
        data == cursor_area_data(area.x, area.y, area.width, area.height),
{
    cursor_area_request(area.x, area.y, area.width, area.height)
}

/// One thing to do to enable the input method for a surface.
#[derive(Debug)]
pub enum ImeSetupStep {
    /// Disable the input method. A failure is no reason to stop.
    Disable,
    /// Enable it with this request. A failure is no reason to stop.
    Enable(ImeEnableRequest),
    /// Watch the window for changes of the input language, where the platform
    /// needs that.
    InstallHook,
}

/// What enabling the input method takes.
///
/// `capabilities` is `None` while the input method is disabled, and else says
/// whether it knows cursor areas.
pub open spec fn setup_steps(bounds: OffscreenBounds, capabilities: Option<bool>) -> Seq<
    ImeSetupStep,
> {
    let enable = ImeSetupStep::Enable(cursor_area_enable(bounds.x, bounds.y, 1, 1).unwrap());
    match capabilities {
        None => seq![enable, ImeSetupStep::InstallHook],
        Some(false) => seq![ImeSetupStep::Disable, enable, ImeSetupStep::InstallHook],
        Some(true) => seq![ImeSetupStep::InstallHook],
    }
}

/// Enables the input method, with the cursor in the surface's corner, unless
/// it is enabled and knows cursor areas.
pub fn enable_ime(bounds: OffscreenBounds, capabilities: Option<bool>) -> (steps: Vec<ImeSetupStep>)
    ensures
        steps@ == setup_steps(bounds, capabilities),
{
    let mut steps: Vec<ImeSetupStep> = Vec::new();
    let knows_area: bool = match capabilities {
        Some(cursor_area) => cursor_area,
        None => false,
    };
    if !knows_area {
        if capabilities.is_some() {
            steps.push(ImeSetupStep::Disable);
        }
        let request = cursor_area_enable_request(bounds.x, bounds.y, 1, 1);
        steps.push(ImeSetupStep::Enable(request.unwrap()));
    }
    steps.push(ImeSetupStep::InstallHook);
    steps
}

/// The input method is enabled just if it is disabled or does not know cursor
/// areas, with the surface's corner as the area; it is disabled before that just
/// if it was enabled. Last of all, and always, the window is watched.
pub proof fn law_setup_enables_what_is_missing(bounds: OffscreenBounds, capabilities: Option<bool>)
    ensures
        ({
            let steps = setup_steps(bounds, capabilities);
            let enable = ImeSetupStep::Enable(cursor_area_enable(bounds.x, bounds.y, 1, 1).unwrap());
            &&& steps.last() == ImeSetupStep::InstallHook
            &&& capabilities == Some(true) ==> steps.len() == 1
            &&& capabilities == Some(false) ==> steps.len() == 3 && steps[0]
                == ImeSetupStep::Disable && steps[1] == enable
            &&& capabilities is None ==> steps.len() == 2 && steps[0] == enable
        }),
{
}

} // verus!
