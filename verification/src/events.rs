//! What the frame loop is told and what it asks for.

use vstd::prelude::*;
use crate::input::{ElementState, KeyCode, MouseButton, Movement};
use crate::single::Single;
use crate::swapchain::{Extent, Framebuffer, Viewport};
use crate::uniforms::Constants;

verus! {

/// The completion signal of the work last handed to the GPU. The loop holds
/// exactly one: either the signal of the frame that was submitted last, or a
/// signal that is complete from the start.
#[derive(Clone, Copy, Debug, PartialEq, Eq, Structural)]
pub enum InFlight {
    /// Nothing is outstanding.
    Completed,
    /// The frame that was drawn into the image at `image_index`.
    Frame { image_index: u32 },
}

/// A failure after which the loop does not go on.
#[derive(Clone, Copy, Debug, PartialEq, Eq, Structural)]
pub enum Fatal {
    /// The image chain could not be built anew.
    SwapchainRecreation,
    /// The image chain was built anew without an image.
    EmptyImageChain,
    /// No image could be acquired, for another reason than a stale chain.
    ImageAcquisition,
    /// The acquired image is not one of the chain.
    ImageOutOfRange,
    /// The commands of the frame could not be recorded.
    CommandRecording,
}

/// Something that happened: an event of the platform, or the outcome of the
/// work the loop asked for last.
#[derive(Clone, Copy, Debug, PartialEq, Eq)]
pub enum Event {
    /// The window was asked to close.
    CloseRequested,
    /// A key went down or came up.
    Key { code: KeyCode, state: ElementState },
    /// A pointer button went down or came up.
    MouseInput { button: MouseButton, state: ElementState },
    /// The pointer moved.
    MouseMotion,
    /// The window changed size.
    Resized,
    /// All pending events of the platform have been delivered.
    AboutToWait,
    /// The window is to be drawn: the start of a tick.
    RedrawRequested,
    /// Resources behind the completion signal were swept.
    Reclaimed,
    /// The image chain was built anew, with so many images of this extent.
    Recreated { image_count: u32, image_extent: Extent },
    /// The image chain could not be built anew.
    RecreateFailed,
    /// An image was acquired. `suboptimal`: the chain still presents, but no
    /// longer matches the surface well.
    Acquired { image_index: u32, suboptimal: bool },
    /// No image was acquired because the chain is stale.
    AcquireOutOfDate,
    /// No image was acquired, for another reason.
    AcquireFailed,
    /// The camera was moved; this is its view matrix and position now.
    CameraUpdated { view_matrix: [[Single; 4]; 4], position: [Single; 3] },
    /// The commands of the frame were recorded.
    Recorded,
    /// The commands of the frame could not be recorded.
    RecordFailed,
    /// The frame was submitted and its completion signal obtained.
    Flushed,
    /// Submitting or presenting found the chain stale.
    FlushOutOfDate,
    /// Submitting or presenting failed, for another reason.
    FlushFailed,
}

/// What the loop asks the program around it to do next.
#[derive(Clone, Copy, Debug, PartialEq, Eq)]
pub enum Action {
    /// Nothing.
    Nothing,
    /// Leave the event loop.
    Exit,
    /// Switch between windowed and borderless fullscreen.
    ToggleFullscreen,
    /// Confine and hide the pointer, and put it at the middle of an area of
    /// this extent.
    CapturePointer { extent: Extent },
    /// Add the motion of the pointer to what has gathered since the camera
    /// was last turned.
    GatherMotion,
    /// Ask the platform for a redraw.
    RequestRedraw,
    /// Sweep resources behind the completion signal; report `Reclaimed`.
    Reclaim,
    /// Build the image chain anew for the window as it is now; report
    /// `Recreated` or `RecreateFailed`.
    Recreate,
    /// Acquire the next image; report `Acquired`, `AcquireOutOfDate` or
    /// `AcquireFailed`.
    Acquire,
    /// Bring the camera up to date: if `turn` is set, turn it by the pointer
    /// motion gathered so far and start gathering anew; then move it by
    /// `movement`, in steps of the time elapsed since it was last moved.
    /// Report `CameraUpdated`.
    UpdateCamera { movement: Movement, turn: bool },
    /// Record the commands of the frame: those of one pass into
    /// `framebuffer`, with `viewport`, with `constants` pushed to the fragment
    /// stage. Report `Recorded` or `RecordFailed`.
    Record { framebuffer: Framebuffer, viewport: Viewport, constants: Constants },
    /// Once `wait_on` and the acquired image are ready, run the recorded
    /// commands and present the image at `image_index`, as one chain. Report
    /// `Flushed`, `FlushOutOfDate` or `FlushFailed`.
    Submit { image_index: u32, wait_on: InFlight },
    /// Print that the frame could not be flushed, and go on.
    ReportFlushFailure,
    /// Stop the process with a diagnostic.
    Abort { reason: Fatal },
}

/// How the window is shown.
#[derive(Clone, Copy, Debug, PartialEq, Eq, Structural)]
pub enum WindowMode {
    Windowed,
    BorderlessFullscreen,
}

/// The mode to switch to when fullscreen is toggled: out of fullscreen if the
/// window is in any fullscreen mode now, into borderless fullscreen if not.
pub fn toggled_mode(fullscreen_now: bool) -> (mode: WindowMode)
    ensures
        mode == if fullscreen_now {
            WindowMode::Windowed
        } else {
            WindowMode::BorderlessFullscreen
        },
{
    if fullscreen_now {
        WindowMode::Windowed
    } else {
        WindowMode::BorderlessFullscreen
    }
}

} // verus!
