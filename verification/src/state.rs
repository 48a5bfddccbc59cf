//! The frame loop as a transition system: its state, the step it takes on each
//! event, and what holds of every step.

use vstd::prelude::*;
use crate::events::{Action, Event, Fatal, InFlight};
use crate::input::{net_movement, ElementState, KeyCode, MouseButton, Movement};
use crate::single::{single_of, single_of_is_bounded};
use crate::swapchain::{framebuffers_of, uniform_images, Extent, Framebuffer, Viewport};
use crate::uniforms::Constants;

verus! {

/// Where the loop stands within a tick.
#[derive(Clone, Copy, Debug, PartialEq, Eq, Structural)]
pub enum Phase {
    /// Between ticks.
    Idle,
    /// A tick has begun; the sweep behind the completion signal is under way.
    Reclaiming,
    /// The image chain is being built anew.
    Recreating,
    /// An image has been asked for.
    AcquireRequested,
    /// An image is held; the camera is being moved.
    UpdatingCamera { image_index: u32 },
    /// The commands of the frame are being recorded.
    Recording { image_index: u32 },
    /// The frame has been handed over; its completion signal is awaited.
    Submitted { image_index: u32 },
    /// The loop has ended.
    Stopped,
}

/// Everything the loop remembers from one event to the next.
pub struct State {
    pub phase: Phase,
    /// The image chain no longer fits the window and is to be built anew
    /// before another image is acquired.
    pub invalidated: bool,
    pub in_flight: InFlight,
    pub viewport: Viewport,
    pub framebuffers: Seq<Framebuffer>,
    pub held: Set<KeyCode>,
    /// The pointer has moved since the camera was last turned.
    pub pointer_moved: bool,
    pub pointer_locked: bool,
}

/// The steps that a set of held keys asks for, as a movement.
pub open spec fn movement_of(held: Set<KeyCode>) -> Movement {
    let net = net_movement(held);
    Movement { along: net.along as i8, across: net.across as i8, up: net.up as i8 }
}

impl State {
    /// The state of a loop that starts on a chain of `image_count` images of
    /// `image_extent`: between ticks, the chain fresh, nothing outstanding, no
    /// key held, the pointer free.
    pub open spec fn initial(image_count: u32, image_extent: Extent) -> State {
        State {
            phase: Phase::Idle,
            invalidated: false,
            in_flight: InFlight::Completed,
            viewport: Viewport { extent: image_extent, ..Viewport::initial() },
            framebuffers: framebuffers_of(uniform_images(image_count as nat, image_extent)),
            held: Set::empty(),
            pointer_moved: false,
            pointer_locked: false,
        }
    }

    /// The image that the tick under way has acquired, if it has one.
    pub open spec fn acquired(self) -> Option<u32> {
        match self.phase {
            Phase::UpdatingCamera { image_index } => Some(image_index),
            Phase::Recording { image_index } => Some(image_index),
            Phase::Submitted { image_index } => Some(image_index),
            _ => None,
        }
    }

    /// What holds of the state at all times: there is one framebuffer for each
    /// image of the chain, in order, each with the extent of the viewport; and
    /// an acquired image is one of the chain.
    pub open spec fn consistent(self) -> bool {
        &&& self.framebuffers.len() > 0
        &&& forall|i: int|
            0 <= i < self.framebuffers.len() ==> #[trigger] self.framebuffers[i] == (Framebuffer {
                image: i as usize,
                extent: self.viewport.extent,
            })
        &&& self.acquired() matches Some(image_index) ==> image_index < self.framebuffers.len()
    }

    /// The same state with the loop ended.
    pub open spec fn stopped(self) -> State {
        State { phase: Phase::Stopped, ..self }
    }
}

/// The step on a key: the escape key, pressed, ends the loop; the fullscreen
/// key, pressed, toggles fullscreen; any other key that goes down is held from
/// then on; any key that comes up is held no longer.
pub open spec fn key_step(s: State, code: KeyCode, state: ElementState) -> (State, Action) {
    match state {
        ElementState::Pressed => match code {
            KeyCode::Escape => (s.stopped(), Action::Exit),
            KeyCode::KeyF => (s, Action::ToggleFullscreen),
            _ => (State { held: s.held.insert(code), ..s }, Action::Nothing),
        },
        ElementState::Released => (State { held: s.held.remove(code), ..s }, Action::Nothing),
    }
}

/// The step on the outcome of building the chain anew. With at least one
/// image, the viewport takes the extent of the new images, the framebuffers
/// are those of the new images, the chain is fresh, and an image is asked for.
pub open spec fn recreated_step(s: State, image_count: u32, image_extent: Extent) -> (State, Action) {
    if image_count == 0 {
        (s.stopped(), Action::Abort { reason: Fatal::EmptyImageChain })
    } else {
        (
            State {
                phase: Phase::AcquireRequested,
                invalidated: false,
                viewport: Viewport { extent: image_extent, ..s.viewport },
                framebuffers: framebuffers_of(uniform_images(image_count as nat, image_extent)),
                ..s
            },
            Action::Acquire,
        )
    }
}

/// The step on an event that is the outcome of work within a tick, or the
/// start of a tick. An outcome that the phase does not await changes nothing.
pub open spec fn tick_step(s: State, event: Event) -> (State, Action) {
    match (s.phase, event) {
        (Phase::Idle, Event::RedrawRequested) => (
            State { phase: Phase::Reclaiming, ..s },
            Action::Reclaim,
        ),
        (Phase::Reclaiming, Event::Reclaimed) => if s.invalidated {
            (State { phase: Phase::Recreating, ..s }, Action::Recreate)
        } else {
            (State { phase: Phase::AcquireRequested, ..s }, Action::Acquire)
        },
        (Phase::Recreating, Event::Recreated { image_count, image_extent }) => recreated_step(
            s,
            image_count,
            image_extent,
        ),
        (Phase::Recreating, Event::RecreateFailed) => (
            s.stopped(),
            Action::Abort { reason: Fatal::SwapchainRecreation },
        ),
        (Phase::AcquireRequested, Event::Acquired { image_index, suboptimal }) => if image_index
            < s.framebuffers.len() {
            (
                State {
                    phase: Phase::UpdatingCamera { image_index },
                    invalidated: s.invalidated || suboptimal,
                    pointer_moved: false,
                    ..s
                },
                Action::UpdateCamera { movement: movement_of(s.held), turn: s.pointer_moved },
            )
        } else {
            (s.stopped(), Action::Abort { reason: Fatal::ImageOutOfRange })
        },
        (Phase::AcquireRequested, Event::AcquireOutOfDate) => (
            State { phase: Phase::Idle, invalidated: true, ..s },
            Action::Nothing,
        ),
        (Phase::AcquireRequested, Event::AcquireFailed) => (
            s.stopped(),
            Action::Abort { reason: Fatal::ImageAcquisition },
        ),
        (Phase::UpdatingCamera { image_index }, Event::CameraUpdated { view_matrix, position }) => (
            State { phase: Phase::Recording { image_index }, ..s },
            Action::Record {
                framebuffer: s.framebuffers[image_index as int],
                viewport: s.viewport,
                constants: Constants::frame(view_matrix, position, s.viewport.extent),
            },
        ),
        (Phase::Recording { image_index }, Event::Recorded) => (
            State { phase: Phase::Submitted { image_index }, ..s },
            Action::Submit { image_index, wait_on: s.in_flight },
        ),
        (Phase::Recording { image_index }, Event::RecordFailed) => (
            s.stopped(),
            Action::Abort { reason: Fatal::CommandRecording },
        ),
        (Phase::Submitted { image_index }, Event::Flushed) => (
            State { phase: Phase::Idle, in_flight: InFlight::Frame { image_index }, ..s },
            Action::Nothing,
        ),
        (Phase::Submitted { image_index }, Event::FlushOutOfDate) => (
            State { phase: Phase::Idle, invalidated: true, in_flight: InFlight::Completed, ..s },
            Action::Nothing,
        ),
        (Phase::Submitted { image_index }, Event::FlushFailed) => (
            State { phase: Phase::Idle, in_flight: InFlight::Completed, ..s },
            Action::ReportFlushFailure,
        ),
        _ => (s, Action::Nothing),
    }
}

/// The step of the loop: the state after `event` and what is to be done next.
///
/// Once the loop has ended, nothing changes it. A request to close ends it.
/// Keys and buttons change the input state at once. Motion of the pointer is
/// gathered until the next tick turns the camera by it. A change of size only
/// marks the chain; the chain is built anew at the next tick. When the
/// platform has no more events, a redraw is asked for. Everything else is a
/// step of the tick.
pub open spec fn step(s: State, event: Event) -> (State, Action) {
    if s.phase is Stopped {
        (s, Action::Nothing)
    } else {
        match event {
            Event::CloseRequested => (s.stopped(), Action::Exit),
            Event::Key { code, state } => key_step(s, code, state),
            Event::MouseInput { button, state } => if button == MouseButton::Left && state
                == ElementState::Pressed {
                (
                    State { pointer_locked: true, ..s },
                    Action::CapturePointer { extent: s.viewport.extent },
                )
            } else {
                (s, Action::Nothing)
            },
            Event::MouseMotion => (State { pointer_moved: true, ..s }, Action::GatherMotion),
            Event::Resized => (State { invalidated: true, ..s }, Action::Nothing),
            Event::AboutToWait => (s, Action::RequestRedraw),
            _ => tick_step(s, event),
        }
    }
}

/// The state after the loop has taken `events` one after the other, each
/// handled in full before the next is looked at.
pub open spec fn run(s: State, events: Seq<Event>) -> State
    decreases events.len(),
{
    if events.len() == 0 {
        s
    } else {
        step(run(s, events.drop_last()), events.last()).0
    }
}

/// What the loop asks for on the last of `events`.
pub open spec fn last_action(s: State, events: Seq<Event>) -> Action
    recommends
        events.len() > 0,
{
    step(run(s, events.drop_last()), events.last()).1
}

/// The initial state is consistent.
pub proof fn initial_state_is_consistent(image_count: u32, image_extent: Extent)
    requires
        image_count > 0,
    ensures
        State::initial(image_count, image_extent).consistent(),
{
}

/// Every step keeps the state consistent. So at every point, from the start
/// and after every time the chain is built anew, the extent of the viewport is
/// the extent of each framebuffer, the one of the most recently acquired image
/// among them.
pub proof fn step_keeps_consistency(s: State, event: Event)
    requires
        s.consistent(),
    ensures
        step(s, event).0.consistent(),
        forall|i: int|
            0 <= i < step(s, event).0.framebuffers.len() ==> (#[trigger] step(
                s,
                event,
            ).0.framebuffers[i]).extent == step(s, event).0.viewport.extent,
        step(s, event).0.acquired() matches Some(image_index) ==> step(
            s,
            event,
        ).0.framebuffers[image_index as int].extent == step(s, event).0.viewport.extent,
{
}

/// Whatever events arrive, in whatever order, the state stays consistent: the
/// extent of the viewport is the extent of every framebuffer at every point of
/// every run of the loop.
pub proof fn every_run_keeps_consistency(s: State, events: Seq<Event>)
    requires
        s.consistent(),
    ensures
        run(s, events).consistent(),
        forall|i: int|
            0 <= i < run(s, events).framebuffers.len() ==> (#[trigger] run(
                s,
                events,
            ).framebuffers[i]).extent == run(s, events).viewport.extent,
    decreases events.len(),
{
    if events.len() > 0 {
        every_run_keeps_consistency(s, events.drop_last());
        step_keeps_consistency(run(s, events.drop_last()), events.last());
    }
}

/// In every run of the loop, a frame is asked to be recorded only with the
/// resolution of the viewport as it is at that moment, and an image is asked
/// for only while the chain is fresh.
pub proof fn every_run_records_at_the_current_resolution(s: State, events: Seq<Event>)
    requires
        s.consistent(),
        events.len() > 0,
    ensures
        last_action(s, events) matches Action::Record { framebuffer, viewport, constants } ==> {
            let now = run(s, events);
            &&& viewport == now.viewport
            &&& framebuffer.extent == now.viewport.extent
            &&& constants.resolution[0].bits == single_of(now.viewport.extent.width as nat)
            &&& constants.resolution[1].bits == single_of(now.viewport.extent.height as nat)
        },
        last_action(s, events) == Action::Acquire ==> !run(s, events).invalidated,
{
    every_run_keeps_consistency(s, events.drop_last());
    recorded_resolution_is_viewport_extent(run(s, events.drop_last()), events.last());
    acquisition_only_on_fresh_chain(run(s, events.drop_last()), events.last());
}

/// Building the chain anew puts the viewport and every framebuffer at the
/// extent of the new images.
pub proof fn recreation_sets_viewport_to_image_extent(
    s: State,
    image_count: u32,
    image_extent: Extent,
)
    requires
        s.phase is Recreating,
        image_count > 0,
    ensures
        ({
            let (after, action) = step(s, Event::Recreated { image_count, image_extent });
            &&& action == Action::Acquire
            &&& !after.invalidated
            &&& after.viewport.extent == image_extent
            &&& after.framebuffers.len() == image_count
            &&& forall|i: int|
                0 <= i < image_count ==> (#[trigger] after.framebuffers[i]).extent == image_extent
        }),
{
}

/// Building the chain anew a second time for the same target gives the same
/// framebuffers and the same viewport as the first time.
pub proof fn recreation_is_idempotent(s: State, image_count: u32, image_extent: Extent)
    requires
        s.phase is Recreating,
        image_count > 0,
    ensures
        ({
            let event = Event::Recreated { image_count, image_extent };
            let once = step(s, event).0;
            let twice = step(State { phase: Phase::Recreating, ..once }, event).0;
            &&& twice.framebuffers == once.framebuffers
            &&& twice.viewport == once.viewport
            &&& twice == once
        }),
{
}

/// Whenever the commands of a frame are asked to be recorded, the resolution in
/// the pushed constants is the extent of the viewport as it is then, the
/// viewport handed over is that viewport, and the framebuffer is that of the
/// acquired image and as large as the viewport.
pub proof fn recorded_resolution_is_viewport_extent(s: State, event: Event)
    requires
        s.consistent(),
    ensures
        step(s, event).1 matches Action::Record { framebuffer, viewport, constants }
            ==> {
            let after = step(s, event).0;
            &&& viewport == after.viewport
            &&& constants.resolution[0].bits == single_of(after.viewport.extent.width as nat)
            &&& constants.resolution[1].bits == single_of(after.viewport.extent.height as nat)
            &&& constants.camera_position[3].bits == 0
            &&& after.acquired() == Some(framebuffer.image as u32)
            &&& framebuffer.extent == after.viewport.extent
        },
{
    let (after, action) = step(s, event);
    if let Action::Record { framebuffer, viewport, constants } = action {
        let i = s.phase->UpdatingCamera_image_index;
        assert(s.framebuffers[i as int].image == i as usize);
        single_of_is_bounded(s.viewport.extent.width);
        single_of_is_bounded(s.viewport.extent.height);
    }
}

/// An image is asked for only while the chain is fresh: never between the
/// moment the chain is marked and the moment it has been built anew.
pub proof fn acquisition_only_on_fresh_chain(s: State, event: Event)
    ensures
        step(s, event).1 == Action::Acquire ==> !step(s, event).0.invalidated,
{
}

/// When acquisition finds the chain stale, the tick ends there, with nothing
/// recorded or submitted, and the next tick builds the chain anew before it
/// asks for an image again.
pub proof fn stale_acquisition_defers_to_recreation(s: State)
    requires
        s.phase is AcquireRequested,
    ensures
        ({
            let (ended, first) = step(s, Event::AcquireOutOfDate);
            let (begun, second) = step(ended, Event::RedrawRequested);
            let (swept, third) = step(begun, Event::Reclaimed);
            &&& first == Action::Nothing
            &&& ended.phase is Idle
            &&& ended.invalidated
            &&& second == Action::Reclaim
            &&& third == Action::Recreate
            &&& swept.phase is Recreating
        }),
{
}

/// A frame is recorded and submitted only into an image that this tick has
/// acquired from the chain as it is now: recording follows the update of the
/// camera, which follows a successful acquisition, and submission follows
/// recording, all for the same image.
pub proof fn frames_use_the_acquired_image(s: State, event: Event)
    requires
        s.consistent(),
    ensures
        step(s, event).1 matches Action::UpdateCamera { movement, turn } ==> {
            &&& s.phase is AcquireRequested
            &&& event matches Event::Acquired { image_index, suboptimal }
            &&& step(s, event).0.phase == (Phase::UpdatingCamera { image_index })
            &&& movement@ == net_movement(s.held)
            &&& turn == s.pointer_moved
            &&& !step(s, event).0.pointer_moved
        },
        step(s, event).1 matches Action::Record { framebuffer, viewport, constants }
            ==> {
            &&& s.phase matches Phase::UpdatingCamera { image_index }
            &&& event is CameraUpdated
            &&& framebuffer == s.framebuffers[image_index as int]
            &&& step(s, event).0.phase == (Phase::Recording { image_index })
        },
        step(s, event).1 matches Action::Submit { image_index, wait_on } ==> {
            &&& s.phase == (Phase::Recording { image_index })
            &&& event is Recorded
            &&& wait_on == s.in_flight
            &&& step(s, event).0.phase == (Phase::Submitted { image_index })
        },
{
}

/// The loop holds one completion signal, and only the outcome of a submission
/// replaces it: by the signal of the frame when the frame was flushed, by a
/// signal that is complete from the start when it was not.
pub proof fn completion_signal_is_replaced_once_per_frame(s: State, event: Event)
    ensures
        step(s, event).0.in_flight != s.in_flight ==> s.phase is Submitted && (event is Flushed
            || event is FlushOutOfDate || event is FlushFailed),
        s.phase matches Phase::Submitted { image_index } ==> {
            &&& step(s, Event::Flushed).0.in_flight == (InFlight::Frame { image_index })
            &&& step(s, Event::FlushOutOfDate).0.in_flight == InFlight::Completed
            &&& step(s, Event::FlushOutOfDate).0.invalidated
            &&& step(s, Event::FlushFailed).0.in_flight == InFlight::Completed
            &&& step(s, Event::FlushFailed).0.invalidated == s.invalidated
            &&& step(s, Event::Flushed).0.phase is Idle
            &&& step(s, Event::FlushOutOfDate).0.phase is Idle
            &&& step(s, Event::FlushFailed).0.phase is Idle
        },
{
}

/// Changes of size between two ticks add up to one: the second marks a chain
/// that is marked already, so the next tick builds the chain anew once.
pub proof fn resize_is_idempotent(s: State)
    ensures
        step(step(s, Event::Resized).0, Event::Resized) == step(s, Event::Resized),
        !(s.phase is Stopped) ==> step(s, Event::Resized).0.invalidated,
        step(s, Event::Resized).0.phase == s.phase,
        step(s, Event::Resized).1 == Action::Nothing,
{
}

/// Two changes of size before a tick lead to one rebuilding of the chain, at
/// that tick, for the extent that the surface has then; a tick that starts
/// after it, with the chain still fresh, asks for an image at once.
pub proof fn resizes_before_a_tick_lead_to_one_recreation(
    s: State,
    image_count: u32,
    image_extent: Extent,
)
    requires
        s.phase is Idle,
        image_count > 0,
    ensures
        ({
            let once = step(s, Event::Resized).0;
            let twice = step(once, Event::Resized).0;
            let (begun, first) = step(twice, Event::RedrawRequested);
            let (swept, second) = step(begun, Event::Reclaimed);
            let (rebuilt, third) = step(swept, Event::Recreated { image_count, image_extent });
            let later = State { phase: Phase::Reclaiming, ..rebuilt };
            &&& twice == once
            &&& twice.viewport == s.viewport
            &&& twice.framebuffers == s.framebuffers
            &&& first == Action::Reclaim
            &&& second == Action::Recreate
            &&& third == Action::Acquire
            &&& rebuilt.viewport.extent == image_extent
            &&& !rebuilt.invalidated
            &&& step(later, Event::Reclaimed).1 == Action::Acquire
        }),
{
}

/// Once the loop has ended, no event changes the state or asks for anything:
/// no further frame is produced.
pub proof fn nothing_follows_the_end(s: State, event: Event)
    requires
        s.phase is Stopped,
    ensures
        step(s, event) == (s, Action::Nothing),
{
}

/// A request to close, and the escape key going down, end the loop from any
/// phase.
pub proof fn close_ends_the_loop(s: State)
    requires
        !(s.phase is Stopped),
    ensures
        step(s, Event::CloseRequested) == (s.stopped(), Action::Exit),
        step(s, Event::Key { code: KeyCode::Escape, state: ElementState::Pressed }) == (
            s.stopped(),
            Action::Exit,
        ),
{
}

} // verus!
