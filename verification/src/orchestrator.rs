//! The frame loop itself: one object that takes each event in turn and says
//! what is to be done next.

use vstd::prelude::*;
use crate::events::{Action, Event, Fatal, InFlight};
use crate::input::{ElementState, HeldKeys, KeyCode, MouseButton};
use crate::state::{key_step, recreated_step, step, tick_step, Phase, State};
use crate::swapchain::{
    framebuffers_of,
    uniform_images,
    window_size_dependent_setup,
    Extent,
    Framebuffer,
    Image,
    Viewport,
};
use crate::uniforms::Constants;

verus! {

/// One generation of the image chain: the framebuffers of its images and the
/// viewport that fits them. A new generation replaces the old one whole.
struct ImageChain {
    viewport: Viewport,
    framebuffers: Vec<Framebuffer>,
}

impl ImageChain {
    fn build(image_count: u32, image_extent: Extent, viewport: Viewport) -> (chain: ImageChain)
        requires
            image_count > 0,
        ensures
            chain.viewport == (Viewport { extent: image_extent, ..viewport }),
            chain.framebuffers@ == framebuffers_of(uniform_images(image_count as nat, image_extent)),
    {
        let mut images: Vec<Image> = Vec::new();
        let mut i: u32 = 0;
        while i < image_count
            invariant
                i <= image_count,
                images@ == uniform_images(i as nat, image_extent),
            decreases image_count - i,
        {
            images.push(Image { extent: image_extent });
            i += 1;
            assert(images@ =~= uniform_images(i as nat, image_extent));
        }
        let mut viewport = viewport;
        let framebuffers = window_size_dependent_setup(&images, &mut viewport);
        ImageChain { viewport, framebuffers }
    }
}

/// The frame loop. It is told each event of the platform and each outcome of
/// the work it asked for, one at a time, and answers each with the next thing
/// to do.
pub struct Orchestrator {
    phase: Phase,
    invalidated: bool,
    in_flight: InFlight,
    chain: ImageChain,
    held: HeldKeys,
    pointer_moved: bool,
    pointer_locked: bool,
}

impl View for Orchestrator {
    type V = State;

    closed spec fn view(&self) -> State {
        State {
            phase: self.phase,
            invalidated: self.invalidated,
            in_flight: self.in_flight,
            viewport: self.chain.viewport,
            framebuffers: self.chain.framebuffers@,
            held: self.held@,
            pointer_moved: self.pointer_moved,
            pointer_locked: self.pointer_locked,
        }
    }
}

impl Orchestrator {
    #[verifier::type_invariant]
    spec fn consistent(&self) -> bool {
        self@.consistent()
    }

    /// A loop that starts on a chain of `image_count` images of `image_extent`.
    pub fn new(image_count: u32, image_extent: Extent) -> (orchestrator: Orchestrator)
        requires
            image_count > 0,
        ensures
            orchestrator@ == State::initial(image_count, image_extent),
            orchestrator@.consistent(),
    {
        Orchestrator {
            phase: Phase::Idle,
            invalidated: false,
            in_flight: InFlight::Completed,
            chain: ImageChain::build(image_count, image_extent, Viewport::new()),
            held: HeldKeys::new(),
            pointer_moved: false,
            pointer_locked: false,
        }
    }

    /// Takes one event and answers with the next thing to do.
    pub fn handle(&mut self, event: Event) -> (action: Action)
        ensures
            final(self)@ == step(old(self)@, event).0,
            action == step(old(self)@, event).1,
            final(self)@.consistent(),
    {
        proof {
            use_type_invariant(&*self);
        }
        if let Phase::Stopped = self.phase {
            return Action::Nothing;
        }
        match event {
            Event::CloseRequested => {
                self.phase = Phase::Stopped;
                Action::Exit
            },
            Event::Key { code, state } => self.on_key(code, state),
            Event::MouseInput { button, state } => {
                if button == MouseButton::Left && state == ElementState::Pressed {
                    self.pointer_locked = true;
                    Action::CapturePointer { extent: self.chain.viewport.extent }
                } else {
                    Action::Nothing
                }
            },
            Event::MouseMotion => {
                self.pointer_moved = true;
                Action::GatherMotion
            },
            Event::Resized => {
                self.invalidated = true;
                Action::Nothing
            },
            Event::AboutToWait => Action::RequestRedraw,
            _ => self.on_tick(event),
        }
    }

    /// Where the loop stands within a tick.
    pub fn phase(&self) -> (phase: Phase)
        ensures
            phase == self@.phase,
    {
        self.phase
    }

    /// Whether the chain is to be built anew before another image is acquired.
    pub fn is_invalidated(&self) -> (invalidated: bool)
        ensures
            invalidated == self@.invalidated,
    {
        self.invalidated
    }

    /// The one completion signal the loop holds.
    pub fn in_flight(&self) -> (signal: InFlight)
        ensures
            signal == self@.in_flight,
    {
        self.in_flight
    }

    /// The viewport of the chain as it is now.
    pub fn viewport(&self) -> (viewport: Viewport)
        ensures
            viewport == self@.viewport,
    {
        self.chain.viewport
    }

    /// The framebuffers of the chain as it is now, one for each image.
    pub fn framebuffers(&self) -> (framebuffers: &Vec<Framebuffer>)
        ensures
            framebuffers@ == self@.framebuffers,
            framebuffers@.len() > 0,
            forall|i: int|
                0 <= i < framebuffers@.len() ==> (#[trigger] framebuffers@[i]).extent
                    == self@.viewport.extent,
    {
        proof {
            use_type_invariant(self);
        }
        &self.chain.framebuffers
    }

    /// The keys that are down.
    pub fn held_keys(&self) -> (held: &HeldKeys)
        ensures
            held@ == self@.held,
    {
        &self.held
    }

    /// Whether the pointer has moved since the camera was last turned.
    pub fn pointer_moved(&self) -> (moved: bool)
        ensures
            moved == self@.pointer_moved,
    {
        self.pointer_moved
    }

    /// Whether the pointer has been captured.
    pub fn pointer_locked(&self) -> (locked: bool)
        ensures
            locked == self@.pointer_locked,
    {
        self.pointer_locked
    }

    fn on_key(&mut self, code: KeyCode, state: ElementState) -> (action: Action)
        requires
            !(old(self)@.phase is Stopped),
        ensures
            final(self)@ == key_step(old(self)@, code, state).0,
            action == key_step(old(self)@, code, state).1,
    {
        proof {
            use_type_invariant(&*self);
        }
        match state {
            ElementState::Pressed => match code {
                KeyCode::Escape => {
                    self.phase = Phase::Stopped;
                    Action::Exit
                },
                KeyCode::KeyF => Action::ToggleFullscreen,
                _ => {
                    let mut held = HeldKeys::new();
                    core::mem::swap(&mut self.held, &mut held);
                    held.insert(code);
                    self.held = held;
                    Action::Nothing
                },
            },
            ElementState::Released => {
                let mut held = HeldKeys::new();
                core::mem::swap(&mut self.held, &mut held);
                held.remove(code);
                self.held = held;
                Action::Nothing
            },
        }
    }

    fn abort(&mut self, reason: Fatal) -> (action: Action)
        ensures
            final(self)@ == old(self)@.stopped(),
            action == (Action::Abort { reason }),
    {
        proof {
            use_type_invariant(&*self);
        }
        self.phase = Phase::Stopped;
        Action::Abort { reason }
    }

    fn on_recreated(&mut self, image_count: u32, image_extent: Extent) -> (action: Action)
        requires
            old(self)@.phase is Recreating,
        ensures
            final(self)@ == recreated_step(old(self)@, image_count, image_extent).0,
            action == recreated_step(old(self)@, image_count, image_extent).1,
    {
        proof {
            use_type_invariant(&*self);
        }
        if image_count == 0 {
            self.abort(Fatal::EmptyImageChain)
        } else {
            self.chain = ImageChain::build(image_count, image_extent, self.chain.viewport);
            self.invalidated = false;
            self.phase = Phase::AcquireRequested;
            Action::Acquire
        }
    }

    fn on_tick(&mut self, event: Event) -> (action: Action)
        requires
            !(old(self)@.phase is Stopped),
        ensures
            final(self)@ == tick_step(old(self)@, event).0,
            action == tick_step(old(self)@, event).1,
    {
        proof {
            use_type_invariant(&*self);
        }
        match (self.phase, event) {
            (Phase::Idle, Event::RedrawRequested) => {
                self.phase = Phase::Reclaiming;
                Action::Reclaim
            },
            (Phase::Reclaiming, Event::Reclaimed) => {
                if self.invalidated {
                    self.phase = Phase::Recreating;
                    Action::Recreate
                } else {
                    self.phase = Phase::AcquireRequested;
                    Action::Acquire
                }
            },
            (Phase::Recreating, Event::Recreated { image_count, image_extent }) => {
                self.on_recreated(image_count, image_extent)
            },
            (Phase::Recreating, Event::RecreateFailed) => self.abort(Fatal::SwapchainRecreation),
            (Phase::AcquireRequested, Event::Acquired { image_index, suboptimal }) => {
                if (image_index as usize) < self.chain.framebuffers.len() {
                    if suboptimal {
                        self.invalidated = true;
                    }
                    self.phase = Phase::UpdatingCamera { image_index };
                    let movement = self.held.movement();
                    let turn = self.pointer_moved;
                    self.pointer_moved = false;
                    Action::UpdateCamera { movement, turn }
                } else {
                    self.abort(Fatal::ImageOutOfRange)
                }
            },
            (Phase::AcquireRequested, Event::AcquireOutOfDate) => {
                self.invalidated = true;
                self.phase = Phase::Idle;
                Action::Nothing
            },
            (Phase::AcquireRequested, Event::AcquireFailed) => self.abort(Fatal::ImageAcquisition),
            (Phase::UpdatingCamera { image_index }, Event::CameraUpdated { view_matrix, position }) => {
                self.phase = Phase::Recording { image_index };
                Action::Record {
                    framebuffer: self.chain.framebuffers[image_index as usize],
                    viewport: self.chain.viewport,
                    constants: Constants::new(view_matrix, position, self.chain.viewport.extent),
                }
            },
            (Phase::Recording { image_index }, Event::Recorded) => {
                self.phase = Phase::Submitted { image_index };
                Action::Submit { image_index, wait_on: self.in_flight }
            },
            (Phase::Recording { image_index }, Event::RecordFailed) => self.abort(
                Fatal::CommandRecording,
            ),
            (Phase::Submitted { image_index }, Event::Flushed) => {
                self.phase = Phase::Idle;
                self.in_flight = InFlight::Frame { image_index };
                Action::Nothing
            },
            (Phase::Submitted { image_index }, Event::FlushOutOfDate) => {
                self.phase = Phase::Idle;
                self.in_flight = InFlight::Completed;
                self.invalidated = true;
                Action::Nothing
            },
            (Phase::Submitted { image_index }, Event::FlushFailed) => {
                self.phase = Phase::Idle;
                self.in_flight = InFlight::Completed;
                Action::ReportFlushFailure
            },
            _ => Action::Nothing,
        }
    }
}

} // verus!
