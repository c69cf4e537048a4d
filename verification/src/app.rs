//! The application context: the physics state and the renderer's record
//! under one owner, and the routing of window events to them.
//!
//! Nothing here touches the platform. Each handler changes the context and
//! returns the effects that the caller, who owns the window and the device,
//! has to carry out in order.

use vstd::prelude::*;
use crate::gpu::{GpuState, PhysicalSize, SurfaceError};
use crate::physics::{KinematicState, NUDGE};

verus! {

/// Exit status after the window was closed.
pub const EXIT_CLOSED: i32 = 0;

/// Exit status after the device ran out of memory.
pub const EXIT_OUT_OF_MEMORY: i32 = 1;

/// The keys that the program reacts to.
#[derive(Clone, Copy, Debug, PartialEq, Eq, Structural)]
pub enum Key {
    ArrowLeft,
    ArrowRight,
    ArrowUp,
    ArrowDown,
    Space,
    /// Any other key.
    Other,
}

/// What the platform delivers for the window.
#[derive(Clone, Copy, Debug, PartialEq, Eq, Structural)]
pub enum WindowEvent {
    /// The user asked to close the window.
    CloseRequested,
    /// A key went down (`pressed`) or up.
    KeyboardInput { key: Key, pressed: bool },
    /// The window has a new size, in physical pixels.
    Resized(PhysicalSize),
    /// The window wants to be drawn.
    RedrawRequested,
    /// Anything else.
    Other,
}

/// What the caller has to do after a handler returns.
#[derive(Clone, Copy, Debug, PartialEq, Eq, Structural)]
pub enum Effect {
    /// End the process with this status.
    Exit { status: i32 },
    /// Ask the window for another redraw.
    RequestRedraw,
    /// Configure the surface again, with this size.
    Configure { width: u32, height: u32 },
    /// Render one frame with these values of the physics state, then hand
    /// the outcome to `App::rendered`.
    Render { vertical_offset: i64, rotation: i64, explosion_timer: i64 },
    /// Tell the user about a failed frame.
    Report { error: SurfaceError },
}

/// The one context of the program.
#[derive(Clone, Copy, Debug, PartialEq, Eq, Structural)]
pub struct App {
    /// The physics state.
    pub state: KinematicState,
    /// The renderer's record, once the surface is set up.
    pub gpu: Option<GpuState>,
}

impl App {
    /// The physics state after a key event: left and right set the rotation
    /// inputs, up and down nudge on a press, space jumps on a press.
    pub open spec fn state_after_key(state: KinematicState, key: Key, pressed: bool) -> KinematicState {
        match key {
            Key::ArrowLeft => state.after_rotate_left(pressed),
            Key::ArrowRight => state.after_rotate_right(pressed),
            Key::ArrowUp => if pressed {
                state.after_nudge(NUDGE as int)
            } else {
                state
            },
            Key::ArrowDown => if pressed {
                state.after_nudge(-NUDGE)
            } else {
                state
            },
            Key::Space => if pressed {
                state.after_jump()
            } else {
                state
            },
            Key::Other => state,
        }
    }

    /// Whether a key event changes what is on screen at once.
    pub open spec fn key_redraws(state: KinematicState, key: Key, pressed: bool) -> bool {
        match key {
            Key::ArrowUp => pressed,
            Key::ArrowDown => pressed,
            Key::Space => pressed && state.on_ground,
            _ => false,
        }
    }

    /// The renderer's record, if there is one, after the window took a new size.
    pub open spec fn gpu_after_resize(gpu: Option<GpuState>, size: PhysicalSize) -> Option<GpuState> {
        match gpu {
            Some(g) => Some(g.after_resize(size)),
            None => None,
        }
    }

    /// What the surface has to be configured with after the window took a
    /// new size: nothing without a renderer or for a size with a zero
    /// dimension.
    pub open spec fn resize_effects(gpu: Option<GpuState>, size: PhysicalSize) -> Seq<Effect> {
        if gpu is Some && size.width > 0 && size.height > 0 {
            seq![Effect::Configure { width: size.width, height: size.height }]
        } else {
            Seq::empty()
        }
    }

    /// The context after an event. An event for another window changes nothing.
    pub open spec fn after_event(self, foreign: bool, event: WindowEvent) -> App {
        if foreign {
            self
        } else {
            match event {
                WindowEvent::KeyboardInput { key, pressed } => App {
                    state: Self::state_after_key(self.state, key, pressed),
                    ..self
                },
                WindowEvent::Resized(size) => App {
                    gpu: Self::gpu_after_resize(self.gpu, size),
                    ..self
                },
                WindowEvent::RedrawRequested => App { state: self.state.after_tick(), ..self },
                _ => self,
            }
        }
    }

    /// The effects of an event, in order.
    pub open spec fn effects_of(self, foreign: bool, event: WindowEvent) -> Seq<Effect> {
        if foreign {
            Seq::empty()
        } else {
            match event {
                WindowEvent::CloseRequested => seq![Effect::Exit { status: EXIT_CLOSED }],
                WindowEvent::KeyboardInput { key, pressed } => if Self::key_redraws(
                    self.state,
                    key,
                    pressed,
                ) {
                    seq![Effect::RequestRedraw]
                } else {
                    Seq::empty()
                },
                WindowEvent::Resized(size) => Self::resize_effects(self.gpu, size),
                WindowEvent::RedrawRequested => if self.gpu is Some {
                    seq![
                        Effect::Render {
                            vertical_offset: self.state.after_tick().vertical_offset,
                            rotation: self.state.after_tick().rotation,
                            explosion_timer: self.state.after_tick().explosion_timer,
                        },
                    ]
                } else {
                    seq![Effect::RequestRedraw]
                },
                WindowEvent::Other => Seq::empty(),
            }
        }
    }

    /// The effects that follow a frame, in order: a stale surface is
    /// configured again at its last known size and the loop goes on; running
    /// out of memory is reported and ends the process; any other failure is
    /// reported and the loop goes on.
    pub open spec fn effects_after_frame(self, outcome: Result<(), SurfaceError>) -> Seq<Effect> {
        match outcome {
            Ok(_) => seq![Effect::RequestRedraw],
            Err(error) => if error.stale() {
                match self.gpu {
                    Some(g) => Self::resize_effects(self.gpu, g.size) + seq![Effect::RequestRedraw],
                    None => seq![Effect::RequestRedraw],
                }
            } else if error.fatal() {
                seq![Effect::Report { error }, Effect::Exit { status: EXIT_OUT_OF_MEMORY }]
            } else {
                seq![Effect::Report { error }, Effect::RequestRedraw]
            },
        }
    }

    /// The context after a frame: only a stale surface changes anything,
    /// and only in the renderer's record, which takes its last known size
    /// once more.
    pub open spec fn after_frame(self, outcome: Result<(), SurfaceError>) -> App {
        match (outcome, self.gpu) {
            (Err(error), Some(g)) => if error.stale() {
                App { gpu: Self::gpu_after_resize(self.gpu, g.size), ..self }
            } else {
                self
            },
            _ => self,
        }
    }

    /// Whether a list of effects ends the process.
    pub open spec fn exits(effects: Seq<Effect>) -> bool {
        exists|i: int| 0 <= i < effects.len() && effects[i] is Exit
    }

    /// The context at program start: the shape at rest on the floor, no
    /// renderer yet.
    pub fn new() -> (app: Self)
        ensures
            app.state == KinematicState::initial(),
            app.gpu is None,
    {
        App { state: KinematicState::new(), gpu: None }
    }

    /// Records the renderer once the window exists, with the window's size.
    /// Only the first call has an effect; it returns `true`.
    pub fn resumed(&mut self, size: PhysicalSize) -> (installed: bool)
        ensures
            installed == (old(self).gpu is None),
            installed ==> final(self).gpu == Some(GpuState::for_window(size)),
            !installed ==> final(self).gpu == old(self).gpu,
            final(self).state == old(self).state,
    {
        if self.gpu.is_none() {
            self.gpu = Some(GpuState::new(size));
            true
        } else {
            false
        }
    }

    /// Handles one window event. `foreign` says that the event is addressed
    /// to another window; such an event is ignored.
    ///
    /// Closing asks for exit with status 0. Left and right store the
    /// rotation inputs while airborne; up and down nudge the shape; space
    /// jumps from the ground. A new size goes to the renderer. A redraw
    /// request advances the physics by one step and asks for a frame with
    /// the state as it is after that step.
    pub fn window_event(&mut self, foreign: bool, event: WindowEvent) -> (effects: Vec<Effect>)
        ensures
            *final(self) == old(self).after_event(foreign, event),
            effects@ == old(self).effects_of(foreign, event),
            foreign ==> *final(self) == *old(self) && effects@.len() == 0,
            !(event is RedrawRequested) && !(event is KeyboardInput) ==> final(self).state == old(
                self,
            ).state,
            Self::exits(effects@) <==> !foreign && event is CloseRequested,
            !foreign && event is RedrawRequested && old(self).gpu is Some ==> effects@ == seq![
                Effect::Render {
                    vertical_offset: final(self).state.vertical_offset,
                    rotation: final(self).state.rotation,
                    explosion_timer: final(self).state.explosion_timer,
                },
            ],
            !foreign && event is RedrawRequested ==> final(self).state.settled(),
    {
        let mut effects: Vec<Effect> = Vec::new();
        if foreign {
            return effects;
        }
        match event {
            WindowEvent::CloseRequested => {
                effects.push(Effect::Exit { status: EXIT_CLOSED });
            },
            WindowEvent::KeyboardInput { key, pressed } => {
                match key {
                    Key::ArrowLeft => {
                        self.state.set_rotating_left(pressed);
                    },
                    Key::ArrowRight => {
                        self.state.set_rotating_right(pressed);
                    },
                    Key::ArrowUp => {
                        if pressed {
                            self.state.nudge_up();
                            effects.push(Effect::RequestRedraw);
                        }
                    },
                    Key::ArrowDown => {
                        if pressed {
                            self.state.nudge_down();
                            effects.push(Effect::RequestRedraw);
                        }
                    },
                    Key::Space => {
                        if pressed {
                            let launched: bool = self.state.jump();
                            if launched {
                                effects.push(Effect::RequestRedraw);
                            }
                        }
                    },
                    Key::Other => {},
                }
            },
            WindowEvent::Resized(size) => {
                self.resize_surface(size, &mut effects);
            },
            WindowEvent::RedrawRequested => {
                self.state.update_physics();
                if self.gpu.is_some() {
                    effects.push(
                        Effect::Render {
                            vertical_offset: self.state.vertical_offset,
                            rotation: self.state.rotation,
                            explosion_timer: self.state.explosion_timer,
                        },
                    );
                } else {
                    effects.push(Effect::RequestRedraw);
                }
            },
            WindowEvent::Other => {},
        }
        assert(effects@ =~= old(self).effects_of(foreign, event));
        assert(event is CloseRequested ==> effects@[0] is Exit);
        effects
    }

    /// Hands a size to the renderer, if there is one, and notes the
    /// configuration that follows.
    fn resize_surface(&mut self, size: PhysicalSize, effects: &mut Vec<Effect>)
        ensures
            final(self).state == old(self).state,
            final(self).gpu == Self::gpu_after_resize(old(self).gpu, size),
            final(effects)@ == old(effects)@ + Self::resize_effects(old(self).gpu, size),
    {
        match self.gpu {
            Some(mut gpu) => {
                if gpu.resize(size) {
                    effects.push(Effect::Configure { width: gpu.config.width, height: gpu.config.height });
                }
                self.gpu = Some(gpu);
            },
            None => {},
        }
        assert(final(effects)@ =~= old(effects)@ + Self::resize_effects(old(self).gpu, size));
    }

    /// Takes the outcome of the frame that `window_event` asked for and
    /// says how the loop goes on. The physics state is never touched: a
    /// frame that failed is dropped, not rolled back.
    pub fn rendered(&mut self, outcome: Result<(), SurfaceError>) -> (effects: Vec<Effect>)
        ensures
            *final(self) == old(self).after_frame(outcome),
            effects@ == old(self).effects_after_frame(outcome),
            final(self).state == old(self).state,
            old(self).gpu matches Some(g) && g.well_formed() ==> final(self).gpu == old(self).gpu,
            Self::exits(effects@) <==> outcome == Err::<(), SurfaceError>(SurfaceError::OutOfMemory),
            outcome matches Err(error) && error.stale() ==> !Self::exits(effects@),
            effects@.len() > 0,
            !Self::exits(effects@) ==> effects@.last() == Effect::RequestRedraw,
    {
        let mut effects: Vec<Effect> = Vec::new();
        match outcome {
            Ok(_) => {
                effects.push(Effect::RequestRedraw);
            },
            Err(error) => {
                if error.is_stale() {
                    match self.gpu {
                        Some(gpu) => {
                            self.resize_surface(gpu.size, &mut effects);
                        },
                        None => {},
                    }
                    effects.push(Effect::RequestRedraw);
                } else if error.is_fatal() {
                    effects.push(Effect::Report { error });
                    effects.push(Effect::Exit { status: EXIT_OUT_OF_MEMORY });
                } else {
                    effects.push(Effect::Report { error });
                    effects.push(Effect::RequestRedraw);
                }
            },
        }
        assert(effects@ =~= old(self).effects_after_frame(outcome));
        assert(outcome == Err::<(), SurfaceError>(SurfaceError::OutOfMemory) ==> effects@[1] is Exit);
        effects
    }
}

} // verus!
