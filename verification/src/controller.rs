use vstd::prelude::*;

verus! {

/// Whether a mouse button is held down.
#[derive(Clone, Copy, Debug, PartialEq, Eq, Structural)]
pub enum ButtonState {
    Pressed,
    Released,
}

/// The mouse buttons that the controller tells apart.
#[derive(Clone, Copy, Debug, PartialEq, Eq, Structural)]
pub enum MouseButton {
    Left,
    Right,
    Middle,
    Other,
}

/// One of the two board textures. Each generation is computed from one of them into
/// the other, and then their roles are exchanged.
#[derive(Clone, Copy, Debug, PartialEq, Eq, Structural)]
pub enum Slot {
    First,
    Second,
}

impl Slot {
    pub open spec fn spec_other(self) -> Slot {
        match self {
            Slot::First => Slot::Second,
            Slot::Second => Slot::First,
        }
    }

    /// The other texture.
    #[verifier::when_used_as_spec(spec_other)]
    pub fn other(self) -> (r: Slot)
        ensures
            r == self.spec_other(),
    {
        match self {
            Slot::First => Slot::Second,
            Slot::Second => Slot::First,
        }
    }
}

/// Which way the camera zooms.
#[derive(Clone, Copy, Debug, PartialEq, Eq, Structural)]
pub enum ZoomDirection {
    In,
    Out,
}

/// A window event, reduced to what the controller decides on. Cursor positions are
/// already converted to whole pixels; events of other windows arrive as `Ignored`.
#[derive(Clone, Copy, Debug, PartialEq, Eq, Structural)]
pub enum Event {
    CloseRequested,
    /// The surface got a new size (a resize, or a change of scale factor).
    Resized { width: u32, height: u32 },
    MouseInput { button: MouseButton, state: ButtonState },
    /// A scroll by lines; `downward` when its vertical delta is negative.
    LineScroll { downward: bool },
    /// A scroll by pixels (a touchpad): it does not zoom.
    PixelScroll,
    CursorMoved { x: u32, y: u32 },
    Character(char),
    RedrawRequested,
    MainEventsCleared,
    Ignored,
}

/// One step of the simulation: the compute shader reads `source` and writes `target`,
/// with `groups_x * groups_y * groups_z` workgroups.
#[derive(Clone, Copy, Debug, PartialEq, Eq, Structural)]
pub struct ComputePass {
    pub target: Slot,
    pub source: Slot,
    pub groups_x: u32,
    pub groups_y: u32,
    pub groups_z: u32,
}

/// What one redraw submits: an optional simulation step, then a render pass that
/// samples the texture `shown`.
#[derive(Clone, Copy, Debug, PartialEq, Eq, Structural)]
pub struct Frame {
    pub compute: Option<ComputePass>,
    pub shown: Slot,
}

/// What the event loop must do in answer to an event.
#[derive(Clone, Copy, Debug, PartialEq, Eq, Structural)]
pub enum Action {
    /// Leave the event loop.
    Exit,
    /// Configure the surface with this size.
    Configure { width: u32, height: u32 },
    /// Zoom the camera and upload it.
    Zoom(ZoomDirection),
    /// Make the pixel at column `x`, row `y` of texture `slot` live.
    Paint { slot: Slot, x: u32, y: u32 },
    /// Move the camera by the cursor's motion since its last position and upload it.
    Pan,
    /// Submit this frame.
    Draw(Frame),
    /// Ask the window for a redraw.
    RequestRedraw,
}

/// The decisions of the program: whether the simulation runs, which mouse buttons are
/// held, the size of the surface and which texture is written by the next step.
#[derive(Clone, Copy, Debug, PartialEq, Eq, Structural)]
pub struct Controller {
    pub paused: bool,
    pub left: ButtonState,
    pub right: ButtonState,
    pub width: u32,
    pub height: u32,
    /// The texture that the next simulation step writes.
    pub front: Slot,
}

/// The smaller of two numbers.
pub open spec fn min_u32(a: u32, b: u32) -> u32 {
    if a <= b {
        a
    } else {
        b
    }
}

/// The pixel that a cursor at column `x`, row `y` paints on a `width` by `height`
/// surface: the cursor's position, held inside the surface.
pub open spec fn spec_paint_target(x: u32, y: u32, width: u32, height: u32) -> (u32, u32) {
    (min_u32(x, (width - 1) as u32), min_u32(y, (height - 1) as u32))
}

/// The pixel that a cursor at column `x`, row `y` paints on a `width` by `height`
/// surface.
pub fn paint_target(x: u32, y: u32, width: u32, height: u32) -> (r: (u32, u32))
    requires
        width >= 1,
        height >= 1,
    ensures
        r == spec_paint_target(x, y, width, height),
{
    let max_x: u32 = width - 1;
    let max_y: u32 = height - 1;
    let px: u32 = if x <= max_x {
        x
    } else {
        max_x
    };
    let py: u32 = if y <= max_y {
        y
    } else {
        max_y
    };
    (px, py)
}

impl Controller {
    /// The controller of a fresh `width` by `height` surface: paused, no button held,
    /// the seed in the `Second` texture, which is shown and read by the first step.
    pub open spec fn initial(width: u32, height: u32) -> Controller {
        Controller {
            paused: true,
            left: ButtonState::Released,
            right: ButtonState::Released,
            width,
            height,
            front: Slot::First,
        }
    }

    /// The texture that is shown, painted on and read by the next step.
    pub open spec fn back(self) -> Slot {
        self.front.spec_other()
    }

    /// The events the controller can take: moving the cursor with the left button held
    /// needs a surface of at least one pixel.
    pub open spec fn accepts(self, e: Event) -> bool {
        (e is CursorMoved && self.left == ButtonState::Pressed) ==> (self.width >= 1
            && self.height >= 1)
    }

    /// The simulation step of this state.
    pub open spec fn spec_simulation_pass(self) -> ComputePass {
        ComputePass {
            target: self.front,
            source: self.back(),
            groups_x: self.width,
            groups_y: self.height,
            groups_z: 1,
        }
    }

    /// The frame that a redraw submits.
    pub open spec fn spec_frame(self) -> Frame {
        Frame {
            compute: if self.paused {
                None
            } else {
                Some(self.spec_simulation_pass())
            },
            shown: self.back(),
        }
    }

    /// The state after event `e`.
    pub open spec fn after(self, e: Event) -> Controller {
        match e {
            Event::Resized { width, height } => Controller { width, height, ..self },
            Event::MouseInput { button, state } => match button {
                MouseButton::Left => Controller { left: state, ..self },
                MouseButton::Right => Controller { right: state, ..self },
                _ => self,
            },
            Event::Character(c) => if c == ' ' {
                Controller { paused: !self.paused, ..self }
            } else {
                self
            },
            Event::RedrawRequested => if self.paused {
                self
            } else {
                Controller { front: self.back(), ..self }
            },
            _ => self,
        }
    }

    /// The actions that answer event `e`, in the order in which they are performed.
    pub open spec fn reaction(self, e: Event) -> Seq<Action> {
        match e {
            Event::CloseRequested => seq![Action::Exit],
            Event::Resized { width, height } => seq![Action::Configure { width, height }],
            Event::LineScroll { downward } => seq![
                Action::Zoom(
                    if downward {
                        ZoomDirection::Out
                    } else {
                        ZoomDirection::In
                    },
                ),
            ],
            Event::CursorMoved { x, y } => {
                let target = spec_paint_target(x, y, self.width, self.height);
                let paint = if self.left == ButtonState::Pressed {
                    seq![Action::Paint { slot: self.back(), x: target.0, y: target.1 }]
                } else {
                    Seq::empty()
                };
                let pan = if self.right == ButtonState::Pressed {
                    seq![Action::Pan]
                } else {
                    Seq::empty()
                };
                paint + pan
            },
            Event::RedrawRequested => seq![Action::Draw(self.spec_frame())],
            Event::MainEventsCleared => seq![Action::RequestRedraw],
            _ => Seq::empty(),
        }
    }

    /// The controller of a fresh `width` by `height` surface.
    pub fn new(width: u32, height: u32) -> (c: Controller)
        ensures
            c == Controller::initial(width, height),
    {
        Controller {
            paused: true,
            left: ButtonState::Released,
            right: ButtonState::Released,
            width,
            height,
            front: Slot::First,
        }
    }

    /// The texture that is shown, painted on and read by the next step.
    pub fn back_slot(&self) -> (s: Slot)
        ensures
            s == self.back(),
    {
        self.front.other()
    }

    /// The texture that receives the seed when the board is created.
    pub fn seed_slot(&self) -> (s: Slot)
        ensures
            s == self.back(),
    {
        self.back_slot()
    }

    /// Whether `handle` can take event `e`.
    pub fn accepts_event(&self, e: &Event) -> (ok: bool)
        ensures
            ok == self.accepts(*e),
    {
        match e {
            Event::CursorMoved { .. } => match self.left {
                ButtonState::Pressed => self.width >= 1 && self.height >= 1,
                ButtonState::Released => true,
            },
            _ => true,
        }
    }

    /// The simulation step: it reads the shown texture, writes the other one, and runs
    /// one workgroup per pixel of the surface.
    pub fn simulation_pass(&self) -> (p: ComputePass)
        ensures
            p == self.spec_simulation_pass(),
    {
        ComputePass {
            target: self.front,
            source: self.back_slot(),
            groups_x: self.width,
            groups_y: self.height,
            groups_z: 1,
        }
    }

    /// Gives the surface a new size.
    pub fn resize(&mut self, width: u32, height: u32)
        ensures
            *final(self) == (Controller { width, height, ..*old(self) }),
    {
        self.width = width;
        self.height = height;
    }

    /// Answers a redraw: while running, one step and then the exchange of the two
    /// textures; while paused, the board as it is.
    pub fn redraw(&mut self) -> (f: Frame)
        ensures
            f == old(self).spec_frame(),
            *final(self) == old(self).after(Event::RedrawRequested),
    {
        if self.paused {
            Frame { compute: None, shown: self.back_slot() }
        } else {
            let pass = self.simulation_pass();
            let shown = self.back_slot();
            self.front = shown;
            Frame { compute: Some(pass), shown }
        }
    }

    /// Takes event `e` and returns the actions that answer it.
    pub fn handle(&mut self, e: Event) -> (actions: Vec<Action>)
        requires
            old(self).accepts(e),
        ensures
            *final(self) == old(self).after(e),
            actions@ == old(self).reaction(e),
    {
        let mut actions: Vec<Action> = Vec::new();
        match e {
            Event::CloseRequested => {
                actions.push(Action::Exit);
            },
            Event::Resized { width, height } => {
                self.resize(width, height);
                actions.push(Action::Configure { width, height });
            },
            Event::MouseInput { button, state } => {
                match button {
                    MouseButton::Left => {
                        self.left = state;
                    },
                    MouseButton::Right => {
                        self.right = state;
                    },
                    _ => {},
                }
            },
            Event::LineScroll { downward } => {
                let dir = if downward {
                    ZoomDirection::Out
                } else {
                    ZoomDirection::In
                };
                actions.push(Action::Zoom(dir));
            },
            Event::PixelScroll => {},
            Event::CursorMoved { x, y } => {
                match self.left {
                    ButtonState::Pressed => {
                        let (px, py) = paint_target(x, y, self.width, self.height);
                        actions.push(Action::Paint { slot: self.back_slot(), x: px, y: py });
                    },
                    ButtonState::Released => {},
                }
                match self.right {
                    ButtonState::Pressed => {
                        actions.push(Action::Pan);
                    },
                    ButtonState::Released => {},
                }
            },
            Event::Character(c) => {
                if c == ' ' {
                    self.paused = !self.paused;
                }
            },
            Event::RedrawRequested => {
                let frame = self.redraw();
                actions.push(Action::Draw(frame));
            },
            Event::MainEventsCleared => {
                actions.push(Action::RequestRedraw);
            },
            Event::Ignored => {},
        }
        actions
    }
}

}
