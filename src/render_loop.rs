//! The render loop as a state machine: events in, commands out.
//!
//! The loop never touches the GPU itself. Each event yields one [`Command`]
//! that the driver performs, and the outcome of a frame is fed back through
//! [`RenderLoop::after_render`].
use vstd::prelude::*;

verus! {

/// A window or surface size in physical pixels.
#[derive(Clone, Copy, PartialEq, Eq, Structural, Debug)]
pub struct Size {
    pub width: u32,
    pub height: u32,
}

impl Size {
    /// Both dimensions are positive: a surface may be configured at this size.
    pub open spec fn has_area(self) -> bool {
        self.width > 0 && self.height > 0
    }

    /// The size in effect after a resize to `s`: `s` where it has area, else
    /// the size as it was.
    pub open spec fn after_resize(self, s: Size) -> Size {
        if s.has_area() {
            s
        } else {
            self
        }
    }

    pub fn new(width: u32, height: u32) -> (r: Size)
        ensures
            r.width == width,
            r.height == height,
    {
        Size { width, height }
    }

    pub fn is_drawable(&self) -> (r: bool)
        ensures
            r == self.has_area(),
    {
        self.width > 0 && self.height > 0
    }
}


/// Keys that the loop tells apart.
#[derive(Clone, Copy, PartialEq, Eq, Structural, Debug)]
pub enum Key {
    Escape,
    Other,
}

/// Whether a key went down or up.
#[derive(Clone, Copy, PartialEq, Eq, Structural, Debug)]
pub enum KeyState {
    Pressed,
    Released,
}

/// Why a frame could not be acquired.
#[derive(Clone, Copy, PartialEq, Eq, Structural, Debug)]
pub enum FrameError {
    /// Acquiring the next frame timed out.
    Timeout,
    /// The surface changed and should be reconfigured.
    Outdated,
    /// The surface was lost and must be reconfigured before further use.
    Lost,
    /// No memory is left for a new frame.
    OutOfMemory,
    /// The surface was never configured, because the window has had no area.
    Unconfigured,
}

/// An event aimed at the loop's window. `P` is the type of a pointer coordinate.
#[derive(Clone, Copy, PartialEq, Eq, Debug)]
pub enum WindowEvent<P> {
    CloseRequested,
    Keyboard { key: Key, state: KeyState },
    CursorMoved { x: P, y: P },
    Resized(Size),
    /// The scale factor changed; the payload is the new physical size.
    ScaleFactorChanged(Size),
    Other,
}

/// An event delivered to the loop by the windowing layer.
#[derive(Clone, Copy, PartialEq, Eq, Debug)]
pub enum LoopEvent<P> {
    Window(WindowEvent<P>),
    RedrawRequested,
    /// The end of one batch of events.
    EventsCleared,
    Other,
}

/// The clear color of the next frame.
///
/// The pointer color is kept as the fractions it is made of: red is
/// `x / width`, green is `y / height`, blue is 0.2 and alpha is 1.0, with no
/// clamping. The division is left to whoever builds the GPU color.
#[derive(Clone, Copy, PartialEq, Eq, Debug)]
pub enum ClearColor<P> {
    /// Opaque white.
    White,
    Pointer { x: P, y: P, width: u32, height: u32 },
}

/// What the driver of the loop is asked to do next.
#[derive(Clone, Copy, PartialEq, Eq, Debug)]
pub enum Command<P> {
    Nothing,
    /// Leave the loop.
    Exit,
    /// Apply this size to the graphics context.
    Resize(Size),
    /// Render one frame cleared to this color.
    Render(ClearColor<P>),
    /// Schedule a redraw for the next cycle.
    RequestRedraw,
    /// Report a frame error that is not fatal.
    Report(FrameError),
}

/// The loop's own state: the window size that the graphics context was last
/// given, the current clear color, and whether the loop still runs.
pub struct RenderLoop<P> {
    pub size: Size,
    pub clear_color: ClearColor<P>,
    pub running: bool,
}

impl<P> Command<P> {
    pub open spec fn is_render(self) -> bool {
        self is Render
    }
}

impl<P: Copy> RenderLoop<P> {
    /// The window-event table: which events end the loop and which resize it.
    /// Pointer motion is consumed before it reaches this table.
    pub open spec fn window_step(self, e: WindowEvent<P>) -> (RenderLoop<P>, Command<P>) {
        match e {
            WindowEvent::CursorMoved { x, y } => (
                RenderLoop {
                    clear_color: ClearColor::Pointer {
                        x,
                        y,
                        width: self.size.width,
                        height: self.size.height,
                    },
                    ..self
                },
                Command::Nothing,
            ),
            WindowEvent::CloseRequested => (RenderLoop { running: false, ..self }, Command::Exit),
            WindowEvent::Keyboard { key: Key::Escape, state: KeyState::Pressed } => (
                RenderLoop { running: false, ..self },
                Command::Exit,
            ),
            WindowEvent::Resized(s) => (self.resized(s), Command::Resize(s)),
            WindowEvent::ScaleFactorChanged(s) => (self.resized(s), Command::Resize(s)),
            _ => (self, Command::Nothing),
        }
    }

    /// The size is taken over only where a surface could be configured at it,
    /// so that it keeps mirroring the graphics context.
    pub open spec fn resized(self, s: Size) -> RenderLoop<P> {
        if s.has_area() {
            RenderLoop { size: s, ..self }
        } else {
            self
        }
    }

    /// One step of the loop. Once it has stopped, no event changes it or asks
    /// for anything.
    pub open spec fn step(self, e: LoopEvent<P>) -> (RenderLoop<P>, Command<P>) {
        if !self.running {
            (self, Command::Nothing)
        } else {
            match e {
                LoopEvent::Window(w) => self.window_step(w),
                LoopEvent::RedrawRequested => (self, Command::Render(self.clear_color)),
                LoopEvent::EventsCleared => (self, Command::RequestRedraw),
                LoopEvent::Other => (self, Command::Nothing),
            }
        }
    }

    /// What the outcome of a frame asks for: a lost surface is reconfigured at
    /// the size in effect, running out of memory ends the loop, and any other
    /// error is reported.
    pub open spec fn render_step(self, outcome: Result<(), FrameError>) -> (
        RenderLoop<P>,
        Command<P>,
    ) {
        match outcome {
            Ok(()) => (self, Command::Nothing),
            Err(FrameError::Lost) => (self, Command::Resize(self.size)),
            Err(FrameError::OutOfMemory) => (RenderLoop { running: false, ..self }, Command::Exit),
            Err(e) => (self, Command::Report(e)),
        }
    }

    /// The commands that a sequence of events draws from the loop, in order.
    pub open spec fn commands(self, events: Seq<LoopEvent<P>>) -> Seq<Command<P>>
        decreases events.len(),
    {
        if events.len() == 0 {
            Seq::empty()
        } else {
            let (next, c) = self.step(events[0]);
            seq![c].add(next.commands(events.drop_first()))
        }
    }

    /// A running loop for a window of the given size, cleared to white.
    pub fn new(size: Size) -> (r: RenderLoop<P>)
        ensures
            r.size == size,
            r.clear_color == ClearColor::<P>::White,
            r.running,
    {
        RenderLoop { size, clear_color: ClearColor::White, running: true }
    }

    /// Offers an event to the input handler. Pointer motion sets the clear
    /// color from the pointer position and the stored size, and is consumed;
    /// every other event is left for default handling.
    pub fn input(&mut self, event: &WindowEvent<P>) -> (consumed: bool)
        ensures
            consumed == (*event is CursorMoved),
            consumed ==> *final(self) == old(self).window_step(*event).0,
            !consumed ==> *final(self) == *old(self),
    {
        match event {
            WindowEvent::CursorMoved { x, y } => {
                self.clear_color = ClearColor::Pointer {
                    x: *x,
                    y: *y,
                    width: self.size.width,
                    height: self.size.height,
                };
                true
            },
            _ => false,
        }
    }

    /// Hook for per-frame state changes, called before each frame.
    pub fn update(&mut self)
        ensures
            *final(self) == *old(self),
    {
    }

    fn resize(&mut self, s: Size)
        ensures
            *final(self) == old(self).resized(s),
    {
        if s.is_drawable() {
            self.size = s;
        }
    }

    /// Handles one event and says what the driver must do.
    pub fn handle_event(&mut self, event: &LoopEvent<P>) -> (r: Command<P>)
        ensures
            (*final(self), r) == old(self).step(*event),
    {
        if !self.running {
            return Command::Nothing;
        }
        match event {
            LoopEvent::Window(w) => {
                if self.input(w) {
                    return Command::Nothing;
                }
                match w {
                    WindowEvent::CloseRequested => {
                        self.running = false;
                        Command::Exit
                    },
                    WindowEvent::Keyboard { key: Key::Escape, state: KeyState::Pressed } => {
                        self.running = false;
                        Command::Exit
                    },
                    WindowEvent::Resized(s) => {
                        self.resize(*s);
                        Command::Resize(*s)
                    },
                    WindowEvent::ScaleFactorChanged(s) => {
                        self.resize(*s);
                        Command::Resize(*s)
                    },
                    _ => Command::Nothing,
                }
            },
            LoopEvent::RedrawRequested => {
                self.update();
                Command::Render(self.clear_color)
            },
            LoopEvent::EventsCleared => Command::RequestRedraw,
            LoopEvent::Other => Command::Nothing,
        }
    }

    /// Takes the outcome of the frame that the last `Render` command asked for.
    pub fn after_render(&mut self, outcome: Result<(), FrameError>) -> (r: Command<P>)
        ensures
            (*final(self), r) == old(self).render_step(outcome),
    {
        match outcome {
            Ok(()) => Command::Nothing,
            Err(FrameError::Lost) => Command::Resize(self.size),
            Err(FrameError::OutOfMemory) => {
                self.running = false;
                Command::Exit
            },
            Err(e) => Command::Report(e),
        }
    }

    pub fn is_running(&self) -> (r: bool)
        ensures
            r == self.running,
    {
        self.running
    }

    pub fn size(&self) -> (r: Size)
        ensures
            r == self.size,
    {
        self.size
    }

    pub fn clear_color(&self) -> (r: ClearColor<P>)
        ensures
            r == self.clear_color,
    {
        self.clear_color
    }
}


/// Pointer motion over a running loop sets the clear color to the pointer's
/// position over the stored size, and changes nothing else.
pub proof fn pointer_sets_clear_color<P: Copy>(s: RenderLoop<P>, x: P, y: P)
    requires
        s.running,
    ensures
        s.step(LoopEvent::Window(WindowEvent::CursorMoved { x, y })) == (
            RenderLoop {
                size: s.size,
                clear_color: ClearColor::Pointer { x, y, width: s.size.width, height: s.size.height },
                running: true,
            },
            Command::<P>::Nothing,
        ),
{
}

/// The loop's stored size follows a resize event exactly as the graphics
/// context's size follows the resize it is handed, so a loop and a context
/// that agree on the size still agree afterwards.
pub proof fn resize_keeps_sizes_in_step<P: Copy>(s: RenderLoop<P>, context_size: Size, size: Size)
    requires
        s.running,
        s.size == context_size,
    ensures
        s.step(LoopEvent::Window(WindowEvent::Resized(size))).1 == Command::<P>::Resize(size),
        s.step(LoopEvent::Window(WindowEvent::Resized(size))).0.size == context_size.after_resize(size),
        s.step(LoopEvent::Window(WindowEvent::ScaleFactorChanged(size))).0.size
            == context_size.after_resize(size),
{
}

/// A lost surface is answered by exactly one resize, at the size in effect
/// when the frame failed, and the loop goes on unchanged.
pub proof fn lost_frame_resizes_at_current_size<P: Copy>(s: RenderLoop<P>)
    ensures
        s.render_step(Err(FrameError::Lost)) == (s, Command::<P>::Resize(s.size)),
{
}

/// Running out of memory ends the loop: whatever events come after, none of
/// them asks for another frame, nor for anything else.
pub proof fn no_frame_after_out_of_memory<P: Copy>(s: RenderLoop<P>, events: Seq<LoopEvent<P>>)
    ensures
        s.render_step(Err(FrameError::OutOfMemory)).1 == Command::<P>::Exit,
        forall|i: int|
            0 <= i < events.len() ==> s.render_step(Err(FrameError::OutOfMemory)).0.commands(
                events,
            )[i] == Command::<P>::Nothing,
        s.render_step(Err(FrameError::OutOfMemory)).0.commands(events).len() == events.len(),
{
    stopped_loop_is_silent(s.render_step(Err(FrameError::OutOfMemory)).0, events);
}

/// A loop that has stopped answers every event with `Nothing` and stays as it is.
pub proof fn stopped_loop_is_silent<P: Copy>(s: RenderLoop<P>, events: Seq<LoopEvent<P>>)
    requires
        !s.running,
    ensures
        s.commands(events).len() == events.len(),
        forall|i: int| 0 <= i < events.len() ==> s.commands(events)[i] == Command::<P>::Nothing,
    decreases events.len(),
{
    if events.len() > 0 {
        stopped_loop_is_silent(s, events.drop_first());
    }
}

/// Escape, once pressed, ends the loop, and no later event renders a frame.
pub proof fn escape_ends_rendering<P: Copy>(s: RenderLoop<P>, events: Seq<LoopEvent<P>>)
    requires
        s.running,
    ensures
        s.step(
            LoopEvent::Window(WindowEvent::Keyboard { key: Key::Escape, state: KeyState::Pressed }),
        ).1 == Command::<P>::Exit,
        forall|i: int|
            0 <= i < events.len() ==> !(s.step(
                LoopEvent::Window(
                    WindowEvent::Keyboard { key: Key::Escape, state: KeyState::Pressed },
                ),
            ).0.commands(events)[i].is_render()),
{
    stopped_loop_is_silent(
        s.step(
            LoopEvent::Window(WindowEvent::Keyboard { key: Key::Escape, state: KeyState::Pressed }),
        ).0,
        events,
    );
}

} // verus!
