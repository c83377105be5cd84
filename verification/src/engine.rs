//! Geometry, drawing commands, the renderer, sprite-sheet metadata, the
//! `Game` contract and the fixed-timestep game loop.

use crate::assoc::StringMap;
use crate::input::{apply_key_presses, process_input, queue_contents, KeyPress, KeyState};
use futures::channel::mpsc::UnboundedReceiver;
use vstd::arithmetic::div_mod::{lemma_fundamental_div_mod_converse, lemma_mod_bound};
use vstd::prelude::*;

verus! {

/// A signed integer 2D coordinate, used for positions and velocities.
#[derive(Clone, Copy, PartialEq, Eq, Structural, Debug)]
pub struct Point {
    pub x: i32,
    pub y: i32,
}

/// An axis-aligned region of the drawing surface (or of an image), in
/// whole pixels. Serves both as a source sub-image window and as a
/// destination placement window.
#[derive(Clone, Copy, PartialEq, Eq, Structural, Debug)]
pub struct Rect {
    pub x: i32,
    pub y: i32,
    pub width: i32,
    pub height: i32,
}

/// An opaque handle standing for a decoded image owned by the host; the
/// host keeps the mapping from handle to its image resource.
#[derive(Clone, Copy, PartialEq, Eq, Structural, Debug)]
pub struct ImageHandle {
    pub id: u64,
}

/// One drawing operation in surface coordinates. The renderer records
/// commands; the host layer replays them onto the actual surface.
#[derive(Clone, Copy, PartialEq, Eq, Structural, Debug)]
pub enum DrawCommand {
    /// Erase the given rectangle of the surface to background.
    Clear(Rect),
    /// Copy the sub-image of `image` bounded by `frame` onto the region
    /// `destination` of the surface, scaling if the two differ in size.
    DrawImage { image: ImageHandle, frame: Rect, destination: Rect },
}

/// A thin wrapper over the drawing surface, exposing the two operations a
/// game may ask for. It records each request as an explicit command, in
/// order; the host drains the commands and performs them on its surface.
pub struct Renderer {
    commands: Vec<DrawCommand>,
}

impl View for Renderer {
    type V = Seq<DrawCommand>;

    closed spec fn view(&self) -> Seq<DrawCommand> {
        self.commands@
    }
}

impl Renderer {
    /// A renderer with no commands recorded yet.
    pub fn new() -> (r: Renderer)
        ensures
            r@ == Seq::<DrawCommand>::empty(),
    {
        Renderer { commands: Vec::new() }
    }

    /// Record the erasure of `rect` to background.
    pub fn clear(&mut self, rect: &Rect)
        ensures
            final(self)@ == old(self)@.push(DrawCommand::Clear(*rect)),
    {
        self.commands.push(DrawCommand::Clear(*rect));
    }

    /// Record a blit of the sub-image of `image` bounded by `frame` onto
    /// the surface region `destination`.
    pub fn draw_image(&mut self, image: ImageHandle, frame: &Rect, destination: &Rect)
        ensures
            final(self)@ == old(self)@.push(DrawCommand::DrawImage {
                image,
                frame: *frame,
                destination: *destination,
            }),
    {
        self.commands.push(DrawCommand::DrawImage {
            image,
            frame: *frame,
            destination: *destination,
        });
    }

    /// Hand the recorded commands out in order and leave the renderer
    /// empty for the next frame.
    pub fn take_commands(&mut self) -> (r: Vec<DrawCommand>)
        ensures
            r@ == old(self)@,
            final(self)@ == Seq::<DrawCommand>::empty(),
    {
        let mut taken: Vec<DrawCommand> = Vec::new();
        std::mem::swap(&mut taken, &mut self.commands);
        taken
    }
}

/// An integer rectangle in source-image pixel space, as the sprite-sheet
/// metadata gives it.
#[derive(Clone, Copy, PartialEq, Eq, Structural, Debug)]
pub struct SheetRect {
    pub x: i16,
    pub y: i16,
    pub w: i16,
    pub h: i16,
}

/// One named frame of a sprite sheet: the window of the sheet image that
/// holds it.
#[derive(Clone, Copy, PartialEq, Eq, Structural, Debug)]
pub struct Cell {
    pub frame: SheetRect,
}

/// Sprite-sheet metadata: a mapping from frame name to the sub-rectangle
/// of the sheet image that holds the frame.
pub struct Sheet {
    frames: StringMap<Cell>,
}

impl View for Sheet {
    type V = Map<Seq<char>, Cell>;

    closed spec fn view(&self) -> Map<Seq<char>, Cell> {
        self.frames@
    }
}

impl Sheet {
    /// A sheet with no frames.
    pub fn new() -> (r: Sheet)
        ensures
            r@ == Map::<Seq<char>, Cell>::empty(),
    {
        Sheet { frames: StringMap::new() }
    }

    /// Add a named frame, replacing any earlier frame of that name.
    pub fn add_frame(&mut self, name: String, cell: Cell)
        ensures
            final(self)@ == old(self)@.insert(name@, cell),
    {
        self.frames.insert(name, cell);
    }

    /// Look a frame up by name.
    pub fn get_frame(&self, name: &str) -> (r: Option<&Cell>)
        ensures
            match r {
                Some(cell) => self@.contains_key(name@) && *cell == self@[name@],
                None => !self@.contains_key(name@),
            },
    {
        self.frames.get(name)
    }
}

/// Microseconds of simulated time one fixed step stands for: one tick of
/// a 60 Hz simulation.
pub const FRAME_SIZE: u64 = 16667;

/// How many fixed steps a refresh callback runs when it finds `total`
/// microseconds of unconsumed real time.
pub open spec fn update_steps(total: int) -> int {
    total / (FRAME_SIZE as int)
}

/// The unconsumed real time left in the accumulator after those steps.
pub open spec fn leftover(total: int) -> int {
    total % (FRAME_SIZE as int)
}

/// The contract between the loop and a concrete game. The loop calls
/// nothing of the game but these: a fixed simulation step reading the
/// held keys, and a draw of the current state onto the renderer.
pub trait Game: Sized {
    /// Whether the instance is fully initialized, so that `update` and
    /// `draw` may be asked of it.
    spec fn wf(&self) -> bool;

    /// How many simulation steps the instance has run.
    spec fn updates(&self) -> nat;

    /// The drawing commands one `draw` call issues in the current state.
    spec fn draw_commands(&self) -> Seq<DrawCommand>;

    /// One fixed simulation step, reading (never writing) the held keys.
    fn update(&mut self, keystate: &KeyState)
        requires
            old(self).wf(),
        ensures
            final(self).wf(),
            final(self).updates() == old(self).updates() + 1,
    ;

    /// Draw the current state: record exactly this state's commands, in
    /// order, after whatever the renderer already holds.
    fn draw(&self, renderer: &mut Renderer)
        requires
            self.wf(),
        ensures
            final(renderer)@ == old(renderer)@ + self.draw_commands(),
    ;
}

/// The fixed-timestep orchestrator. Between refresh callbacks it carries
/// the timestamp of the last callback and the real time not yet consumed
/// by fixed steps; each callback drains input once, runs zero or more
/// fixed steps, and draws exactly once.
pub struct GameLoop {
    last_frame: u64,
    accumulated_delta: u64,
}

impl GameLoop {
    /// The host timestamp of the last processed refresh callback, in
    /// microseconds.
    pub closed spec fn last_frame(&self) -> u64 {
        self.last_frame
    }

    /// The unconsumed real time carried to the next callback, in
    /// microseconds.
    pub closed spec fn accumulated_delta(&self) -> u64 {
        self.accumulated_delta
    }

    /// Between callbacks the accumulator holds less than one fixed step.
    pub open spec fn wf(&self) -> bool {
        self.accumulated_delta() < FRAME_SIZE
    }

    /// A loop that saw its last refresh at host time `now` and has
    /// consumed all time up to it.
    pub fn new(now: u64) -> (r: GameLoop)
        ensures
            r.wf(),
            r.last_frame() == now,
            r.accumulated_delta() == 0,
    {
        GameLoop { last_frame: now, accumulated_delta: 0 }
    }

    /// One refresh callback at host time `perf`: drain the input queue
    /// fully into `keystate`, add the elapsed time to the accumulator,
    /// run one fixed `update` per full step accumulated, and `draw`
    /// exactly once, whether or not any step ran.
    pub fn frame<G: Game>(
        &mut self,
        game: &mut G,
        keystate: &mut KeyState,
        events: &mut UnboundedReceiver<KeyPress>,
        renderer: &mut Renderer,
        perf: u64,
    )
        requires
            old(self).wf(),
            old(game).wf(),
            old(self).last_frame() <= perf,
            old(self).accumulated_delta() + (perf - old(self).last_frame()) <= u64::MAX,
        ensures
            final(self).wf(),
            final(self).last_frame() == perf,
            final(self).accumulated_delta() == leftover(
                old(self).accumulated_delta() + perf - old(self).last_frame(),
            ),
            final(game).wf(),
            final(game).updates() == old(game).updates() + update_steps(
                old(self).accumulated_delta() + perf - old(self).last_frame(),
            ),
            final(renderer)@ == old(renderer)@ + final(game).draw_commands(),
            final(keystate)@ == apply_key_presses(old(keystate)@, queue_contents(*old(events))),
            queue_contents(*final(events)) == Seq::<KeyPress>::empty(),
    {
        process_input(keystate, events);
        let delta: u64 = perf - self.last_frame;
        self.accumulated_delta = self.accumulated_delta + delta;
        let ghost total = self.accumulated_delta as int;
        let ghost base = game.updates();
        while self.accumulated_delta >= FRAME_SIZE
            invariant
                game.wf(),
                game.updates() >= base,
                total == self.accumulated_delta + FRAME_SIZE * (game.updates() - base),
            decreases self.accumulated_delta,
        {
            game.update(keystate);
            self.accumulated_delta = self.accumulated_delta - FRAME_SIZE;
        }
        proof {
            lemma_fundamental_div_mod_converse(
                total,
                FRAME_SIZE as int,
                game.updates() - base,
                self.accumulated_delta as int,
            );
        }
        self.last_frame = perf;
        game.draw(renderer);
    }
}

/// The accumulator after a run of refresh callbacks whose timestamps are
/// separated by the given gaps, oldest gap first, starting from `start`
/// microseconds of unconsumed time.
pub open spec fn accumulator_after(start: int, gaps: Seq<int>) -> int
    decreases gaps.len(),
{
    if gaps.len() == 0 {
        start
    } else {
        leftover(accumulator_after(start, gaps.drop_last()) + gaps.last())
    }
}

/// For every sequence of refresh callbacks, the unconsumed time left
/// after each one is at least zero and under one fixed step.
pub proof fn lemma_accumulator_bounded(start: int, gaps: Seq<int>)
    requires
        0 <= start < FRAME_SIZE as int,
    ensures
        0 <= accumulator_after(start, gaps) < FRAME_SIZE as int,
    decreases gaps.len(),
{
    if gaps.len() > 0 {
        lemma_accumulator_bounded(start, gaps.drop_last());
        lemma_mod_bound(
            accumulator_after(start, gaps.drop_last()) + gaps.last(),
            FRAME_SIZE as int,
        );
    }
}

} // verus!
