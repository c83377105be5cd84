//! The concrete game: a sprite running across the surface, driven by the
//! arrow keys, cycling through the run frames of its sprite sheet.

use crate::engine::{Cell, DrawCommand, Game, ImageHandle, Point, Rect, Renderer, Sheet};
use crate::input::{KeyEvent, KeyState};
use vstd::prelude::*;

verus! {

/// The sprite index shown while `frame` is the current animation frame:
/// each sprite is held for three callbacks, and sprites are numbered
/// from one.
pub open spec fn current_sprite(frame: u8) -> u8 {
    ((frame / 3) + 1) as u8
}

/// The sheet name of the numbered run sprite.
pub open spec fn run_frame_name(sprite: u8) -> Seq<char> {
    if sprite == 1 {
        "Run (1).png"@
    } else if sprite == 2 {
        "Run (2).png"@
    } else if sprite == 3 {
        "Run (3).png"@
    } else if sprite == 4 {
        "Run (4).png"@
    } else if sprite == 5 {
        "Run (5).png"@
    } else if sprite == 6 {
        "Run (6).png"@
    } else if sprite == 7 {
        "Run (7).png"@
    } else {
        "Run (8).png"@
    }
}

/// Whether the sheet holds every run sprite the animation cycles
/// through.
pub open spec fn sheet_has_run_frames(frames: Map<Seq<char>, Cell>) -> bool {
    forall|sprite: u8| 1 <= sprite <= 8 ==> frames.contains_key(run_frame_name(sprite))
}

/// The velocity the held arrow keys ask for: three pixels per step on
/// each axis, opposite arrows cancelling.
pub open spec fn arrow_velocity(keys: Map<Seq<char>, KeyEvent>) -> Point {
    Point {
        x: ((if keys.contains_key("ArrowRight"@) {
            3int
        } else {
            0int
        }) - (if keys.contains_key("ArrowLeft"@) {
            3int
        } else {
            0int
        })) as i32,
        y: ((if keys.contains_key("ArrowDown"@) {
            3int
        } else {
            0int
        }) - (if keys.contains_key("ArrowUp"@) {
            3int
        } else {
            0int
        })) as i32,
    }
}

/// Where one simulation step moves the sprite: the position advanced by
/// the arrow-key velocity, each axis wrapping on overflow.
pub open spec fn stepped_position(position: Point, keys: Map<Seq<char>, KeyEvent>) -> Point {
    Point {
        x: vstd::wrapping::i32_specs::wrapping_add(position.x, arrow_velocity(keys).x),
        y: vstd::wrapping::i32_specs::wrapping_add(position.y, arrow_velocity(keys).y),
    }
}

/// The animation frame after one simulation step: the frames cycle
/// through 0 to 23.
pub open spec fn next_frame(frame: u8) -> u8 {
    if frame < 23 {
        (frame + 1) as u8
    } else {
        0u8
    }
}

/// The running sprite. Before initialization it has no assets and may
/// not be updated or drawn; `with_assets` adopts the fetched sheet and
/// the loaded image.
pub struct WalkTheDog {
    pub image: Option<ImageHandle>,
    pub sheet: Option<Sheet>,
    pub frame: u8,
    pub position: Point,
    pub updates: Ghost<nat>,
}

impl WalkTheDog {
    /// The uninitialized game the runner is bootstrapped with.
    pub fn new() -> (r: WalkTheDog)
        ensures
            r.image is None,
            r.sheet is None,
            r.frame == 0,
            r.position == (Point { x: 0, y: 0 }),
            r.updates() == 0,
    {
        WalkTheDog {
            image: None,
            sheet: None,
            frame: 0,
            position: Point { x: 0, y: 0 },
            updates: Ghost(0),
        }
    }

    /// The initialized instance the asynchronous setup resolves to: the
    /// same animation state, with the fetched sheet and loaded image
    /// adopted.
    pub fn with_assets(self, sheet: Sheet, image: ImageHandle) -> (r: WalkTheDog)
        requires
            self.frame < 24,
            sheet_has_run_frames(sheet@),
        ensures
            r.wf(),
            r.frame == self.frame,
            r.position == self.position,
            r.sheet == Some(sheet),
            r.image == Some(image),
            r.updates() == self.updates(),
    {
        WalkTheDog {
            image: Some(image),
            sheet: Some(sheet),
            frame: self.frame,
            position: self.position,
            updates: self.updates,
        }
    }

    /// Whether the sheet holds every run sprite the animation needs, so
    /// that an instance built on it is safe to draw.
    pub fn sheet_is_complete(sheet: &Sheet) -> (r: bool)
        ensures
            r == sheet_has_run_frames(sheet@),
    {
        let complete: bool = sheet.get_frame("Run (1).png").is_some()
            && sheet.get_frame("Run (2).png").is_some() && sheet.get_frame("Run (3).png").is_some()
            && sheet.get_frame("Run (4).png").is_some() && sheet.get_frame("Run (5).png").is_some()
            && sheet.get_frame("Run (6).png").is_some() && sheet.get_frame("Run (7).png").is_some()
            && sheet.get_frame("Run (8).png").is_some();
        proof {
            if complete {
                assert forall|sprite: u8| 1 <= sprite <= 8 implies sheet@.contains_key(
                    run_frame_name(sprite),
                ) by {
                    assert(sheet@.contains_key(run_frame_name(1u8)));
                    assert(sheet@.contains_key(run_frame_name(2u8)));
                    assert(sheet@.contains_key(run_frame_name(3u8)));
                    assert(sheet@.contains_key(run_frame_name(4u8)));
                    assert(sheet@.contains_key(run_frame_name(5u8)));
                    assert(sheet@.contains_key(run_frame_name(6u8)));
                    assert(sheet@.contains_key(run_frame_name(7u8)));
                    assert(sheet@.contains_key(run_frame_name(8u8)));
                }
            } else {
                assert(!sheet_has_run_frames(sheet@)) by {
                    if !sheet@.contains_key("Run (1).png"@) {
                        assert(!sheet@.contains_key(run_frame_name(1u8)));
                    } else if !sheet@.contains_key("Run (2).png"@) {
                        assert(!sheet@.contains_key(run_frame_name(2u8)));
                    } else if !sheet@.contains_key("Run (3).png"@) {
                        assert(!sheet@.contains_key(run_frame_name(3u8)));
                    } else if !sheet@.contains_key("Run (4).png"@) {
                        assert(!sheet@.contains_key(run_frame_name(4u8)));
                    } else if !sheet@.contains_key("Run (5).png"@) {
                        assert(!sheet@.contains_key(run_frame_name(5u8)));
                    } else if !sheet@.contains_key("Run (6).png"@) {
                        assert(!sheet@.contains_key(run_frame_name(6u8)));
                    } else if !sheet@.contains_key("Run (7).png"@) {
                        assert(!sheet@.contains_key(run_frame_name(7u8)));
                    } else {
                        assert(!sheet@.contains_key(run_frame_name(8u8)));
                    }
                }
            }
        }
        complete
    }

    /// One simulation step: move by the arrow-key velocity and advance
    /// the animation cycle. Reads the key state, never writes it.
    pub fn step(&mut self, keystate: &KeyState)
        requires
            old(self).wf(),
        ensures
            final(self).wf(),
            final(self).position == stepped_position(old(self).position, keystate@),
            final(self).frame == next_frame(old(self).frame),
            final(self).image == old(self).image,
            final(self).sheet == old(self).sheet,
            final(self).updates == old(self).updates,
    {
        let mut velocity = Point { x: 0, y: 0 };
        if keystate.is_pressed("ArrowDown") {
            velocity.y = velocity.y + 3;
        }
        if keystate.is_pressed("ArrowUp") {
            velocity.y = velocity.y - 3;
        }
        if keystate.is_pressed("ArrowRight") {
            velocity.x = velocity.x + 3;
        }
        if keystate.is_pressed("ArrowLeft") {
            velocity.x = velocity.x - 3;
        }
        self.position.x = self.position.x.wrapping_add(velocity.x);
        self.position.y = self.position.y.wrapping_add(velocity.y);
        if self.frame < 23 {
            self.frame = self.frame + 1;
        } else {
            self.frame = 0;
        }
    }
}

impl Game for WalkTheDog {
    /// Initialized: assets present, the sheet complete, the animation
    /// frame inside its cycle.
    open spec fn wf(&self) -> bool {
        &&& self.frame < 24
        &&& self.image is Some
        &&& match self.sheet {
            Some(sheet) => sheet_has_run_frames(sheet@),
            None => false,
        }
    }

    open spec fn updates(&self) -> nat {
        self.updates@
    }

    /// One clear of the whole surface, then one blit of the current run
    /// sprite's window onto the sprite's position, at the window's size.
    open spec fn draw_commands(&self) -> Seq<DrawCommand> {
        let cell = self.sheet.unwrap()@[run_frame_name(current_sprite(self.frame))];
        seq![
            DrawCommand::Clear(Rect { x: 0, y: 0, width: 600, height: 600 }),
            DrawCommand::DrawImage {
                image: self.image.unwrap(),
                frame: Rect {
                    x: cell.frame.x as i32,
                    y: cell.frame.y as i32,
                    width: cell.frame.w as i32,
                    height: cell.frame.h as i32,
                },
                destination: Rect {
                    x: self.position.x,
                    y: self.position.y,
                    width: cell.frame.w as i32,
                    height: cell.frame.h as i32,
                },
            },
        ]
    }

    fn update(&mut self, keystate: &KeyState) {
        self.step(keystate);
        self.updates = Ghost(self.updates@ + 1);
    }

    fn draw(&self, renderer: &mut Renderer) {
        renderer.clear(&Rect { x: 0, y: 0, width: 600, height: 600 });
        let sprite: u8 = self.frame / 3 + 1;
        let frame_name: &str = match sprite {
            1 => "Run (1).png",
            2 => "Run (2).png",
            3 => "Run (3).png",
            4 => "Run (4).png",
            5 => "Run (5).png",
            6 => "Run (6).png",
            7 => "Run (7).png",
            _ => "Run (8).png",
        };
        proof {
            assert(frame_name@ == run_frame_name(current_sprite(self.frame)));
        }
        match (&self.image, &self.sheet) {
            (Some(image), Some(sheet)) => {
                match sheet.get_frame(frame_name) {
                    Some(cell) => {
                        let source = Rect {
                            x: cell.frame.x as i32,
                            y: cell.frame.y as i32,
                            width: cell.frame.w as i32,
                            height: cell.frame.h as i32,
                        };
                        let destination = Rect {
                            x: self.position.x,
                            y: self.position.y,
                            width: cell.frame.w as i32,
                            height: cell.frame.h as i32,
                        };
                        renderer.draw_image(*image, &source, &destination);
                        proof {
                            assert(renderer@ =~= old(renderer)@ + self.draw_commands());
                        }
                    },
                    None => {
                        proof {
                            assert(false);
                        }
                    },
                }
            },
            _ => {
                proof {
                    assert(false);
                }
            },
        }
    }
}

} // verus!
