//! The one concrete scene: the playing scene that owns the puzzle board and
//! the on-screen layout the renderer draws it with. Its terminal state is a
//! solved board; the next update then asks the stack to pop the scene.

use vstd::prelude::*;

use crate::board::BoardModel;
use crate::board::Gameboard;
use crate::input::digit_of;
use crate::input::Button;
use crate::input::InputEvent;
use crate::scenes::Scene;
use crate::scenes::SceneSwitch;
use crate::world::World;

verus! {

/// Where the board appears on screen: its top-left origin in pixels and its
/// square size. The size stays between 9 (one pixel per cell) and a bound
/// that keeps all layout arithmetic comfortably in range.
#[derive(Clone, Copy, PartialEq, Eq, Structural, Debug)]
pub struct BoardLayout {
    pub x: i32,
    pub y: i32,
    pub size: i32,
}

impl BoardLayout {
    /// A drawable layout: at least one pixel per cell.
    pub open spec fn wf(self) -> bool {
        9 <= self.size <= 1_000_000_000
    }

    /// The game's standard board placement.
    pub fn standard() -> (r: BoardLayout)
        ensures
            r.wf(),
            r == (BoardLayout { x: 15, y: 15, size: 450 }),
    {
        BoardLayout { x: 15, y: 15, size: 450 }
    }
}

/// The board change one semantic input event causes: an axis event steps the
/// selection when the key is released, a number button writes its digit into
/// the selected cell, and a select click, taken into board-local space,
/// picks the cell under it. Everything else is ignored.
pub open spec fn input_step(
    m: BoardModel,
    layout: BoardLayout,
    ev: InputEvent,
    started: bool,
) -> BoardModel {
    match ev {
        InputEvent::Axis(axis, positive) => if !started {
            m.move_selection(axis, positive)
        } else {
            m
        },
        InputEvent::Button(b, pos) => match pos {
            None => match m.selected {
                Some(p) => match digit_of(b) {
                    Some(d) => m.set_cell(p.0, p.1, d),
                    None => m,
                },
                None => m,
            },
            Some(xy) => if b is Select {
                m.select_at(xy.0 - layout.x, xy.1 - layout.y, layout.size as int)
            } else {
                m
            },
        },
    }
}

/// The playing scene: the puzzle board plus its on-screen layout.
pub struct GameboardScene {
    pub gameboard: Gameboard,
    pub layout: BoardLayout,
}

impl GameboardScene {
    /// Well-formedness: the board model and the layout are both sound.
    pub open spec fn wf(self) -> bool {
        self.gameboard.wf() && self.layout.wf()
    }

    /// A fresh playing scene over an empty board at the standard layout.
    pub fn new(_world: &mut World) -> (r: GameboardScene)
        ensures
            r.wf(),
            r.gameboard@.grid.len() == 81,
            forall|i: int| 0 <= i < 81 ==> r.gameboard@.grid[i] == 0,
            r.gameboard@.selected is None,
            !r.gameboard@.solved,
            r.layout == (BoardLayout { x: 15, y: 15, size: 450 }),
    {
        GameboardScene { gameboard: Gameboard::new(), layout: BoardLayout::standard() }
    }

    /// Takes a raw screen click into board-local space and selects the
    /// cell it lands in; clicks outside the board leave the selection as is.
    pub fn handle_mouse(&mut self, x: i32, y: i32)
        requires
            old(self).wf(),
        ensures
            final(self).wf(),
            final(self).layout == old(self).layout,
            final(self).gameboard@ == old(self).gameboard@.select_at(
                x - old(self).layout.x,
                y - old(self).layout.y,
                old(self).layout.size as int,
            ),
    {
        let lx: i64 = x as i64 - self.layout.x as i64;
        let ly: i64 = y as i64 - self.layout.y as i64;
        let size: i64 = self.layout.size as i64;
        self.gameboard.select_at(lx, ly, size);
    }

    /// Applies one semantic input event to the board, exactly as
    /// `input_step` describes.
    pub fn apply_input(&mut self, ev: InputEvent, started: bool)
        requires
            old(self).wf(),
        ensures
            final(self).wf(),
            final(self).layout == old(self).layout,
            final(self).gameboard@ == input_step(
                old(self).gameboard@,
                old(self).layout,
                ev,
                started,
            ),
    {
        match ev {
            InputEvent::Axis(axis, positive) => {
                if !started {
                    self.gameboard.move_selected_cell(axis, positive);
                }
            },
            InputEvent::Button(button, pos) => match pos {
                None => match self.gameboard.selected_cell {
                    Some(ind) => match button {
                        Button::Num1 => self.gameboard.set(ind, 1),
                        Button::Num2 => self.gameboard.set(ind, 2),
                        Button::Num3 => self.gameboard.set(ind, 3),
                        Button::Num4 => self.gameboard.set(ind, 4),
                        Button::Num5 => self.gameboard.set(ind, 5),
                        Button::Num6 => self.gameboard.set(ind, 6),
                        Button::Num7 => self.gameboard.set(ind, 7),
                        Button::Num8 => self.gameboard.set(ind, 8),
                        Button::Num9 => self.gameboard.set(ind, 9),
                        Button::Select => {},
                    },
                    None => {},
                },
                Some(xy) => match button {
                    Button::Select => self.handle_mouse(xy.0, xy.1),
                    _ => {},
                },
            },
        }
    }
}

impl Scene<World> for GameboardScene {
    open spec fn inv(&self) -> bool {
        self.wf()
    }

    open spec fn done(&self) -> bool {
        self.gameboard@.solved
    }

    open spec fn input_rel(pre: Self, post: Self, ev: InputEvent, started: bool) -> bool {
        post.layout == pre.layout && post.gameboard@ == input_step(
            pre.gameboard@,
            pre.layout,
            ev,
            started,
        )
    }

    fn update(&mut self, _world: &mut World) -> (r: SceneSwitch<Self>)
        ensures
            *final(self) == *old(self),
            !old(self).gameboard@.solved ==> r is Stay,
    {
        if self.gameboard.solved {
            SceneSwitch::Pop
        } else {
            SceneSwitch::Stay
        }
    }

    fn input(&mut self, _world: &mut World, ev: InputEvent, started: bool) {
        self.apply_input(ev, started);
    }

    fn name(&self) -> (r: &'static str)
        ensures
            r@ == "Game Board"@,
    {
        "Game Board"
    }
}

} // verus!
