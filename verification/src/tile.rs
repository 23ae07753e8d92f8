//! One cell as the presentation layer sees it, and what it decides.
//!
//! A [`Tile`] is the description of a cell that is made anew whenever the
//! game changes; a [`TileWidget`] is the lasting state behind it on screen.
//! The functions here decide what has to change on screen and what a press
//! does to the game; drawing and event plumbing are left to the caller.

use crate::game::{outcome_of, MoveOutcome, Ultimate};
use crate::player::Player;
use crate::rules::{after_move, legal, playable};
use vstd::prelude::*;

verus! {

/// Description of one cell: where it is, who holds it, and whether it may
/// be played.
#[derive(Clone, Copy, Debug, PartialEq, Eq)]
pub struct Tile {
    pub coord: usize,
    pub content: Option<Player>,
    pub is_playable: bool,
}

/// The lasting on-screen state of one cell.
#[derive(Clone, Copy, Debug, PartialEq, Eq)]
pub struct TileWidget {
    pub content: Option<Player>,
    pub is_playable: bool,
}

/// What a changed description asks of the screen.
#[derive(Clone, Copy, Debug, PartialEq, Eq)]
pub struct TileUpdate {
    /// The cell has to be drawn again.
    pub repaint: bool,
    /// The cell has to be disabled (`Some(true)`) or enabled
    /// (`Some(false)`); `None` leaves it as it is.
    pub disabled: Option<bool>,
}

/// What a message to a tile led to.
#[derive(Clone, Copy, Debug, PartialEq, Eq)]
pub enum TileMessage {
    /// Nothing happened: the game is as it was.
    Nop,
    /// A move was made and the view has to be built again.
    RequestRebuild(MoveOutcome),
}

/// A pointer event as far as a tile cares about it.
#[derive(Clone, Copy, Debug, PartialEq, Eq)]
pub enum Pointer {
    /// A button went down over the tile.
    Down,
    /// A button came up; `primary` says whether it was the primary one.
    Up { primary: bool },
    /// Anything else.
    Other,
}

/// What a pointer event asks of the widget's surroundings.
#[derive(Clone, Copy, Debug, PartialEq, Eq)]
pub struct PointerReaction {
    /// The new value of the widget's active flag, if it changes.
    pub set_active: Option<bool>,
    /// Whether a press of the primary button is to be reported.
    pub submit: bool,
}

/// A colour as red, green and blue.
#[derive(Clone, Copy, Debug, PartialEq, Eq)]
pub struct Rgb(pub u8, pub u8, pub u8);

/// Describes the cell `coord` with the given content and playability.
pub fn tile(coord: usize, content: Option<Player>, is_playable: bool) -> (t: Tile)
    ensures
        t.coord == coord,
        t.content == content,
        t.is_playable == is_playable,
{
    Tile { coord, content, is_playable }
}

/// The background of a tile in the given condition: darkest when disabled,
/// lightest when enabled and under the pointer.
pub open spec fn background_of(disabled: bool, hot: bool) -> Rgb {
    if disabled {
        Rgb(26, 26, 26)
    } else if hot {
        Rgb(80, 80, 80)
    } else {
        Rgb(40, 40, 40)
    }
}

/// The reaction of a tile to `event`, where `active` and `disabled` are the
/// widget's flags when the event arrives.
pub open spec fn reaction_to(event: Pointer, active: bool, disabled: bool) -> PointerReaction {
    match event {
        Pointer::Down => PointerReaction { set_active: Some(true), submit: false },
        Pointer::Up { primary } => if primary && active && !disabled {
            PointerReaction { set_active: Some(false), submit: true }
        } else {
            PointerReaction { set_active: None, submit: false }
        },
        Pointer::Other => PointerReaction { set_active: None, submit: false },
    }
}

impl Tile {
    /// The widget state that a new tile starts with. Every tile starts out
    /// enabled, whatever its description says; the first change of the
    /// description's playability brings the two in line.
    pub fn build(&self) -> (widget: TileWidget)
        ensures
            widget.content == self.content,
            widget.is_playable,
    {
        TileWidget { content: self.content, is_playable: true }
    }

    /// Brings `widget` up to date with this description, given the previous
    /// description `prev` of the same cell. Only what differs between the
    /// two descriptions is written to the widget and asked of the screen.
    pub fn rebuild(&self, prev: &Tile, widget: &mut TileWidget) -> (update: TileUpdate)
        requires
            self.coord == prev.coord,
        ensures
            final(widget).content == if self.content != prev.content {
                self.content
            } else {
                old(widget).content
            },
            final(widget).is_playable == if self.is_playable != prev.is_playable {
                self.is_playable
            } else {
                old(widget).is_playable
            },
            update.repaint == (self.content != prev.content || self.is_playable
                != prev.is_playable),
            update.disabled == if self.is_playable != prev.is_playable {
                Some(!self.is_playable)
            } else {
                None
            },
    {
        let mut update = TileUpdate { repaint: false, disabled: None };
        if self.content != prev.content {
            widget.content = self.content;
            update.repaint = true;
        }
        if self.is_playable != prev.is_playable {
            widget.is_playable = self.is_playable;
            update.disabled = Some(!self.is_playable);
            update.repaint = true;
        }
        update
    }

    /// Handles the report that a button was pressed on this tile. A press of
    /// the primary button on a tile described as playable is a move of the
    /// local side at this tile's cell, made if and only if it is legal in
    /// `game`. Anything else is ignored and leaves the game as it was.
    pub fn message(&self, primary: bool, game: &mut Ultimate) -> (res: TileMessage)
        requires
            old(game).wf(),
        ensures
            final(game).wf(),
            res is RequestRebuild <==> primary && self.is_playable && legal(
                old(game)@,
                old(game)@.local,
                self.coord as int,
            ),
            match res {
                TileMessage::RequestRebuild(outcome) => {
                    &&& final(game)@ == after_move(
                        old(game)@,
                        old(game)@.local,
                        self.coord as int,
                    )
                    &&& outcome == outcome_of(old(game)@, old(game)@.local, self.coord as int)
                },
                TileMessage::Nop => *final(game) == *old(game),
            },
    {
        if primary && self.is_playable {
            match game.submit_move(self.coord) {
                Ok(outcome) => TileMessage::RequestRebuild(outcome),
                Err(_) => TileMessage::Nop,
            }
        } else {
            TileMessage::Nop
        }
    }
}

impl TileWidget {
    /// What a pointer event does to a tile whose flags are `active` and
    /// `disabled`: a button going down makes it active; the primary button
    /// coming up on an active, enabled tile reports a press and makes it
    /// inactive; nothing else has any effect.
    pub fn on_pointer_event(&self, event: Pointer, active: bool, disabled: bool) -> (reaction:
        PointerReaction)
        ensures
            reaction == reaction_to(event, active, disabled),
    {
        match event {
            Pointer::Down => PointerReaction { set_active: Some(true), submit: false },
            Pointer::Up { primary } => {
                if primary && active && !disabled {
                    PointerReaction { set_active: Some(false), submit: true }
                } else {
                    PointerReaction { set_active: None, submit: false }
                }
            },
            Pointer::Other => PointerReaction { set_active: None, submit: false },
        }
    }

    /// The background colour of a tile that is `disabled` or not and under
    /// the pointer (`hot`) or not.
    pub fn background(&self, disabled: bool, hot: bool) -> (colour: Rgb)
        ensures
            colour == background_of(disabled, hot),
    {
        if disabled {
            Rgb(26, 26, 26)
        } else if hot {
            Rgb(80, 80, 80)
        } else {
            Rgb(40, 40, 40)
        }
    }
}

impl Ultimate {
    /// The description of the cell `coord` in the current state of the game.
    pub fn tile(&self, coord: usize) -> (t: Tile)
        requires
            self.wf(),
        ensures
            t.coord == coord,
            t.content == if coord < 81 {
                self@.board[coord as int]
            } else {
                None
            },
            t.is_playable == playable(self@, coord as int),
    {
        tile(coord, self.cell_content(coord), self.is_playable(coord))
    }
}

} // verus!
