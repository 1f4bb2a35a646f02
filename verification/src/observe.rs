//! Observing and nudging a running Game Boy Tetris session: the captured
//! playfield snapshot, the random walker's action choice, and the
//! press/release bookkeeping around a held button.

use vstd::prelude::*;

verus! {

/// Size of the captured playfield: a 10x20 grid of cells.
pub const BOARD_LEN: usize = 200;

#[derive(Clone, Debug)]
pub struct AiConfig {
    pub seed: Option<u64>,
    pub log_path: Option<String>,
}

/// One frame's view of the emulated game's memory.
#[derive(Clone, Debug)]
pub struct GameObservation {
    pub frame: u64,
    pub board: [u8; BOARD_LEN],
    pub level: u8,
    pub lines: u8,
    pub next_piece: u8,
}

/// How many cells of a board are occupied.
pub open spec fn spec_filled_cells(s: Seq<u8>) -> nat
    decreases s.len(),
{
    if s.len() == 0 {
        0
    } else {
        spec_filled_cells(s.subrange(0, s.len() - 1)) + (if s.last() != 0 {
            1nat
        } else {
            0nat
        })
    }
}

impl GameObservation {
    /// Counts the occupied cells of the captured playfield.
    pub fn filled_cells(&self) -> (r: usize)
        ensures
            r == spec_filled_cells(self.board@),
    {
        let mut count: usize = 0;
        let mut i: usize = 0;
        while i < BOARD_LEN
            invariant
                i <= BOARD_LEN,
                self.board@.len() == BOARD_LEN,
                count <= i,
                count == spec_filled_cells(self.board@.subrange(0, i as int)),
            decreases BOARD_LEN - i,
        {
            proof {
                let p = self.board@.subrange(0, i + 1);
                assert(p.subrange(0, p.len() - 1) =~= self.board@.subrange(0, i as int));
                assert(p.last() == self.board@[i as int]);
            }
            if self.board[i] != 0 {
                count = count + 1;
            }
            i = i + 1;
        }
        proof {
            assert(self.board@.subrange(0, BOARD_LEN as int) =~= self.board@);
        }
        count
    }
}

/// A Game Boy button the walker may hold.
#[derive(Clone, Copy, Debug, PartialEq, Eq, Structural)]
pub enum GbButton {
    Up,
    Down,
    Left,
    Right,
    A,
    B,
    Start,
    Select,
}

/// What the walker does for one frame.
#[derive(Clone, Copy, Debug, PartialEq, Eq, Structural)]
pub enum AiAction {
    Idle,
    Left,
    Right,
    Down,
    Start,
}

impl AiAction {
    /// The button an action holds, if any.
    pub fn button(self) -> (r: Option<GbButton>)
        ensures
            self is Idle ==> r is None,
            self is Left ==> r == Some(GbButton::Left),
            self is Right ==> r == Some(GbButton::Right),
            self is Down ==> r == Some(GbButton::Down),
            self is Start ==> r == Some(GbButton::Start),
    {
        match self {
            AiAction::Idle => None,
            AiAction::Left => Some(GbButton::Left),
            AiAction::Right => Some(GbButton::Right),
            AiAction::Down => Some(GbButton::Down),
            AiAction::Start => Some(GbButton::Start),
        }
    }
}

/// The walker's choice for a uniform draw over a million: a fifth each
/// for left, right and down, the rest idle.  The host draws the number.
pub fn decide_from_roll(roll_millionths: u32) -> (r: AiAction)
    ensures
        roll_millionths < 200_000 ==> r == AiAction::Left,
        200_000 <= roll_millionths < 400_000 ==> r == AiAction::Right,
        400_000 <= roll_millionths < 600_000 ==> r == AiAction::Down,
        600_000 <= roll_millionths ==> r == AiAction::Idle,
{
    if roll_millionths < 200_000 {
        AiAction::Left
    } else if roll_millionths < 400_000 {
        AiAction::Right
    } else if roll_millionths < 600_000 {
        AiAction::Down
    } else {
        AiAction::Idle
    }
}

/// The release/press pair that moves the held button to the desired
/// one: nothing when they already agree, else release the old and press
/// the new.
pub fn hold_transition(held: Option<GbButton>, desired: Option<GbButton>) -> (r: (
    Option<GbButton>,
    Option<GbButton>,
))
    ensures
        desired == held ==> r == (Option::<GbButton>::None, Option::<GbButton>::None),
        desired != held ==> r == (held, desired),
{
    if match (held, desired) {
        (Some(a), Some(b)) => a == b,
        (None, None) => true,
        _ => false,
    } {
        (None, None)
    } else {
        (held, desired)
    }
}

} // verus!
