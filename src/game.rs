//! The round: token assignment, the turn state machine, the computer's
//! random move and the replay decision.
//!
//! A round ends only when the board is full, and then in a tie: no line
//! of three is looked for, so `WinCondition::Player` and
//! `WinCondition::Ai` are never reached.
use vstd::prelude::*;
use rand::Rng;
use rand::rngs::ThreadRng;
use crate::action::Action;
use crate::board::{
    Board,
    BoardError,
    Cell,
    empty_board,
    empty_count,
    empty_positions,
    lemma_empty_board_count,
    lemma_empty_positions,
    lemma_fill_one,
};

verus! {

#[verifier::external_type_specification]
#[verifier::external_body]
pub struct ExThreadRng(ThreadRng);

/// Relies on `rand::Rng::gen_range` over `0..n` on a `ThreadRng`: a value
/// in `0..n`; it panics on an empty range, which `n > 0` rules out.
#[verifier::external_body]
fn gen_below(rng: &mut ThreadRng, n: usize) -> (r: usize)
    requires
        n > 0,
    ensures
        r < n,
{
    rng.gen_range(0..n)
}

/// How a round ended.
#[derive(Clone, Copy, Debug, PartialEq, Eq, Structural)]
pub enum WinCondition {
    Tie,
    Player,
    Ai,
}

/// Whose turn it is, or that the round is over.
#[derive(Clone, Copy, Debug, PartialEq, Eq, Structural)]
pub enum State {
    PlayerTurn,
    AiTurn,
    GameOver(WinCondition),
}

/// What came of one step, for the terminal to report.
#[derive(Clone, Copy, Debug, PartialEq, Eq, Structural)]
pub enum Reply {
    /// A token went into this cell.
    Placed(usize),
    /// The typed index is off the board or its cell is taken.
    InvalidPosition,
    /// The input means nothing in this state.
    Ignored,
    /// The board was cleared and a new round set up.
    NewRound,
    /// The game loop is to end.
    Stopped,
}

/// Why the computer could not move.
#[derive(Clone, Copy, Debug, PartialEq, Eq, Structural)]
pub enum TurnError {
    NotAiTurn,
    NoEmptyCell,
    PickOutOfRange,
}

/// How a cell or a banner is to be shown.
#[derive(Clone, Copy, Debug, PartialEq, Eq, Structural)]
pub enum Look {
    PlayerMark,
    AiMark,
    CellIndex,
    TieBanner,
    PlayerWonBanner,
    AiWonBanner,
}

pub open spec fn is_token(c: Cell) -> bool {
    c == Cell::X || c == Cell::O
}

/// The (player, computer) tokens that a roll in 0..100 gives.
pub open spec fn roll_tokens(roll: int) -> (Cell, Cell) {
    if roll < 50 {
        (Cell::X, Cell::O)
    } else {
        (Cell::O, Cell::X)
    }
}

/// The token that moves first for a roll in 0..100.
pub open spec fn roll_starter(roll: int) -> Cell {
    if roll < 50 {
        Cell::X
    } else {
        Cell::O
    }
}

/// The first state of a round: the player's turn when the starting token
/// is the player's.
pub open spec fn opening_state(player: Cell, starter: Cell) -> State {
    if starter == player {
        State::PlayerTurn
    } else {
        State::AiTurn
    }
}

/// The state after a placement that left `tiles` empty cells: a tie once
/// none is left, else `next`.
pub open spec fn after_move(tiles: int, next: State) -> State {
    if tiles == 0 {
        State::GameOver(WinCondition::Tie)
    } else {
        next
    }
}

/// The tokens for a roll in 0..100: the player gets X below 50, else O.
pub fn tokens_for_roll(roll: usize) -> (r: (Cell, Cell))
    ensures
        r == roll_tokens(roll as int),
{
    if roll < 50 {
        (Cell::X, Cell::O)
    } else {
        (Cell::O, Cell::X)
    }
}

/// Draws the (player, computer) tokens with an even chance.
pub fn pick_tokens(rng: &mut ThreadRng) -> (r: (Cell, Cell))
    ensures
        is_token(r.0),
        is_token(r.1),
        r.0 != r.1,
{
    tokens_for_roll(gen_below(rng, 100))
}

/// The starting token for a roll in 0..100: X below 50, else O.
pub fn starter_for_roll(roll: usize) -> (r: Cell)
    ensures
        r == roll_starter(roll as int),
{
    if roll < 50 {
        Cell::X
    } else {
        Cell::O
    }
}

/// Draws the token that moves first, with an even chance.
pub fn pick_starter(rng: &mut ThreadRng) -> (r: Cell)
    ensures
        is_token(r),
{
    starter_for_roll(gen_below(rng, 100))
}

/// The letter shown for a side's token.
pub fn token_glyph(token: Cell) -> (r: &'static str)
    ensures
        token == Cell::X ==> r@ == "X"@,
        token != Cell::X ==> r@ == "O"@,
{
    if token == Cell::X {
        "X"
    } else {
        "O"
    }
}

/// The banner look of an outcome.
pub fn banner_look(outcome: WinCondition) -> (r: Look)
    ensures
        outcome == WinCondition::Tie ==> r == Look::TieBanner,
        outcome == WinCondition::Player ==> r == Look::PlayerWonBanner,
        outcome == WinCondition::Ai ==> r == Look::AiWonBanner,
{
    match outcome {
        WinCondition::Tie => Look::TieBanner,
        WinCondition::Player => Look::PlayerWonBanner,
        WinCondition::Ai => Look::AiWonBanner,
    }
}

/// A game: the board, the round's tokens, the count of empty cells, the
/// state of the turn machine and whether the loop goes on.
pub struct Game {
    pub board: Board,
    pub player: Cell,
    pub ai: Cell,
    pub available_tiles: usize,
    pub state: State,
    pub running: bool,
}

/// `b` differs from `a` at most in `running`.
pub open spec fn same_play(a: Game, b: Game) -> bool {
    &&& b.board@ == a.board@
    &&& b.player == a.player
    &&& b.ai == a.ai
    &&& b.available_tiles == a.available_tiles
    &&& b.state == a.state
}

/// `g` is a fresh round for the given rolls.
pub open spec fn fresh_round(g: Game, token_roll: int, starter_roll: int) -> bool {
    &&& g.board@ == empty_board()
    &&& (g.player, g.ai) == roll_tokens(token_roll)
    &&& g.available_tiles == 9
    &&& g.state == opening_state(g.player, roll_starter(starter_roll))
}

/// `b` is `a` after `token` went into the empty cell `index`, and
/// the turn went to `next` (or the round ended in a tie).
pub open spec fn placed(a: Game, b: Game, index: int, token: Cell, next: State) -> bool {
    &&& 0 <= index < 9
    &&& a.board@[index] == Cell::Empty
    &&& b.board@ == a.board@.update(index, token)
    &&& b.available_tiles == a.available_tiles - 1
    &&& b.state == after_move(b.available_tiles as int, next)
    &&& b.player == a.player
    &&& b.ai == a.ai
    &&& b.running == a.running
}

/// What one typed action does, with the rolls used when a new round starts.
pub open spec fn input_effect(
    a: Game,
    b: Game,
    action: Action,
    token_roll: int,
    starter_roll: int,
    r: Reply,
) -> bool {
    if action == Action::Quit || (a.state is GameOver && action == Action::No) {
        same_play(a, b) && !b.running && r == Reply::Stopped
    } else if a.state is GameOver && action == Action::Yes {
        fresh_round(b, token_roll, starter_roll) && b.running == a.running && r
            == Reply::NewRound
    } else if a.state == State::PlayerTurn && action is Place {
        let i = action->Place_0 as int;
        if 0 <= i < 9 && a.board@[i] == Cell::Empty {
            placed(a, b, i, a.player, State::AiTurn) && r == Reply::Placed(i as usize)
        } else {
            same_play(a, b) && b.running == a.running && r == Reply::InvalidPosition
        }
    } else {
        same_play(a, b) && b.running == a.running && r == Reply::Ignored
    }
}

impl Game {
    /// The tokens are X and O, one for each side; `available_tiles` is
    /// the number of empty cells; a board with no empty cell has ended
    /// the round in a tie.
    pub open spec fn wf(&self) -> bool {
        &&& self.board.wf()
        &&& is_token(self.player)
        &&& is_token(self.ai)
        &&& self.player != self.ai
        &&& self.available_tiles == empty_count(self.board@)
        &&& self.available_tiles == 0 ==> self.state == State::GameOver(WinCondition::Tie)
    }

    /// A running game at the start of a round, set up from two rolls in 0..100.
    pub fn start(token_roll: usize, starter_roll: usize) -> (r: Game)
        ensures
            r.wf(),
            fresh_round(r, token_roll as int, starter_roll as int),
            r.running,
    {
        let (player, ai) = tokens_for_roll(token_roll);
        let starter = starter_for_roll(starter_roll);
        let state = if starter == player {
            State::PlayerTurn
        } else {
            State::AiTurn
        };
        proof {
            lemma_empty_board_count();
        }
        Game { board: Board::new(), player, ai, available_tiles: 9, state, running: true }
    }

    /// A running game at the start of a round, with tokens and starting
    /// side drawn at random.
    pub fn new(rng: &mut ThreadRng) -> (r: Game)
        ensures
            r.wf(),
            r.running,
            r.board@ == empty_board(),
            r.available_tiles == 9,
            r.state == State::PlayerTurn || r.state == State::AiTurn,
    {
        let token_roll = gen_below(rng, 100);
        let starter_roll = gen_below(rng, 100);
        Game::start(token_roll, starter_roll)
    }

    /// Clears the board and sets up a new round from two rolls in 0..100.
    pub fn new_round(&mut self, token_roll: usize, starter_roll: usize)
        requires
            old(self).wf(),
        ensures
            final(self).wf(),
            fresh_round(*final(self), token_roll as int, starter_roll as int),
            final(self).running == old(self).running,
    {
        self.board.reset();
        let (player, ai) = tokens_for_roll(token_roll);
        self.player = player;
        self.ai = ai;
        self.available_tiles = 9;
        let starter = starter_for_roll(starter_roll);
        self.state = if starter == player {
            State::PlayerTurn
        } else {
            State::AiTurn
        };
        proof {
            lemma_empty_board_count();
        }
    }

    /// Puts `token` in the empty cell `index` and hands the turn to `next`,
    /// or ends the round in a tie when no empty cell is left.
    fn fill(&mut self, index: usize, token: Cell, next: State)
        requires
            old(self).wf(),
            index < 9,
            old(self).board@[index as int] == Cell::Empty,
            token == old(self).player || token == old(self).ai,
        ensures
            final(self).wf(),
            placed(*old(self), *final(self), index as int, token, next),
    {
        proof {
            lemma_fill_one(self.board@, index as int, token);
        }
        let _ = self.board.set(index, token);
        self.available_tiles = self.available_tiles - 1;
        self.state = if self.available_tiles == 0 {
            State::GameOver(WinCondition::Tie)
        } else {
            next
        };
    }

    /// Applies one typed action: a placement on the player's turn, a
    /// replay answer when the round is over, and `quit` at any time.
    pub fn on_input(&mut self, action: Action, token_roll: usize, starter_roll: usize) -> (r:
        Reply)
        requires
            old(self).wf(),
        ensures
            final(self).wf(),
            input_effect(*old(self), *final(self), action, token_roll as int, starter_roll as int, r),
    {
        match self.state {
            State::PlayerTurn => match action {
                Action::Place(i) => {
                    if 0 <= i && i < 9 && matches!(self.board.get(i as usize), Ok(Cell::Empty)) {
                        let p = self.player;
                        self.fill(i as usize, p, State::AiTurn);
                        Reply::Placed(i as usize)
                    } else {
                        Reply::InvalidPosition
                    }
                },
                Action::Quit => {
                    self.running = false;
                    Reply::Stopped
                },
                _ => Reply::Ignored,
            },
            State::AiTurn => match action {
                Action::Quit => {
                    self.running = false;
                    Reply::Stopped
                },
                _ => Reply::Ignored,
            },
            State::GameOver(_) => match action {
                Action::Yes => {
                    self.new_round(token_roll, starter_roll);
                    Reply::NewRound
                },
                Action::No | Action::Quit => {
                    self.running = false;
                    Reply::Stopped
                },
                _ => Reply::Ignored,
            },
        }
    }

    /// Applies one typed action as `on_input` does, drawing the new
    /// round's tokens and starting side at random on a replay.
    pub fn play_input(&mut self, action: Action, rng: &mut ThreadRng) -> (r: Reply)
        requires
            old(self).wf(),
        ensures
            final(self).wf(),
            !(old(self).state is GameOver && action == Action::Yes) ==> input_effect(
                *old(self),
                *final(self),
                action,
                0,
                0,
                r,
            ),
            old(self).state is GameOver && action == Action::Yes ==> {
                &&& r == Reply::NewRound
                &&& final(self).board@ == empty_board()
                &&& final(self).available_tiles == 9
                &&& (final(self).state == State::PlayerTurn || final(self).state == State::AiTurn)
                &&& final(self).running == old(self).running
            },
    {
        if matches!(self.state, State::GameOver(_)) && action == Action::Yes {
            let token_roll = gen_below(rng, 100);
            let starter_roll = gen_below(rng, 100);
            self.on_input(action, token_roll, starter_roll)
        } else {
            self.on_input(action, 0, 0)
        }
    }

    /// The computer's move with `pick` chosen among the empty cells in
    /// increasing order of index: its token goes into the `pick`-th empty cell.
    pub fn ai_place(&mut self, pick: usize) -> (r: Result<usize, TurnError>)
        requires
            old(self).wf(),
        ensures
            final(self).wf(),
            old(self).state != State::AiTurn ==> r == Err::<usize, TurnError>(TurnError::NotAiTurn),
            old(self).state == State::AiTurn && pick >= empty_count(old(self).board@) ==> r
                == Err::<usize, TurnError>(TurnError::PickOutOfRange),
            old(self).state == State::AiTurn && pick < empty_count(old(self).board@) ==> r
                == Ok::<usize, TurnError>(empty_positions(old(self).board@)[pick as int]),
            r is Err ==> same_play(*old(self), *final(self)) && final(self).running == old(
                self,
            ).running,
            r matches Ok(i) ==> placed(
                *old(self),
                *final(self),
                i as int,
                old(self).ai,
                State::PlayerTurn,
            ),
    {
        if self.state != State::AiTurn {
            return Err(TurnError::NotAiTurn);
        }
        let open = self.board.empty_indices();
        proof {
            lemma_empty_positions(self.board@);
        }
        if open.len() == 0 {
            return Err(TurnError::NoEmptyCell);
        }
        if pick >= open.len() {
            return Err(TurnError::PickOutOfRange);
        }
        let index = open[pick];
        let a = self.ai;
        self.fill(index, a, State::PlayerTurn);
        Ok(index)
    }

    /// The computer's move: a cell drawn with equal chance among the
    /// empty ones gets its token.
    pub fn ai_turn(&mut self, rng: &mut ThreadRng) -> (r: Result<usize, TurnError>)
        requires
            old(self).wf(),
        ensures
            final(self).wf(),
            old(self).state != State::AiTurn ==> r == Err::<usize, TurnError>(TurnError::NotAiTurn),
            old(self).state == State::AiTurn ==> r is Ok,
            r is Err ==> same_play(*old(self), *final(self)) && final(self).running == old(
                self,
            ).running,
            r matches Ok(i) ==> placed(
                *old(self),
                *final(self),
                i as int,
                old(self).ai,
                State::PlayerTurn,
            ),
    {
        if self.state != State::AiTurn {
            return Err(TurnError::NotAiTurn);
        }
        let n = self.board.count_empty();
        if n == 0 {
            return Err(TurnError::NoEmptyCell);
        }
        let pick = gen_below(rng, n);
        self.ai_place(pick)
    }

    /// How cell `index` is to be shown: the player's mark, the computer's
    /// mark, or its index when empty.
    pub fn cell_look(&self, index: usize) -> (r: Result<Look, BoardError>)
        requires
            self.wf(),
        ensures
            index >= 9 ==> r == Err::<Look, BoardError>(BoardError::OutOfRange),
            index < 9 && self.board@[index as int] == self.player ==> r == Ok::<Look, BoardError>(
                Look::PlayerMark,
            ),
            index < 9 && self.board@[index as int] == self.ai ==> r == Ok::<Look, BoardError>(
                Look::AiMark,
            ),
            index < 9 && self.board@[index as int] == Cell::Empty ==> r == Ok::<Look, BoardError>(
                Look::CellIndex,
            ),
    {
        match self.board.get(index) {
            Ok(c) => if c == self.player {
                Ok(Look::PlayerMark)
            } else if c == self.ai {
                Ok(Look::AiMark)
            } else {
                Ok(Look::CellIndex)
            },
            Err(e) => Err(e),
        }
    }
}

} // verus!
