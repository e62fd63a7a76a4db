//! Data model: players, cells, mini-boards and the whole game state, together
//! with the mathematical view (`BoardView`, `GameView`) that every contract of
//! the rule engine is stated over. All mutation of `GameState` and `MiniBoard`
//! is mediated by the rule engine (`crate::engine`), so that turn alternation
//! and the cached mini-board statuses stay consistent.

use vstd::prelude::*;

verus! {

/// One of the two players. `X` always moves first.
#[derive(Clone, Copy, Debug, PartialEq, Eq, Structural)]
pub enum Player {
    X,
    O,
}

impl Player {
    /// The player who moves after `self`.
    pub open spec fn opponent(self) -> Player {
        if self is X {
            Player::O
        } else {
            Player::X
        }
    }

    /// Returns the other player.
    pub fn other(self) -> (r: Player)
        ensures
            r == self.opponent(),
    {
        match self {
            Player::X => Player::O,
            Player::O => Player::X,
        }
    }
}

/// The cached outcome of one mini-board. `Unclaimed` means play goes on
/// inside it; `Claimed(p)` is terminal; `Drawn` is transient, because a drawn
/// mini-board is reset to empty and `Unclaimed` in the same logical step.
#[derive(Clone, Copy, Debug, PartialEq, Eq, Structural)]
pub enum MiniBoardStatus {
    Unclaimed,
    Claimed(Player),
    Drawn,
}

/// Why a move was rejected. All three conditions leave the game unchanged.
#[derive(Clone, Copy, Debug, PartialEq, Eq, Structural)]
pub enum MoveError {
    /// The board or cell index is not in `0..=8`.
    IndexOutOfRange,
    /// The targeted mini-board is not `Unclaimed`.
    MiniBoardNotPlayable,
    /// The targeted cell already has an occupant.
    CellOccupied,
}

/// What `apply_move` reports back to the caller.
#[derive(Clone, Copy, Debug, PartialEq, Eq, Structural)]
pub enum MoveResult {
    Accepted,
    Rejected(MoveError),
}

/// Mathematical view of one mini-board: its 9 cell occupants in row-major
/// order, and its cached status.
#[verifier::ext_equal]
pub ghost struct BoardView {
    pub cells: Seq<Option<Player>>,
    pub status: MiniBoardStatus,
}

/// Mathematical view of the whole game: the 9 mini-boards in row-major order,
/// and whose turn it is.
#[verifier::ext_equal]
pub ghost struct GameView {
    pub boards: Seq<BoardView>,
    pub turn: Player,
}

/// The 9 empty cells of a fresh (or just reset) mini-board.
pub open spec fn empty_cells() -> Seq<Option<Player>> {
    Seq::new(9, |i: int| None::<Player>)
}

/// A fresh (or just reset) mini-board: all cells empty, status `Unclaimed`.
pub open spec fn empty_board_view() -> BoardView {
    BoardView { cells: empty_cells(), status: MiniBoardStatus::Unclaimed }
}

/// The game as created at startup: 9 empty mini-boards, `X` to move.
pub open spec fn init_view() -> GameView {
    GameView { boards: Seq::new(9, |i: int| empty_board_view()), turn: Player::X }
}

/// A mini-board view is well formed when it holds exactly 9 cells.
pub open spec fn board_wf(b: BoardView) -> bool {
    b.cells.len() == 9
}

/// A game view is well formed when it holds exactly 9 well-formed mini-boards.
pub open spec fn game_wf(g: GameView) -> bool {
    &&& g.boards.len() == 9
    &&& forall|i: int| 0 <= i < 9 ==> board_wf(#[trigger] g.boards[i])
}

/// One 3x3 sub-game: 9 cells in row-major order plus the cached status.
pub struct MiniBoard {
    cells: Vec<Option<Player>>,
    status: MiniBoardStatus,
}

impl View for MiniBoard {
    type V = BoardView;

    closed spec fn view(&self) -> BoardView {
        BoardView { cells: self.cells@, status: self.status }
    }
}

impl MiniBoard {
    /// Well-formedness of the underlying representation.
    pub open spec fn wf(&self) -> bool {
        board_wf(self@)
    }

    /// A fresh mini-board: all 9 cells empty, status `Unclaimed`.
    pub fn new() -> (b: MiniBoard)
        ensures
            b.wf(),
            b@ == empty_board_view(),
    {
        let mut cells: Vec<Option<Player>> = Vec::new();
        let mut i: usize = 0;
        while i < 9
            invariant
                i <= 9,
                cells@.len() == i,
                forall|j: int| 0 <= j < i ==> cells@[j] is None,
            decreases 9 - i,
        {
            cells.push(None);
            i = i + 1;
        }
        let b = MiniBoard { cells, status: MiniBoardStatus::Unclaimed };
        proof {
            assert(b@.cells =~= empty_cells());
            assert(b@ =~= empty_board_view());
        }
        b
    }

    /// A mini-board built from a given cell pattern, status `Unclaimed`.
    /// Intended for callers that want to classify an arbitrary position.
    pub fn from_cells(cells: Vec<Option<Player>>) -> (b: MiniBoard)
        requires
            cells@.len() == 9,
        ensures
            b.wf(),
            b@.cells == cells@,
            b@.status is Unclaimed,
    {
        MiniBoard { cells, status: MiniBoardStatus::Unclaimed }
    }

    /// Read-only access to the 9 cell occupants, for win/draw evaluation and
    /// for rendering.
    pub fn cells(&self) -> (r: &Vec<Option<Player>>)
        ensures
            r@ == self@.cells,
    {
        &self.cells
    }

    /// The cached status of this mini-board.
    pub fn status(&self) -> (st: MiniBoardStatus)
        ensures
            st == self@.status,
    {
        self.status
    }

    /// The occupant of one cell.
    pub fn cell(&self, i: usize) -> (v: Option<Player>)
        requires
            self.wf(),
            i < 9,
        ensures
            v == self@.cells[i as int],
    {
        self.cells[i]
    }

    /// Writes one cell occupant; the status cache is left to the engine.
    pub(crate) fn set_cell(&mut self, i: usize, v: Option<Player>)
        requires
            old(self).wf(),
            i < 9,
        ensures
            final(self).wf(),
            final(self)@.cells == old(self)@.cells.update(i as int, v),
            final(self)@.status == old(self)@.status,
    {
        self.cells[i] = v;
    }

    /// Overwrites the cached status.
    pub(crate) fn set_status(&mut self, st: MiniBoardStatus)
        requires
            old(self).wf(),
        ensures
            final(self).wf(),
            final(self)@.cells == old(self)@.cells,
            final(self)@.status == st,
    {
        self.status = st;
    }
}

/// The whole game: 9 mini-boards in row-major order and the turn marker.
pub struct GameState {
    boards: Vec<MiniBoard>,
    current_turn: Player,
}

impl View for GameState {
    type V = GameView;

    closed spec fn view(&self) -> GameView {
        GameView { boards: self.boards@.map_values(|b: MiniBoard| b@), turn: self.current_turn }
    }
}

impl GameState {
    /// Well-formedness of the underlying representation.
    pub open spec fn wf(&self) -> bool {
        game_wf(self@)
    }

    /// The game as created at startup: every cell empty, every mini-board
    /// `Unclaimed`, `X` to move.
    pub fn new() -> (s: GameState)
        ensures
            s.wf(),
            s@ == init_view(),
    {
        let mut boards: Vec<MiniBoard> = Vec::new();
        let mut i: usize = 0;
        while i < 9
            invariant
                i <= 9,
                boards@.len() == i,
                forall|j: int| 0 <= j < i ==> (#[trigger] boards@[j])@ == empty_board_view(),
            decreases 9 - i,
        {
            boards.push(MiniBoard::new());
            i = i + 1;
        }
        let s = GameState { boards, current_turn: Player::X };
        proof {
            assert(s@.boards =~= init_view().boards);
            assert(s@ =~= init_view());
        }
        s
    }

    /// The player whose turn it is.
    pub fn current_player(&self) -> (p: Player)
        ensures
            p == self@.turn,
    {
        self.current_turn
    }

    /// The occupant of one cell, or `IndexOutOfRange` when either index is
    /// outside `0..=8`. Read-only.
    pub fn occupant_at(&self, board_index: usize, cell_index: usize) -> (r: Result<
        Option<Player>,
        MoveError,
    >)
        requires
            self.wf(),
        ensures
            board_index < 9 && cell_index < 9 ==> r == Ok::<Option<Player>, MoveError>(
                self@.boards[board_index as int].cells[cell_index as int],
            ),
            !(board_index < 9 && cell_index < 9) ==> r == Err::<Option<Player>, MoveError>(
                MoveError::IndexOutOfRange,
            ),
    {
        if board_index >= 9 || cell_index >= 9 {
            Err(MoveError::IndexOutOfRange)
        } else {
            Ok(self.boards[board_index].cell(cell_index))
        }
    }

    /// The cached status of one mini-board, or `IndexOutOfRange` when the
    /// index is outside `0..=8`. Read-only.
    pub fn mini_board_status(&self, board_index: usize) -> (r: Result<MiniBoardStatus, MoveError>)
        requires
            self.wf(),
        ensures
            board_index < 9 ==> r == Ok::<MiniBoardStatus, MoveError>(
                self@.boards[board_index as int].status,
            ),
            board_index >= 9 ==> r == Err::<MiniBoardStatus, MoveError>(MoveError::IndexOutOfRange),
    {
        if board_index >= 9 {
            Err(MoveError::IndexOutOfRange)
        } else {
            Ok(self.boards[board_index].status())
        }
    }

    /// Borrows one mini-board for the engine to inspect or mutate.
    pub(crate) fn board_mut(&mut self, i: usize) -> (b: &mut MiniBoard)
        requires
            old(self).wf(),
            i < 9,
        ensures
            b@ == old(self)@.boards[i as int],
            final(self)@.boards == old(self)@.boards.update(i as int, final(b)@),
            final(self)@.turn == old(self)@.turn,
    {
        &mut self.boards[i]
    }

    /// Hands the turn to the other player.
    pub(crate) fn advance_turn(&mut self)
        ensures
            final(self)@.turn == old(self)@.turn.opponent(),
            final(self)@.boards == old(self)@.boards,
    {
        self.current_turn = self.current_turn.other();
    }
}

} // verus!
