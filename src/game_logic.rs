use vstd::prelude::*;

verus! {

/// A square's occupant, or a piece of one side.
///
/// `Engineer` up to `FieldMarshal` are ranked, in that order; the other
/// variants are handled by rule. Each variant has a fixed integer code
/// (see [`Piece::code`]), which is also what a board stores.
#[derive(Clone, Copy, Debug, PartialEq, Eq, Structural)]
pub enum Piece {
    Empty,
    Flag,
    Bomb,
    Landmine,
    Engineer,
    Lieutenant,
    Captain,
    Major,
    Colonel,
    Brigadier,
    MajorGeneral,
    General,
    FieldMarshal,
    Unchanged,
    Opponent,
}

/// The integer code of a piece on the wire and on a board.
pub open spec fn piece_code(p: Piece) -> u64 {
    match p {
        Piece::Empty => 0,
        Piece::Flag => 1,
        Piece::Bomb => 2,
        Piece::Landmine => 3,
        Piece::Engineer => 4,
        Piece::Lieutenant => 5,
        Piece::Captain => 6,
        Piece::Major => 7,
        Piece::Colonel => 8,
        Piece::Brigadier => 9,
        Piece::MajorGeneral => 10,
        Piece::General => 11,
        Piece::FieldMarshal => 12,
        Piece::Unchanged => 15,
        Piece::Opponent => 16,
    }
}

/// Whether `c` is the code of some piece.
pub open spec fn is_piece_code(c: u64) -> bool {
    c <= 12 || c == 15 || c == 16
}

/// The piece whose code is `c`; `Empty` where `c` is no piece's code.
pub open spec fn piece_of_code(c: u64) -> Piece {
    if c == 1 {
        Piece::Flag
    } else if c == 2 {
        Piece::Bomb
    } else if c == 3 {
        Piece::Landmine
    } else if c == 4 {
        Piece::Engineer
    } else if c == 5 {
        Piece::Lieutenant
    } else if c == 6 {
        Piece::Captain
    } else if c == 7 {
        Piece::Major
    } else if c == 8 {
        Piece::Colonel
    } else if c == 9 {
        Piece::Brigadier
    } else if c == 10 {
        Piece::MajorGeneral
    } else if c == 11 {
        Piece::General
    } else if c == 12 {
        Piece::FieldMarshal
    } else if c == 15 {
        Piece::Unchanged
    } else if c == 16 {
        Piece::Opponent
    } else {
        Piece::Empty
    }
}

/// Decoding a piece's code gives the piece back, and every piece has a
/// valid code.
pub proof fn lemma_piece_code_round_trip(p: Piece)
    ensures
        is_piece_code(piece_code(p)),
        piece_of_code(piece_code(p)) == p,
{
}

impl Piece {
    /// The integer code of this piece.
    pub fn code(self) -> (c: u64)
        ensures
            c == piece_code(self),
    {
        match self {
            Piece::Empty => 0,
            Piece::Flag => 1,
            Piece::Bomb => 2,
            Piece::Landmine => 3,
            Piece::Engineer => 4,
            Piece::Lieutenant => 5,
            Piece::Captain => 6,
            Piece::Major => 7,
            Piece::Colonel => 8,
            Piece::Brigadier => 9,
            Piece::MajorGeneral => 10,
            Piece::General => 11,
            Piece::FieldMarshal => 12,
            Piece::Unchanged => 15,
            Piece::Opponent => 16,
        }
    }

    /// The piece with code `c`, or `None` where `c` is no piece's code.
    pub fn from_repr(c: u64) -> (r: Option<Piece>)
        ensures
            r is Some <==> is_piece_code(c),
            r is Some ==> r->0 == piece_of_code(c) && piece_code(r->0) == c,
    {
        match c {
            0 => Some(Piece::Empty),
            1 => Some(Piece::Flag),
            2 => Some(Piece::Bomb),
            3 => Some(Piece::Landmine),
            4 => Some(Piece::Engineer),
            5 => Some(Piece::Lieutenant),
            6 => Some(Piece::Captain),
            7 => Some(Piece::Major),
            8 => Some(Piece::Colonel),
            9 => Some(Piece::Brigadier),
            10 => Some(Piece::MajorGeneral),
            11 => Some(Piece::General),
            12 => Some(Piece::FieldMarshal),
            15 => Some(Piece::Unchanged),
            16 => Some(Piece::Opponent),
            _ => None,
        }
    }
}

/// The outcome of a move, from the mover's side.
#[derive(Clone, Copy, Debug, PartialEq, Eq, Structural)]
pub enum AttackResult {
    SimpleMove,
    Win,
    Draw,
    Lose,
}

/// The integer code of an attack result on the wire.
pub open spec fn attack_result_code(r: AttackResult) -> u32 {
    match r {
        AttackResult::SimpleMove => 0,
        AttackResult::Win => 1,
        AttackResult::Draw => 2,
        AttackResult::Lose => 3,
    }
}

impl AttackResult {
    /// The integer code of this result.
    pub fn code(self) -> (c: u32)
        ensures
            c == attack_result_code(self),
    {
        match self {
            AttackResult::SimpleMove => 0,
            AttackResult::Win => 1,
            AttackResult::Draw => 2,
            AttackResult::Lose => 3,
        }
    }

    /// The result with code `c`, or `None` where `c` is no result's code.
    pub fn from_repr(c: u32) -> (r: Option<AttackResult>)
        ensures
            r is Some <==> c <= 3,
            r is Some ==> attack_result_code(r->0) == c,
    {
        match c {
            0 => Some(AttackResult::SimpleMove),
            1 => Some(AttackResult::Win),
            2 => Some(AttackResult::Draw),
            3 => Some(AttackResult::Lose),
            _ => None,
        }
    }
}

/// What a player knows of one of their own pieces, and, when that piece is
/// the field marshal, where their flag stands.
#[derive(Clone, Copy, Debug, PartialEq, Eq, Structural)]
pub struct PieceInfo {
    pub piece: Piece,
    pub flag_x: Option<u32>,
    pub flag_y: Option<u32>,
}

/// The origin and destination of a move.
#[derive(Clone, Copy, Debug, PartialEq, Eq, Structural)]
pub struct MovePos {
    pub x: u32,
    pub y: u32,
    pub target_x: u32,
    pub target_y: u32,
}

/// The adjudicated result of a move, sent to both players.
///
/// `flag_*` reveals the mover's flag when the mover's field marshal died,
/// `opp_flag_*` the defender's when the defender's did. `game_winner` is 2
/// when the mover lost their flag, 1 when the defender did, 0 otherwise.
#[derive(Clone, Copy, Debug, PartialEq, Eq, Structural)]
pub struct PieceMove {
    pub x: u32,
    pub y: u32,
    pub target_x: u32,
    pub target_y: u32,
    pub attack_result: AttackResult,
    pub flag_x: Option<u32>,
    pub flag_y: Option<u32>,
    pub opp_flag_x: Option<u32>,
    pub opp_flag_y: Option<u32>,
    pub game_winner: u32,
}

/// The outcome of `attacker` moving onto `defender`; the first rule that
/// applies decides.
pub open spec fn attack_outcome(attacker: Piece, defender: Piece) -> AttackResult {
    if defender == Piece::Empty {
        AttackResult::SimpleMove
    } else if attacker == Piece::Bomb || defender == Piece::Bomb {
        AttackResult::Draw
    } else if defender == Piece::Landmine {
        if attacker == Piece::Engineer {
            AttackResult::Win
        } else {
            AttackResult::Lose
        }
    } else if piece_code(attacker) > piece_code(defender) {
        AttackResult::Win
    } else if attacker == defender {
        AttackResult::Draw
    } else {
        AttackResult::Lose
    }
}

/// The mover's piece that leaves the board, or `Empty`.
pub open spec fn attacker_victim(attacker: Piece, defender: Piece) -> Piece {
    match attack_outcome(attacker, defender) {
        AttackResult::Draw | AttackResult::Lose => attacker,
        _ => Piece::Empty,
    }
}

/// The defender's piece that leaves the board, or `Empty`.
pub open spec fn defender_victim(attacker: Piece, defender: Piece) -> Piece {
    match attack_outcome(attacker, defender) {
        AttackResult::Win | AttackResult::Draw => defender,
        _ => Piece::Empty,
    }
}

/// 2 when the mover's flag leaves the board, else 1 when the defender's
/// does, else 0.
pub open spec fn winner_of(attacker: Piece, defender: Piece) -> u32 {
    if attacker_victim(attacker, defender) == Piece::Flag {
        2
    } else if defender_victim(attacker, defender) == Piece::Flag {
        1
    } else {
        0
    }
}

/// A flag coordinate that is revealed only when `victim` is the field marshal.
pub open spec fn revealed(victim: Piece, coord: Option<u32>) -> Option<u32> {
    if victim == Piece::FieldMarshal {
        coord
    } else {
        None
    }
}

/// The full adjudication of a move.
pub open spec fn adjudication(attacker: PieceInfo, target: PieceInfo, move_pos: MovePos) -> PieceMove {
    let victim = attacker_victim(attacker.piece, target.piece);
    let opp_victim = defender_victim(attacker.piece, target.piece);
    PieceMove {
        x: move_pos.x,
        y: move_pos.y,
        target_x: move_pos.target_x,
        target_y: move_pos.target_y,
        attack_result: attack_outcome(attacker.piece, target.piece),
        flag_x: revealed(victim, attacker.flag_x),
        flag_y: revealed(victim, attacker.flag_y),
        opp_flag_x: revealed(opp_victim, target.flag_x),
        opp_flag_y: revealed(opp_victim, target.flag_y),
        game_winner: winner_of(attacker.piece, target.piece),
    }
}

/// Adjudicates the mover's piece `attacker` moving as `move_pos` onto the
/// square that holds `target`.
pub fn compare_piece(attacker: PieceInfo, target: PieceInfo, move_pos: MovePos) -> (r: PieceMove)
    ensures
        r == adjudication(attacker, target, move_pos),
{
    let attack_result: AttackResult;
    let mut victim = Piece::Empty;
    let mut opp_victim = Piece::Empty;
    let mut flag_x = None;
    let mut flag_y = None;
    let mut opp_flag_x = None;
    let mut opp_flag_y = None;
    let mut game_winner: u32 = 0;

    if target.piece == Piece::Empty {
        attack_result = AttackResult::SimpleMove;
    } else if attacker.piece == Piece::Bomb || target.piece == Piece::Bomb {
        attack_result = AttackResult::Draw;
    } else if target.piece == Piece::Landmine {
        if attacker.piece == Piece::Engineer {
            attack_result = AttackResult::Win;
        } else {
            attack_result = AttackResult::Lose;
        }
    } else if attacker.piece.code() > target.piece.code() {
        attack_result = AttackResult::Win;
    } else if attacker.piece == target.piece {
        attack_result = AttackResult::Draw;
    } else {
        attack_result = AttackResult::Lose;
    }

    match attack_result {
        AttackResult::Win => {
            opp_victim = target.piece;
        },
        AttackResult::Draw => {
            opp_victim = target.piece;
            victim = attacker.piece;
        },
        AttackResult::Lose => {
            victim = attacker.piece;
        },
        _ => {},
    }

    if victim == Piece::FieldMarshal {
        flag_x = attacker.flag_x;
        flag_y = attacker.flag_y;
    }
    if opp_victim == Piece::FieldMarshal {
        opp_flag_x = target.flag_x;
        opp_flag_y = target.flag_y;
    }

    if victim == Piece::Flag {
        game_winner = 2;
    } else if opp_victim == Piece::Flag {
        game_winner = 1;
    }

    PieceMove {
        x: move_pos.x,
        y: move_pos.y,
        target_x: move_pos.target_x,
        target_y: move_pos.target_y,
        attack_result,
        flag_x,
        flag_y,
        opp_flag_x,
        opp_flag_y,
        game_winner,
    }
}

/// The adjudication is a function of the two pieces, their flag
/// coordinates and the move alone: equal inputs give equal results.
pub proof fn lemma_adjudication_deterministic(
    attacker1: PieceInfo,
    target1: PieceInfo,
    move1: MovePos,
    attacker2: PieceInfo,
    target2: PieceInfo,
    move2: MovePos,
)
    requires
        attacker1.piece == attacker2.piece,
        attacker1.flag_x == attacker2.flag_x,
        attacker1.flag_y == attacker2.flag_y,
        target1.piece == target2.piece,
        target1.flag_x == target2.flag_x,
        target1.flag_y == target2.flag_y,
        move1 == move2,
    ensures
        adjudication(attacker1, target1, move1) == adjudication(attacker2, target2, move2),
{
}

/// A move is a simple move exactly when the target square is empty.
pub proof fn lemma_simple_move_iff_empty(attacker: PieceInfo, target: PieceInfo, move_pos: MovePos)
    ensures
        (adjudication(attacker, target, move_pos).attack_result == AttackResult::SimpleMove)
            <==> target.piece == Piece::Empty,
{
}

/// Flags are revealed by result: on a win only the defender's, when the
/// defender was the field marshal; on a draw each side's under the same
/// condition on its own piece; on a loss only the mover's, when the mover
/// was the field marshal; on a simple move neither.
pub proof fn lemma_flag_reveal(attacker: PieceInfo, target: PieceInfo, move_pos: MovePos)
    ensures
        ({
            let r = adjudication(attacker, target, move_pos);
            let mover_fm = attacker.piece == Piece::FieldMarshal;
            let defender_fm = target.piece == Piece::FieldMarshal;
            &&& r.attack_result == AttackResult::Win ==> {
                &&& r.flag_x is None && r.flag_y is None
                &&& r.opp_flag_x == (if defender_fm { target.flag_x } else { None })
                &&& r.opp_flag_y == (if defender_fm { target.flag_y } else { None })
            }
            &&& r.attack_result == AttackResult::Draw ==> {
                &&& r.flag_x == (if mover_fm { attacker.flag_x } else { None })
                &&& r.flag_y == (if mover_fm { attacker.flag_y } else { None })
                &&& r.opp_flag_x == (if defender_fm { target.flag_x } else { None })
                &&& r.opp_flag_y == (if defender_fm { target.flag_y } else { None })
            }
            &&& r.attack_result == AttackResult::Lose ==> {
                &&& r.flag_x == (if mover_fm { attacker.flag_x } else { None })
                &&& r.flag_y == (if mover_fm { attacker.flag_y } else { None })
                &&& r.opp_flag_x is None && r.opp_flag_y is None
            }
            &&& r.attack_result == AttackResult::SimpleMove ==> {
                &&& r.flag_x is None && r.flag_y is None
                &&& r.opp_flag_x is None && r.opp_flag_y is None
            }
        }),
{
}

/// A winner is declared only when a flag left the board: 2 when the mover's
/// own flag was lost (a draw or a loss), 1 when the defender's flag was
/// captured or traded (a win or a draw).
pub proof fn lemma_winner_needs_lost_flag(attacker: PieceInfo, target: PieceInfo, move_pos: MovePos)
    ensures
        ({
            let r = adjudication(attacker, target, move_pos);
            &&& r.game_winner <= 2
            &&& r.game_winner == 2 ==> attacker.piece == Piece::Flag && (r.attack_result
                == AttackResult::Draw || r.attack_result == AttackResult::Lose)
            &&& r.game_winner == 1 ==> target.piece == Piece::Flag && (r.attack_result
                == AttackResult::Win || r.attack_result == AttackResult::Draw)
        }),
{
}

} // verus!
