use vstd::prelude::*;

use crate::game_logic::{Piece, PieceMove};

verus! {

/// A message between a player and the arbiter. Player and arbiter
/// identities are their public addresses as text.
#[derive(Clone, Debug, PartialEq, Eq)]
pub enum GameMessage {
    /// The other player's connection closed.
    OpponentDisconnected { game_id: u64 },
    /// The sender is ready to play.
    Ready { game_id: u64 },
    /// Both players are ready; `turn` moves first.
    GameStart { game_id: u64, turn: String },
    Hello { game_id: u64 },
    /// Sent on connection: the match, the arbiter and who plays which side.
    Role { game_id: u64, arbiter: String, player1: String, player2: String },
    /// The mover's move and the piece it moves; the flag's square is given
    /// when that piece is the field marshal.
    Move {
        piece: Piece,
        x: u32,
        y: u32,
        target_x: u32,
        target_y: u32,
        flag_x: Option<u32>,
        flag_y: Option<u32>,
    },
    /// The move the opponent made, without its piece.
    PiecePos { x: u32, y: u32, target_x: u32, target_y: u32 },
    /// The defender's piece on the target square; the flag's square is
    /// given when that piece is the field marshal.
    Whisper { piece: Piece, x: u32, y: u32, flag_x: Option<u32>, flag_y: Option<u32> },
    /// The adjudicated move, sent to both players.
    MoveResult(PieceMove),
}

/// A [`GameMessage`] with its text fields as character sequences.
pub enum MessageView {
    OpponentDisconnected { game_id: u64 },
    Ready { game_id: u64 },
    GameStart { game_id: u64, turn: Seq<char> },
    Hello { game_id: u64 },
    Role { game_id: u64, arbiter: Seq<char>, player1: Seq<char>, player2: Seq<char> },
    Move {
        piece: Piece,
        x: u32,
        y: u32,
        target_x: u32,
        target_y: u32,
        flag_x: Option<u32>,
        flag_y: Option<u32>,
    },
    PiecePos { x: u32, y: u32, target_x: u32, target_y: u32 },
    Whisper { piece: Piece, x: u32, y: u32, flag_x: Option<u32>, flag_y: Option<u32> },
    MoveResult(PieceMove),
}

impl View for GameMessage {
    type V = MessageView;

    open spec fn view(&self) -> MessageView {
        match *self {
            GameMessage::OpponentDisconnected { game_id } => MessageView::OpponentDisconnected {
                game_id,
            },
            GameMessage::Ready { game_id } => MessageView::Ready { game_id },
            GameMessage::GameStart { game_id, turn } => MessageView::GameStart {
                game_id,
                turn: turn@,
            },
            GameMessage::Hello { game_id } => MessageView::Hello { game_id },
            GameMessage::Role { game_id, arbiter, player1, player2 } => MessageView::Role {
                game_id,
                arbiter: arbiter@,
                player1: player1@,
                player2: player2@,
            },
            GameMessage::Move { piece, x, y, target_x, target_y, flag_x, flag_y } => MessageView::Move {
                piece,
                x,
                y,
                target_x,
                target_y,
                flag_x,
                flag_y,
            },
            GameMessage::PiecePos { x, y, target_x, target_y } => MessageView::PiecePos {
                x,
                y,
                target_x,
                target_y,
            },
            GameMessage::Whisper { piece, x, y, flag_x, flag_y } => MessageView::Whisper {
                piece,
                x,
                y,
                flag_x,
                flag_y,
            },
            GameMessage::MoveResult(m) => MessageView::MoveResult(m),
        }
    }
}

/// The column that stands on the wire for "no flag square".
pub const NO_FLAG_X: u32 = 5;

/// The row that stands on the wire for "no flag square".
pub const NO_FLAG_Y: u32 = 12;

/// Flag coordinates as the model holds them: the sentinel square stands
/// for none given.
pub open spec fn flag_coords(flag_x: Option<u32>, flag_y: Option<u32>) -> (Option<u32>, Option<u32>) {
    if flag_x == Some(NO_FLAG_X) && flag_y == Some(NO_FLAG_Y) {
        (None, None)
    } else {
        (flag_x, flag_y)
    }
}

/// Reads flag coordinates off the wire, where "none" may come either as
/// absent fields or as the sentinel square.
pub fn normalize_flag(flag_x: Option<u32>, flag_y: Option<u32>) -> (r: (Option<u32>, Option<u32>))
    ensures
        r == flag_coords(flag_x, flag_y),
{
    match (flag_x, flag_y) {
        (Some(x), Some(y)) => {
            if x == NO_FLAG_X && y == NO_FLAG_Y {
                (None, None)
            } else {
                (flag_x, flag_y)
            }
        },
        _ => (flag_x, flag_y),
    }
}

/// A request to join a match with an access code.
#[derive(Clone, Debug, PartialEq, Eq)]
pub struct Join {
    pub access_code: String,
    pub pubkey: String,
}

/// A lobby response.
#[derive(Clone, Debug, PartialEq, Eq)]
pub enum AppResponse {
    Error(String),
    JoinResult { game_id: u64 },
}

/// A request to open a match's message channel.
#[derive(Clone, Debug, PartialEq, Eq)]
pub struct EnterGame {
    pub player: String,
    pub game_id: u64,
}

} // verus!
