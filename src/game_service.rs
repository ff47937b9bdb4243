use vstd::prelude::*;

use crate::game_logic::{adjudication, compare_piece, MovePos, Piece, PieceInfo};
use crate::types::{flag_coords, normalize_flag, GameMessage, MessageView};

verus! {

/// Where a player stands in the connection lifecycle.
#[derive(Clone, Copy, Debug, PartialEq, Eq, Structural)]
pub enum PlayerState {
    Disconnected,
    Connected,
    Ready,
}

/// One of the two seats of a match: `First` is player 1, who moves first.
#[derive(Clone, Copy, Debug, PartialEq, Eq, Structural)]
pub enum Side {
    First,
    Second,
}

/// The other seat.
pub open spec fn other(s: Side) -> Side {
    match s {
        Side::First => Side::Second,
        Side::Second => Side::First,
    }
}

impl Side {
    /// The other seat.
    pub fn other(self) -> (o: Side)
        ensures
            o == other(self),
    {
        match self {
            Side::First => Side::Second,
            Side::Second => Side::First,
        }
    }
}

/// A seat's player: identity, lifecycle state, and the move they have made
/// and that awaits the opponent's whisper.
pub struct Player {
    pubkey: String,
    state: PlayerState,
    piece: Option<PieceInfo>,
    move_pos: Option<MovePos>,
}

/// A [`Player`] as a mathematical value.
pub struct PlayerView {
    pub pubkey: Seq<char>,
    pub state: PlayerState,
    pub piece: Option<PieceInfo>,
    pub move_pos: Option<MovePos>,
}

impl View for Player {
    type V = PlayerView;

    closed spec fn view(&self) -> PlayerView {
        PlayerView {
            pubkey: self.pubkey@,
            state: self.state,
            piece: self.piece,
            move_pos: self.move_pos,
        }
    }
}

impl PlayerView {
    pub open spec fn with_state(self, state: PlayerState) -> PlayerView {
        PlayerView { state, ..self }
    }

    pub open spec fn with_pending(self, piece: PieceInfo, move_pos: MovePos) -> PlayerView {
        PlayerView { piece: Some(piece), move_pos: Some(move_pos), ..self }
    }

    pub open spec fn cleared(self) -> PlayerView {
        PlayerView { piece: None, move_pos: None, ..self }
    }

    /// Whether this player has a move awaiting adjudication.
    pub open spec fn has_pending(self) -> bool {
        self.piece is Some
    }
}

/// The state of one match, owned by the task that runs it.
pub struct GameService {
    game_id: u64,
    arbiter: String,
    player1: Player,
    player2: Player,
    turn: Side,
    terminated: bool,
}

/// A [`GameService`] as a mathematical value.
pub struct GameView {
    pub game_id: u64,
    pub arbiter: Seq<char>,
    pub first: PlayerView,
    pub second: PlayerView,
    pub turn: Side,
    pub terminated: bool,
}

impl View for GameService {
    type V = GameView;

    closed spec fn view(&self) -> GameView {
        GameView {
            game_id: self.game_id,
            arbiter: self.arbiter@,
            first: self.player1@,
            second: self.player2@,
            turn: self.turn,
            terminated: self.terminated,
        }
    }
}

impl GameView {
    pub open spec fn player(self, s: Side) -> PlayerView {
        match s {
            Side::First => self.first,
            Side::Second => self.second,
        }
    }

    pub open spec fn with_player(self, s: Side, p: PlayerView) -> GameView {
        match s {
            Side::First => GameView { first: p, ..self },
            Side::Second => GameView { second: p, ..self },
        }
    }

    /// The seat of the player with identity `id`; player 1's where both
    /// seats hold it.
    pub open spec fn side_of(self, id: Seq<char>) -> Option<Side> {
        if id == self.first.pubkey {
            Some(Side::First)
        } else if id == self.second.pubkey {
            Some(Side::Second)
        } else {
            None
        }
    }

    pub open spec fn both_ready(self) -> bool {
        self.first.state == PlayerState::Ready && self.second.state == PlayerState::Ready
    }

    /// The match's invariant: a player's piece and move are held together,
    /// and only the player whose turn it is can have a move pending.
    pub open spec fn wf(self) -> bool {
        &&& (self.first.piece is Some) == (self.first.move_pos is Some)
        &&& (self.second.piece is Some) == (self.second.move_pos is Some)
        &&& !self.player(other(self.turn)).has_pending()
    }
}

/// What the task running a match hands to it: a connection that arrived,
/// a decoded message from a player, or a connection that closed.
#[derive(Debug, PartialEq, Eq)]
pub enum GameEvent {
    PlayerConnected { pubkey: String },
    FromPlayer { pubkey: String, msg: GameMessage },
    PlayerDisconnected { pubkey: String },
}

/// A [`GameEvent`] as a mathematical value.
pub enum EventView {
    PlayerConnected { pubkey: Seq<char> },
    FromPlayer { pubkey: Seq<char>, msg: MessageView },
    PlayerDisconnected { pubkey: Seq<char> },
}

impl View for GameEvent {
    type V = EventView;

    open spec fn view(&self) -> EventView {
        match self {
            GameEvent::PlayerConnected { pubkey } => EventView::PlayerConnected { pubkey: pubkey@ },
            GameEvent::FromPlayer { pubkey, msg } => EventView::FromPlayer {
                pubkey: pubkey@,
                msg: msg@,
            },
            GameEvent::PlayerDisconnected { pubkey } => EventView::PlayerDisconnected {
                pubkey: pubkey@,
            },
        }
    }
}

/// What the task running a match must do, in order.
#[derive(Debug, PartialEq, Eq)]
pub enum Action {
    /// Keep the connection that just arrived as this seat's outbound sink,
    /// dropping any earlier one.
    Attach(Side),
    /// Tell the connection that just arrived to close: it belongs to no seat.
    Reject,
    /// Drop this seat's outbound sink.
    Detach(Side),
    /// Send the message to this seat's sink.
    Send(Side, GameMessage),
}

/// An [`Action`] as a mathematical value.
pub enum ActionView {
    Attach(Side),
    Reject,
    Detach(Side),
    Send(Side, MessageView),
}

impl View for Action {
    type V = ActionView;

    open spec fn view(&self) -> ActionView {
        match self {
            Action::Attach(s) => ActionView::Attach(*s),
            Action::Reject => ActionView::Reject,
            Action::Detach(s) => ActionView::Detach(*s),
            Action::Send(s, m) => ActionView::Send(*s, m@),
        }
    }
}

pub open spec fn actions_view(actions: Seq<Action>) -> Seq<ActionView> {
    actions.map_values(|a: Action| a@)
}

/// The role announcement of a match.
pub open spec fn role_of(g: GameView) -> MessageView {
    MessageView::Role {
        game_id: g.game_id,
        arbiter: g.arbiter,
        player1: g.first.pubkey,
        player2: g.second.pubkey,
    }
}

/// The start announcement of a match, naming the player to move.
pub open spec fn start_of(g: GameView) -> MessageView {
    MessageView::GameStart { game_id: g.game_id, turn: g.player(g.turn).pubkey }
}

/// The match after a message from seat `s` and what is sent, the match not
/// being over: `Ready` from a connected player, a move from the player to
/// move, or a whisper answering a pending move; anything else changes
/// nothing.
pub open spec fn on_message(g: GameView, s: Side, m: MessageView) -> (GameView, Seq<ActionView>) {
    match m {
        MessageView::Ready { .. } => {
            if g.player(s).state == PlayerState::Connected {
                let g2 = g.with_player(s, g.player(s).with_state(PlayerState::Ready));
                if g.player(other(s)).state == PlayerState::Ready {
                    (
                        g2,
                        seq![
                            ActionView::Send(s, start_of(g)),
                            ActionView::Send(other(s), start_of(g)),
                        ],
                    )
                } else {
                    (g2, seq![])
                }
            } else {
                (g, seq![])
            }
        },
        MessageView::Move { piece, x, y, target_x, target_y, flag_x, flag_y } => {
            if g.both_ready() && g.turn == s && !g.player(s).has_pending() {
                let flags = flag_coords(flag_x, flag_y);
                let info = PieceInfo { piece, flag_x: flags.0, flag_y: flags.1 };
                let move_pos = MovePos { x, y, target_x, target_y };
                (
                    g.with_player(s, g.player(s).with_pending(info, move_pos)),
                    seq![ActionView::Send(other(s), MessageView::PiecePos { x, y, target_x, target_y })],
                )
            } else {
                (g, seq![])
            }
        },
        MessageView::Whisper { piece, flag_x, flag_y, .. } => {
            let mover = g.player(other(s));
            if g.both_ready() && g.turn != s && mover.piece is Some && mover.move_pos is Some {
                let flags = flag_coords(flag_x, flag_y);
                let target = PieceInfo { piece, flag_x: flags.0, flag_y: flags.1 };
                let r = adjudication(mover.piece->0, target, mover.move_pos->0);
                let g2 = g.with_player(other(s), mover.cleared());
                (
                    GameView { turn: s, terminated: r.game_winner != 0, ..g2 },
                    seq![
                        ActionView::Send(s, MessageView::MoveResult(r)),
                        ActionView::Send(other(s), MessageView::MoveResult(r)),
                    ],
                )
            } else {
                (g, seq![])
            }
        },
        _ => (g, seq![]),
    }
}

/// The protocol: the match after `e`, and what is to be done.
pub open spec fn step(g: GameView, e: EventView) -> (GameView, Seq<ActionView>) {
    match e {
        EventView::PlayerConnected { pubkey } => match g.side_of(pubkey) {
            None => (g, seq![ActionView::Reject]),
            Some(s) => {
                let g2 = if g.player(s).state == PlayerState::Disconnected {
                    g.with_player(s, g.player(s).with_state(PlayerState::Connected))
                } else {
                    g
                };
                (g2, seq![ActionView::Attach(s), ActionView::Send(s, role_of(g))])
            },
        },
        EventView::FromPlayer { pubkey, msg } => match g.side_of(pubkey) {
            None => (g, seq![]),
            Some(s) => {
                if g.terminated {
                    (g, seq![])
                } else {
                    on_message(g, s, msg)
                }
            },
        },
        EventView::PlayerDisconnected { pubkey } => match g.side_of(pubkey) {
            None => (g, seq![]),
            Some(s) => {
                let g2 = g.with_player(s, g.player(s).with_state(PlayerState::Disconnected));
                if g.player(other(s)).state != PlayerState::Disconnected {
                    (
                        g2,
                        seq![
                            ActionView::Detach(s),
                            ActionView::Send(
                                other(s),
                                MessageView::OpponentDisconnected { game_id: g.game_id },
                            ),
                        ],
                    )
                } else {
                    (g2, seq![ActionView::Detach(s)])
                }
            },
        },
    }
}

/// Every event keeps the match's invariant.
pub proof fn lemma_step_preserves_wf(g: GameView, e: EventView)
    requires
        g.wf(),
    ensures
        step(g, e).0.wf(),
{
}

/// The match after the events `es`, in order.
pub open spec fn run_events(g: GameView, es: Seq<EventView>) -> GameView
    decreases es.len(),
{
    if es.len() == 0 {
        g
    } else {
        step(run_events(g, es.drop_last()), es.last()).0
    }
}

/// Whether `g` is a match as it is created: nobody connected, nothing
/// pending, not over.
pub open spec fn is_fresh(g: GameView) -> bool {
    &&& g.first.state == PlayerState::Disconnected && g.second.state == PlayerState::Disconnected
    &&& !g.first.has_pending() && g.first.move_pos is None
    &&& !g.second.has_pending() && g.second.move_pos is None
    &&& !g.terminated
}

/// Whatever events a fresh match goes through, at most one of its players
/// has a move pending at any time, and that player is the one to move.
pub proof fn lemma_pending_exclusive(g: GameView, es: Seq<EventView>)
    requires
        is_fresh(g),
    ensures
        run_events(g, es).wf(),
        !(run_events(g, es).first.has_pending() && run_events(g, es).second.has_pending()),
    decreases es.len(),
{
    if es.len() > 0 {
        lemma_pending_exclusive(g, es.drop_last());
        lemma_step_preserves_wf(run_events(g, es.drop_last()), es.last());
    }
}

/// Once a match is over, no message from a player changes it or sends
/// anything.
pub proof fn lemma_terminated_is_final(g: GameView, pubkey: Seq<char>, msg: MessageView)
    requires
        g.terminated,
    ensures
        step(g, EventView::FromPlayer { pubkey, msg }) == (g, Seq::<ActionView>::empty()),
{
    assert(step(g, EventView::FromPlayer { pubkey, msg }).1 =~= Seq::<ActionView>::empty());
}

/// A whisper that is adjudicated passes the turn to the whisperer and
/// leaves no move pending.
pub proof fn lemma_whisper_passes_turn(g: GameView, whisperer: Seq<char>, msg: MessageView)
    requires
        g.wf(),
        msg is Whisper,
        step(g, EventView::FromPlayer { pubkey: whisperer, msg }).1.len() > 0,
    ensures
        ({
            let g2 = step(g, EventView::FromPlayer { pubkey: whisperer, msg }).0;
            &&& g.side_of(whisperer) == Some(g2.turn)
            &&& g2.turn != g.turn
            &&& !g2.first.has_pending() && !g2.second.has_pending()
        }),
{
}

/// A move from the player to move, answered by the opponent's whisper:
/// the opponent sees only the squares, both players then receive the
/// adjudication of the mover's piece against the whispered one, and the
/// whisperer moves next, unless a flag fell.
pub proof fn lemma_move_whisper_round_trip(
    g: GameView,
    mover: Seq<char>,
    piece: Piece,
    move_pos: MovePos,
    flag_x: Option<u32>,
    flag_y: Option<u32>,
    defender: Seq<char>,
    hidden: Piece,
    whisper_x: u32,
    whisper_y: u32,
    hidden_flag_x: Option<u32>,
    hidden_flag_y: Option<u32>,
)
    requires
        g.wf(),
        !g.terminated,
        g.both_ready(),
        g.side_of(mover) == Some(g.turn),
        g.side_of(defender) == Some(other(g.turn)),
        !g.player(g.turn).has_pending(),
    ensures
        ({
            let MovePos { x, y, target_x, target_y } = move_pos;
            let move_msg = MessageView::Move { piece, x, y, target_x, target_y, flag_x, flag_y };
            let whisper_msg = MessageView::Whisper {
                piece: hidden,
                x: whisper_x,
                y: whisper_y,
                flag_x: hidden_flag_x,
                flag_y: hidden_flag_y,
            };
            let (g1, sent1) = step(g, EventView::FromPlayer { pubkey: mover, msg: move_msg });
            let (g2, sent2) = step(g1, EventView::FromPlayer { pubkey: defender, msg: whisper_msg });
            let attacker = PieceInfo {
                piece,
                flag_x: flag_coords(flag_x, flag_y).0,
                flag_y: flag_coords(flag_x, flag_y).1,
            };
            let target = PieceInfo {
                piece: hidden,
                flag_x: flag_coords(hidden_flag_x, hidden_flag_y).0,
                flag_y: flag_coords(hidden_flag_x, hidden_flag_y).1,
            };
            let r = adjudication(attacker, target, move_pos);
            &&& sent1 == seq![
                ActionView::Send(other(g.turn), MessageView::PiecePos { x, y, target_x, target_y }),
            ]
            &&& g1.turn == g.turn
            &&& sent2 == seq![
                ActionView::Send(other(g.turn), MessageView::MoveResult(r)),
                ActionView::Send(g.turn, MessageView::MoveResult(r)),
            ]
            &&& g2.turn == other(g.turn)
            &&& g2.side_of(defender) == Some(g2.turn)
            &&& !g2.first.has_pending() && !g2.second.has_pending()
            &&& g2.terminated == (r.game_winner != 0)
        }),
{
}

impl GameService {
    /// A new match between `player1` and `player2`, both disconnected;
    /// player 1 moves first.
    pub fn new(game_id: u64, arbiter: String, player1: String, player2: String) -> (g: GameService)
        ensures
            g@ == (GameView {
                game_id,
                arbiter: arbiter@,
                first: PlayerView {
                    pubkey: player1@,
                    state: PlayerState::Disconnected,
                    piece: None,
                    move_pos: None,
                },
                second: PlayerView {
                    pubkey: player2@,
                    state: PlayerState::Disconnected,
                    piece: None,
                    move_pos: None,
                },
                turn: Side::First,
                terminated: false,
            }),
            g@.wf(),
    {
        GameService {
            game_id,
            arbiter,
            player1: Player {
                pubkey: player1,
                state: PlayerState::Disconnected,
                piece: None,
                move_pos: None,
            },
            player2: Player {
                pubkey: player2,
                state: PlayerState::Disconnected,
                piece: None,
                move_pos: None,
            },
            turn: Side::First,
            terminated: false,
        }
    }

    pub fn game_id(&self) -> (id: u64)
        ensures
            id == self@.game_id,
    {
        self.game_id
    }

    /// Whether a player's flag has been taken, which ends the match.
    pub fn is_terminated(&self) -> (t: bool)
        ensures
            t == self@.terminated,
    {
        self.terminated
    }

    /// The seat whose player moves next.
    pub fn turn(&self) -> (s: Side)
        ensures
            s == self@.turn,
    {
        self.turn
    }

    /// The lifecycle state of the player in seat `s`.
    pub fn player_state(&self, s: Side) -> (st: PlayerState)
        ensures
            st == self@.player(s).state,
    {
        match s {
            Side::First => self.player1.state,
            Side::Second => self.player2.state,
        }
    }

    /// Whether the player in seat `s` has a move awaiting the opponent's
    /// whisper.
    pub fn has_pending_move(&self, s: Side) -> (p: bool)
        ensures
            p == self@.player(s).has_pending(),
    {
        match s {
            Side::First => self.player1.piece.is_some(),
            Side::Second => self.player2.piece.is_some(),
        }
    }

    /// The seat of the player with identity `pubkey`.
    pub fn side_of(&self, pubkey: &String) -> (r: Option<Side>)
        ensures
            r == self@.side_of(pubkey@),
    {
        if self.player1.pubkey == *pubkey {
            Some(Side::First)
        } else if self.player2.pubkey == *pubkey {
            Some(Side::Second)
        } else {
            None
        }
    }

    fn set_state(&mut self, s: Side, state: PlayerState)
        ensures
            final(self)@ == old(self)@.with_player(s, old(self)@.player(s).with_state(state)),
    {
        match s {
            Side::First => self.player1.state = state,
            Side::Second => self.player2.state = state,
        }
    }

    fn pending(&self, s: Side) -> (r: (Option<PieceInfo>, Option<MovePos>))
        ensures
            r.0 == self@.player(s).piece,
            r.1 == self@.player(s).move_pos,
    {
        match s {
            Side::First => (self.player1.piece, self.player1.move_pos),
            Side::Second => (self.player2.piece, self.player2.move_pos),
        }
    }

    fn set_pending(&mut self, s: Side, piece: Option<PieceInfo>, move_pos: Option<MovePos>)
        ensures
            final(self)@ == old(self)@.with_player(
                s,
                PlayerView { piece, move_pos, ..old(self)@.player(s) },
            ),
    {
        match s {
            Side::First => {
                self.player1.piece = piece;
                self.player1.move_pos = move_pos;
            },
            Side::Second => {
                self.player2.piece = piece;
                self.player2.move_pos = move_pos;
            },
        }
    }

    fn role_message(&self) -> (m: GameMessage)
        ensures
            m@ == role_of(self@),
    {
        GameMessage::Role {
            game_id: self.game_id,
            arbiter: self.arbiter.clone(),
            player1: self.player1.pubkey.clone(),
            player2: self.player2.pubkey.clone(),
        }
    }

    fn start_message(&self) -> (m: GameMessage)
        ensures
            m@ == start_of(self@),
    {
        let turn = match self.turn {
            Side::First => self.player1.pubkey.clone(),
            Side::Second => self.player2.pubkey.clone(),
        };
        GameMessage::GameStart { game_id: self.game_id, turn }
    }

    /// Applies one event to the match and returns what is to be done, in
    /// order.
    pub fn handle(&mut self, event: GameEvent) -> (actions: Vec<Action>)
        requires
            old(self)@.wf(),
        ensures
            final(self)@ == step(old(self)@, event@).0,
            actions_view(actions@) == step(old(self)@, event@).1,
            final(self)@.wf(),
            !(final(self)@.first.has_pending() && final(self)@.second.has_pending()),
            event@ matches EventView::FromPlayer { pubkey, msg } ==> (msg is Whisper && actions@.len()
                > 0 ==> {
                &&& old(self)@.side_of(pubkey) == Some(final(self)@.turn)
                &&& final(self)@.turn != old(self)@.turn
                &&& !final(self)@.first.has_pending() && !final(self)@.second.has_pending()
            }),
    {
        proof {
            lemma_step_preserves_wf(self@, event@);
        }
        let mut actions: Vec<Action> = Vec::new();
        match event {
            GameEvent::PlayerConnected { pubkey } => {
                match self.side_of(&pubkey) {
                    None => {
                        actions.push(Action::Reject);
                    },
                    Some(s) => {
                        let role = self.role_message();
                        if self.player_state(s) == PlayerState::Disconnected {
                            self.set_state(s, PlayerState::Connected);
                        }
                        actions.push(Action::Attach(s));
                        actions.push(Action::Send(s, role));
                    },
                }
            },
            GameEvent::FromPlayer { pubkey, msg } => {
                match self.side_of(&pubkey) {
                    None => {},
                    Some(s) => {
                        if !self.terminated {
                            actions = self.process_player_message(msg, s);
                        }
                    },
                }
            },
            GameEvent::PlayerDisconnected { pubkey } => {
                match self.side_of(&pubkey) {
                    None => {},
                    Some(s) => {
                        let opponent_state = self.player_state(s.other());
                        self.set_state(s, PlayerState::Disconnected);
                        actions.push(Action::Detach(s));
                        if opponent_state != PlayerState::Disconnected {
                            actions.push(
                                Action::Send(
                                    s.other(),
                                    GameMessage::OpponentDisconnected { game_id: self.game_id },
                                ),
                            );
                        }
                    },
                }
            },
        }
        proof {
            assert(actions_view(actions@) =~= step(old(self)@, event@).1);
            assert(actions_view(actions@).len() == actions@.len());
            if let EventView::FromPlayer { pubkey, msg } = event@ {
                if msg is Whisper && actions@.len() > 0 {
                    lemma_whisper_passes_turn(old(self)@, pubkey, msg);
                }
            }
        }
        actions
    }

    /// Applies a message from the player in seat `s`, the match not being
    /// over.
    fn process_player_message(&mut self, msg: GameMessage, s: Side) -> (actions: Vec<Action>)
        requires
            old(self)@.wf(),
        ensures
            final(self)@ == on_message(old(self)@, s, msg@).0,
            actions_view(actions@) =~= on_message(old(self)@, s, msg@).1,
    {
        let mut actions: Vec<Action> = Vec::new();
        let opp = s.other();
        let both_ready = self.player1.state == PlayerState::Ready && self.player2.state
            == PlayerState::Ready;
        match msg {
            GameMessage::Ready { .. } => {
                if self.player_state(s) == PlayerState::Connected {
                    if self.player_state(opp) == PlayerState::Ready {
                        actions.push(Action::Send(s, self.start_message()));
                        actions.push(Action::Send(opp, self.start_message()));
                    }
                    self.set_state(s, PlayerState::Ready);
                }
            },
            GameMessage::Move { piece, x, y, target_x, target_y, flag_x, flag_y } => {
                let (held, _) = self.pending(s);
                if both_ready && self.turn == s && held.is_none() {
                    let (fx, fy) = normalize_flag(flag_x, flag_y);
                    let info = PieceInfo { piece, flag_x: fx, flag_y: fy };
                    let move_pos = MovePos { x, y, target_x, target_y };
                    self.set_pending(s, Some(info), Some(move_pos));
                    actions.push(Action::Send(opp, GameMessage::PiecePos { x, y, target_x, target_y }));
                }
            },
            GameMessage::Whisper { piece, flag_x, flag_y, .. } => {
                let (held, moved) = self.pending(opp);
                if both_ready && self.turn != s {
                    match (held, moved) {
                        (Some(attacker), Some(move_pos)) => {
                            let (fx, fy) = normalize_flag(flag_x, flag_y);
                            let target = PieceInfo { piece, flag_x: fx, flag_y: fy };
                            let r = compare_piece(attacker, target, move_pos);
                            self.set_pending(opp, None, None);
                            self.turn = s;
                            self.terminated = r.game_winner != 0;
                            actions.push(Action::Send(s, GameMessage::MoveResult(r)));
                            actions.push(Action::Send(opp, GameMessage::MoveResult(r)));
                        },
                        _ => {},
                    }
                }
            },
            _ => {},
        }
        actions
    }
}

} // verus!
