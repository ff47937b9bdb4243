use vstd::prelude::*;

use vstd::seq_lib::seq_to_set_is_finite;
use vstd::set_lib::{lemma_int_range, lemma_len_subset, set_int_range};

use crate::types::AppResponse;

verus! {

/// Relies on `rand::random`: any value of the type may come back.
pub assume_specification<T>[ rand::random::<T> ]() -> (r: T)
    where
        rand::distributions::Standard: rand::distributions::Distribution<T>,
;

/// A player who asked to join, with the access code they gave and the
/// match they were put in, if any.
pub struct User {
    pubkey: String,
    access_code: String,
    game_id: Option<u64>,
}

/// A [`User`] as a mathematical value.
pub struct UserView {
    pub pubkey: Seq<char>,
    pub access_code: Seq<char>,
    pub game_id: Option<u64>,
}

impl View for User {
    type V = UserView;

    closed spec fn view(&self) -> UserView {
        UserView { pubkey: self.pubkey@, access_code: self.access_code@, game_id: self.game_id }
    }
}

/// A formed match and its two players.
pub struct Game {
    game_id: u64,
    player1: String,
    player2: String,
}

/// A [`Game`] as a mathematical value.
pub struct GameEntryView {
    pub game_id: u64,
    pub player1: Seq<char>,
    pub player2: Seq<char>,
}

impl View for Game {
    type V = GameEntryView;

    closed spec fn view(&self) -> GameEntryView {
        GameEntryView { game_id: self.game_id, player1: self.player1@, player2: self.player2@ }
    }
}

/// The registry that pairs players by access code and records the matches
/// it formed.
pub struct Lobby {
    users: Vec<User>,
    games: Vec<Game>,
}

/// A [`Lobby`] as a mathematical value.
pub struct LobbyView {
    pub users: Seq<UserView>,
    pub games: Seq<GameEntryView>,
}

impl View for Lobby {
    type V = LobbyView;

    closed spec fn view(&self) -> LobbyView {
        LobbyView {
            users: self.users@.map_values(|u: User| u@),
            games: self.games@.map_values(|g: Game| g@),
        }
    }
}

pub open spec fn has_user(users: Seq<UserView>, key: Seq<char>) -> bool {
    exists|i: int| 0 <= i < users.len() && #[trigger] users[i].pubkey == key
}

/// The position of the user `key`, where there is one.
pub open spec fn user_at(users: Seq<UserView>, key: Seq<char>) -> int {
    choose|i: int| 0 <= i < users.len() && #[trigger] users[i].pubkey == key
}

/// The users with `u` registered: it replaces the entry with its key, or
/// is added.
pub open spec fn put_user(users: Seq<UserView>, u: UserView) -> Seq<UserView> {
    if has_user(users, u.pubkey) {
        users.update(user_at(users, u.pubkey), u)
    } else {
        users.push(u)
    }
}

/// The users with the match of `key` set to `game_id`.
pub open spec fn with_game_id(users: Seq<UserView>, key: Seq<char>, game_id: Option<u64>) -> Seq<UserView> {
    if has_user(users, key) {
        let i = user_at(users, key);
        users.update(i, UserView { game_id, ..users[i] })
    } else {
        users
    }
}

pub open spec fn has_game(games: Seq<GameEntryView>, game_id: u64) -> bool {
    exists|i: int| 0 <= i < games.len() && #[trigger] games[i].game_id == game_id
}

pub open spec fn game_at(games: Seq<GameEntryView>, game_id: u64) -> int {
    choose|i: int| 0 <= i < games.len() && #[trigger] games[i].game_id == game_id
}

/// The matches with `g` recorded: it replaces the entry with its id, or is
/// added.
pub open spec fn put_game(games: Seq<GameEntryView>, g: GameEntryView) -> Seq<GameEntryView> {
    if has_game(games, g.game_id) {
        games.update(game_at(games, g.game_id), g)
    } else {
        games.push(g)
    }
}

/// The users who gave access code `code`, in registration order.
pub open spec fn holders(users: Seq<UserView>, code: Seq<char>) -> Seq<UserView> {
    users.filter(|u: UserView| u.access_code == code)
}

/// Whether `id` is the least nonzero id that names no match.
pub open spec fn is_least_free(games: Seq<GameEntryView>, id: u64) -> bool {
    &&& id != 0
    &&& !has_game(games, id)
    &&& forall|k: u64| 0 < k < id ==> #[trigger] has_game(games, k)
}

/// The least nonzero id that names no match.
pub open spec fn least_free_id(games: Seq<GameEntryView>) -> u64 {
    choose|id: u64| is_least_free(games, id)
}

/// The id a match formed now gets from the drawn value `seed`: `seed`
/// itself when it is nonzero and names no match, else the least such id.
pub open spec fn fresh_id(games: Seq<GameEntryView>, seed: u64) -> u64 {
    if seed != 0 && !has_game(games, seed) {
        seed
    } else {
        least_free_id(games)
    }
}

/// `n` matches leave one of the ids 1 to `n + 1` free.
proof fn lemma_free_id_within(games: Seq<GameEntryView>, hi: u64)
    requires
        hi as int == games.len() + 1,
    ensures
        exists|k: u64| 1 <= k <= hi && !#[trigger] has_game(games, k),
{
    if forall|k: u64| 1 <= k <= hi ==> #[trigger] has_game(games, k) {
        let ids = games.map_values(|g: GameEntryView| g.game_id as int);
        let range = set_int_range(1, hi + 1);
        lemma_int_range(1, hi + 1);
        ids.lemma_cardinality_of_set();
        seq_to_set_is_finite(ids);
        assert forall|k: int| range.contains(k) implies ids.to_set().contains(k) by {
            assert(has_game(games, k as u64));
            let i = choose|i: int| 0 <= i < games.len() && #[trigger] games[i].game_id == k as u64;
            assert(ids[i] == k);
            assert(ids.contains(k));
        }
        lemma_len_subset(range, ids.to_set());
    }
}

impl LobbyView {
    /// Each player is registered once, and each match id names one match.
    pub open spec fn wf(self) -> bool {
        &&& forall|i: int, j: int|
            0 <= i < self.users.len() && 0 <= j < self.users.len() && #[trigger] self.users[i].pubkey
                == #[trigger] self.users[j].pubkey ==> i == j
        &&& forall|i: int, j: int|
            0 <= i < self.games.len() && 0 <= j < self.games.len() && #[trigger] self.games[i].game_id
                == #[trigger] self.games[j].game_id ==> i == j
    }
}

/// The answer to a join request.
#[derive(Debug, PartialEq, Eq)]
pub enum JoinOutcome {
    /// The code is new: the player waits for a partner.
    Waiting,
    /// The player had already registered this code alone.
    Updated,
    /// A second player gave the code: the match `game_id` is formed, the
    /// earlier player as player 1.
    Matched { game_id: u64, player1: String, player2: String },
    /// The code's match is formed and the player is in it.
    GameStarted,
    /// The code's match is formed between two other players.
    CodeUsed,
}

/// A [`JoinOutcome`] as a mathematical value.
pub enum JoinOutcomeView {
    Waiting,
    Updated,
    Matched { game_id: u64, player1: Seq<char>, player2: Seq<char> },
    GameStarted,
    CodeUsed,
}

impl View for JoinOutcome {
    type V = JoinOutcomeView;

    open spec fn view(&self) -> JoinOutcomeView {
        match self {
            JoinOutcome::Waiting => JoinOutcomeView::Waiting,
            JoinOutcome::Updated => JoinOutcomeView::Updated,
            JoinOutcome::Matched { game_id, player1, player2 } => JoinOutcomeView::Matched {
                game_id: *game_id,
                player1: player1@,
                player2: player2@,
            },
            JoinOutcome::GameStarted => JoinOutcomeView::GameStarted,
            JoinOutcome::CodeUsed => JoinOutcomeView::CodeUsed,
        }
    }
}

/// The lobby after `pubkey` asks to join with `code`, and the answer;
/// `game_id` is the id a newly formed match gets.
pub open spec fn join_step(l: LobbyView, pubkey: Seq<char>, code: Seq<char>, game_id: u64) -> (
    LobbyView,
    JoinOutcomeView,
) {
    let hs = holders(l.users, code);
    if hs.len() == 0 {
        let u = UserView { pubkey, access_code: code, game_id: None };
        (LobbyView { users: put_user(l.users, u), ..l }, JoinOutcomeView::Waiting)
    } else if hs.len() == 1 {
        if hs[0].pubkey == pubkey {
            (l, JoinOutcomeView::Updated)
        } else {
            let first = hs[0].pubkey;
            let u = UserView { pubkey, access_code: code, game_id: Some(game_id) };
            let g = GameEntryView { game_id, player1: first, player2: pubkey };
            (
                LobbyView {
                    users: with_game_id(put_user(l.users, u), first, Some(game_id)),
                    games: put_game(l.games, g),
                },
                JoinOutcomeView::Matched { game_id, player1: first, player2: pubkey },
            )
        }
    } else if exists|j: int| 0 <= j < hs.len() && #[trigger] hs[j].pubkey == pubkey {
        (l, JoinOutcomeView::GameStarted)
    } else {
        (l, JoinOutcomeView::CodeUsed)
    }
}

impl JoinOutcome {
    /// The HTTP status and body that answer the join request.
    pub fn response(&self) -> (r: (u16, AppResponse))
        ensures
            match self@ {
                JoinOutcomeView::Waiting | JoinOutcomeView::Updated => r.0 == 200 && (r.1
                    matches AppResponse::JoinResult { game_id } && game_id == 0),
                JoinOutcomeView::Matched { game_id: id, .. } => r.0 == 200 && (r.1
                    matches AppResponse::JoinResult { game_id } && game_id == id),
                JoinOutcomeView::GameStarted => r.0 == 409 && (r.1 matches AppResponse::Error(e)
                    && e@ == "game started"@),
                JoinOutcomeView::CodeUsed => r.0 == 400 && (r.1 matches AppResponse::Error(e)
                    && e@ == "access code used"@),
            },
    {
        match self {
            JoinOutcome::Waiting | JoinOutcome::Updated => (200, AppResponse::JoinResult { game_id: 0 }),
            JoinOutcome::Matched { game_id, .. } => (
                200,
                AppResponse::JoinResult { game_id: *game_id },
            ),
            JoinOutcome::GameStarted => (409, AppResponse::Error("game started".to_owned())),
            JoinOutcome::CodeUsed => (400, AppResponse::Error("access code used".to_owned())),
        }
    }
}

/// The HTTP status and body that answer a lookup of a player's match.
pub fn lookup_response(found: Option<u64>) -> (r: (u16, AppResponse))
    ensures
        match found {
            Some(id) => r.0 == 200 && (r.1 matches AppResponse::JoinResult { game_id } && game_id
                == id),
            None => r.0 == 400 && (r.1 matches AppResponse::Error(e) && e@ == "user not found"@),
        },
{
    match found {
        Some(game_id) => (200, AppResponse::JoinResult { game_id }),
        None => (400, AppResponse::Error("user not found".to_owned())),
    }
}

impl Lobby {
    /// An empty lobby.
    pub fn new() -> (l: Lobby)
        ensures
            l@.users.len() == 0,
            l@.games.len() == 0,
            l@.wf(),
    {
        let l = Lobby { users: Vec::new(), games: Vec::new() };
        assert(l@.users =~= Seq::<UserView>::empty());
        assert(l@.games =~= Seq::<GameEntryView>::empty());
        l
    }

    /// The position of the user `key`.
    fn find_user(&self, key: &String) -> (r: Option<usize>)
        requires
            self@.wf(),
        ensures
            r is None <==> !has_user(self@.users, key@),
            r is Some ==> r->0 == user_at(self@.users, key@) && r->0 < self@.users.len(),
    {
        let ghost users = self@.users;
        let mut i: usize = 0;
        while i < self.users.len()
            invariant
                i <= self.users@.len(),
                users == self@.users,
                self@.wf(),
                users.len() == self.users@.len(),
                forall|j: int| 0 <= j < i ==> #[trigger] users[j].pubkey != key@,
            decreases self.users@.len() - i,
        {
            assert(users[i as int] == self.users@[i as int]@);
            if self.users[i].pubkey == *key {
                assert(users[i as int].pubkey == key@);
                assert(has_user(users, key@));
                let ghost k = user_at(users, key@);
                assert(0 <= k < users.len() && users[k].pubkey == key@);
                assert(self@.users[k].pubkey == self@.users[i as int].pubkey);
                return Some(i);
            }
            i = i + 1;
        }
        None
    }

    /// The position of the match `game_id`.
    fn find_game(&self, game_id: u64) -> (r: Option<usize>)
        requires
            self@.wf(),
        ensures
            r is None <==> !has_game(self@.games, game_id),
            r is Some ==> r->0 == game_at(self@.games, game_id) && r->0 < self@.games.len(),
    {
        let ghost games = self@.games;
        let mut i: usize = 0;
        while i < self.games.len()
            invariant
                i <= self.games@.len(),
                games == self@.games,
                self@.wf(),
                games.len() == self.games@.len(),
                forall|j: int| 0 <= j < i ==> #[trigger] games[j].game_id != game_id,
            decreases self.games@.len() - i,
        {
            assert(games[i as int] == self.games@[i as int]@);
            if self.games[i].game_id == game_id {
                assert(games[i as int].game_id == game_id);
                assert(has_game(games, game_id));
                let ghost k = game_at(games, game_id);
                assert(0 <= k < games.len() && games[k].game_id == game_id);
                assert(self@.games[k].game_id == self@.games[i as int].game_id);
                return Some(i);
            }
            i = i + 1;
        }
        None
    }

    /// The number of matches formed.
    pub fn game_count(&self) -> (n: usize)
        ensures
            n == self@.games.len(),
    {
        self.games.len()
    }

    /// The id a match formed now gets from the drawn value `seed`.
    fn fresh_game_id(&self, seed: u64) -> (id: u64)
        requires
            self@.wf(),
            self@.games.len() < u64::MAX,
        ensures
            id == fresh_id(self@.games, seed),
            id != 0,
            !has_game(self@.games, id),
    {
        if seed != 0 && self.find_game(seed).is_none() {
            return seed;
        }
        let ghost games = self@.games;
        let mut c: u64 = 1;
        while self.find_game(c).is_some()
            invariant
                self@.wf(),
                games == self@.games,
                games.len() < u64::MAX,
                1 <= c <= games.len() + 1,
                forall|k: u64| 1 <= k < c ==> #[trigger] has_game(games, k),
            decreases games.len() + 1 - c,
        {
            proof {
                if c as int == games.len() + 1 {
                    lemma_free_id_within(games, c);
                    let k = choose|k: u64| 1 <= k <= c && !#[trigger] has_game(games, k);
                    assert(k == c);
                }
            }
            c = c + 1;
        }
        proof {
            assert(is_least_free(games, c));
            let w = least_free_id(games);
            assert(is_least_free(games, w));
            if w < c {
                assert(has_game(games, w));
            } else if w > c {
                assert(has_game(games, c));
            }
        }
        c
    }

    /// Handles a join request of `pubkey` with `access_code`; a match formed
    /// now gets the id [`fresh_id`] makes of `seed`.
    pub fn join_with_id(&mut self, pubkey: String, access_code: String, seed: u64) -> (r: JoinOutcome)
        requires
            old(self)@.wf(),
            old(self)@.games.len() < u64::MAX,
        ensures
            final(self)@ == join_step(
                old(self)@,
                pubkey@,
                access_code@,
                fresh_id(old(self)@.games, seed),
            ).0,
            r@ == join_step(old(self)@, pubkey@, access_code@, fresh_id(old(self)@.games, seed)).1,
            r@ matches JoinOutcomeView::Matched { game_id, .. } ==> game_id != 0 && !has_game(
                old(self)@.games,
                game_id,
            ),
            final(self)@.wf(),
    {
        let ghost users = self@.users;
        let ghost pred = |u: UserView| u.access_code == access_code@;
        let mut count: usize = 0;
        let mut first: usize = 0;
        let mut mine = false;
        let mut i: usize = 0;
        while i < self.users.len()
            invariant
                i <= self.users@.len(),
                users == self@.users,
                users.len() == self.users@.len(),
                pred == (|u: UserView| u.access_code == access_code@),
                count == users.take(i as int).filter(pred).len(),
                count > 0 ==> first < i && users[first as int] == users.take(i as int).filter(pred)[0],
                mine == exists|j: int|
                    0 <= j < users.take(i as int).filter(pred).len() && #[trigger] users.take(
                        i as int,
                    ).filter(pred)[j].pubkey == pubkey@,
            decreases self.users@.len() - i,
        {
            let ghost before = users.take(i as int).filter(pred);
            assert(users.take(i + 1).drop_last() =~= users.take(i as int));
            assert(users.take(i + 1).last() == users[i as int]);
            assert(users[i as int] == self.users@[i as int]@);
            proof {
                reveal(Seq::filter);
                users.take(i as int).lemma_filter_len(pred);
            }
            if self.users[i].access_code == access_code {
                let ghost after = users.take(i + 1).filter(pred);
                assert(after =~= before.push(users[i as int]));
                if count == 0 {
                    first = i;
                }
                if self.users[i].pubkey == pubkey {
                    assert(after[before.len() as int].pubkey == pubkey@);
                    mine = true;
                } else {
                    assert forall|j: int| 0 <= j < after.len() && #[trigger] after[j].pubkey == pubkey@
                        implies 0 <= j < before.len() && before[j].pubkey == pubkey@ by {
                        if j == before.len() {
                            assert(after[j] == users[i as int]);
                        }
                    }
                    assert forall|j: int| 0 <= j < before.len() && #[trigger] before[j].pubkey == pubkey@
                        implies 0 <= j < after.len() && after[j].pubkey == pubkey@ by {
                        assert(after[j] == before[j]);
                    }
                }
                count = count + 1;
            } else {
                assert(users.take(i + 1).filter(pred) =~= before);
            }
            i = i + 1;
        }
        assert(users.take(i as int) =~= users);
        if count == 0 {
            self.put_user(User { pubkey, access_code, game_id: None });
            JoinOutcome::Waiting
        } else if count == 1 {
            if self.users[first].pubkey == pubkey {
                JoinOutcome::Updated
            } else {
                assert(users[first as int] == self.users@[first as int]@);
                let game_id = self.fresh_game_id(seed);
                let player1 = self.users[first].pubkey.clone();
                self.put_user(User { pubkey: pubkey.clone(), access_code, game_id: Some(game_id) });
                self.set_game_id(&player1, Some(game_id));
                self.put_game(
                    Game { game_id, player1: player1.clone(), player2: pubkey.clone() },
                );
                JoinOutcome::Matched { game_id, player1, player2: pubkey }
            }
        } else if mine {
            JoinOutcome::GameStarted
        } else {
            JoinOutcome::CodeUsed
        }
    }

    /// Handles a join request of `pubkey` with `access_code`; a match formed
    /// now gets an id made of a random draw.
    pub fn join(&mut self, pubkey: String, access_code: String) -> (r: JoinOutcome)
        requires
            old(self)@.wf(),
            old(self)@.games.len() < u64::MAX,
        ensures
            exists|seed: u64|
                {
                    &&& final(self)@ == #[trigger] join_step(
                        old(self)@,
                        pubkey@,
                        access_code@,
                        fresh_id(old(self)@.games, seed),
                    ).0
                    &&& r@ == join_step(
                        old(self)@,
                        pubkey@,
                        access_code@,
                        fresh_id(old(self)@.games, seed),
                    ).1
                },
            r@ matches JoinOutcomeView::Matched { game_id, .. } ==> game_id != 0 && !has_game(
                old(self)@.games,
                game_id,
            ),
            final(self)@.wf(),
    {
        let seed = rand::random::<u64>();
        self.join_with_id(pubkey, access_code, seed)
    }

    /// The match `pubkey` was put in: `None` for a player who never joined,
    /// 0 for one still waiting.
    pub fn join_get(&self, pubkey: &String) -> (r: Option<u64>)
        requires
            self@.wf(),
        ensures
            r is None <==> !has_user(self@.users, pubkey@),
            r is Some ==> r->0 == match self@.users[user_at(self@.users, pubkey@)].game_id {
                Some(id) => id,
                None => 0,
            },
    {
        match self.find_user(pubkey) {
            Some(i) => {
                assert(self@.users[i as int] == self.users@[i as int]@);
                Some(self.users[i].game_id.unwrap_or(0))
            },
            None => None,
        }
    }

    /// Whether `player` may open a channel to the match `game_id`: the match
    /// exists and `player` is one of its two players.
    pub fn enter_game(&self, player: &String, game_id: u64) -> (r: bool)
        requires
            self@.wf(),
        ensures
            r == (has_game(self@.games, game_id) && ({
                let g = self@.games[game_at(self@.games, game_id)];
                g.player1 == player@ || g.player2 == player@
            })),
    {
        match self.find_game(game_id) {
            Some(i) => {
                assert(self@.games[i as int] == self.games@[i as int]@);
                self.games[i].player1 == *player || self.games[i].player2 == *player
            },
            None => false,
        }
    }

    fn put_user(&mut self, u: User)
        requires
            old(self)@.wf(),
        ensures
            final(self)@ == (LobbyView { users: put_user(old(self)@.users, u@), ..old(self)@ }),
            final(self)@.wf(),
    {
        let ghost before = self@.users;
        match self.find_user(&u.pubkey) {
            Some(i) => {
                self.users[i] = u;
                assert(self@.users =~= before.update(i as int, u@));
            },
            None => {
                self.users.push(u);
                assert(self@.users =~= before.push(u@));
            },
        }
        assert(self@.games =~= old(self)@.games);
    }

    fn set_game_id(&mut self, key: &String, game_id: Option<u64>)
        requires
            old(self)@.wf(),
        ensures
            final(self)@ == (LobbyView {
                users: with_game_id(old(self)@.users, key@, game_id),
                ..old(self)@
            }),
            final(self)@.wf(),
    {
        let ghost before = self@.users;
        match self.find_user(key) {
            Some(i) => {
                let ghost old_u = before[i as int];
                self.users[i].game_id = game_id;
                assert(self@.users =~= before.update(i as int, UserView { game_id, ..old_u }));
            },
            None => {},
        }
        assert(self@.games =~= old(self)@.games);
    }

    fn put_game(&mut self, g: Game)
        requires
            old(self)@.wf(),
        ensures
            final(self)@ == (LobbyView { games: put_game(old(self)@.games, g@), ..old(self)@ }),
            final(self)@.wf(),
    {
        let ghost before = self@.games;
        match self.find_game(g.game_id) {
            Some(i) => {
                self.games[i] = g;
                assert(self@.games =~= before.update(i as int, g@));
            },
            None => {
                self.games.push(g);
                assert(self@.games =~= before.push(g@));
            },
        }
        assert(self@.users =~= old(self)@.users);
    }
}

} // verus!
