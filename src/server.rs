use crate::bindings::{random_token, send_to};
use crate::error::AppError;
use crate::event::{ClientEvent, ServerEvent};
use crate::rooms::Room;
use futures::channel::mpsc::UnboundedSender;
use vstd::prelude::*;

verus! {

/// How many random tokens are drawn before minting gives up.
pub const TOKEN_ATTEMPTS: usize = 8;

/// A live session: its connection id, the token that resumes it, and the
/// room it is affiliated with.
pub struct User {
    pub id: usize,
    pub token: String,
    pub room: Room,
}

/// The mathematical content of one session.
pub struct SessionEntry {
    pub id: nat,
    pub token: Seq<char>,
    pub room: Room,
}

/// The session a `User` record stands for.
pub open spec fn entry_of(u: User) -> SessionEntry {
    SessionEntry { id: u.id as nat, token: u.token@, room: u.room }
}

/// The registry as a value: the next id to issue and the live sessions in
/// the order they were created.
pub struct RegistryView {
    pub next_id: nat,
    pub sessions: Seq<SessionEntry>,
}

impl RegistryView {
    /// Ids were issued below `next_id`; no two sessions share an id or a token.
    pub open spec fn wf(self) -> bool {
        &&& self.next_id <= usize::MAX
        &&& forall|i: int| 0 <= i < self.sessions.len() ==> #[trigger] self.sessions[i].id < self.next_id
        &&& forall|i: int, j: int|
            0 <= i < j < self.sessions.len() ==> (#[trigger] self.sessions[i]).id != (#[trigger] self.sessions[j]).id
                && self.sessions[i].token != self.sessions[j].token
    }

    /// Whether a live session holds token `t`.
    pub open spec fn has_token(self, t: Seq<char>) -> bool {
        exists|i: int| 0 <= i < self.sessions.len() && #[trigger] self.sessions[i].token == t
    }

    /// The position of the session holding `t`, when `has_token(t)`.
    pub open spec fn token_index(self, t: Seq<char>) -> int {
        choose|i: int| 0 <= i < self.sessions.len() && #[trigger] self.sessions[i].token == t
    }

    /// Whether a live session has connection id `id`.
    pub open spec fn has_id(self, id: nat) -> bool {
        exists|i: int| 0 <= i < self.sessions.len() && #[trigger] self.sessions[i].id == id
    }

    /// The position of the session with id `id`, when `has_id(id)`.
    pub open spec fn id_index(self, id: nat) -> int {
        choose|i: int| 0 <= i < self.sessions.len() && #[trigger] self.sessions[i].id == id
    }

    /// The token a connection ends up with: the one it presented if that
    /// one is live, else the freshly minted one.
    pub open spec fn valid_token_spec(self, token: Option<Seq<char>>, fresh: Seq<char>) -> Seq<char> {
        match token {
            Some(t) => if self.has_token(t) { t } else { fresh },
            None => fresh,
        }
    }

    /// Opening a session for `token`: a live token keeps its id; a new one
    /// gets the next id, unless ids are exhausted (`None`).
    pub open spec fn session_spec(self, token: Seq<char>, room: Room) -> (RegistryView, Option<nat>) {
        if self.has_token(token) {
            (self, Some(self.sessions[self.token_index(token)].id))
        } else if self.next_id < usize::MAX {
            (
                RegistryView {
                    next_id: self.next_id + 1,
                    sessions: self.sessions.push(SessionEntry { id: self.next_id, token, room }),
                },
                Some(self.next_id),
            )
        } else {
            (self, None)
        }
    }

    /// Closing the session with connection id `id`, if there is one.
    pub open spec fn disconnect_spec(self, id: nat) -> RegistryView {
        if self.has_id(id) {
            RegistryView { next_id: self.next_id, sessions: self.sessions.remove(self.id_index(id)) }
        } else {
            self
        }
    }
}

/// Opening a session keeps the registry well formed.
pub proof fn lemma_session_wf(s: RegistryView, token: Seq<char>, room: Room)
    requires
        s.wf(),
    ensures
        s.session_spec(token, room).0.wf(),
{
    let s2 = s.session_spec(token, room).0;
    if !s.has_token(token) && s.next_id < usize::MAX {
        assert forall|i: int, j: int| 0 <= i < j < s2.sessions.len() implies
            (#[trigger] s2.sessions[i]).id != (#[trigger] s2.sessions[j]).id
                && s2.sessions[i].token != s2.sessions[j].token by {
            if j == s.sessions.len() {
                assert(s.sessions[i].id < s.next_id);
                if s.sessions[i].token == token {
                    assert(s.has_token(token));
                }
            } else {
                assert(s.sessions[i] == s2.sessions[i] && s.sessions[j] == s2.sessions[j]);
            }
        }
        assert forall|i: int| 0 <= i < s2.sessions.len() implies #[trigger] s2.sessions[i].id < s2.next_id by {
            if i < s.sessions.len() {
                assert(s.sessions[i] == s2.sessions[i]);
            }
        }
    }
}

/// Closing a session keeps the registry well formed.
pub proof fn lemma_disconnect_wf(s: RegistryView, id: nat)
    requires
        s.wf(),
    ensures
        s.disconnect_spec(id).wf(),
{
    if s.has_id(id) {
        let k = s.id_index(id);
        let s2 = s.disconnect_spec(id);
        assert forall|i: int| 0 <= i < s2.sessions.len() implies #[trigger] s2.sessions[i].id < s2.next_id by {
            if i < k {
                assert(s2.sessions[i] == s.sessions[i]);
            } else {
                assert(s2.sessions[i] == s.sessions[i + 1]);
            }
        }
        assert forall|i: int, j: int| 0 <= i < j < s2.sessions.len() implies
            (#[trigger] s2.sessions[i]).id != (#[trigger] s2.sessions[j]).id
                && s2.sessions[i].token != s2.sessions[j].token by {
            let a = if i < k { i } else { i + 1 };
            let b = if j < k { j } else { j + 1 };
            assert(s2.sessions[i] == s.sessions[a]);
            assert(s2.sessions[j] == s.sessions[b]);
            assert(s.sessions[a] == s.sessions[a] && s.sessions[b] == s.sessions[b]);
        }
    }
}

/// The identity and token bookkeeping of one gateway process.
pub struct UserManager {
    id_counter: usize,
    sessions: Vec<User>,
}

impl View for UserManager {
    type V = RegistryView;

    closed spec fn view(&self) -> RegistryView {
        RegistryView {
            next_id: self.id_counter as nat,
            sessions: self.sessions@.map_values(|u: User| entry_of(u)),
        }
    }
}

impl UserManager {
    /// Ids are below the counter; no two sessions share an id or a token.
    pub open spec fn wf(&self) -> bool {
        self@.wf()
    }

    /// An empty registry whose first id is 0.
    pub fn new() -> (r: UserManager)
        ensures
            r.wf(),
            r@.next_id == 0,
            r@.sessions.len() == 0,
    {
        let r = UserManager { id_counter: 0, sessions: Vec::new() };
        assert(r@.sessions =~= Seq::<SessionEntry>::empty());
        r
    }

    /// The position of the session holding `token`, if any.
    fn token_position(&self, token: &str) -> (r: Option<usize>)
        ensures
            r matches Some(i) ==> i < self@.sessions.len() && self@.sessions[i as int].token == token@,
            r is None ==> !self@.has_token(token@),
    {
        let t = String::from_str(token);
        let mut i: usize = 0;
        while i < self.sessions.len()
            invariant
                i <= self.sessions.len(),
                t@ == token@,
                self@.sessions.len() == self.sessions@.len(),
                forall|k: int| 0 <= k < i ==> #[trigger] self@.sessions[k].token != token@,
            decreases self.sessions.len() - i,
        {
            if self.sessions[i].token == t {
                return Some(i);
            }
            assert(self@.sessions[i as int] == entry_of(self.sessions@[i as int]));
            i += 1;
        }
        None
    }

    /// The position of the session with connection id `id`, if any.
    fn id_position(&self, id: usize) -> (r: Option<usize>)
        ensures
            r matches Some(i) ==> i < self@.sessions.len() && self@.sessions[i as int].id == id,
            r is None ==> !self@.has_id(id as nat),
    {
        let mut i: usize = 0;
        while i < self.sessions.len()
            invariant
                i <= self.sessions.len(),
                self@.sessions.len() == self.sessions@.len(),
                forall|k: int| 0 <= k < i ==> #[trigger] self@.sessions[k].id != id,
            decreases self.sessions.len() - i,
        {
            assert(self@.sessions[i as int] == entry_of(self.sessions@[i as int]));
            if self.sessions[i].id == id {
                return Some(i);
            }
            i += 1;
        }
        None
    }

    /// Whether `token` belongs to a live session.
    pub fn token_exists(&self, token: &str) -> (r: bool)
        ensures
            r == self@.has_token(token@),
    {
        self.token_position(token).is_some()
    }

    /// Draws random tokens until one is not live, giving up after
    /// `TOKEN_ATTEMPTS` draws. With no live session the first draw is kept.
    fn generate_token(&self) -> (r: Option<String>)
        ensures
            r matches Some(t) ==> !self@.has_token(t@),
            self@.sessions.len() == 0 ==> r is Some,
    {
        let mut attempts: usize = 0;
        while attempts < TOKEN_ATTEMPTS
            invariant
                self@.sessions.len() == 0 ==> attempts == 0,
            decreases TOKEN_ATTEMPTS - attempts,
        {
            let t = random_token();
            if !self.token_exists(t.as_str()) {
                return Some(t);
            }
            attempts += 1;
        }
        None
    }

    /// The presented token if it is live; otherwise a freshly minted one
    /// that no live session holds (`None` if minting gave up).
    pub fn get_valid_token(&self, token: Option<String>) -> (r: Option<String>)
        ensures
            (token matches Some(t) && self@.has_token(t@)) ==> r == token,
            !(token matches Some(t) && self@.has_token(t@)) ==> (r matches Some(f) ==> !self@.has_token(f@)),
            self@.sessions.len() == 0 ==> r is Some,
    {
        match token {
            Some(t) => {
                if self.token_exists(t.as_str()) {
                    Some(t)
                } else {
                    self.generate_token()
                }
            },
            None => self.generate_token(),
        }
    }

    /// The connection id for `token`: the live session's id, or a new
    /// session in `starting_room` with the next id.
    pub fn session(&mut self, token: String, starting_room: Room) -> (r: Result<usize, AppError>)
        requires
            old(self).wf(),
        ensures
            final(self).wf(),
            final(self)@ == old(self)@.session_spec(token@, starting_room).0,
            match r {
                Ok(id) => old(self)@.session_spec(token@, starting_room).1 == Some(id as nat),
                Err(e) => old(self)@.session_spec(token@, starting_room).1 is None && e is IdsExhausted,
            },
    {
        proof {
            lemma_session_wf(self@, token@, starting_room);
        }
        match self.token_position(token.as_str()) {
            Some(i) => {
                let ghost k = self@.token_index(token@);
                proof {
                    if k != i as int {
                        let (a, b) = if k < i as int { (k, i as int) } else { (i as int, k) };
                        assert(self@.sessions[a] == self@.sessions[a] && self@.sessions[b] == self@.sessions[b]);
                    }
                }
                assert(self@.sessions[i as int] == entry_of(self.sessions@[i as int]));
                Ok(self.sessions[i].id)
            },
            None => {
                if self.id_counter == usize::MAX {
                    return Err(AppError::IdsExhausted);
                }
                let id = self.id_counter;
                let ghost old_view = self@;
                self.sessions.push(User { id, token, room: starting_room });
                self.id_counter = id + 1;
                assert(self@.sessions =~= old_view.sessions.push(SessionEntry { id: id as nat, token: token@, room: starting_room }));
                Ok(id)
            },
        }
    }

    /// The session with connection id `user_id`, if it is live.
    pub fn get(&self, user_id: usize) -> (r: Option<&User>)
        ensures
            r is Some <==> self@.has_id(user_id as nat),
            r matches Some(u) ==> u.id == user_id && self@.sessions.contains(entry_of(*u)),
    {
        match self.id_position(user_id) {
            Some(i) => {
                assert(self@.sessions[i as int] == entry_of(self.sessions@[i as int]));
                Some(&self.sessions[i])
            },
            None => None,
        }
    }

    /// Ends the session with connection id `id`; a no-op when there is none.
    pub fn disconnect(&mut self, id: usize)
        requires
            old(self).wf(),
        ensures
            final(self).wf(),
            final(self)@ == old(self)@.disconnect_spec(id as nat),
    {
        proof {
            lemma_disconnect_wf(self@, id as nat);
        }
        match self.id_position(id) {
            Some(i) => {
                let ghost old_view = self@;
                let ghost k = old_view.id_index(id as nat);
                proof {
                    if k != i as int {
                        let (a, b) = if k < i as int { (k, i as int) } else { (i as int, k) };
                        assert(old_view.sessions[a] == old_view.sessions[a] && old_view.sessions[b] == old_view.sessions[b]);
                    }
                }
                self.sessions.remove(i);
                assert(self@.sessions =~= old_view.sessions.remove(i as int));
            },
            None => {},
        }
    }

    /// The number of live sessions.
    pub fn len(&self) -> (r: usize)
        ensures
            r == self@.sessions.len(),
    {
        self.sessions.len()
    }
}

/// The view of an optional presented token.
pub open spec fn presented(token: Option<String>) -> Option<Seq<char>> {
    match token {
        Some(t) => Some(t@),
        None => None,
    }
}

impl RegistryView {
    /// Whether `token` was presented and belongs to a live session.
    pub open spec fn is_live(self, token: Option<Seq<char>>) -> bool {
        match token {
            Some(t) => self.has_token(t),
            None => false,
        }
    }

    /// A `Connect` that presented `token` and was answered with `(id, t)`
    /// took the registry from `self` to `next`: `t` is the presented token
    /// if that one is live, else a token no live session holds, and the
    /// session for `t` was opened as `session_spec` says.
    pub open spec fn connected(self, token: Option<Seq<char>>, room: Room, next: RegistryView, id: nat, t: Seq<char>) -> bool {
        &&& (self.is_live(token) ==> token == Some(t))
        &&& (!self.is_live(token) ==> !self.has_token(t))
        &&& self.session_spec(t, room) == (next, Some(id))
    }

    /// A `Connect` that presented `token`, with `fresh` minted in case it is
    /// needed: the registry after it, and the id and token it answers with.
    /// It fails (`None`) when the minted token collides with a live one or
    /// ids are exhausted.
    pub open spec fn connect_spec(self, token: Option<Seq<char>>, fresh: Seq<char>, room: Room) -> (RegistryView, Option<(nat, Seq<char>)>) {
        let t = self.valid_token_spec(token, fresh);
        if !self.is_live(token) && self.has_token(fresh) {
            (self, None)
        } else {
            let (next, r) = self.session_spec(t, room);
            match r {
                Some(id) => (next, Some((id, t))),
                None => (next, None),
            }
        }
    }
}

/// Reconnecting with the token that a first connection was given yields the
/// same connection id, and leaves the registry as the first connection left
/// it.
pub proof fn lemma_reconnect_same_id(s: RegistryView, fresh: Seq<char>, other: Seq<char>, room: Room)
    requires
        s.wf(),
        !s.has_token(fresh),
        s.next_id < usize::MAX,
    ensures
        ({
            let (s1, r1) = s.connect_spec(None, fresh, room);
            let (s2, r2) = s1.connect_spec(Some(fresh), other, room);
            &&& r1 == Some((s.next_id, fresh))
            &&& r2 == r1
            &&& s2 == s1
        }),
{
    let (s1, r1) = s.session_spec(fresh, room);
    let k = s.sessions.len() as int;
    assert(s1.sessions[k].token == fresh);
    assert(s1.has_token(fresh));
    assert(s1.is_live(Some(fresh)));
    lemma_session_wf(s, fresh, room);
    let j = s1.token_index(fresh);
    if j != k {
        assert(s1.sessions[j] == s1.sessions[j] && s1.sessions[k] == s1.sessions[k]);
        if j < k {
            assert(s1.sessions[j] == s.sessions[j]);
            assert(s.has_token(fresh));
        }
    }
}

/// The registry actor: every identity request of the process goes through
/// its `handle`, one at a time.
pub struct GameServer {
    user: UserManager,
    starting_room: Room,
}

impl GameServer {
    /// Ids are below the counter; no two sessions share an id or a token.
    pub open spec fn wf(&self) -> bool {
        self.registry().wf()
    }

    /// The sessions and id counter the actor holds.
    pub closed spec fn registry(&self) -> RegistryView {
        self.user@
    }

    /// The room new sessions start in.
    pub closed spec fn starting_room(&self) -> Room {
        self.starting_room
    }

    /// An actor with no sessions, starting new ones in the waiting room.
    pub fn new() -> (r: GameServer)
        ensures
            r.wf(),
            r.registry().next_id == 0,
            r.registry().sessions.len() == 0,
            r.starting_room() == Room::WaitingRoom,
    {
        GameServer { user: UserManager::new(), starting_room: Room::WaitingRoom }
    }

    /// Resolves a connection's identity with `fresh` as the token to mint:
    /// a live presented token keeps its id; otherwise `fresh` opens a new
    /// session, unless a live session already holds it.
    pub fn connect_with(&mut self, token: Option<String>, fresh: String) -> (r: Result<(usize, String), AppError>)
        requires
            old(self).wf(),
        ensures
            final(self).wf(),
            final(self).starting_room() == old(self).starting_room(),
            ({
                let (next, out) = old(self).registry().connect_spec(presented(token), fresh@, old(self).starting_room());
                &&& final(self).registry() == next
                &&& match r {
                    Ok((id, t)) => out == Some((id as nat, t@)),
                    Err(e) => out is None && (if !old(self).registry().is_live(presented(token))
                        && old(self).registry().has_token(fresh@) {
                        e is TokenUnavailable
                    } else {
                        e is IdsExhausted
                    }),
                }
            }),
    {
        let live = match &token {
            Some(t) => self.user.token_exists(t.as_str()),
            None => false,
        };
        let t = match token {
            Some(t) => if live {
                t
            } else {
                fresh
            },
            None => fresh,
        };
        if !live && self.user.token_exists(t.as_str()) {
            return Err(AppError::TokenUnavailable);
        }
        match self.user.session(t.clone(), self.starting_room) {
            Ok(id) => Ok((id, t)),
            Err(e) => Err(e),
        }
    }

    /// Resolves a connection's identity: a live presented token keeps its
    /// id; otherwise a fresh token is minted and `connect_with` opens a new
    /// session for it.
    pub fn connect(&mut self, token: Option<String>) -> (r: Result<(usize, String), AppError>)
        requires
            old(self).wf(),
        ensures
            final(self).wf(),
            final(self).starting_room() == old(self).starting_room(),
            old(self).registry().is_live(presented(token)) ==> r is Ok,
            old(self).registry().sessions.len() == 0 && old(self).registry().next_id < usize::MAX ==> r is Ok,
            r matches Ok((id, t)) ==> old(self).registry().connected(
                presented(token),
                old(self).starting_room(),
                final(self).registry(),
                id as nat,
                t@,
            ),
            r matches Err(e) ==> final(self).registry() == old(self).registry() && (e is TokenUnavailable
                || e is IdsExhausted),
    {
        let live = match &token {
            Some(t) => self.user.token_exists(t.as_str()),
            None => false,
        };
        let fresh = if live {
            String::new()
        } else {
            match self.user.generate_token() {
                Some(f) => f,
                None => return Err(AppError::TokenUnavailable),
            }
        };
        self.connect_with(token, fresh)
    }

    /// Works out a request from the mailbox and the reply it owes. A
    /// `Connect` is answered on its own channel with `ClientEvent::Id` of the
    /// identity it resolved to; a `Disconnect` closes the session; messages
    /// are left to room logic. Only a `Connect` gets a reply.
    pub fn answer(&mut self, msg: ServerEvent) -> (r: Result<Option<(UnboundedSender<ClientEvent>, ClientEvent)>, AppError>)
        requires
            old(self).wf(),
        ensures
            final(self).wf(),
            final(self).starting_room() == old(self).starting_room(),
            match msg {
                ServerEvent::Connect(client, token) => {
                    &&& (old(self).registry().is_live(presented(token)) ==> r is Ok)
                    &&& (old(self).registry().sessions.len() == 0 && old(self).registry().next_id < usize::MAX
                        ==> r is Ok)
                    &&& (r is Ok ==> (r matches Ok(Some((ch, ClientEvent::Id(_, _)))) && ch == client))
                    &&& (r matches Ok(Some((_, ClientEvent::Id(id, t)))) ==> old(self).registry().connected(
                        presented(token),
                        old(self).starting_room(),
                        final(self).registry(),
                        id as nat,
                        t@,
                    ))
                    &&& (r matches Err(e) ==> final(self).registry() == old(self).registry() && (
                    e is TokenUnavailable || e is IdsExhausted))
                },
                ServerEvent::Disconnect(id) => r matches Ok(None) && final(self).registry()
                    == old(self).registry().disconnect_spec(id as nat),
                ServerEvent::Message(_, _) => r matches Ok(None) && final(self).registry() == old(self).registry(),
            },
    {
        match msg {
            ServerEvent::Connect(client, token) => {
                match self.connect(token) {
                    Ok((id, t)) => Ok(Some((client, ClientEvent::Id(id, t)))),
                    Err(e) => Err(e),
                }
            },
            ServerEvent::Disconnect(id) => {
                self.user.disconnect(id);
                Ok(None)
            },
            ServerEvent::Message(_, _) => Ok(None),
        }
    }

    /// Applies one request from the mailbox: the reply from `answer`, if
    /// any, is handed to its channel unchanged.
    pub fn handle(&mut self, msg: ServerEvent) -> (r: Result<(), AppError>)
        requires
            old(self).wf(),
        ensures
            final(self).wf(),
            final(self).starting_room() == old(self).starting_room(),
            match msg {
                ServerEvent::Connect(_, token) => {
                    &&& (old(self).registry().is_live(presented(token)) ==> r is Ok)
                    &&& (old(self).registry().sessions.len() == 0 && old(self).registry().next_id < usize::MAX
                        ==> r is Ok)
                    &&& (r is Ok ==> exists|id: nat, t: Seq<char>|
                        old(self).registry().connected(
                            presented(token),
                            old(self).starting_room(),
                            final(self).registry(),
                            id,
                            t,
                        ))
                    &&& (r is Err ==> final(self).registry() == old(self).registry())
                },
                ServerEvent::Disconnect(id) => r is Ok && final(self).registry() == old(self).registry().disconnect_spec(
                    id as nat,
                ),
                ServerEvent::Message(_, _) => r is Ok && final(self).registry() == old(self).registry(),
            },
    {
        match self.answer(msg) {
            Ok(Some((ch, ev))) => {
                let _ = send_to(&ch, ev);
                Ok(())
            },
            Ok(None) => Ok(()),
            Err(e) => Err(e),
        }
    }

    /// The number of live sessions.
    pub fn session_count(&self) -> (r: usize)
        ensures
            r == self.registry().sessions.len(),
    {
        self.user.len()
    }
}

} // verus!
