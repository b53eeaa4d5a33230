//! The game: who plays, from which address, where they stand, and the bullets in flight.
//!
//! Players are found by the address their datagrams come from. A player joins once per
//! address; leaving takes the player out by moving the last player into its place.

use vstd::prelude::*;

use crate::address::SocketAddress;
use crate::bullet::{info_of, is_fired, moved_to, reports, BasicBullet, Bullet, TickUpdate, Velocity};
use crate::entities::{new_player, GameState, Player};
use crate::geometry::Position;
use crate::ids::uuid_text;
use crate::input_messages::game_event::Event;
use crate::input_messages::{GameEvent, Move, PlayerJoined, PlayerLeft, Shoot};
use crate::output_messages::update_game_event::UpdateEvent;
use crate::output_messages::{
    AddedPlayer, ChangedPlayerPosition, CreateBullet, RemovedPlayer, UpdateAllBullets,
    UpdateBulletPosition, UpdateGameEvent,
};

verus! {

/// Some player of `s` plays from `a`.
pub open spec fn has_address(s: Seq<Player>, a: SocketAddress) -> bool {
    exists|i: int| #![trigger s[i]] 0 <= i < s.len() && s[i].server_info.addr == a
}

/// No two players of `s` play from the same address.
pub open spec fn distinct_addresses(s: Seq<Player>) -> bool {
    forall|i: int, j: int|
        #![trigger s[i], s[j]]
        0 <= i < s.len() && 0 <= j < s.len() && i != j ==> s[i].server_info.addr
            != s[j].server_info.addr
}

/// `i` is the first position of `s` whose player plays from `a`.
pub open spec fn is_first_match(s: Seq<Player>, a: SocketAddress, i: int) -> bool {
    &&& 0 <= i < s.len()
    &&& s[i].server_info.addr == a
    &&& forall|j: int| #![trigger s[j]] 0 <= j < i ==> s[j].server_info.addr != a
}

/// The first position of `s` whose player plays from `a` (meaningful when `has_address`).
pub open spec fn first_index(s: Seq<Player>, a: SocketAddress) -> int {
    choose|i: int| is_first_match(s, a, i)
}

/// `s` without its `i`-th element, the last element taking its place.
pub open spec fn swap_removed<T>(s: Seq<T>, i: int) -> Seq<T> {
    s.update(i, s.last()).drop_last()
}

/// The addresses of the players of `s`, in order.
pub open spec fn addresses_of(s: Seq<Player>) -> Seq<SocketAddress> {
    s.map_values(|p: Player| p.server_info.addr)
}

/// The roster after a join from `addr`: unchanged when someone already plays from `addr`,
/// otherwise with the new player appended.
pub open spec fn joined(s: Seq<Player>, data: PlayerJoined, addr: SocketAddress) -> Seq<Player> {
    if has_address(s, addr) {
        s
    } else {
        s.push(new_player(data.id, data.username, addr))
    }
}

/// The roster after the player at `addr` leaves: unchanged when nobody plays from `addr`.
pub open spec fn left(s: Seq<Player>, addr: SocketAddress) -> Seq<Player> {
    if has_address(s, addr) {
        swap_removed(s, first_index(s, addr))
    } else {
        s
    }
}

/// The roster after the player at `addr` is put at `position`.
pub open spec fn placed(s: Seq<Player>, addr: SocketAddress, position: Position) -> Seq<Player> {
    if has_address(s, addr) {
        let i = first_index(s, addr);
        s.update(i, Player { position, ..s[i] })
    } else {
        s
    }
}

/// The roster after the players at each of `failed`, in turn, have left.
pub open spec fn left_all(s: Seq<Player>, failed: Seq<SocketAddress>) -> Seq<Player>
    decreases failed.len(),
{
    if failed.len() == 0 {
        s
    } else {
        left(left_all(s, failed.drop_last()), failed.last())
    }
}

/// Where the player that plays from `a` stands (meaningful when `has_address`).
pub open spec fn standing(s: Seq<Player>, a: SocketAddress) -> Position {
    s[first_index(s, a)].position
}

/// Where a player was found, a first match exists.
pub proof fn lemma_first_match_exists(s: Seq<Player>, a: SocketAddress, k: int)
    requires
        0 <= k < s.len(),
        s[k].server_info.addr == a,
    ensures
        is_first_match(s, a, first_index(s, a)),
    decreases k,
{
    if exists|j: int| 0 <= j < k && #[trigger] s[j].server_info.addr == a {
        let j = choose|j: int| 0 <= j < k && #[trigger] s[j].server_info.addr == a;
        lemma_first_match_exists(s, a, j);
    } else {
        assert(is_first_match(s, a, k));
    }
}

/// There is one first match.
pub proof fn lemma_first_match_unique(s: Seq<Player>, a: SocketAddress, i: int, j: int)
    requires
        is_first_match(s, a, i),
        is_first_match(s, a, j),
    ensures
        i == j,
{
    if i < j {
        assert(s[i].server_info.addr != a);
    } else if j < i {
        assert(s[j].server_info.addr != a);
    }
}

/// A position found by a search is the one that `first_index` names.
pub proof fn lemma_found_is_first_index(s: Seq<Player>, a: SocketAddress, i: int)
    requires
        is_first_match(s, a, i),
    ensures
        has_address(s, a),
        first_index(s, a) == i,
{
    assert(s[i].server_info.addr == a);
    lemma_first_match_exists(s, a, i);
    lemma_first_match_unique(s, a, i, first_index(s, a));
}

/// Where an event goes: a join or a leave is applied to the roster and its update is in
/// `Applied`; a movement or a shot is handed back, since its arithmetic is the caller's.
#[derive(Clone, Debug)]
pub enum RoutedEvent {
    Applied(Option<UpdateEvent>),
    Move(Move),
    Shoot(Shoot),
}

/// The game's players and bullets.
pub struct GameInfo {
    players: Vec<Player>,
    bullets: Vec<Bullet>,
    state: GameState,
}

impl GameInfo {
    /// The players, in the order they are kept.
    pub closed spec fn roster(&self) -> Seq<Player> {
        self.players@
    }

    /// The bullets in flight, oldest first.
    pub closed spec fn bullet_list(&self) -> Seq<Bullet> {
        self.bullets@
    }

    /// Every player plays from an address of its own; every game keeps to this.
    #[verifier::type_invariant]
    pub open spec fn wf(&self) -> bool {
        distinct_addresses(self.roster())
    }

    /// An empty game.
    pub fn new() -> (r: GameInfo)
        ensures
            r.roster() == Seq::<Player>::empty(),
            r.bullet_list() == Seq::<Bullet>::empty(),
    {
        GameInfo { players: Vec::new(), bullets: Vec::new(), state: GameState {} }
    }

    /// The players, in the order they are kept.
    pub fn players(&self) -> (r: &Vec<Player>)
        ensures
            r@ == self.roster(),
    {
        &self.players
    }

    /// The bullets in flight, oldest first.
    pub fn bullets(&self) -> (r: &Vec<Bullet>)
        ensures
            r@ == self.bullet_list(),
    {
        &self.bullets
    }

    /// The first position of the player that plays from `addr`.
    fn position_of(&self, addr: SocketAddress) -> (r: Option<usize>)
        ensures
            match r {
                Some(i) => is_first_match(self.roster(), addr, i as int) && first_index(
                    self.roster(),
                    addr,
                ) == i,
                None => !has_address(self.roster(), addr),
            },
    {
        let mut i: usize = 0;
        while i < self.players.len()
            invariant
                0 <= i <= self.players@.len(),
                forall|j: int|
                    #![trigger self.players@[j]]
                    0 <= j < i ==> self.players@[j].server_info.addr != addr,
            decreases self.players@.len() - i,
        {
            if self.players[i].server_info.addr == addr {
                proof {
                    lemma_found_is_first_index(self.roster(), addr, i as int);
                }
                return Some(i);
            }
            i = i + 1;
        }
        None
    }

    /// The player that plays from `addr`, if any.
    pub fn find_player_by_address(&self, addr: SocketAddress) -> (r: Option<&Player>)
        ensures
            r is Some <==> has_address(self.roster(), addr),
            r matches Some(p) ==> *p == self.roster()[first_index(self.roster(), addr)],
    {
        match self.position_of(addr) {
            Some(pos) => Some(&self.players[pos]),
            None => None,
        }
    }

    /// The position of the player that plays from `addr`, if any.
    pub fn player_position(&self, addr: SocketAddress) -> (r: Option<Position>)
        ensures
            r is Some <==> has_address(self.roster(), addr),
            r matches Some(p) ==> p == self.roster()[first_index(self.roster(), addr)].position,
    {
        match self.find_player_by_address(addr) {
            Some(player) => Some(player.position),
            None => None,
        }
    }

    /// The addresses of all players, in the order the players are kept.
    pub fn get_addresses(&self) -> (r: Vec<SocketAddress>)
        ensures
            r@ == addresses_of(self.roster()),
    {
        let mut r: Vec<SocketAddress> = Vec::new();
        let mut i: usize = 0;
        while i < self.players.len()
            invariant
                0 <= i <= self.players@.len(),
                r@ == addresses_of(self.players@.take(i as int)),
            decreases self.players@.len() - i,
        {
            r.push(self.players[i].server_info.addr);
            assert(self.players@.take(i + 1) == self.players@.take(i as int).push(
                self.players@[i as int],
            ));
            i = i + 1;
        }
        assert(self.players@.take(i as int) == self.players@);
        r
    }

    /// A player joins from `addr`. Nothing happens, and `None` comes back, when someone
    /// already plays from `addr`; otherwise the new player is appended and its arrival is
    /// announced.
    pub fn add_player(&mut self, data: PlayerJoined, addr: SocketAddress) -> (r: Option<
        UpdateEvent,
    >)
        ensures
            final(self).roster() == joined(old(self).roster(), data, addr),
            final(self).bullet_list() == old(self).bullet_list(),
            r == (if has_address(old(self).roster(), addr) {
                None
            } else {
                Some(UpdateEvent::AddedPlayer(AddedPlayer { id: data.id, username: data.username }))
            }),
    {
        proof {
            use_type_invariant(&*self);
        }
        let player_exists = self.position_of(addr).is_some();
        if !player_exists {
            let player = Player::new(data.id.clone(), data.username.clone(), addr);
            let mut players: Vec<Player> = Vec::new();
            std::mem::swap(&mut players, &mut self.players);
            players.push(player);
            proof {
                let s = old(self).roster();
                assert forall|i: int, j: int|
                    #![trigger players@[i], players@[j]]
                    0 <= i < players@.len() && 0 <= j < players@.len() && i != j implies players@[i].server_info.addr
                    != players@[j].server_info.addr by {
                    if i == s.len() {
                        assert(s[j].server_info.addr != addr);
                    } else if j == s.len() {
                        assert(s[i].server_info.addr != addr);
                    } else {
                        assert(s[i] == players@[i] && s[j] == players@[j]);
                    }
                }
            }
            self.players = players;
            return Some(
                UpdateEvent::AddedPlayer(AddedPlayer { id: data.id, username: data.username }),
            );
        }
        None
    }

    /// The player that plays from `addr` leaves: the last player takes its place, and its
    /// departure is announced. Nothing happens, and `None` comes back, when nobody plays
    /// from `addr`.
    pub fn remove_player(&mut self, _data: PlayerLeft, addr: SocketAddress) -> (r: Option<
        UpdateEvent,
    >)
        ensures
            final(self).roster() == left(old(self).roster(), addr),
            final(self).bullet_list() == old(self).bullet_list(),
            r == (if has_address(old(self).roster(), addr) {
                Some(
                    UpdateEvent::RemovedPlayer(
                        RemovedPlayer {
                            id: old(self).roster()[first_index(old(self).roster(), addr)].id,
                        },
                    ),
                )
            } else {
                None
            }),
    {
        proof {
            use_type_invariant(&*self);
        }
        let player_exists = self.position_of(addr);
        if let Some(pos) = player_exists {
            let mut players: Vec<Player> = Vec::new();
            std::mem::swap(&mut players, &mut self.players);
            let player = players.swap_remove(pos);
            proof {
                let s = old(self).roster();
                let t = players@;
                assert forall|i: int, j: int|
                    #![trigger t[i], t[j]]
                    0 <= i < t.len() && 0 <= j < t.len() && i != j implies t[i].server_info.addr
                    != t[j].server_info.addr by {
                    let si = if i == pos { s.len() - 1 } else { i };
                    let sj = if j == pos { s.len() - 1 } else { j };
                    assert(t[i] == s[si] && t[j] == s[sj]);
                }
            }
            self.players = players;
            return Some(UpdateEvent::RemovedPlayer(RemovedPlayer { id: player.id }));
        }
        None
    }

    /// Puts the player that plays from `addr` at `position` and announces where it now
    /// stands. Nothing happens, and `None` comes back, when nobody plays from `addr`.
    pub fn place_player(&mut self, addr: SocketAddress, position: Position) -> (r: Option<
        UpdateEvent,
    >)
        ensures
            final(self).roster() == placed(old(self).roster(), addr, position),
            final(self).bullet_list() == old(self).bullet_list(),
            r == (if has_address(old(self).roster(), addr) {
                Some(
                    UpdateEvent::ChangedPlayerPosition(
                        ChangedPlayerPosition { x: position.x, y: position.y, z: position.z },
                    ),
                )
            } else {
                None
            }),
    {
        proof {
            use_type_invariant(&*self);
        }
        match self.position_of(addr) {
            Some(pos) => {
                let current = &self.players[pos];
                let player = Player {
                    id: current.id.clone(),
                    username: current.username.clone(),
                    server_info: current.server_info,
                    health: current.health,
                    position,
                };
                let ghost before = self.players@;
                let mut players: Vec<Player> = Vec::new();
                std::mem::swap(&mut players, &mut self.players);
                players.set(pos, player);
                proof {
                    assert(players@ == placed(before, addr, position));
                    assert forall|i: int, j: int|
                        #![trigger players@[i], players@[j]]
                        0 <= i < players@.len() && 0 <= j < players@.len() && i != j implies players@[i].server_info.addr
                        != players@[j].server_info.addr by {
                        assert(before[i].server_info.addr == players@[i].server_info.addr);
                        assert(before[j].server_info.addr == players@[j].server_info.addr);
                    }
                }
                self.players = players;
                Some(
                    UpdateEvent::ChangedPlayerPosition(
                        ChangedPlayerPosition { x: position.x, y: position.y, z: position.z },
                    ),
                )
            },
            None => None,
        }
    }

    /// Takes out the players whose addresses could not be reached, one after the other, as
    /// a leave from each of `failed` in turn.
    pub fn drop_unreachable(&mut self, failed: &Vec<SocketAddress>)
        ensures
            final(self).roster() == left_all(old(self).roster(), failed@),
            final(self).bullet_list() == old(self).bullet_list(),
    {
        let mut i: usize = 0;
        while i < failed.len()
            invariant
                0 <= i <= failed@.len(),
                self.roster() == left_all(old(self).roster(), failed@.take(i as int)),
                self.bullet_list() == old(self).bullet_list(),
            decreases failed@.len() - i,
        {
            let addr = failed[i];
            self.remove_player(PlayerLeft { id: String::new() }, addr);
            assert(failed@.take(i + 1).drop_last() == failed@.take(i as int));
            i = i + 1;
        }
        assert(failed@.take(i as int) == failed@);
    }

    /// The player at `addr` fires a bullet with `velocity` from where it stands; the bullet
    /// gets a fresh random identifier and is announced. Nothing happens, and `None` comes
    /// back, when nobody plays from `addr`.
    pub fn shoot_bullet(&mut self, addr: SocketAddress, velocity: Velocity) -> (r: Option<
        UpdateEvent,
    >)
        ensures
            final(self).roster() == old(self).roster(),
            !has_address(old(self).roster(), addr) ==> r is None && final(self).bullet_list()
                == old(self).bullet_list(),
            has_address(old(self).roster(), addr) ==> exists|b: BasicBullet|
                #[trigger] is_fired(b, standing(old(self).roster(), addr), velocity)
                    && final(self).bullet_list() == old(self).bullet_list().push(
                    Bullet::Basic { bullet: b },
                ) && (r matches Some(UpdateEvent::CreateBullet(c)) && c.id@ == uuid_text(
                    b.bullet_info.id,
                ) && c.x == standing(old(self).roster(), addr).x && c.y == standing(
                    old(self).roster(),
                    addr,
                ).y && c.z == standing(old(self).roster(), addr).z),
    {
        proof {
            use_type_invariant(&*self);
        }
        let position = match self.player_position(addr) {
            Some(p) => p,
            None => {
                return None;
            },
        };
        let basic_bullet = BasicBullet::new(position, velocity);
        let response = Some(
            UpdateEvent::CreateBullet(
                CreateBullet::new(basic_bullet.bullet_info.id, &basic_bullet.bullet_info.position),
            ),
        );
        let mut bullets: Vec<Bullet> = Vec::new();
        std::mem::swap(&mut bullets, &mut self.bullets);
        bullets.push(Bullet::Basic { bullet: basic_bullet });
        self.bullets = bullets;
        assert(is_fired(basic_bullet, standing(old(self).roster(), addr), velocity));
        response
    }

    /// Takes in one client event from `addr`: joins and leaves are applied here, movements
    /// and shots are handed back to be applied by the caller. The event must carry a payload.
    pub fn route_event(&mut self, event: GameEvent, addr: SocketAddress) -> (r: RoutedEvent)
        requires
            event.event is Some,
        ensures
            match event.event->0 {
                Event::Joined(p) => final(self).roster() == joined(old(self).roster(), p, addr)
                    && r == RoutedEvent::Applied(
                    if has_address(old(self).roster(), addr) {
                        None
                    } else {
                        Some(UpdateEvent::AddedPlayer(AddedPlayer { id: p.id, username: p.username }))
                    },
                ),
                Event::Left(_) => final(self).roster() == left(old(self).roster(), addr) && r
                    == RoutedEvent::Applied(
                    if has_address(old(self).roster(), addr) {
                        Some(
                            UpdateEvent::RemovedPlayer(
                                RemovedPlayer {
                                    id: old(self).roster()[first_index(
                                        old(self).roster(),
                                        addr,
                                    )].id,
                                },
                            ),
                        )
                    } else {
                        None
                    },
                ),
                Event::Move(m) => final(self).roster() == old(self).roster() && r
                    == RoutedEvent::Move(m),
                Event::Shoot(sh) => final(self).roster() == old(self).roster() && r
                    == RoutedEvent::Shoot(sh),
            },
            final(self).bullet_list() == old(self).bullet_list(),
    {
        let ev = match event.event {
            Some(ev) => ev,
            None => {
                return RoutedEvent::Applied(None);
            },
        };
        match ev {
            Event::Joined(payload) => RoutedEvent::Applied(self.add_player(payload, addr)),
            Event::Move(payload) => RoutedEvent::Move(payload),
            Event::Left(payload) => RoutedEvent::Applied(self.remove_player(payload, addr)),
            Event::Shoot(payload) => RoutedEvent::Shoot(payload),
        }
    }

    /// The update to send after an event, and the addresses to send it to: every player's,
    /// in roster order. `None` when the event produced no update.
    pub fn broadcast_plan(&self, event: Option<UpdateEvent>) -> (r: Option<
        (UpdateGameEvent, Vec<SocketAddress>),
    >)
        ensures
            match event {
                None => r is None,
                Some(e) => r matches Some((message, addrs)) && message == UpdateGameEvent {
                    update_event: Some(e),
                } && addrs@ == addresses_of(self.roster()),
            },
    {
        match event {
            None => None,
            Some(e) => {
                let addrs = self.get_addresses();
                Some((UpdateGameEvent { update_event: Some(e) }, addrs))
            },
        }
    }
}

impl GameInfo {
    /// Moves every bullet to its position for this tick, `moved[k]` for the `k`-th bullet,
    /// and reports every bullet's new position, oldest bullet first. Bullets keep their
    /// order, identifiers, velocities, speeds and damages.
    pub fn game_tick(&mut self, moved: &Vec<Position>) -> (r: Option<UpdateEvent>)
        requires
            moved@.len() == old(self).bullet_list().len(),
        ensures
            final(self).roster() == old(self).roster(),
            final(self).bullet_list().len() == old(self).bullet_list().len(),
            forall|k: int|
                #![trigger final(self).bullet_list()[k]]
                0 <= k < moved@.len() ==> final(self).bullet_list()[k] == moved_to(
                    old(self).bullet_list()[k],
                    moved@[k],
                ),
            r matches Some(UpdateEvent::UpdateAllBullets(u)) && u.update_bullet_position@.len()
                == moved@.len() && forall|k: int|
                #![trigger u.update_bullet_position@[k]]
                0 <= k < moved@.len() ==> reports(
                    u.update_bullet_position@[k],
                    info_of(old(self).bullet_list()[k]).id,
                    moved@[k],
                ),
    {
        proof {
            use_type_invariant(&*self);
        }
        let ghost before = self.bullets@;
        let mut bullets: Vec<Bullet> = Vec::new();
        std::mem::swap(&mut bullets, &mut self.bullets);
        let mut bullet_changes: Vec<UpdateBulletPosition> = Vec::new();
        let mut i: usize = 0;
        while i < bullets.len()
            invariant
                0 <= i <= bullets@.len(),
                bullets@.len() == before.len(),
                moved@.len() == before.len(),
                bullet_changes@.len() == i,
                forall|k: int|
                    #![trigger bullets@[k]]
                    0 <= k < i ==> bullets@[k] == moved_to(before[k], moved@[k]),
                forall|k: int| #![trigger bullets@[k]] i <= k < bullets@.len() ==> bullets@[k] == before[k],
                forall|k: int|
                    #![trigger bullet_changes@[k]]
                    0 <= k < i ==> reports(bullet_changes@[k], info_of(before[k]).id, moved@[k]),
            decreases bullets@.len() - i,
        {
            let change = bullets[i].update_position(moved[i]);
            bullet_changes.push(change);
            i = i + 1;
        }
        self.bullets = bullets;
        Some(
            UpdateEvent::UpdateAllBullets(
                UpdateAllBullets { update_bullet_position: bullet_changes },
            ),
        )
    }
}

impl Default for GameInfo {
    /// An empty game.
    fn default() -> (r: GameInfo)
        ensures
            r.roster() == Seq::<Player>::empty(),
            r.bullet_list() == Seq::<Bullet>::empty(),
    {
        GameInfo::new()
    }
}

/// After a join from `addr`, someone plays from `addr`, and a second join from `addr`,
/// whatever it carries, changes nothing.
pub proof fn lemma_join_is_once_per_address(
    s: Seq<Player>,
    first: PlayerJoined,
    second: PlayerJoined,
    addr: SocketAddress,
)
    ensures
        has_address(joined(s, first, addr), addr),
        joined(joined(s, first, addr), second, addr) == joined(s, first, addr),
{
    if !has_address(s, addr) {
        let t = joined(s, first, addr);
        assert(t[s.len() as int].server_info.addr == addr);
    }
}

/// A newcomer who joins and then leaves restores the roster exactly, and its departure
/// names the identifier it joined with.
pub proof fn lemma_join_then_leave(s: Seq<Player>, data: PlayerJoined, addr: SocketAddress)
    requires
        !has_address(s, addr),
    ensures
        left(joined(s, data, addr), addr) == s,
        joined(s, data, addr)[first_index(joined(s, data, addr), addr)].id == data.id,
{
    let t = joined(s, data, addr);
    let n = s.len() as int;
    assert(is_first_match(t, addr, n)) by {
        assert forall|j: int| #![trigger t[j]] 0 <= j < n implies t[j].server_info.addr != addr by {
            assert(t[j] == s[j]);
        }
    }
    lemma_found_is_first_index(t, addr, n);
    assert(swap_removed(t, n) == s);
}

/// Once the player at `addr` has left a roster whose addresses are distinct, nobody plays
/// from `addr`.
pub proof fn lemma_leave_removes_address(s: Seq<Player>, addr: SocketAddress)
    requires
        distinct_addresses(s),
    ensures
        !has_address(left(s, addr), addr),
{
    if has_address(s, addr) {
        let k = choose|k: int| #![trigger s[k]] 0 <= k < s.len() && s[k].server_info.addr == addr;
        lemma_first_match_exists(s, addr, k);
        let i = first_index(s, addr);
        let t = left(s, addr);
        assert forall|j: int| #![trigger t[j]] 0 <= j < t.len() implies t[j].server_info.addr
            != addr by {
            if j == i {
                assert(t[j] == s[s.len() - 1]);
            } else {
                assert(t[j] == s[j]);
            }
        }
    }
}

/// The addresses that an update is sent to are distinct when the roster's are: no player
/// receives an update twice.
pub proof fn lemma_addresses_distinct(s: Seq<Player>)
    requires
        distinct_addresses(s),
    ensures
        addresses_of(s).no_duplicates(),
{
    let a = addresses_of(s);
    assert forall|i: int, j: int| 0 <= i < a.len() && 0 <= j < a.len() && i != j implies a[i]
        != a[j] by {
        assert(s[i].server_info.addr != s[j].server_info.addr);
    }
}

/// In a roster of distinct addresses, a leave from `a` keeps the addresses distinct and
/// keeps exactly the players who do not play from `a`.
pub proof fn lemma_leave_members(s: Seq<Player>, a: SocketAddress)
    requires
        distinct_addresses(s),
    ensures
        distinct_addresses(left(s, a)),
        forall|p: Player|
            #[trigger] left(s, a).contains(p) <==> (s.contains(p) && p.server_info.addr != a),
{
    if has_address(s, a) {
        let k = choose|k: int| #![trigger s[k]] 0 <= k < s.len() && s[k].server_info.addr == a;
        lemma_first_match_exists(s, a, k);
        let i = first_index(s, a);
        let n = s.len() - 1;
        let t = left(s, a);
        assert(t == swap_removed(s, i));
        assert forall|j: int| 0 <= j < t.len() implies #[trigger] t[j] == (if j == i {
            s[n]
        } else {
            s[j]
        }) by {}
        assert forall|x: int, y: int|
            #![trigger t[x], t[y]]
            0 <= x < t.len() && 0 <= y < t.len() && x != y implies t[x].server_info.addr
            != t[y].server_info.addr by {
            let sx = if x == i { n } else { x };
            let sy = if y == i { n } else { y };
            assert(t[x] == s[sx] && t[y] == s[sy]);
        }
        assert forall|p: Player| #[trigger] t.contains(p) implies s.contains(p)
            && p.server_info.addr != a by {
            let j = choose|j: int| 0 <= j < t.len() && t[j] == p;
            let sj = if j == i { n } else { j };
            assert(s[sj] == p);
            assert(sj != i);
        }
        assert forall|p: Player| s.contains(p) && p.server_info.addr != a implies #[trigger] t.contains(p) by {
            let j = choose|j: int| 0 <= j < s.len() && s[j] == p;
            assert(j != i);
            if j == n {
                assert(t[i] == p);
            } else {
                assert(t[j] == p);
            }
        }
    } else {
        assert forall|p: Player| #[trigger] s.contains(p) implies p.server_info.addr != a by {
            let j = choose|j: int| 0 <= j < s.len() && s[j] == p;
            assert(s[j].server_info.addr != a);
        }
    }
}

/// Dropping the unreachable players from a roster of distinct addresses keeps the
/// addresses distinct and keeps exactly the players whose address is not among the failed
/// ones; as each player occurs once on both sides, the roster becomes, as a multiset, the
/// old players whose address did not fail.
pub proof fn lemma_drop_unreachable_members(s: Seq<Player>, failed: Seq<SocketAddress>)
    requires
        distinct_addresses(s),
    ensures
        distinct_addresses(left_all(s, failed)),
        forall|p: Player|
            #[trigger] left_all(s, failed).contains(p) <==> (s.contains(p) && !failed.contains(
                p.server_info.addr,
            )),
    decreases failed.len(),
{
    if failed.len() > 0 {
        let f = failed.drop_last();
        let a = failed.last();
        lemma_drop_unreachable_members(s, f);
        lemma_leave_members(left_all(s, f), a);
        assert forall|p: Player| #[trigger] left_all(s, failed).contains(p) <==> (s.contains(p)
            && !failed.contains(p.server_info.addr)) by {
            assert(left_all(s, failed) == left(left_all(s, f), a));
            assert(failed == f.push(a));
            if f.contains(p.server_info.addr) {
                let j = choose|j: int| 0 <= j < f.len() && f[j] == p.server_info.addr;
                assert(failed[j] == p.server_info.addr);
            }
            if failed.contains(p.server_info.addr) && p.server_info.addr != a {
                let j = choose|j: int| 0 <= j < failed.len() && failed[j] == p.server_info.addr;
                assert(j != failed.len() - 1);
                assert(f[j] == p.server_info.addr);
            }
            if p.server_info.addr == a {
                assert(failed[failed.len() - 1] == a);
            }
        }
    }
}

/// Addresses that are distinct make players that are distinct.
proof fn lemma_distinct_players(s: Seq<Player>)
    requires
        distinct_addresses(s),
    ensures
        s.no_duplicates(),
{
    assert forall|i: int, j: int| 0 <= i < s.len() && 0 <= j < s.len() && i != j implies s[i]
        != s[j] by {
        assert(s[i].server_info.addr != s[j].server_info.addr);
    }
}

/// As a multiset, dropping the unreachable players from a roster of distinct addresses
/// leaves the old players whose address did not fail, each as often as before.
pub proof fn lemma_drop_unreachable_multiset(s: Seq<Player>, failed: Seq<SocketAddress>)
    requires
        distinct_addresses(s),
    ensures
        forall|p: Player|
            #[trigger] left_all(s, failed).to_multiset().count(p) == (if failed.contains(
                p.server_info.addr,
            ) {
                0
            } else {
                s.to_multiset().count(p)
            }),
{
    broadcast use vstd::multiset::group_multiset_axioms;

    lemma_drop_unreachable_members(s, failed);
    let t = left_all(s, failed);
    lemma_distinct_players(s);
    lemma_distinct_players(t);
    s.lemma_multiset_has_no_duplicates();
    t.lemma_multiset_has_no_duplicates();
    assert forall|p: Player| #[trigger] t.to_multiset().count(p) == (if failed.contains(
        p.server_info.addr,
    ) {
        0
    } else {
        s.to_multiset().count(p)
    }) by {
        vstd::seq_lib::to_multiset_contains(s, p);
        vstd::seq_lib::to_multiset_contains(t, p);
    }
}

/// A join from an address someone already plays from leaves the roster exactly as it was:
/// every player keeps its place, identity, health and position. A join from a new address
/// keeps every player as it was and adds one player at the back, with the joining id and
/// name, the joining address, health 100, standing at the origin.
pub proof fn lemma_join_keeps_every_player(s: Seq<Player>, data: PlayerJoined, addr: SocketAddress)
    ensures
        has_address(s, addr) ==> joined(s, data, addr) == s,
        !has_address(s, addr) ==> {
            let t = joined(s, data, addr);
            &&& t.len() == s.len() + 1
            &&& forall|j: int| #![trigger t[j]] 0 <= j < s.len() ==> t[j] == s[j]
            &&& t[s.len() as int].id == data.id
            &&& t[s.len() as int].username == data.username
            &&& t[s.len() as int].server_info.addr == addr
            &&& t[s.len() as int].health == 100
            &&& t[s.len() as int].position == (Position { x: 0, y: 0, z: 0 })
        },
{
}

/// Placing the player that plays from `addr` puts that player, and no other, at `position`:
/// afterwards the player found at `addr` stands at `position` and keeps its address,
/// identity, name and health; every player at another address is left exactly as it was,
/// and the roster keeps its length and order.
pub proof fn lemma_place_moves_only_that_player(s: Seq<Player>, addr: SocketAddress, position: Position)
    requires
        has_address(s, addr),
    ensures
        placed(s, addr, position).len() == s.len(),
        has_address(placed(s, addr, position), addr),
        placed(s, addr, position)[first_index(placed(s, addr, position), addr)].position
            == position,
        placed(s, addr, position)[first_index(placed(s, addr, position), addr)].id
            == s[first_index(s, addr)].id,
        placed(s, addr, position)[first_index(placed(s, addr, position), addr)].username
            == s[first_index(s, addr)].username,
        placed(s, addr, position)[first_index(placed(s, addr, position), addr)].health
            == s[first_index(s, addr)].health,
        forall|j: int|
            #![trigger placed(s, addr, position)[j]]
            0 <= j < s.len() ==> placed(s, addr, position)[j].server_info.addr
                == s[j].server_info.addr,
        forall|j: int|
            #![trigger placed(s, addr, position)[j]]
            0 <= j < s.len() && s[j].server_info.addr != addr ==> placed(s, addr, position)[j]
                == s[j],
{
    let k = choose|k: int| #![trigger s[k]] 0 <= k < s.len() && s[k].server_info.addr == addr;
    lemma_first_match_exists(s, addr, k);
    let i = first_index(s, addr);
    let t = placed(s, addr, position);
    assert(is_first_match(t, addr, i)) by {
        assert forall|j: int| #![trigger t[j]] 0 <= j < i implies t[j].server_info.addr != addr by {
            assert(t[j] == s[j]);
        }
    }
    lemma_found_is_first_index(t, addr, i);
}

} // verus!
