//! The registry of lobbies.
//!
//! A lobby exists from the moment its host creates it until it is dissolved,
//! and while it exists it has at least one member. Whoever watches the
//! registry hears of lobbies being created, updated and dissolved; the members
//! of a lobby hear of each other on the lobby's own channel.

pub mod lobby;
pub mod player;

use crate::arena::{
    arena_from, ascending, copy_arena, counts, empty_arena, enumerates, insert_player, no_players,
    player_count, players_of, remove_player, vacant_key_of,
};
use crate::channel::{broadcast_channel, broadcast_sender, publish, subscribe, MAX_BROADCAST};
use crate::game::lobby::{LobbyCreated, LobbyDissolved, LobbyEvent, LobbyUpdated};
use crate::game::player::{PlayerEvent, PlayerJoined, PlayerLeft};
use arcstr::ArcStr;
use slab::Slab;
use tokio::sync::broadcast;
use vstd::prelude::*;

verus! {

/// A lobby: its name, its members and the channel on which they hear of each other.
#[derive(Debug)]
pub struct Lobby {
    pub sender: broadcast::Sender<PlayerEvent>,
    pub name: ArcStr,
    pub players: Slab<ArcStr>,
}

/// What contracts say of a lobby: its name, its members by their keys, and
/// the key that the next member will get.
pub struct LobbyView {
    pub name: ArcStr,
    pub players: Map<usize, ArcStr>,
    pub vacant: usize,
}

impl LobbyView {
    /// Somebody is in the lobby.
    pub open spec fn inhabited(self) -> bool {
        exists|pid: usize| self.players.dom().contains(pid)
    }
}

impl View for Lobby {
    type V = LobbyView;

    open spec fn view(&self) -> LobbyView {
        LobbyView {
            name: self.name,
            players: players_of(self.players),
            vacant: vacant_key_of(self.players),
        }
    }
}

/// The occupied slots of a collection of lobbies: each key with the name and
/// the members of the lobby stored under it.
pub uninterp spec fn lobbies_of(lobbies: Slab<Lobby>) -> Map<usize, LobbyView>;

/// The key under which a collection of lobbies will store the next lobby.
pub uninterp spec fn vacant_lobby_of(lobbies: Slab<Lobby>) -> usize;

/// No lobby at all.
pub open spec fn no_lobbies() -> Map<usize, LobbyView> {
    Map::empty()
}

/// `Slab::new`: a collection with no lobby in it.
#[verifier::external_body]
fn empty_lobbies() -> (lobbies: Slab<Lobby>)
    ensures
        lobbies_of(lobbies) == no_lobbies(),
        vacant_lobby_of(lobbies) == 0,
{
    Slab::new()
}

/// `Slab::get`: the lobby stored under the key, if there is one.
#[verifier::external_body]
fn lobby_at(lobbies: &Slab<Lobby>, key: usize) -> (found: Option<&Lobby>)
    ensures
        match found {
            Some(lobby) => lobbies_of(*lobbies).dom().contains(key) && lobby@ == lobbies_of(
                *lobbies,
            )[key],
            None => !lobbies_of(*lobbies).dom().contains(key),
        },
{
    lobbies.get(key)
}

/// `Slab::get_mut`: the lobby stored under the key, if there is one, to be
/// changed in place; what it is changed to is what the collection then holds
/// under that key, and every other slot stays as it was, as does the key
/// that is handed out next.
#[verifier::external_body]
fn lobby_at_mut(lobbies: &mut Slab<Lobby>, key: usize) -> (found: Option<&mut Lobby>)
    ensures
        vacant_lobby_of(*final(lobbies)) == vacant_lobby_of(*old(lobbies)),
        match found {
            Some(lobby) => {
                &&& lobbies_of(*old(lobbies)).dom().contains(key)
                &&& lobby@ == lobbies_of(*old(lobbies))[key]
                &&& lobbies_of(*final(lobbies)) == lobbies_of(*old(lobbies)).insert(
                    key,
                    final(lobby)@,
                )
            },
            None => !lobbies_of(*old(lobbies)).dom().contains(key) && lobbies_of(*final(lobbies))
                == lobbies_of(*old(lobbies)),
        },
{
    lobbies.get_mut(key)
}

/// `Slab::insert`: stores the lobby under the key that the collection had
/// ready, which was vacant, and returns that key; every other slot stays as
/// it was.
#[verifier::external_body]
fn insert_lobby(lobbies: &mut Slab<Lobby>, lobby: Lobby) -> (key: usize)
    ensures
        key == vacant_lobby_of(*old(lobbies)),
        !lobbies_of(*old(lobbies)).dom().contains(key),
        lobbies_of(*final(lobbies)) == lobbies_of(*old(lobbies)).insert(key, lobby@),
{
    lobbies.insert(lobby)
}

/// `Slab::try_remove`: takes out and returns the lobby stored under the key,
/// if there is one, and leaves every other slot as it was. A key that was
/// freed is the one that the collection hands out next; where nothing was
/// stored under the key, the collection is untouched.
#[verifier::external_body]
fn take_lobby(lobbies: &mut Slab<Lobby>, key: usize) -> (taken: Option<Lobby>)
    ensures
        vacant_lobby_of(*final(lobbies)) == (if lobbies_of(*old(lobbies)).dom().contains(key) {
            key
        } else {
            vacant_lobby_of(*old(lobbies))
        }),
        match taken {
            Some(lobby) => lobbies_of(*old(lobbies)).dom().contains(key) && lobby@ == lobbies_of(
                *old(lobbies),
            )[key],
            None => !lobbies_of(*old(lobbies)).dom().contains(key),
        },
        lobbies_of(*final(lobbies)) == lobbies_of(*old(lobbies)).remove(key),
{
    lobbies.try_remove(key)
}

/// `Slab::iter`, keys collected: the slab walks its slots from key zero
/// upwards and yields each occupied one once, so the keys come out in rising
/// order and are exactly the keys in use.
#[verifier::external_body]
fn lobby_keys(lobbies: &Slab<Lobby>) -> (keys: Vec<usize>)
    ensures
        ascending(keys@),
        enumerates(keys@, lobbies_of(*lobbies).dom()),
{
    lobbies.iter().map(|(key, _)| key).collect()
}

/// Every lobby of the collection has somebody in it.
pub open spec fn all_inhabited(lobbies: Map<usize, LobbyView>) -> bool {
    forall|lid: usize| lobbies.dom().contains(lid) ==> (#[trigger] lobbies[lid]).inhabited()
}

/// The registry after `name` has joined lobby `lid` as `pid`, where `vacant`
/// is the key that the lobby's next member will get.
pub open spec fn with_member(
    lobbies: Map<usize, LobbyView>,
    lid: usize,
    pid: usize,
    name: ArcStr,
    vacant: usize,
) -> Map<usize, LobbyView> {
    lobbies.insert(
        lid,
        LobbyView {
            name: lobbies[lid].name,
            players: lobbies[lid].players.insert(pid, name),
            vacant,
        },
    )
}

/// Lobby `lid` after `pid` has left it: the key that was freed is the one
/// that the next member will get.
pub open spec fn rest_of(lobbies: Map<usize, LobbyView>, lid: usize, pid: usize) -> LobbyView {
    LobbyView {
        name: lobbies[lid].name,
        players: lobbies[lid].players.remove(pid),
        vacant: pid,
    }
}

/// The registry after `pid` has left lobby `lid`: the lobby goes with its
/// last member.
pub open spec fn without_member(lobbies: Map<usize, LobbyView>, lid: usize, pid: usize) -> Map<
    usize,
    LobbyView,
> {
    if rest_of(lobbies, lid, pid).inhabited() {
        lobbies.insert(lid, rest_of(lobbies, lid, pid))
    } else {
        lobbies.remove(lid)
    }
}

/// Each member who joins makes a lobby larger by one: a lobby opened by its
/// host and joined by a number of guests has one member more than that
/// number.
pub proof fn lemma_join_adds_one(
    lobbies: Map<usize, LobbyView>,
    lid: usize,
    pid: usize,
    name: ArcStr,
    vacant: usize,
)
    requires
        lobbies.dom().contains(lid),
        lobbies[lid].players.dom().finite(),
        !lobbies[lid].players.dom().contains(pid),
    ensures
        with_member(lobbies, lid, pid, name, vacant)[lid].players.dom().finite(),
        with_member(lobbies, lid, pid, name, vacant)[lid].players.dom().len()
            == lobbies[lid].players.dom().len() + 1,
        with_member(lobbies, lid, pid, name, vacant).dom() == lobbies.dom(),
        forall|other: usize|
            other != lid && lobbies.dom().contains(other) ==> with_member(
                lobbies,
                lid,
                pid,
                name,
                vacant,
            )[other] == lobbies[other],
{
    assert(with_member(lobbies, lid, pid, name, vacant).dom() =~= lobbies.dom());
}

/// A member who leaves makes a lobby smaller by one, and the lobby is
/// dissolved exactly when it was its last member.
pub proof fn lemma_leave_takes_one(lobbies: Map<usize, LobbyView>, lid: usize, pid: usize)
    requires
        lobbies.dom().contains(lid),
        lobbies[lid].players.dom().finite(),
        lobbies[lid].players.dom().contains(pid),
    ensures
        without_member(lobbies, lid, pid).dom().contains(lid) <==> lobbies[lid].players.dom().len() > 1,
        without_member(lobbies, lid, pid).dom().contains(lid) ==> without_member(
            lobbies,
            lid,
            pid,
        )[lid].players.dom().len() == lobbies[lid].players.dom().len() - 1,
        all_inhabited(lobbies) ==> all_inhabited(without_member(lobbies, lid, pid)),
{
    let rest = rest_of(lobbies, lid, pid);
    assert(rest.players.dom() =~= lobbies[lid].players.dom().remove(pid));
    assert(rest.players.dom().len() == lobbies[lid].players.dom().len() - 1);
    if rest.players.dom().len() > 0 {
        assert(rest.players.dom().contains(rest.players.dom().choose()));
        assert(rest.inhabited());
    } else {
        assert(rest.players.dom() =~= Set::empty());
        assert(!rest.inhabited());
    }
}

/// A key that a member has left is the key that the next member gets: a
/// lobby that outlives a departure has the freed key ready, and whoever joins
/// a lobby gets the key that it has ready.
pub proof fn lemma_freed_key_is_reused(
    lobbies: Map<usize, LobbyView>,
    lid: usize,
    pid: usize,
    name: ArcStr,
    vacant: usize,
)
    requires
        lobbies.dom().contains(lid),
        without_member(lobbies, lid, pid).dom().contains(lid),
    ensures
        without_member(lobbies, lid, pid)[lid].vacant == pid,
        with_member(without_member(lobbies, lid, pid), lid, pid, name, vacant)[lid].players
            == lobbies[lid].players.insert(pid, name),
{
    assert(lobbies[lid].players.remove(pid).insert(pid, name) =~= lobbies[lid].players.insert(
        pid,
        name,
    ));
}

/// Adds a member to a lobby of the collection and tells the lobby; returns
/// the member's key, their subscription and the lobby's new size.
fn enter(lobbies: &mut Slab<Lobby>, lid: usize, name: ArcStr) -> (entered: Option<
    (usize, broadcast::Receiver<PlayerEvent>, usize),
>)
    ensures
        vacant_lobby_of(*final(lobbies)) == vacant_lobby_of(*old(lobbies)),
        match entered {
            Some((pid, _, count)) => {
                &&& lobbies_of(*old(lobbies)).dom().contains(lid)
                &&& pid == lobbies_of(*old(lobbies))[lid].vacant
                &&& !lobbies_of(*old(lobbies))[lid].players.dom().contains(pid)
                &&& lobbies_of(*final(lobbies)) == with_member(
                    lobbies_of(*old(lobbies)),
                    lid,
                    pid,
                    name,
                    lobbies_of(*final(lobbies))[lid].vacant,
                )
                &&& counts(count, lobbies_of(*final(lobbies))[lid].players)
            },
            None => !lobbies_of(*old(lobbies)).dom().contains(lid) && lobbies_of(*final(lobbies))
                == lobbies_of(*old(lobbies)),
        },
{
    match lobby_at_mut(lobbies, lid) {
        None => None,
        Some(lobby) => {
            let rx = subscribe(&lobby.sender);
            let pid = insert_player(&mut lobby.players, name.clone());
            let _ = publish(&lobby.sender, PlayerEvent::Joined(PlayerJoined { id: pid, name }));
            let count = player_count(&lobby.players);
            Some((pid, rx, count))
        },
    }
}

/// Takes a lobby out of the collection, if it is there, and tells the
/// watchers that it is gone.
fn dissolve(lobbies: &mut Slab<Lobby>, watchers: &broadcast::Sender<LobbyEvent>, lid: usize) -> (taken:
    Option<Lobby>)
    ensures
        match taken {
            Some(lobby) => lobbies_of(*old(lobbies)).dom().contains(lid) && lobby@ == lobbies_of(
                *old(lobbies),
            )[lid],
            None => !lobbies_of(*old(lobbies)).dom().contains(lid),
        },
        lobbies_of(*final(lobbies)) == lobbies_of(*old(lobbies)).remove(lid),
        vacant_lobby_of(*final(lobbies)) == (if lobbies_of(*old(lobbies)).dom().contains(lid) {
            lid
        } else {
            vacant_lobby_of(*old(lobbies))
        }),
{
    let taken = take_lobby(lobbies, lid);
    if taken.is_some() {
        let _ = publish(watchers, LobbyEvent::Dissolved(LobbyDissolved { id: lid }));
    }
    taken
}

/// Removes a member from a lobby of the collection and, unless it was the
/// last one, tells the lobby; returns how many members remain, or nothing
/// where there was no such lobby or no such member.
fn leave(lobbies: &mut Slab<Lobby>, lid: usize, pid: usize) -> (remaining: Option<usize>)
    ensures
        vacant_lobby_of(*final(lobbies)) == vacant_lobby_of(*old(lobbies)),
        remaining.is_some() <==> lobbies_of(*old(lobbies)).dom().contains(lid) && lobbies_of(
            *old(lobbies),
        )[lid].players.dom().contains(pid),
        match remaining {
            Some(count) => {
                &&& lobbies_of(*final(lobbies)) == lobbies_of(*old(lobbies)).insert(
                    lid,
                    rest_of(lobbies_of(*old(lobbies)), lid, pid),
                )
                &&& counts(count, lobbies_of(*final(lobbies))[lid].players)
            },
            None => lobbies_of(*final(lobbies)) == lobbies_of(*old(lobbies)),
        },
{
    match lobby_at_mut(lobbies, lid) {
        None => None,
        Some(lobby) => {
            if remove_player(&mut lobby.players, pid).is_none() {
                proof {
                    let before = lobbies_of(*old(lobbies))[lid];
                    assert(players_of(lobby.players) =~= before.players);
                    assert(lobbies_of(*final(lobbies)) =~= lobbies_of(*old(lobbies)));
                }
                return None;
            }
            let count = player_count(&lobby.players);
            if count > 0 {
                let _ = publish(&lobby.sender, PlayerEvent::Left(PlayerLeft { id: pid }));
            }
            Some(count)
        },
    }
}

/// Removes a member from a lobby of the collection. If nobody remains in the
/// lobby, the lobby is dissolved and the watchers are told so; otherwise the
/// lobby is told who left and the watchers are told its new size.
fn depart(
    lobbies: &mut Slab<Lobby>,
    watchers: &broadcast::Sender<LobbyEvent>,
    lid: usize,
    pid: usize,
) -> (removed: bool)
    ensures
        removed == (lobbies_of(*old(lobbies)).dom().contains(lid) && lobbies_of(
            *old(lobbies),
        )[lid].players.dom().contains(pid)),
        lobbies_of(*final(lobbies)) == (if removed {
            without_member(lobbies_of(*old(lobbies)), lid, pid)
        } else {
            lobbies_of(*old(lobbies))
        }),
        vacant_lobby_of(*final(lobbies)) == (if removed && !rest_of(
            lobbies_of(*old(lobbies)),
            lid,
            pid,
        ).inhabited() {
            lid
        } else {
            vacant_lobby_of(*old(lobbies))
        }),
{
    match leave(lobbies, lid, pid) {
        None => false,
        Some(remaining) => {
            let ghost emptied = lobbies_of(*lobbies);
            if remaining == 0 {
                let _ = dissolve(lobbies, watchers, lid);
                proof {
                    assert(emptied[lid].players.dom() =~= Set::empty());
                    assert(!emptied[lid].inhabited());
                    assert(emptied.remove(lid) =~= lobbies_of(*old(lobbies)).remove(lid));
                }
            } else {
                let _ = publish(
                    watchers,
                    LobbyEvent::Updated(LobbyUpdated { id: lid, players: remaining }),
                );
                proof {
                    let rest = emptied[lid].players.dom();
                    assert(rest.contains(rest.choose()));
                }
            }
            true
        },
    }
}

/// The lobbies that are open, and the channel on which their coming and going
/// is announced.
#[derive(Debug)]
pub struct LobbyManager {
    sender: broadcast::Sender<LobbyEvent>,
    lobbies: Slab<Lobby>,
}

impl View for LobbyManager {
    type V = Map<usize, LobbyView>;

    closed spec fn view(&self) -> Map<usize, LobbyView> {
        lobbies_of(self.lobbies)
    }
}

impl LobbyManager {
    /// Every open lobby has somebody in it.
    pub open spec fn wf(&self) -> bool {
        all_inhabited(self@)
    }

    /// The key that the next lobby will get.
    pub closed spec fn vacant(&self) -> usize {
        vacant_lobby_of(self.lobbies)
    }

    /// A registry without lobbies, whose watchers are kept up to `capacity`
    /// announcements that they have not read yet. Its first lobby will get
    /// the key zero.
    pub fn new(capacity: usize) -> (manager: Self)
        requires
            0 < capacity <= MAX_BROADCAST,
        ensures
            manager.wf(),
            manager@ == no_lobbies(),
            manager.vacant() == 0,
    {
        Self { sender: broadcast_sender(capacity), lobbies: empty_lobbies() }
    }

    /// A subscription to the announcements made from now on.
    pub fn subscribe(&self) -> (rx: broadcast::Receiver<LobbyEvent>) {
        subscribe(&self.sender)
    }

    /// The name of every open lobby, under the lobby's key.
    pub fn lobbies(&self) -> (listed: Slab<ArcStr>)
        ensures
            players_of(listed).dom() == self@.dom(),
            forall|lid: usize| self@.dom().contains(lid) ==> players_of(listed)[lid] == self@[lid].name,
    {
        let keys = lobby_keys(&self.lobbies);
        let mut entries: Vec<(usize, ArcStr)> = Vec::new();
        let mut index: usize = 0;
        while index < keys.len()
            invariant
                index <= keys.len(),
                ascending(keys@),
                enumerates(keys@, lobbies_of(self.lobbies).dom()),
                entries.len() == index,
                forall|i: int|
                    0 <= i < index ==> (#[trigger] entries[i]).0 == keys[i] && entries[i].1
                        == lobbies_of(self.lobbies)[keys[i]].name,
            decreases keys.len() - index,
        {
            let key = keys[index];
            if let Some(lobby) = lobby_at(&self.lobbies, key) {
                entries.push((key, lobby.name.clone()));
            }
            index = index + 1;
        }
        let listed = arena_from(entries);
        proof {
            assert forall|lid: usize| #[trigger] self@.dom().contains(lid) implies players_of(
                listed,
            ).dom().contains(lid) && players_of(listed)[lid] == self@[lid].name by {
                let i = choose|i: int| 0 <= i < keys.len() && keys[i] == lid;
                assert(entries[i].0 == lid);
            }
            assert forall|lid: usize| #[trigger]
                players_of(listed).dom().contains(lid) implies self@.dom().contains(lid) by {
                let i = choose|i: int| 0 <= i < entries.len() && entries[i].0 == lid;
                assert(keys[i] == lid);
                assert(lobbies_of(self.lobbies).dom().contains(keys[i]));
            }
            assert(players_of(listed).dom() =~= self@.dom());
        }
        listed
    }

    /// The number of members of a lobby, which is at least one, or nothing
    /// where there is no such lobby.
    pub fn player_count_of_lobby(&self, id: usize) -> (count: Option<usize>)
        requires
            self.wf(),
        ensures
            match count {
                Some(count) => self@.dom().contains(id) && counts(count, self@[id].players) && count
                    >= 1,
                None => !self@.dom().contains(id),
            },
    {
        match lobby_at(&self.lobbies, id) {
            Some(lobby) => {
                let count = player_count(&lobby.players);
                proof {
                    assert(self@[id].inhabited());
                }
                Some(count)
            },
            None => None,
        }
    }

    /// The name and the members of a lobby as they are now, or nothing where
    /// there is no such lobby.
    pub fn snapshot_of_lobby(&self, id: usize) -> (snapshot: Option<(ArcStr, Slab<ArcStr>)>)
        ensures
            match snapshot {
                Some((name, players)) => self@.dom().contains(id) && self@[id].name == name
                    && self@[id].players == players_of(players),
                None => !self@.dom().contains(id),
            },
    {
        match lobby_at(&self.lobbies, id) {
            Some(lobby) => Some((lobby.name.clone(), copy_arena(&lobby.players))),
            None => None,
        }
    }

    /// Closes a lobby and hands it over with its members and its channel, and
    /// tells the watchers that it is gone. The key of the lobby is the one
    /// that the next lobby will get. Returns nothing, and changes nothing,
    /// where there is no such lobby.
    pub fn dissolve_lobby(&mut self, id: usize) -> (dissolved: Option<Lobby>)
        requires
            old(self).wf(),
        ensures
            final(self).wf(),
            match dissolved {
                Some(lobby) => old(self)@.dom().contains(id) && lobby@ == old(self)@[id]
                    && lobby@.inhabited() && final(self).vacant() == id,
                None => !old(self)@.dom().contains(id) && final(self).vacant() == old(self).vacant(),
            },
            final(self)@ == old(self)@.remove(id),
    {
        dissolve(&mut self.lobbies, &self.sender, id)
    }

    /// Opens a lobby with its host as the only member, and tells the watchers.
    /// Returns the lobby's key, which is the one that the registry had ready,
    /// the host's key, which is zero, and the host's subscription to the
    /// lobby's channel, on which the host's own arrival is the first thing to
    /// be heard.
    pub fn init_lobby(&mut self, capacity: usize, lobby_name: ArcStr, player_name: ArcStr) -> (opened:
        (usize, usize, broadcast::Receiver<PlayerEvent>))
        requires
            old(self).wf(),
            0 < capacity <= MAX_BROADCAST,
        ensures
            final(self).wf(),
            opened.0 == old(self).vacant(),
            !old(self)@.dom().contains(opened.0),
            opened.1 == 0,
            final(self)@ == old(self)@.insert(
                opened.0,
                LobbyView {
                    name: lobby_name,
                    players: no_players().insert(opened.1, player_name),
                    vacant: final(self)@[opened.0].vacant,
                },
            ),
    {
        let (sender, broadcast_rx) = broadcast_channel(capacity);
        let mut players = empty_arena();
        let player_id = insert_player(&mut players, player_name.clone());
        let _ = publish(&sender, PlayerEvent::Joined(PlayerJoined { id: player_id, name: player_name }));
        let player_count = player_count(&players);
        let lobby = Lobby { sender, name: lobby_name.clone(), players };
        let lobby_id = insert_lobby(&mut self.lobbies, lobby);
        let _ = publish(
            &self.sender,
            LobbyEvent::Created(LobbyCreated { id: lobby_id, name: lobby_name, players: player_count }),
        );
        proof {
            assert(final(self)@[lobby_id].players.dom().contains(player_id));
        }
        (lobby_id, player_id, broadcast_rx)
    }

    /// Takes a member out of a lobby. If it was the last member, the lobby is
    /// dissolved, the watchers are told so, and the lobby's key is the one
    /// that the next lobby will get. Otherwise the lobby is told who left,
    /// the watchers are told its new size, and the member's key is the one
    /// that the lobby's next member will get. Returns whether there was such
    /// a member in such a lobby; if not, nothing changes.
    pub fn remove_player_from_lobby(&mut self, lobby_id: usize, player_id: usize) -> (removed: bool)
        requires
            old(self).wf(),
        ensures
            final(self).wf(),
            removed == (old(self)@.dom().contains(lobby_id) && old(self)@[lobby_id].players.dom().contains(
                player_id,
            )),
            final(self)@ == (if removed {
                without_member(old(self)@, lobby_id, player_id)
            } else {
                old(self)@
            }),
            final(self).vacant() == (if removed && !final(self)@.dom().contains(lobby_id) {
                lobby_id
            } else {
                old(self).vacant()
            }),
    {
        depart(&mut self.lobbies, &self.sender, lobby_id, player_id)
    }

    /// Adds a member to a lobby, tells the lobby and the watchers, and returns
    /// the member's key, which is the one that the lobby had ready, with a
    /// subscription to the lobby's channel that was made before the lobby was
    /// told, so that the member hears of their own arrival. Returns nothing,
    /// and changes nothing, where there is no such lobby.
    pub fn join_player_into_lobby(&mut self, lobby_id: usize, player_name: ArcStr) -> (joined: Option<
        (usize, broadcast::Receiver<PlayerEvent>),
    >)
        requires
            old(self).wf(),
        ensures
            final(self).wf(),
            final(self).vacant() == old(self).vacant(),
            match joined {
                Some((pid, _)) => {
                    &&& old(self)@.dom().contains(lobby_id)
                    &&& pid == old(self)@[lobby_id].vacant
                    &&& !old(self)@[lobby_id].players.dom().contains(pid)
                    &&& final(self)@ == with_member(
                        old(self)@,
                        lobby_id,
                        pid,
                        player_name,
                        final(self)@[lobby_id].vacant,
                    )
                },
                None => !old(self)@.dom().contains(lobby_id) && final(self)@ == old(self)@,
            },
    {
        match enter(&mut self.lobbies, lobby_id, player_name) {
            None => None,
            Some((pid, rx, count)) => {
                let _ = publish(
                    &self.sender,
                    LobbyEvent::Updated(LobbyUpdated { id: lobby_id, players: count }),
                );
                proof {
                    assert(final(self)@[lobby_id].players.dom().contains(pid));
                }
                Some((pid, rx))
            },
        }
    }
}

} // verus!
