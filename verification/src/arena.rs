//! The arena of players: a dense collection of display names under small
//! integer keys, kept in a `slab::Slab`. A key is stable until its player is
//! removed and may be handed out again afterwards.
//!
//! Verus does not look inside the slab. What it holds is named by
//! [`players_of`], and each operation used on it is a small function whose
//! contract is taken on trust from the slab's documented behaviour.

use arcstr::ArcStr;
use slab::Slab;
use vstd::prelude::*;

verus! {

#[verifier::external_type_specification]
#[verifier::external_body]
pub struct ExArcStr(ArcStr);

/// `ArcStr::clone`: another handle to the same text, so the copy is the same name.
pub assume_specification[ <ArcStr as Clone>::clone ](name: &ArcStr) -> (copy: ArcStr)
    ensures
        copy == *name,
;

#[verifier::external_type_specification]
#[verifier::external_body]
#[verifier::reject_recursive_types(T)]
pub struct ExSlab<T>(Slab<T>);

/// The occupied slots of an arena of players: each key with the name stored under it.
pub uninterp spec fn players_of(arena: Slab<ArcStr>) -> Map<usize, ArcStr>;

/// The key under which the arena will store the next player.
pub uninterp spec fn vacant_key_of(arena: Slab<ArcStr>) -> usize;

/// A number counts the players of an arena: there are finitely many keys, and
/// that many.
pub open spec fn counts(count: usize, players: Map<usize, ArcStr>) -> bool {
    players.dom().finite() && players.dom().len() == count
}

/// The arena that holds nobody.
pub open spec fn no_players() -> Map<usize, ArcStr> {
    Map::empty()
}

/// `Slab::new`: an arena with no player in it.
#[verifier::external_body]
pub(crate) fn empty_arena() -> (arena: Slab<ArcStr>)
    ensures
        players_of(arena) == no_players(),
        vacant_key_of(arena) == 0,
{
    Slab::new()
}

/// `Slab::len`: the number of occupied slots, of which there are finitely many.
#[verifier::external_body]
pub(crate) fn player_count(arena: &Slab<ArcStr>) -> (count: usize)
    ensures
        counts(count, players_of(*arena)),
{
    arena.len()
}

/// `Slab::contains`: whether a value is stored under the key.
#[verifier::external_body]
pub(crate) fn has_player(arena: &Slab<ArcStr>, key: usize) -> (present: bool)
    ensures
        present == players_of(*arena).dom().contains(key),
{
    arena.contains(key)
}

/// `Slab::get`: the value stored under the key, if there is one.
#[verifier::external_body]
pub(crate) fn player_at(arena: &Slab<ArcStr>, key: usize) -> (found: Option<&ArcStr>)
    ensures
        match found {
            Some(name) => players_of(*arena).dom().contains(key) && *name == players_of(*arena)[key],
            None => !players_of(*arena).dom().contains(key),
        },
{
    arena.get(key)
}

/// `Slab::iter`, first item: the slab walks its slots from key zero upwards,
/// so the first item is the occupied slot with the lowest key; there is none
/// exactly when no slot is occupied.
#[verifier::external_body]
pub(crate) fn first_player(arena: &Slab<ArcStr>) -> (first: Option<(usize, &ArcStr)>)
    ensures
        match first {
            Some((key, name)) => {
                &&& players_of(*arena).dom().contains(key)
                &&& *name == players_of(*arena)[key]
                &&& forall|lower: usize| lower < key ==> !players_of(*arena).dom().contains(lower)
            },
            None => forall|key: usize| !players_of(*arena).dom().contains(key),
        },
{
    arena.iter().next()
}

/// `Slab::insert`: stores the value under the key that the arena had ready,
/// which was vacant, and returns that key; every other slot stays as it was.
/// Like `Vec::push`, it fails only where memory for one more slot cannot be
/// had.
#[verifier::external_body]
pub(crate) fn insert_player(arena: &mut Slab<ArcStr>, name: ArcStr) -> (key: usize)
    ensures
        key == vacant_key_of(*old(arena)),
        !players_of(*old(arena)).dom().contains(key),
        players_of(*final(arena)) == players_of(*old(arena)).insert(key, name),
{
    arena.insert(name)
}

/// `Slab::try_remove`: takes out and returns the value stored under the key,
/// if there is one, and leaves every other slot as it was. A key that was
/// freed is the one that the arena hands out next; where nothing was stored
/// under the key, the arena is untouched.
#[verifier::external_body]
pub(crate) fn remove_player(arena: &mut Slab<ArcStr>, key: usize) -> (removed: Option<ArcStr>)
    ensures
        removed == (if players_of(*old(arena)).dom().contains(key) {
            Some(players_of(*old(arena))[key])
        } else {
            None
        }),
        players_of(*final(arena)) == players_of(*old(arena)).remove(key),
        vacant_key_of(*final(arena)) == (if players_of(*old(arena)).dom().contains(key) {
            key
        } else {
            vacant_key_of(*old(arena))
        }),
{
    arena.try_remove(key)
}

/// `Slab::clone`: an arena with the same names under the same keys.
#[verifier::external_body]
pub(crate) fn copy_arena(arena: &Slab<ArcStr>) -> (copy: Slab<ArcStr>)
    ensures
        players_of(copy) == players_of(*arena),
{
    arena.clone()
}

/// The keys of a list rise from each to the next.
pub open spec fn ascending(keys: Seq<usize>) -> bool {
    forall|i: int, j: int| 0 <= i < j < keys.len() ==> keys[i] < keys[j]
}

/// A list of keys holds exactly the keys of a set.
pub open spec fn enumerates(keys: Seq<usize>, of: Set<usize>) -> bool {
    &&& forall|i: int| 0 <= i < keys.len() ==> of.contains(#[trigger] keys[i])
    &&& forall|key: usize|
        of.contains(key) ==> exists|i: int| 0 <= i < keys.len() && #[trigger] keys[i] == key
}

/// The keys of a list of entries rise from each entry to the next.
pub open spec fn rising(entries: Seq<(usize, ArcStr)>) -> bool {
    forall|i: int, j: int| 0 <= i < j < entries.len() ==> entries[i].0 < entries[j].0
}

/// A list of entries holds exactly the players of an arena.
pub open spec fn lists(entries: Seq<(usize, ArcStr)>, players: Map<usize, ArcStr>) -> bool {
    &&& forall|i: int|
        0 <= i < entries.len() ==> players.dom().contains(#[trigger] entries[i].0)
            && players[entries[i].0] == entries[i].1
    &&& forall|key: usize|
        players.dom().contains(key) ==> exists|i: int|
            0 <= i < entries.len() && #[trigger] entries[i].0 == key
}

/// `Slab::iter`, keys collected: the slab walks its slots from key zero
/// upwards and yields each occupied one once, so the keys come out in rising
/// order and are exactly the keys in use.
#[verifier::external_body]
pub(crate) fn arena_keys(arena: &Slab<ArcStr>) -> (keys: Vec<usize>)
    ensures
        ascending(keys@),
        enumerates(keys@, players_of(*arena).dom()),
{
    arena.iter().map(|(key, _)| key).collect()
}

/// `Slab::from_iter`: an arena that holds each value of the list under the
/// key that comes with it, and nothing else. The keys of the list are all
/// different.
#[verifier::external_body]
pub(crate) fn arena_from(entries: Vec<(usize, ArcStr)>) -> (arena: Slab<ArcStr>)
    requires
        rising(entries@),
    ensures
        lists(entries@, players_of(arena)),
{
    entries.into_iter().collect()
}

/// The players of an arena with their keys, in the order of the keys.
pub(crate) fn arena_entries(arena: &Slab<ArcStr>) -> (entries: Vec<(usize, ArcStr)>)
    ensures
        rising(entries@),
        lists(entries@, players_of(*arena)),
{
    let keys = arena_keys(arena);
    let mut entries: Vec<(usize, ArcStr)> = Vec::new();
    let mut index: usize = 0;
    while index < keys.len()
        invariant
            index <= keys.len(),
            ascending(keys@),
            enumerates(keys@, players_of(*arena).dom()),
            entries.len() == index,
            forall|i: int|
                0 <= i < index ==> (#[trigger] entries[i]).0 == keys[i] && entries[i].1 == players_of(
                    *arena,
                )[keys[i]],
        decreases keys.len() - index,
    {
        let key = keys[index];
        if let Some(name) = player_at(arena, key) {
            entries.push((key, name.clone()));
        }
        index = index + 1;
    }
    proof {
        assert forall|key: usize| players_of(*arena).dom().contains(key) implies exists|i: int|
            0 <= i < entries.len() && #[trigger] entries[i].0 == key by {
            let i = choose|i: int| 0 <= i < keys.len() && keys[i] == key;
            assert(entries[i].0 == key);
        }
    }
    entries
}

} // verus!
