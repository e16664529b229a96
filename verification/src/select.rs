use crate::text::same_text;
use vstd::prelude::*;

verus! {

/// `s` without the white space at its start and at its end, as `str::trim`
/// leaves it.
pub uninterp spec fn trimmed(s: Seq<char>) -> Seq<char>;

/// Calls `str::trim` and copies what is left. The contract claims only
/// that the result is a function of the characters of `s`: it is the text
/// that `trimmed` names.
#[verifier::external_body]
fn trim(s: &str) -> (t: String)
    ensures
        t@ == trimmed(s@),
{
    s.trim().to_string()
}

/// The preferred player's bus name as the preference record gives it: no
/// preference where there is no record, else the record's content without
/// the white space around it.
pub fn get_preferred_player_name(record: Option<&str>) -> (name: Option<String>)
    ensures
        match record {
            Some(content) => name is Some && name->0@ == trimmed(content@),
            None => name is None,
        },
{
    match record {
        Some(content) => Some(trim(content)),
        None => None,
    }
}

/// The index of the first of `players` that is `name`.
pub open spec fn position_of(players: Seq<Seq<char>>, name: Seq<char>) -> Option<int>
    decreases players.len(),
{
    if players.len() == 0 {
        None
    } else {
        match position_of(players.drop_last(), name) {
            Some(i) => Some(i),
            None => if players.last() == name {
                Some(players.len() - 1)
            } else {
                None
            },
        }
    }
}

/// `position_of` finds the first player of the name, and finds one
/// whenever there is one.
pub proof fn lemma_position_of(players: Seq<Seq<char>>, name: Seq<char>)
    ensures
        match position_of(players, name) {
            Some(i) => 0 <= i < players.len() && players[i] == name && forall|j: int|
                0 <= j < i ==> players[j] != name,
            None => forall|j: int| 0 <= j < players.len() ==> players[j] != name,
        },
    decreases players.len(),
{
    if players.len() > 0 {
        lemma_position_of(players.drop_last(), name);
        assert forall|j: int| 0 <= j < players.len() - 1 implies players[j]
            == players.drop_last()[j] by {}
    }
}

/// The first player that an enumeration yields.
pub open spec fn first_of(players: Seq<Seq<char>>) -> Option<int> {
    if players.len() == 0 {
        None
    } else {
        Some(0)
    }
}

/// The strict selection: with a preference, the player of that name or
/// nobody; without one, the first player.
pub open spec fn preferred(preference: Option<Seq<char>>, players: Seq<Seq<char>>) -> Option<
    int,
> {
    match preference {
        Some(name) => position_of(players, name),
        None => first_of(players),
    }
}

/// The selection of a long-running consumer: the strict selection, and
/// where that finds nobody, the first player.
pub open spec fn preferred_or_first(
    preference: Option<Seq<char>>,
    players: Seq<Seq<char>>,
) -> Option<int> {
    match preferred(preference, players) {
        Some(i) => Some(i),
        None => first_of(players),
    }
}

pub open spec fn as_index(found: Option<usize>) -> Option<int> {
    match found {
        Some(i) => Some(i as int),
        None => None,
    }
}

pub open spec fn name_of(preference: Option<&str>) -> Option<Seq<char>> {
    match preference {
        Some(name) => Some(name@),
        None => None,
    }
}

/// Finds the first of the enumerated players with the bus name `name`.
/// The names are compared as they are.
pub fn get_player_by_bus_name(players: &Vec<String>, name: &str) -> (found: Option<usize>)
    ensures
        as_index(found) == position_of(players.deep_view(), name@),
        match found {
            Some(i) => i < players.len() && players[i as int]@ == name@ && forall|j: int|
                0 <= j < i ==> players[j]@ != name@,
            None => forall|j: int| 0 <= j < players.len() ==> players[j]@ != name@,
        },
{
    let mut i: usize = 0;
    while i < players.len()
        invariant
            i <= players.len(),
            position_of(players.deep_view().take(i as int), name@) is None,
        decreases players.len() - i,
    {
        proof {
            let all = players.deep_view();
            assert(all.take(i + 1).drop_last() =~= all.take(i as int));
            assert(all.take(i + 1).last() == players[i as int]@);
        }
        if same_text(players[i].as_str(), name) {
            proof {
                lemma_found_in_prefix(players.deep_view(), name@, i as int);
                lemma_position_of(players.deep_view(), name@);
                assert forall|j: int| 0 <= j < i implies players[j]@ != name@ by {
                    assert(players.deep_view()[j] == players[j]@);
                }
            }
            return Some(i);
        }
        i = i + 1;
    }
    proof {
        assert(players.deep_view().take(players.len() as int) =~= players.deep_view());
        lemma_position_of(players.deep_view(), name@);
        assert forall|j: int| 0 <= j < players.len() implies players[j]@ != name@ by {
            assert(players.deep_view()[j] == players[j]@);
        }
    }
    None
}

/// What is found among the first players is found among all of them.
proof fn lemma_found_in_prefix(players: Seq<Seq<char>>, name: Seq<char>, i: int)
    requires
        0 <= i < players.len(),
        position_of(players.take(i + 1), name) == Some(i),
    ensures
        position_of(players, name) == Some(i),
    decreases players.len(),
{
    if i + 1 < players.len() {
        assert(players.drop_last().take(i + 1) =~= players.take(i + 1));
        lemma_found_in_prefix(players.drop_last(), name, i);
    } else {
        assert(players.take(i + 1) =~= players);
    }
}

/// The first of the enumerated players, in the order in which the
/// enumeration gave them.
pub fn get_first_player(players: &Vec<String>) -> (found: Option<usize>)
    ensures
        as_index(found) == first_of(players.deep_view()),
        found is Some <==> players.len() > 0,
{
    if players.len() == 0 {
        None
    } else {
        Some(0)
    }
}

/// The strict selection. With a preference it is the player of exactly
/// that name, and nobody where no such player lives: no other player takes
/// its place. Without a preference it is the first player.
pub fn get_preferred_player(preference: Option<&str>, players: &Vec<String>) -> (found: Option<
    usize,
>)
    ensures
        as_index(found) == preferred(name_of(preference), players.deep_view()),
        found is Some ==> found->0 < players.len(),
{
    match preference {
        Some(name) => get_player_by_bus_name(players, name),
        None => get_first_player(players),
    }
}

/// The selection of a long-running consumer: the preferred player where
/// it lives, else the first player; nobody only where no player lives.
pub fn get_preferred_player_or_first(preference: Option<&str>, players: &Vec<String>) -> (found:
    Option<usize>)
    ensures
        as_index(found) == preferred_or_first(name_of(preference), players.deep_view()),
        found is Some <==> players.len() > 0,
        found is Some ==> found->0 < players.len(),
{
    match get_preferred_player(preference, players) {
        Some(i) => Some(i),
        None => get_first_player(players),
    }
}

/// Selecting twice among the same players with the same preference gives
/// the same player, under either policy.
pub proof fn lemma_selection_is_repeatable(
    first_preference: Option<Seq<char>>,
    first_players: Seq<Seq<char>>,
    second_preference: Option<Seq<char>>,
    second_players: Seq<Seq<char>>,
)
    requires
        first_preference == second_preference,
        first_players == second_players,
    ensures
        preferred(first_preference, first_players) == preferred(
            second_preference,
            second_players,
        ),
        preferred_or_first(first_preference, first_players) == preferred_or_first(
            second_preference,
            second_players,
        ),
{
}

/// Where the preferred player does not live, the strict selection finds
/// nobody, and the other selection finds the first player.
pub proof fn lemma_preferred_but_absent(name: Seq<char>, players: Seq<Seq<char>>)
    requires
        forall|j: int| 0 <= j < players.len() ==> players[j] != name,
    ensures
        preferred(Some(name), players) is None,
        preferred_or_first(Some(name), players) == first_of(players),
{
    lemma_position_of(players, name);
}

/// Where the preferred player lives, both selections find it, whatever
/// other players live.
pub proof fn lemma_preferred_and_present(name: Seq<char>, players: Seq<Seq<char>>, i: int)
    requires
        0 <= i < players.len(),
        players[i] == name,
    ensures
        preferred(Some(name), players) is Some,
        players[preferred(Some(name), players)->0] == name,
        preferred_or_first(Some(name), players) == preferred(Some(name), players),
{
    lemma_position_of(players, name);
}

/// Without a preference both selections find the first player of the
/// enumeration, and depend on nothing else.
pub proof fn lemma_no_preference_takes_first(players: Seq<Seq<char>>)
    ensures
        preferred(None, players) == first_of(players),
        preferred_or_first(None, players) == first_of(players),
        players.len() > 0 ==> preferred(None, players) == Some(0int),
{
}

} // verus!
