use vstd::prelude::*;
use vstd::string::StringSliceAdditionalSpecFns;
use crate::text::{decimal, push_decimal};

verus! {

broadcast use vstd::seq_lib::to_multiset_build, vstd::seq_lib::to_multiset_insert;

/// What the lobby knows of one player record of the server.
pub struct PlayerListing {
    pub username: String,
    pub is_online: bool,
    /// Whether the record is the local player's own.
    pub is_local: bool,
}

/// Names of the other players that are online, in the order of the records.
pub open spec fn listed_names(players: Seq<PlayerListing>) -> Seq<Seq<char>>
    decreases players.len(),
{
    if players.len() == 0 {
        Seq::empty()
    } else {
        let rest = listed_names(players.drop_last());
        let p = players.last();
        if p.is_online && !p.is_local { rest.push(p.username@) } else { rest }
    }
}

/// The listed names are exactly those of the players that are online and
/// not the local one: each such player's name appears, and every name listed
/// belongs to such a player.
pub proof fn lemma_listed_names_members(players: Seq<PlayerListing>)
    ensures
        forall|i: int| 0 <= i < players.len() && players[i].is_online && !players[i].is_local
            ==> listed_names(players).contains(#[trigger] players[i].username@),
        forall|n: Seq<char>| #[trigger] listed_names(players).contains(n) ==> exists|i: int|
            0 <= i < players.len() && players[i].is_online && !players[i].is_local && players[i].username@ == n,
        listed_names(players).len() <= players.len(),
    decreases players.len(),
{
    if players.len() > 0 {
        let init = players.drop_last();
        let rest = listed_names(init);
        lemma_listed_names_members(init);
        let last = players.len() - 1;
        let p = players[last];
        assert forall|i: int| 0 <= i < players.len() && players[i].is_online && !players[i].is_local
            implies listed_names(players).contains(#[trigger] players[i].username@) by {
            if i < last {
                assert(init[i] == players[i]);
                assert(rest.contains(init[i].username@));
                if p.is_online && !p.is_local {
                    let k = choose|k: int| 0 <= k < rest.len() && rest[k] == init[i].username@;
                    assert(rest.push(p.username@)[k] == rest[k]);
                }
            } else {
                assert(rest.push(p.username@)[rest.len() as int] == p.username@);
            }
        }
        assert forall|n: Seq<char>| #[trigger] listed_names(players).contains(n) implies exists|i: int|
            0 <= i < players.len() && players[i].is_online && !players[i].is_local && players[i].username@ == n by {
            if p.is_online && !p.is_local {
                let k = choose|k: int| 0 <= k < rest.len() + 1 && rest.push(p.username@)[k] == n;
                if k < rest.len() {
                    assert(rest[k] == n);
                    assert(rest.contains(n));
                    let i = choose|i: int| 0 <= i < init.len() && init[i].is_online && !init[i].is_local && init[i].username@ == n;
                    assert(players[i] == init[i]);
                } else {
                    assert(players[last].username@ == n);
                }
            } else {
                assert(rest.contains(n));
                let i = choose|i: int| 0 <= i < init.len() && init[i].is_online && !init[i].is_local && init[i].username@ == n;
                assert(players[i] == init[i]);
            }
        }
    }
}

/// Lexicographic order on byte strings (a prefix comes first).
pub open spec fn bytes_le(a: Seq<u8>, b: Seq<u8>) -> bool
    decreases a.len(),
{
    if a.len() == 0 {
        true
    } else if b.len() == 0 {
        false
    } else if a[0] != b[0] {
        a[0] < b[0]
    } else {
        bytes_le(a.drop_first(), b.drop_first())
    }
}

/// Order of strings: their UTF-8 encodings compared byte by byte.
pub open spec fn name_le(a: Seq<char>, b: Seq<char>) -> bool {
    bytes_le(vstd::utf8::encode_utf8(a), vstd::utf8::encode_utf8(b))
}

/// Every name comes before or together with all the names after it.
pub open spec fn names_sorted(names: Seq<Seq<char>>) -> bool {
    forall|i: int, j: int| 0 <= i < j < names.len() ==> name_le(#[trigger] names[i], #[trigger] names[j])
}

/// The contents of a list of strings.
pub open spec fn string_views(names: Seq<String>) -> Seq<Seq<char>> {
    names.map_values(|s: String| s@)
}

/// Any two byte strings are ordered one way or the other.
pub proof fn lemma_bytes_le_total(a: Seq<u8>, b: Seq<u8>)
    ensures
        bytes_le(a, b) || bytes_le(b, a),
    decreases a.len(),
{
    if a.len() > 0 && b.len() > 0 && a[0] == b[0] {
        lemma_bytes_le_total(a.drop_first(), b.drop_first());
    }
}

/// The order on byte strings is transitive.
pub proof fn lemma_bytes_le_transitive(a: Seq<u8>, b: Seq<u8>, c: Seq<u8>)
    requires
        bytes_le(a, b),
        bytes_le(b, c),
    ensures
        bytes_le(a, c),
    decreases a.len(),
{
    if a.len() > 0 && b.len() > 0 && c.len() > 0 && a[0] == b[0] && b[0] == c[0] {
        lemma_bytes_le_transitive(a.drop_first(), b.drop_first(), c.drop_first());
    }
}

/// Every byte string orders with itself, and two strings that order each
/// way round are equal.
pub proof fn lemma_bytes_le_reflexive_antisymmetric(a: Seq<u8>, b: Seq<u8>)
    ensures
        bytes_le(a, a),
        bytes_le(a, b) && bytes_le(b, a) ==> a == b,
    decreases a.len(),
{
    if a.len() > 0 {
        lemma_bytes_le_reflexive_antisymmetric(a.drop_first(), a.drop_first());
        if b.len() > 0 && a[0] == b[0] {
            lemma_bytes_le_reflexive_antisymmetric(a.drop_first(), b.drop_first());
            if bytes_le(a, b) && bytes_le(b, a) {
                assert(a =~= seq![a[0]] + a.drop_first());
                assert(b =~= seq![b[0]] + b.drop_first());
            }
        }
    } else if bytes_le(b, a) {
        assert(b.len() == 0);
        assert(a =~= b);
    }
}

/// A proper prefix sorts before the longer string and never after it
/// ("bob" before "bobby"; the empty string before every other).
pub proof fn lemma_prefix_sorts_first(a: Seq<u8>, b: Seq<u8>)
    requires
        a.len() < b.len(),
        a == b.take(a.len() as int),
    ensures
        bytes_le(a, b),
        !bytes_le(b, a),
    decreases a.len(),
{
    if a.len() > 0 {
        assert(a[0] == b.take(a.len() as int)[0]);
        assert(a.drop_first() =~= b.drop_first().take(a.len() - 1));
        lemma_prefix_sorts_first(a.drop_first(), b.drop_first());
    }
}

/// Two strings that agree on their first `i` bytes and differ at byte `i`
/// are ordered by that byte alone, whatever follows.
pub proof fn lemma_first_difference_decides(a: Seq<u8>, b: Seq<u8>, i: int)
    requires
        0 <= i < a.len(),
        i < b.len(),
        a.take(i) == b.take(i),
        a[i] != b[i],
    ensures
        bytes_le(a, b) <==> a[i] < b[i],
        bytes_le(b, a) <==> b[i] < a[i],
    decreases i,
{
    if i > 0 {
        assert(a[0] == a.take(i)[0]);
        assert(b[0] == b.take(i)[0]);
        assert(a.drop_first().take(i - 1) =~= b.drop_first().take(i - 1)) by {
            assert forall|k: int| 0 <= k < i - 1 implies a.drop_first()[k] == b.drop_first()[k] by {
                assert(a.take(i)[k + 1] == a[k + 1]);
                assert(b.take(i)[k + 1] == b[k + 1]);
                assert(a.take(i)[k + 1] == b.take(i)[k + 1]);
            }
        }
        lemma_first_difference_decides(a.drop_first(), b.drop_first(), i - 1);
    }
}

fn bytes_le_exec(a: &[u8], b: &[u8]) -> (le: bool)
    ensures
        le == bytes_le(a@, b@),
{
    let mut i: usize = 0;
    assert(a@.skip(0) =~= a@);
    assert(b@.skip(0) =~= b@);
    while i < a.len() && i < b.len()
        invariant
            i <= a@.len(),
            i <= b@.len(),
            bytes_le(a@, b@) == bytes_le(a@.skip(i as int), b@.skip(i as int)),
        decreases a@.len() - i,
    {
        if a[i] != b[i] {
            assert(a@.skip(i as int)[0] == a@[i as int]);
            assert(b@.skip(i as int)[0] == b@[i as int]);
            return a[i] < b[i];
        }
        assert(a@.skip(i as int).drop_first() =~= a@.skip(i + 1));
        assert(b@.skip(i as int).drop_first() =~= b@.skip(i + 1));
        i = i + 1;
    }
    i == a.len()
}

fn name_le_exec(a: &String, b: &String) -> (le: bool)
    ensures
        le == name_le(a@, b@),
{
    bytes_le_exec(a.as_str().as_bytes(), b.as_str().as_bytes())
}

/// Inserts `name` into a sorted list, after every name that orders before or
/// with it.
fn insert_sorted(names: &mut Vec<String>, name: String)
    requires
        names_sorted(string_views(old(names)@)),
    ensures
        names_sorted(string_views(final(names)@)),
        string_views(final(names)@).to_multiset() == string_views(old(names)@).to_multiset().insert(name@),
{
    let ghost before = string_views(names@);
    let mut k: usize = 0;
    while k < names.len() && name_le_exec(&names[k], &name)
        invariant
            k <= names@.len(),
            names@ == old(names)@,
            before == string_views(names@),
            forall|i: int| 0 <= i < k ==> name_le(#[trigger] before[i], name@),
        decreases names@.len() - k,
    {
        k = k + 1;
    }
    let ghost x = name@;
    names.insert(k, name);
    let ghost after = string_views(names@);
    assert(after =~= before.insert(k as int, x));
    assert forall|i: int, j: int| 0 <= i < j < after.len() implies name_le(#[trigger] after[i], #[trigger] after[j]) by {
        if j < k {
        } else if i < k && j == k {
        } else if i < k {
            assert(after[j] == before[j - 1]);
            if j - 1 == k {
                lemma_bytes_le_total(vstd::utf8::encode_utf8(before[k as int]), vstd::utf8::encode_utf8(x));
            } else {
                lemma_bytes_le_total(vstd::utf8::encode_utf8(before[k as int]), vstd::utf8::encode_utf8(x));
                lemma_bytes_le_transitive(
                    vstd::utf8::encode_utf8(x),
                    vstd::utf8::encode_utf8(before[k as int]),
                    vstd::utf8::encode_utf8(before[j - 1]),
                );
            }
            lemma_bytes_le_transitive(
                vstd::utf8::encode_utf8(before[i]),
                vstd::utf8::encode_utf8(x),
                vstd::utf8::encode_utf8(before[j - 1]),
            );
        } else if i == k {
            lemma_bytes_le_total(vstd::utf8::encode_utf8(before[k as int]), vstd::utf8::encode_utf8(x));
            if j - 1 > k {
                lemma_bytes_le_transitive(
                    vstd::utf8::encode_utf8(x),
                    vstd::utf8::encode_utf8(before[k as int]),
                    vstd::utf8::encode_utf8(before[j - 1]),
                );
            }
        } else {
            assert(after[i] == before[i - 1]);
            assert(after[j] == before[j - 1]);
        }
    }
}

/// Names of the other players that are online, sorted (byte-wise, as Rust
/// orders strings).
pub fn online_player_names(players: &Vec<PlayerListing>) -> (names: Vec<String>)
    ensures
        names_sorted(string_views(names@)),
        string_views(names@).to_multiset() == listed_names(players@).to_multiset(),
{
    let mut names: Vec<String> = Vec::new();
    let mut i: usize = 0;
    assert(string_views(names@) =~= Seq::empty());
    assert(players@.take(0) =~= Seq::empty());
    while i < players.len()
        invariant
            i <= players@.len(),
            names_sorted(string_views(names@)),
            string_views(names@).to_multiset() == listed_names(players@.take(i as int)).to_multiset(),
        decreases players@.len() - i,
    {
        assert(players@.take(i + 1).drop_last() =~= players@.take(i as int));
        let p = &players[i];
        if p.is_online && !p.is_local {
            insert_sorted(&mut names, p.username.clone());
        }
        i = i + 1;
    }
    assert(players@.take(i as int) =~= players@);
    names
}

/// The lines listing online players, each "\n- " and a name.
pub open spec fn player_lines(names: Seq<Seq<char>>) -> Seq<char>
    decreases names.len(),
{
    if names.len() == 0 {
        Seq::empty()
    } else {
        player_lines(names.drop_last()) + seq!['\n', '-', ' '] + names.last()
    }
}

/// Text of the lobby's player list.
pub fn online_players_text(names: &Vec<String>) -> (text: String)
    ensures
        names@.len() == 0 ==> text@ == "No other players online..."@,
        names@.len() > 0 ==> text@ == "Online players:"@ + player_lines(string_views(names@)),
{
    if names.len() == 0 {
        return String::from_str("No other players online...");
    }
    proof { reveal_strlit("\n- "); }
    let mut text = String::from_str("Online players:");
    let mut i: usize = 0;
    while i < names.len()
        invariant
            i <= names@.len(),
            text@ == "Online players:"@ + player_lines(string_views(names@.take(i as int))),
        decreases names@.len() - i,
    {
        text.append("\n- ");
        text.append(names[i].as_str());
        proof {
            let v = string_views(names@.take(i + 1));
            assert(v.drop_last() =~= string_views(names@.take(i as int)));
            assert(v.last() == names@[i as int]@);
            reveal_strlit("\n- ");
            assert("\n- "@ =~= seq!['\n', '-', ' ']);
            assert(player_lines(v) == player_lines(v.drop_last()) + seq!['\n', '-', ' '] + v.last());
        }
        i = i + 1;
        assert(text@ =~= "Online players:"@ + player_lines(string_views(names@.take(i as int))));
    }
    assert(names@.take(i as int) =~= names@);
    text
}

/// Text of the lobby's connection status: connecting, authenticating,
/// waiting for the own player record, or connected under a name.
pub fn connection_status_text(connected: bool, identity_known: bool, username: Option<&str>) -> (text: String)
    ensures
        !connected ==> text@ == "Connecting..."@,
        connected && !identity_known ==> text@ == "Authenticating..."@,
        connected && identity_known && username is None ==> text@ == "Connected, waiting for player data..."@,
        connected && identity_known && username is Some ==> text@ == "Connected as "@ + username.unwrap()@,
{
    if !connected {
        return String::from_str("Connecting...");
    }
    if !identity_known {
        return String::from_str("Authenticating...");
    }
    match username {
        Some(name) => {
            let mut text = String::from_str("Connected as ");
            text.append(name);
            text
        },
        None => String::from_str("Connected, waiting for player data..."),
    }
}

/// `count` dots.
pub open spec fn dots(count: nat) -> Seq<char> {
    Seq::new(count, |_i: int| '.')
}

/// Text of the loading screen: "Starting..." once the map is ready, the
/// world generation's progress while it runs, else "Loading" with zero to
/// three dots that cycle with `dot_phase`.
pub fn loading_text(map_ready: bool, progress: Option<(usize, usize)>, dot_phase: usize) -> (text: String)
    ensures
        map_ready ==> text@ == "Starting..."@,
        !map_ready && progress is Some ==> text@ == "Generating world: "@ + decimal(progress.unwrap().0 as nat)
            + seq!['/'] + decimal(progress.unwrap().1 as nat),
        !map_ready && progress is None ==> text@ == "Loading"@ + dots((dot_phase % 4) as nat),
{
    if map_ready {
        return String::from_str("Starting...");
    }
    match progress {
        Some((current, total)) => {
            proof {
                reveal_strlit("/");
            }
            let mut text = String::from_str("Generating world: ");
            push_decimal(&mut text, current as u64);
            text.append("/");
            push_decimal(&mut text, total as u64);
            text
        },
        None => {
            proof {
                reveal_strlit(".");
            }
            let mut text = String::from_str("Loading");
            let count = dot_phase % 4;
            let mut i: usize = 0;
            while i < count
                invariant
                    i <= count,
                    text@ == "Loading"@ + dots(i as nat),
                decreases count - i,
            {
                text.append(".");
                proof { reveal_strlit("."); }
                assert("."@ =~= seq!['.']);
                assert(dots((i + 1) as nat) =~= dots(i as nat).push('.'));
                i = i + 1;
                assert(text@ =~= "Loading"@ + dots(i as nat));
            }
            text
        },
    }
}

} // verus!
