//! The catalog: the episodes that can be picked, as a table and as a
//! statement of what the table holds.

use vstd::prelude::*;

verus! {

/// The identifiers of all episodes, season by season.
pub const EPISODES: [&'static str; 234] = [
    "s01e01", "s01e02", "s01e03", "s01e04", "s01e05", "s01e06", "s01e07", "s01e08", "s01e09",
    "s01e10", "s01e11", "s01e12", "s01e13", "s01e14", "s01e15", "s01e16", "s01e17", "s01e18",
    "s01e19", "s01e20", "s01e21", "s01e22", "s01e23", "s01e24", "s02e01", "s02e02", "s02e03",
    "s02e04", "s02e05", "s02e06", "s02e07", "s02e08", "s02e09", "s02e10", "s02e11", "s02e12",
    "s02e13", "s02e14", "s02e15", "s02e16", "s02e17", "s02e18", "s02e19", "s02e20", "s02e21",
    "s02e22", "s02e23", "s02e24", "s03e01", "s03e02", "s03e03", "s03e04", "s03e05", "s03e06",
    "s03e07", "s03e08", "s03e09", "s03e10", "s03e11", "s03e12", "s03e13", "s03e14", "s03e15",
    "s03e16", "s03e17", "s03e18", "s03e19", "s03e20", "s03e21", "s03e22", "s03e23", "s03e24",
    "s03e25", "s04e01", "s04e02", "s04e03", "s04e04", "s04e05", "s04e06", "s04e07", "s04e08",
    "s04e09", "s04e10", "s04e11", "s04e12", "s04e13", "s04e14", "s04e15", "s04e16", "s04e17",
    "s04e18", "s04e19", "s04e20", "s04e21", "s04e22", "s04e23", "s04e24", "s05e01", "s05e02",
    "s05e03", "s05e04", "s05e05", "s05e06", "s05e07", "s05e08", "s05e09", "s05e10", "s05e11",
    "s05e12", "s05e13", "s05e14", "s05e15", "s05e16", "s05e17", "s05e18", "s05e19", "s05e20",
    "s05e21", "s05e22", "s05e23", "s05e24", "s06e01", "s06e02", "s06e03", "s06e04", "s06e05",
    "s06e06", "s06e07", "s06e08", "s06e09", "s06e10", "s06e11", "s06e12", "s06e13", "s06e14",
    "s06e15", "s06e16", "s06e17", "s06e18", "s06e19", "s06e20", "s06e21", "s06e22", "s06e23",
    "s06e24", "s06e25", "s07e01", "s07e02", "s07e03", "s07e04", "s07e05", "s07e06", "s07e07",
    "s07e08", "s07e09", "s07e10", "s07e11", "s07e12", "s07e13", "s07e14", "s07e15", "s07e16",
    "s07e17", "s07e18", "s07e19", "s07e20", "s07e21", "s07e22", "s07e23", "s07e24", "s08e01",
    "s08e02", "s08e03", "s08e04", "s08e05", "s08e06", "s08e07", "s08e08", "s08e09", "s08e10",
    "s08e11", "s08e12", "s08e13", "s08e14", "s08e15", "s08e16", "s08e17", "s08e18", "s08e19",
    "s08e20", "s08e21", "s08e22", "s08e23", "s08e24", "s09e01", "s09e02", "s09e03", "s09e04",
    "s09e05", "s09e06", "s09e07", "s09e08", "s09e09", "s09e10", "s09e11", "s09e12", "s09e13",
    "s09e14", "s09e15", "s09e16", "s09e17", "s09e18", "s09e19", "s09e20", "s09e21", "s09e22",
    "s09e23", "s10e01", "s10e02", "s10e03", "s10e04", "s10e05", "s10e06", "s10e07", "s10e08",
    "s10e09", "s10e10", "s10e11", "s10e12", "s10e13", "s10e14", "s10e15", "s10e16", "s10e17",
];

/// The number of seasons.
pub open spec fn seasons() -> int {
    10
}

/// The number of episodes of a season.
pub open spec fn episodes_in(season: int) -> nat {
    if season == 3 || season == 6 {
        25
    } else if season == 9 {
        23
    } else if season == 10 {
        17
    } else {
        24
    }
}

/// The character that writes the digit `d`.
pub open spec fn digit(d: int) -> char {
    seq!['0', '1', '2', '3', '4', '5', '6', '7', '8', '9'][d]
}

/// The identifier of an episode: `s`, the season in two digits, `e`, the
/// number of the episode within the season in two digits.
pub open spec fn episode_id(season: int, episode: int) -> Seq<char> {
    seq![
        's',
        digit(season / 10),
        digit(season % 10),
        'e',
        digit(episode / 10),
        digit(episode % 10),
    ]
}

/// The identifiers of a season's episodes, in order.
pub open spec fn season_ids(season: int) -> Seq<Seq<char>> {
    Seq::new(episodes_in(season), |k: int| episode_id(season, k + 1))
}

/// The identifiers of the first `n` seasons, in order.
pub open spec fn first_seasons(n: int) -> Seq<Seq<char>>
    decreases n,
{
    if n <= 0 {
        Seq::empty()
    } else {
        first_seasons(n - 1) + season_ids(n)
    }
}

/// The catalog: the identifiers of all episodes of all seasons.
pub open spec fn catalog() -> Seq<Seq<char>> {
    first_seasons(seasons())
}

/// The number of episodes in the seasons before `season`.
pub open spec fn episodes_before(season: int) -> int
    decreases season,
{
    if season <= 1 {
        0
    } else {
        episodes_before(season - 1) + episodes_in(season - 1)
    }
}

/// Whether `c` is one of the ten digits.
pub open spec fn is_digit(c: char) -> bool {
    '0' <= c <= '9'
}

/// Whether `entry` has the form of an identifier: `s`, two digits, `e`, two
/// digits.
pub open spec fn is_identifier(entry: Seq<char>) -> bool {
    &&& entry.len() == 6
    &&& entry[0] == 's'
    &&& is_digit(entry[1])
    &&& is_digit(entry[2])
    &&& entry[3] == 'e'
    &&& is_digit(entry[4])
    &&& is_digit(entry[5])
}

/// The first `n` seasons hold as many identifiers as there are episodes before
/// season `n + 1`.
proof fn lemma_first_seasons_len(n: int)
    requires
        0 <= n,
    ensures
        first_seasons(n).len() == episodes_before(n + 1),
    decreases n,
{
    if n > 0 {
        lemma_first_seasons_len(n - 1);
    }
}

/// Where the identifier of an episode stands among those of the first `n`
/// seasons.
proof fn lemma_first_seasons_index(n: int, season: int, k: int)
    requires
        1 <= season <= n,
        0 <= k < episodes_in(season),
    ensures
        0 <= episodes_before(season) + k < first_seasons(n).len(),
        first_seasons(n)[episodes_before(season) + k] == episode_id(season, k + 1),
    decreases n,
{
    lemma_first_seasons_len(n - 1);
    lemma_first_seasons_len(season - 1);
    if season < n {
        lemma_first_seasons_index(n - 1, season, k);
    }
}

/// The catalog holds 234 identifiers.
pub proof fn lemma_catalog_len()
    ensures
        catalog().len() == 234,
{
    lemma_first_seasons_len(10);
    reveal_with_fuel(episodes_before, 12);
}

/// The season and the number of the episode whose identifier stands at `i` in
/// the catalog.
pub proof fn lemma_catalog_entry(i: int) -> (at: (int, int))
    requires
        0 <= i < 234,
    ensures
        1 <= at.0 <= seasons(),
        1 <= at.1 <= episodes_in(at.0),
        i == episodes_before(at.0) + at.1 - 1,
        catalog()[i] == episode_id(at.0, at.1),
{
    reveal_with_fuel(episodes_before, 12);
    let season: int = if i < 24 {
        1
    } else if i < 48 {
        2
    } else if i < 73 {
        3
    } else if i < 97 {
        4
    } else if i < 121 {
        5
    } else if i < 146 {
        6
    } else if i < 170 {
        7
    } else if i < 194 {
        8
    } else if i < 217 {
        9
    } else {
        10
    };
    let k = i - episodes_before(season);
    lemma_first_seasons_index(10, season, k);
    (season, k + 1)
}

/// The table holds the catalog.
pub proof fn lemma_episodes_are_catalog()
    ensures
        EPISODES.deep_view() == catalog(),
{
    reveal_strlit("s01e01");
    reveal_strlit("s01e02");
    reveal_strlit("s01e03");
    reveal_strlit("s01e04");
    reveal_strlit("s01e05");
    reveal_strlit("s01e06");
    reveal_strlit("s01e07");
    reveal_strlit("s01e08");
    reveal_strlit("s01e09");
    reveal_strlit("s01e10");
    reveal_strlit("s01e11");
    reveal_strlit("s01e12");
    reveal_strlit("s01e13");
    reveal_strlit("s01e14");
    reveal_strlit("s01e15");
    reveal_strlit("s01e16");
    reveal_strlit("s01e17");
    reveal_strlit("s01e18");
    reveal_strlit("s01e19");
    reveal_strlit("s01e20");
    reveal_strlit("s01e21");
    reveal_strlit("s01e22");
    reveal_strlit("s01e23");
    reveal_strlit("s01e24");
    reveal_strlit("s02e01");
    reveal_strlit("s02e02");
    reveal_strlit("s02e03");
    reveal_strlit("s02e04");
    reveal_strlit("s02e05");
    reveal_strlit("s02e06");
    reveal_strlit("s02e07");
    reveal_strlit("s02e08");
    reveal_strlit("s02e09");
    reveal_strlit("s02e10");
    reveal_strlit("s02e11");
    reveal_strlit("s02e12");
    reveal_strlit("s02e13");
    reveal_strlit("s02e14");
    reveal_strlit("s02e15");
    reveal_strlit("s02e16");
    reveal_strlit("s02e17");
    reveal_strlit("s02e18");
    reveal_strlit("s02e19");
    reveal_strlit("s02e20");
    reveal_strlit("s02e21");
    reveal_strlit("s02e22");
    reveal_strlit("s02e23");
    reveal_strlit("s02e24");
    reveal_strlit("s03e01");
    reveal_strlit("s03e02");
    reveal_strlit("s03e03");
    reveal_strlit("s03e04");
    reveal_strlit("s03e05");
    reveal_strlit("s03e06");
    reveal_strlit("s03e07");
    reveal_strlit("s03e08");
    reveal_strlit("s03e09");
    reveal_strlit("s03e10");
    reveal_strlit("s03e11");
    reveal_strlit("s03e12");
    reveal_strlit("s03e13");
    reveal_strlit("s03e14");
    reveal_strlit("s03e15");
    reveal_strlit("s03e16");
    reveal_strlit("s03e17");
    reveal_strlit("s03e18");
    reveal_strlit("s03e19");
    reveal_strlit("s03e20");
    reveal_strlit("s03e21");
    reveal_strlit("s03e22");
    reveal_strlit("s03e23");
    reveal_strlit("s03e24");
    reveal_strlit("s03e25");
    reveal_strlit("s04e01");
    reveal_strlit("s04e02");
    reveal_strlit("s04e03");
    reveal_strlit("s04e04");
    reveal_strlit("s04e05");
    reveal_strlit("s04e06");
    reveal_strlit("s04e07");
    reveal_strlit("s04e08");
    reveal_strlit("s04e09");
    reveal_strlit("s04e10");
    reveal_strlit("s04e11");
    reveal_strlit("s04e12");
    reveal_strlit("s04e13");
    reveal_strlit("s04e14");
    reveal_strlit("s04e15");
    reveal_strlit("s04e16");
    reveal_strlit("s04e17");
    reveal_strlit("s04e18");
    reveal_strlit("s04e19");
    reveal_strlit("s04e20");
    reveal_strlit("s04e21");
    reveal_strlit("s04e22");
    reveal_strlit("s04e23");
    reveal_strlit("s04e24");
    reveal_strlit("s05e01");
    reveal_strlit("s05e02");
    reveal_strlit("s05e03");
    reveal_strlit("s05e04");
    reveal_strlit("s05e05");
    reveal_strlit("s05e06");
    reveal_strlit("s05e07");
    reveal_strlit("s05e08");
    reveal_strlit("s05e09");
    reveal_strlit("s05e10");
    reveal_strlit("s05e11");
    reveal_strlit("s05e12");
    reveal_strlit("s05e13");
    reveal_strlit("s05e14");
    reveal_strlit("s05e15");
    reveal_strlit("s05e16");
    reveal_strlit("s05e17");
    reveal_strlit("s05e18");
    reveal_strlit("s05e19");
    reveal_strlit("s05e20");
    reveal_strlit("s05e21");
    reveal_strlit("s05e22");
    reveal_strlit("s05e23");
    reveal_strlit("s05e24");
    reveal_strlit("s06e01");
    reveal_strlit("s06e02");
    reveal_strlit("s06e03");
    reveal_strlit("s06e04");
    reveal_strlit("s06e05");
    reveal_strlit("s06e06");
    reveal_strlit("s06e07");
    reveal_strlit("s06e08");
    reveal_strlit("s06e09");
    reveal_strlit("s06e10");
    reveal_strlit("s06e11");
    reveal_strlit("s06e12");
    reveal_strlit("s06e13");
    reveal_strlit("s06e14");
    reveal_strlit("s06e15");
    reveal_strlit("s06e16");
    reveal_strlit("s06e17");
    reveal_strlit("s06e18");
    reveal_strlit("s06e19");
    reveal_strlit("s06e20");
    reveal_strlit("s06e21");
    reveal_strlit("s06e22");
    reveal_strlit("s06e23");
    reveal_strlit("s06e24");
    reveal_strlit("s06e25");
    reveal_strlit("s07e01");
    reveal_strlit("s07e02");
    reveal_strlit("s07e03");
    reveal_strlit("s07e04");
    reveal_strlit("s07e05");
    reveal_strlit("s07e06");
    reveal_strlit("s07e07");
    reveal_strlit("s07e08");
    reveal_strlit("s07e09");
    reveal_strlit("s07e10");
    reveal_strlit("s07e11");
    reveal_strlit("s07e12");
    reveal_strlit("s07e13");
    reveal_strlit("s07e14");
    reveal_strlit("s07e15");
    reveal_strlit("s07e16");
    reveal_strlit("s07e17");
    reveal_strlit("s07e18");
    reveal_strlit("s07e19");
    reveal_strlit("s07e20");
    reveal_strlit("s07e21");
    reveal_strlit("s07e22");
    reveal_strlit("s07e23");
    reveal_strlit("s07e24");
    reveal_strlit("s08e01");
    reveal_strlit("s08e02");
    reveal_strlit("s08e03");
    reveal_strlit("s08e04");
    reveal_strlit("s08e05");
    reveal_strlit("s08e06");
    reveal_strlit("s08e07");
    reveal_strlit("s08e08");
    reveal_strlit("s08e09");
    reveal_strlit("s08e10");
    reveal_strlit("s08e11");
    reveal_strlit("s08e12");
    reveal_strlit("s08e13");
    reveal_strlit("s08e14");
    reveal_strlit("s08e15");
    reveal_strlit("s08e16");
    reveal_strlit("s08e17");
    reveal_strlit("s08e18");
    reveal_strlit("s08e19");
    reveal_strlit("s08e20");
    reveal_strlit("s08e21");
    reveal_strlit("s08e22");
    reveal_strlit("s08e23");
    reveal_strlit("s08e24");
    reveal_strlit("s09e01");
    reveal_strlit("s09e02");
    reveal_strlit("s09e03");
    reveal_strlit("s09e04");
    reveal_strlit("s09e05");
    reveal_strlit("s09e06");
    reveal_strlit("s09e07");
    reveal_strlit("s09e08");
    reveal_strlit("s09e09");
    reveal_strlit("s09e10");
    reveal_strlit("s09e11");
    reveal_strlit("s09e12");
    reveal_strlit("s09e13");
    reveal_strlit("s09e14");
    reveal_strlit("s09e15");
    reveal_strlit("s09e16");
    reveal_strlit("s09e17");
    reveal_strlit("s09e18");
    reveal_strlit("s09e19");
    reveal_strlit("s09e20");
    reveal_strlit("s09e21");
    reveal_strlit("s09e22");
    reveal_strlit("s09e23");
    reveal_strlit("s10e01");
    reveal_strlit("s10e02");
    reveal_strlit("s10e03");
    reveal_strlit("s10e04");
    reveal_strlit("s10e05");
    reveal_strlit("s10e06");
    reveal_strlit("s10e07");
    reveal_strlit("s10e08");
    reveal_strlit("s10e09");
    reveal_strlit("s10e10");
    reveal_strlit("s10e11");
    reveal_strlit("s10e12");
    reveal_strlit("s10e13");
    reveal_strlit("s10e14");
    reveal_strlit("s10e15");
    reveal_strlit("s10e16");
    reveal_strlit("s10e17");
    lemma_catalog_len();
    assert forall|i: int| 0 <= i < 234 implies EPISODES@[i]@ == catalog()[i] by {
        reveal_with_fuel(episodes_before, 12);
        lemma_catalog_entry(i);
    }
}

/// Every entry of the catalog has the form of an identifier.
pub proof fn lemma_catalog_holds_identifiers(i: int)
    requires
        0 <= i < catalog().len(),
    ensures
        is_identifier(catalog()[i]),
{
    lemma_catalog_len();
    lemma_catalog_entry(i);
}

/// No identifier stands twice in the catalog.
pub proof fn lemma_catalog_has_no_duplicates()
    ensures
        catalog().no_duplicates(),
{
    lemma_catalog_len();
    assert forall|i: int, j: int|
        0 <= i < catalog().len() && 0 <= j < catalog().len() && i != j implies catalog()[i]
        != catalog()[j] by {
        // Equal identifiers write the same season and number in their digits.
        lemma_catalog_entry(i);
        lemma_catalog_entry(j);
    }
}

/// The number of episodes of `season`.
fn season_length(season: u8) -> (count: u8)
    ensures
        count == episodes_in(season as int),
{
    if season == 3 || season == 6 {
        25
    } else if season == 9 {
        23
    } else if season == 10 {
        17
    } else {
        24
    }
}

/// The digit `d`, written.
fn digit_text(d: u8) -> (text: &'static str)
    requires
        d < 10,
    ensures
        text@ == seq![digit(d as int)],
{
    let text = if d == 0 {
        "0"
    } else if d == 1 {
        "1"
    } else if d == 2 {
        "2"
    } else if d == 3 {
        "3"
    } else if d == 4 {
        "4"
    } else if d == 5 {
        "5"
    } else if d == 6 {
        "6"
    } else if d == 7 {
        "7"
    } else if d == 8 {
        "8"
    } else {
        "9"
    };
    proof {
        reveal_strlit("0");
        reveal_strlit("1");
        reveal_strlit("2");
        reveal_strlit("3");
        reveal_strlit("4");
        reveal_strlit("5");
        reveal_strlit("6");
        reveal_strlit("7");
        reveal_strlit("8");
        reveal_strlit("9");
    }
    text
}

/// The identifier of the episode `episode` of the season `season`.
fn identifier(season: u8, episode: u8) -> (id: String)
    requires
        season < 100,
        episode < 100,
    ensures
        id@ == episode_id(season as int, episode as int),
{
    let mut id = String::new();
    id.append("s");
    id.append(digit_text(season / 10));
    id.append(digit_text(season % 10));
    id.append("e");
    id.append(digit_text(episode / 10));
    id.append(digit_text(episode % 10));
    proof {
        reveal_strlit("s");
        reveal_strlit("e");
    }
    id
}

/// Writes the catalog out: the identifiers of all episodes, season by
/// season, as the table holds them.
pub fn generate_episodes_list() -> (list: Vec<String>)
    ensures
        list.deep_view() == catalog(),
        list.deep_view() == EPISODES.deep_view(),
{
    let mut list: Vec<String> = Vec::new();
    let mut season: u8 = 1;
    while season <= 10
        invariant
            1 <= season <= 11,
            list.deep_view() == first_seasons(season - 1),
        decreases 11 - season,
    {
        let count: u8 = season_length(season);
        let mut episode: u8 = 1;
        while episode <= count
            invariant
                1 <= season <= 10,
                1 <= episode <= count + 1,
                count == episodes_in(season as int),
                list.deep_view() == first_seasons(season - 1) + season_ids(season as int).take(
                    episode - 1,
                ),
            decreases count + 1 - episode,
        {
            let ghost before = list.deep_view();
            let id = identifier(season, episode);
            list.push(id);
            assert(before.push(id@) =~= first_seasons(season - 1) + season_ids(season as int).take(
                episode as int,
            ));
            episode = episode + 1;
        }
        season = season + 1;
    }
    proof {
        lemma_episodes_are_catalog();
    }
    list
}

} // verus!
