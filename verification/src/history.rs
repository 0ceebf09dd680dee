//! The record of the episodes seen so far, and the text that stores it.
//!
//! The text holds one entry on each line, the newest at the top. In memory the
//! order is the other way round: the newest entry stands last.

use crate::catalog::{catalog, is_identifier, lemma_catalog_holds_identifiers};
use crate::text::{
    is_whitespace, lemma_line_end_at, lemma_trim_end_at, lemma_trim_start_at, lines, split_lines,
    trim, trimmed,
};
use vstd::prelude::*;

verus! {

/// The history that `text` holds: its lines, white space at both ends of the
/// text aside, the last line first.
pub open spec fn history_of(text: Seq<char>) -> Seq<Seq<char>> {
    lines(trim(text)).reverse()
}

/// The history that is stored: that of the file's contents, and none where
/// there is no file.
pub open spec fn stored_history(contents: Option<&str>) -> Seq<Seq<char>> {
    match contents {
        Some(text) => history_of(text@),
        None => Seq::empty(),
    }
}

/// The text that stores `seen`: each entry followed by a line feed, the last
/// entry first.
pub open spec fn db_text(seen: Seq<Seq<char>>) -> Seq<char>
    decreases seen.len(),
{
    if seen.len() == 0 {
        Seq::empty()
    } else {
        seen.last() + seq!['\n'] + db_text(seen.drop_last())
    }
}

/// An entry that a line can hold and give back: it is not empty, holds no line
/// feed, and neither begins nor ends with white space.
pub open spec fn fits_on_line(entry: Seq<char>) -> bool {
    &&& entry.len() > 0
    &&& !is_whitespace(entry.first())
    &&& !is_whitespace(entry.last())
    &&& forall|j: int| 0 <= j < entry.len() ==> #[trigger] entry[j] != '\n'
}

/// Whether each entry of `seen` fits on a line.
pub open spec fn fit_on_lines(seen: Seq<Seq<char>>) -> bool {
    forall|i: int| 0 <= i < seen.len() ==> fits_on_line(#[trigger] seen[i])
}

/// A history as run after run builds it: episodes of the catalog, none of
/// them twice.
pub open spec fn is_record(seen: Seq<Seq<char>>) -> bool {
    &&& seen.no_duplicates()
    &&& forall|i: int| 0 <= i < seen.len() ==> catalog().contains(#[trigger] seen[i])
}

/// `ls` with its last entry first.
fn reversed(ls: Vec<String>) -> (r: Vec<String>)
    ensures
        r.deep_view() == ls.deep_view().reverse(),
{
    let ghost all = ls.deep_view();
    let mut rest = ls;
    let mut r: Vec<String> = Vec::new();
    while rest.len() > 0
        invariant
            r@.len() + rest@.len() == all.len(),
            rest.deep_view() == all.take(rest@.len() as int),
            forall|j: int| 0 <= j < r@.len() ==> #[trigger] r@[j]@ == all[all.len() - 1 - j],
        decreases rest@.len(),
    {
        let ghost before = rest.deep_view();
        let last = rest.pop().unwrap();
        assert(last@ == before[before.len() - 1]);
        r.push(last);
    }
    r
}

/// Reads the history out of the contents of its file, where `None` stands for
/// a file that does not exist: the lines of the text, white space at both ends
/// of the text aside, the last line first.
pub fn read_db_from_file(contents: Option<&str>) -> (seen_episodes: Vec<String>)
    ensures
        seen_episodes.deep_view() == stored_history(contents),
        contents is None ==> seen_episodes@.len() == 0,
{
    match contents {
        None => Vec::new(),
        Some(text) => reversed(split_lines(trimmed(text))),
    }
}

/// The contents that the file of the history is to get, or `None` where the
/// history is empty and the file is to be left as it is. The last entry comes
/// first in the text, and a line feed follows each entry.
pub fn save_db_to_file(seen_episodes: Vec<String>) -> (contents: Option<String>)
    ensures
        contents is None <==> seen_episodes@.len() == 0,
        contents matches Some(text) ==> text@ == db_text(seen_episodes.deep_view()),
{
    if seen_episodes.len() == 0 {
        return None;
    }
    let ghost seen = seen_episodes.deep_view();
    let mut text = String::new();
    let mut i: usize = seen_episodes.len();
    assert(seen.take(i as int) =~= seen);
    while i > 0
        invariant
            i <= seen_episodes@.len(),
            seen == seen_episodes.deep_view(),
            text@ + db_text(seen.take(i as int)) == db_text(seen),
        decreases i,
    {
        let ghost left = seen.take(i as int);
        i = i - 1;
        text.append(seen_episodes[i].as_str());
        text.append("\n");
        proof {
            reveal_strlit("\n");
            assert(left.drop_last() =~= seen.take(i as int));
        }
    }
    Some(text)
}

/// What `save_db_to_file` writes, `read_db_from_file` reads back: the text of
/// a history that is not empty, and whose entries each fit on a line, holds
/// that history.
pub proof fn lemma_db_text_round_trip(seen: Seq<Seq<char>>)
    requires
        seen.len() > 0,
        fit_on_lines(seen),
    ensures
        history_of(db_text(seen)) == seen,
{
    let text = db_text(seen);
    let body = joined(seen);
    lemma_db_text_is_joined(seen);
    lemma_joined_ends(seen);
    lemma_lines_of_joined(seen);
    lemma_trim_start_at(text, 0);
    lemma_trim_end_at(text, body.len() as int);
    assert(text.take(body.len() as int) =~= body);
}

/// An identifier fits on a line.
pub proof fn lemma_identifier_fits_on_line(entry: Seq<char>)
    requires
        is_identifier(entry),
    ensures
        fits_on_line(entry),
{
    assert forall|j: int| 0 <= j < entry.len() implies #[trigger] entry[j] != '\n' by {}
}

/// Reading after saving gives back what was saved: the text of a history of
/// identifiers that is not empty holds that history.
pub proof fn lemma_identifiers_round_trip(seen: Seq<Seq<char>>)
    requires
        seen.len() > 0,
        forall|i: int| 0 <= i < seen.len() ==> is_identifier(#[trigger] seen[i]),
    ensures
        history_of(db_text(seen)) == seen,
{
    assert forall|i: int| 0 <= i < seen.len() implies fits_on_line(#[trigger] seen[i]) by {
        lemma_identifier_fits_on_line(seen[i]);
    }
    lemma_db_text_round_trip(seen);
}

/// A record that takes in an episode of the catalog that it does not hold is
/// a record again, and the text that stores it gives it back.
pub proof fn lemma_record_grows(seen: Seq<Seq<char>>, episode: Seq<char>)
    requires
        is_record(seen),
        catalog().contains(episode),
        !seen.contains(episode),
    ensures
        is_record(seen.push(episode)),
        history_of(db_text(seen.push(episode))) == seen.push(episode),
{
    let grown = seen.push(episode);
    assert forall|i: int| 0 <= i < grown.len() implies catalog().contains(#[trigger] grown[i])
        && is_identifier(grown[i]) by {
        let at = choose|at: int| 0 <= at < catalog().len() && catalog()[at] == grown[i];
        lemma_catalog_holds_identifiers(at);
    }
    assert(grown.no_duplicates());
    lemma_identifiers_round_trip(grown);
}

/// A text of white space alone holds no history.
pub proof fn lemma_blank_text_holds_nothing(text: Seq<char>)
    requires
        forall|j: int| 0 <= j < text.len() ==> is_whitespace(#[trigger] text[j]),
    ensures
        history_of(text) == Seq::<Seq<char>>::empty(),
{
    lemma_trim_start_at(text, text.len() as int);
}

/// The entries of `seen` with a line feed between each two, the last entry
/// first: `db_text` without the line feed at its end.
spec fn joined(seen: Seq<Seq<char>>) -> Seq<char>
    decreases seen.len(),
{
    if seen.len() <= 1 {
        seen.last()
    } else {
        seen.last() + seq!['\n'] + joined(seen.drop_last())
    }
}

/// The text of a history is its entries, joined, and one line feed more.
proof fn lemma_db_text_is_joined(seen: Seq<Seq<char>>)
    requires
        seen.len() > 0,
    ensures
        db_text(seen) == joined(seen) + seq!['\n'],
    decreases seen.len(),
{
    if seen.len() == 1 {
        assert(db_text(seen.drop_last()) =~= Seq::<char>::empty());
    } else {
        lemma_db_text_is_joined(seen.drop_last());
    }
}

/// The joined entries begin as the newest entry begins and end as the oldest
/// one ends.
proof fn lemma_joined_ends(seen: Seq<Seq<char>>)
    requires
        seen.len() > 0,
        fit_on_lines(seen),
    ensures
        joined(seen).len() > 0,
        joined(seen).first() == seen.last().first(),
        joined(seen).last() == seen.first().last(),
    decreases seen.len(),
{
    if seen.len() > 1 {
        let rest = seen.drop_last();
        assert forall|i: int| 0 <= i < rest.len() implies fits_on_line(#[trigger] rest[i]) by {}
        lemma_joined_ends(rest);
    }
}

/// The lines of the joined entries are the entries, the newest first.
proof fn lemma_lines_of_joined(seen: Seq<Seq<char>>)
    requires
        seen.len() > 0,
        fit_on_lines(seen),
    ensures
        lines(joined(seen)) == seen.reverse(),
    decreases seen.len(),
{
    let newest = seen.last();
    if seen.len() == 1 {
        lemma_line_end_at(newest, newest.len() as int);
    } else {
        let rest = seen.drop_last();
        let text = joined(seen);
        let k = newest.len() as int;
        assert forall|i: int| 0 <= i < rest.len() implies fits_on_line(#[trigger] rest[i]) by {}
        lemma_lines_of_joined(rest);
        assert forall|j: int| 0 <= j < k implies #[trigger] text[j] != '\n' by {}
        lemma_line_end_at(text, k);
        assert(text.take(k) =~= newest);
        assert(text.skip(k + 1) =~= joined(rest));
    }
}

} // verus!
