//! Picks the next episode to watch, at random, among those not seen yet.
//!
//! The episodes seen so far are kept as text, one identifier on each line. This
//! library works on that text and on the catalog; reading and writing the
//! file that holds the text is left to the caller.

pub mod catalog;
pub mod history;
pub mod selector;
pub mod text;

use crate::catalog::{catalog, lemma_catalog_holds_identifiers};
use crate::history::{
    db_text, fit_on_lines, fits_on_line, history_of, is_record, lemma_db_text_round_trip,
    lemma_identifier_fits_on_line, lemma_record_grows, read_db_from_file, save_db_to_file,
    stored_history,
};
use crate::selector::{has_unseen, select_next_episode};
use vstd::prelude::*;

verus! {

/// The episode that was picked, and what the file of the history is to hold
/// from now on.
#[derive(Debug, PartialEq, Eq)]
pub struct NextEpisode {
    pub episode: &'static str,
    pub contents: String,
}

/// Picks the next episode: one of the catalog that the stored history does
/// not hold. The new contents of the file are the text of that history with
/// the episode added at its end, so the episode stands on the first line.
///
/// `contents` is what the file holds, or `None` where there is no file. The
/// stored history has to leave an episode to pick, which `has_unseen_episode`
/// tells of what `read_db_from_file` gives.
///
/// Read again, the new contents give the history with the episode at its end,
/// where every stored entry fits on a line. A history that held episodes of
/// the catalog, each once, still does so.
pub fn get_next_episode(contents: Option<&str>) -> (next: NextEpisode)
    requires
        has_unseen(stored_history(contents)),
    ensures
        catalog().contains(next.episode@),
        !stored_history(contents).contains(next.episode@),
        next.contents@ == db_text(stored_history(contents).push(next.episode@)),
        fit_on_lines(stored_history(contents)) ==> history_of(next.contents@) == stored_history(
            contents,
        ).push(next.episode@),
        is_record(stored_history(contents)) ==> is_record(history_of(next.contents@)),
{
    let mut seen_episodes = read_db_from_file(contents);
    let ghost before = seen_episodes.deep_view();
    let seen = seen_episodes.as_slice();
    let selected_episode = select_next_episode(seen);
    seen_episodes.push(selected_episode.to_owned());
    assert(seen_episodes.deep_view() =~= before.push(selected_episode@));
    proof {
        let after = before.push(selected_episode@);
        let at = choose|i: int| 0 <= i < catalog().len() && catalog()[i] == selected_episode@;
        lemma_catalog_holds_identifiers(at);
        lemma_identifier_fits_on_line(selected_episode@);
        if fit_on_lines(before) {
            assert forall|i: int| 0 <= i < after.len() implies fits_on_line(#[trigger] after[i]) by {
                if i < before.len() {
                }
            }
            lemma_db_text_round_trip(after);
        }
        if is_record(before) {
            lemma_record_grows(before, selected_episode@);
        }
    }
    let contents = save_db_to_file(seen_episodes).unwrap();
    NextEpisode { episode: selected_episode, contents }
}

} // verus!
