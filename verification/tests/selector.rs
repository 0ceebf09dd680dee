use howyoudoin::catalog::EPISODES;
use howyoudoin::history::read_db_from_file;
use howyoudoin::selector::{first_unseen, has_unseen_episode, seen_set, select_next_episode};
use howyoudoin::{get_next_episode, NextEpisode};

fn owned(entries: &[&str]) -> Vec<String> {
    entries.iter().map(|s| s.to_string()).collect()
}

#[test]
fn select_next_episode_returns_any_episode_at_all() {
    let result = select_next_episode(&Vec::new());
    assert!(EPISODES.contains(&result))
}

#[test]
#[should_panic(expected = "No unseen episodes available")]
fn select_next_episode_panics_if_there_is_no_unseen_episodes() {
    let all_episodes: Vec<String> = EPISODES
        .iter()
        .map(|s| s.to_string())
        .collect();
    select_next_episode(&all_episodes);
}

#[test]
fn no_episode_is_left_once_all_were_seen() {
    let all_episodes: Vec<String> = EPISODES.iter().map(|s| s.to_string()).collect();
    assert!(!has_unseen_episode(&all_episodes));
    assert_eq!(first_unseen(&EPISODES, &seen_set(&all_episodes)), None);
}

#[test]
fn an_episode_is_left_until_all_were_seen() {
    assert!(has_unseen_episode(&[]));
    assert!(has_unseen_episode(&owned(&["s01e01", "s01e02"])));
    assert!(has_unseen_episode(&owned(&["not an episode"])));
    let all_but_one: Vec<String> = EPISODES[..233].iter().map(|s| s.to_string()).collect();
    assert!(has_unseen_episode(&all_but_one));
    assert_eq!(select_next_episode(&all_but_one), "s10e17");
}

#[test]
fn select_after_read_avoids_what_was_read() {
    let seen = read_db_from_file(Some("s01e02\ns01e01\n"));
    assert_eq!(seen, vec!["s01e01", "s01e02"]);
    for _ in 0..200 {
        let episode = select_next_episode(&seen);
        assert!(EPISODES.contains(&episode));
        assert_ne!(episode, "s01e01");
        assert_ne!(episode, "s01e02");
    }
}

#[test]
fn select_ignores_entries_that_are_no_episodes() {
    let seen = owned(&["", "s01e01 ", "S01E01", "s11e01"]);
    let episode = select_next_episode(&seen);
    assert!(EPISODES.contains(&episode));
}

#[test]
fn select_takes_the_order_at_random() {
    let mut differs = false;
    for _ in 0..40 {
        if select_next_episode(&[]) != EPISODES[0] {
            differs = true;
        }
    }
    assert!(differs);
}

#[test]
fn select_reaches_every_episode() {
    let mut seen: Vec<String> = Vec::new();
    for _ in 0..234 {
        assert!(has_unseen_episode(&seen));
        let episode = select_next_episode(&seen);
        assert!(!seen.iter().any(|s| s == episode));
        seen.push(episode.to_string());
    }
    assert!(!has_unseen_episode(&seen));
    for episode in EPISODES {
        assert!(seen.iter().any(|s| s == episode));
    }
}

#[test]
fn seen_set_holds_each_entry_once() {
    let set = seen_set(&owned(&["s01e01", "s02e02", "s01e01"]));
    assert_eq!(set.len(), 2);
    assert!(set.contains("s01e01"));
    assert!(set.contains("s02e02"));
    assert!(!set.contains("s01e02"));
    assert!(!set.contains("s01e0"));
    assert!(seen_set(&[]).is_empty());
}

#[test]
fn first_unseen_takes_the_first_in_the_order() {
    let order = ["s02e01", "s01e01", "s03e01"];
    assert_eq!(first_unseen(&order, &seen_set(&[])), Some("s02e01"));
    assert_eq!(
        first_unseen(&order, &seen_set(&owned(&["s02e01"]))),
        Some("s01e01")
    );
    assert_eq!(
        first_unseen(&order, &seen_set(&owned(&["s01e01", "s02e01"]))),
        Some("s03e01")
    );
    assert_eq!(
        first_unseen(&order, &seen_set(&owned(&["s03e01"]))),
        Some("s02e01")
    );
    assert_eq!(
        first_unseen(&order, &seen_set(&owned(&["s03e01", "s02e01", "s01e01"]))),
        None
    );
    assert_eq!(first_unseen(&[], &seen_set(&[])), None);
}

#[test]
fn get_next_episode_starts_a_history() {
    let NextEpisode { episode, contents } = get_next_episode(None);
    assert!(EPISODES.contains(&episode));
    assert_eq!(contents, format!("{}\n", episode));
}

#[test]
fn get_next_episode_puts_the_episode_on_the_first_line() {
    let stored = "s01e02\ns01e01\n";
    let next = get_next_episode(Some(stored));
    assert!(EPISODES.contains(&next.episode));
    assert_ne!(next.episode, "s01e01");
    assert_ne!(next.episode, "s01e02");
    assert_eq!(next.contents, format!("{}\n{}", next.episode, stored));
    assert_eq!(
        read_db_from_file(Some(&next.contents)),
        vec!["s01e01", "s01e02", next.episode]
    );
}

#[test]
fn get_next_episode_run_after_run() {
    let mut stored: Option<String> = None;
    let mut picked: Vec<&'static str> = Vec::new();
    for _ in 0..234 {
        let seen = read_db_from_file(stored.as_deref());
        assert!(has_unseen_episode(&seen));
        let next = get_next_episode(stored.as_deref());
        assert!(!picked.contains(&next.episode));
        picked.push(next.episode);
        stored = Some(next.contents);
    }
    let seen = read_db_from_file(stored.as_deref());
    assert_eq!(seen, picked);
    assert!(!has_unseen_episode(&seen));
}
