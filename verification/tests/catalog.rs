use howyoudoin::catalog::{generate_episodes_list, EPISODES};

#[test]
fn catalog_holds_234_episodes() {
    assert_eq!(EPISODES.len(), 234);
    assert_eq!(EPISODES[0], "s01e01");
    assert_eq!(EPISODES[233], "s10e17");
}

#[test]
fn catalog_holds_no_episode_twice() {
    for i in 0..EPISODES.len() {
        for j in 0..i {
            assert_ne!(EPISODES[i], EPISODES[j]);
        }
    }
}

#[test]
fn catalog_entries_have_the_form_of_an_identifier() {
    for episode in EPISODES {
        let cs: Vec<char> = episode.chars().collect();
        assert_eq!(cs.len(), 6);
        assert_eq!(cs[0], 's');
        assert!(cs[1].is_ascii_digit() && cs[2].is_ascii_digit());
        assert_eq!(cs[3], 'e');
        assert!(cs[4].is_ascii_digit() && cs[5].is_ascii_digit());
    }
}

#[test]
fn catalog_holds_each_season_in_full() {
    let lengths: [usize; 10] = [24, 24, 25, 24, 24, 25, 24, 24, 23, 17];
    let mut at: usize = 0;
    for season in 1usize..=10 {
        for episode in 1usize..=lengths[season - 1] {
            assert_eq!(EPISODES[at], format!("s{:02}e{:02}", season, episode));
            at += 1;
        }
    }
    assert_eq!(at, 234);
}

#[test]
fn generated_list_is_the_table() {
    let list = generate_episodes_list();
    assert_eq!(list.len(), 234);
    for i in 0..list.len() {
        assert_eq!(list[i], EPISODES[i]);
    }
}
