use ivan_bot::config::{GunMode, IvanConfig, PoolMap};
use ivan_bot::errors::{BotErrorKind, IvanError};
use ivan_bot::pavlov::{GameMode, PavlovCommands};
use ivan_bot::random::shuffled_indices;
use ivan_bot::voting::{
    determine_winner, get_random_emojis, handle_gunmode, handle_vote_finish, handle_vote_start,
    set_vote_message, take_vote, vote_tick, Choice, CustomFramework, TickAction, Vote,
    MAX_VOTE_MAPS,
};

fn kind_of(e: &IvanError) -> BotErrorKind {
    match e {
        IvanError::BotCommandError(a) => a.kind,
        IvanError::BotPavlovError(p) => p.kind,
        IvanError::BotConfigError(c) => c.kind,
    }
}

fn gun_pool(n: usize) -> IvanConfig {
    let mut config = IvanConfig::default();
    for i in 0..n {
        config.add_map(
            format!("UGC{}", 1000 + i),
            GameMode::GUN,
            format!("gunmap{}", i),
        );
    }
    config
}

fn framework(config: IvanConfig) -> CustomFramework {
    CustomFramework { config, vote: None }
}

fn test_vote(counts: &[(&str, u64)]) -> (Vote, Vec<(String, u64)>) {
    let symbols = ["\u{1F4AF}", "\u{1F374}", "\u{1F9C2}"];
    let maps = (0..3)
        .map(|i| Choice {
            id: symbols[i].to_string(),
            map: format!("map{}", i),
            alias: format!("alias{}", i),
            gamemode: GameMode::SND,
        })
        .collect();
    let vote = Vote {
        maps,
        message_id: 77,
        channel_id: 88,
        countdown: 30,
        users: vec![1, 2],
        teams: None,
    };
    let reactions = counts
        .iter()
        .map(|(s, c)| (s.to_string(), *c))
        .collect();
    (vote, reactions)
}

#[test]
fn shuffling_yields_a_permutation() {
    let perm = shuffled_indices(6);
    let mut seen = vec![false; 6];
    for &i in &perm {
        assert!(!seen[i]);
        seen[i] = true;
    }
    assert!(seen.iter().all(|&s| s));
    assert_eq!(shuffled_indices(0), Vec::<usize>::new());
    assert_eq!(shuffled_indices(1), vec![0]);
}

#[test]
fn emojis_are_distinct_and_bounded() {
    let e = get_random_emojis(5).unwrap();
    assert_eq!(e.len(), 5);
    for a in 0..e.len() {
        for b in 0..e.len() {
            if a != b {
                assert_ne!(e[a], e[b]);
            }
        }
    }
    assert_eq!(get_random_emojis(10).unwrap().len(), 10);
    assert_eq!(
        kind_of(&get_random_emojis(11).unwrap_err()),
        BotErrorKind::InvalidVoteAmount
    );
}

#[test]
fn gunmode_remap_resolves_gun_requests() {
    assert_eq!(handle_gunmode(GameMode::GUN, GunMode::WW2), GameMode::WW2GUN);
    assert_eq!(handle_gunmode(GameMode::GUN, GunMode::Modern), GameMode::GUN);
    assert_eq!(handle_gunmode(GameMode::SND, GunMode::WW2), GameMode::SND);
    for _ in 0..30 {
        let m = handle_gunmode(GameMode::GUN, GunMode::Random);
        assert!(m == GameMode::GUN || m == GameMode::WW2GUN);
        let m = handle_gunmode(GameMode::GUN, GunMode::OitcRandom);
        assert!(m == GameMode::GUN || m == GameMode::WW2GUN || m == GameMode::OITC);
    }
}

#[test]
fn vote_start_builds_three_distinct_choices_from_five_gun_maps() {
    let mut fw = framework(gun_pool(5));
    let text = handle_vote_start(&mut fw, 42, Some(GameMode::GUN), 3, vec![10, 11], None)
        .expect("the vote should start");
    let vote = fw.vote.as_ref().expect("a vote should be stored");
    // Exactly 3 choices, each with a distinct symbol.
    assert_eq!(vote.maps.len(), 3);
    for a in 0..3 {
        for b in 0..3 {
            if a != b {
                assert_ne!(vote.maps[a].id, vote.maps[b].id);
            }
        }
    }
    // One message text to post, and one reaction per choice to add.
    assert_eq!(text, vote.to_display());
    assert_eq!(vote.symbols().len(), 3);
    assert_eq!(vote.countdown, 30);
    assert_eq!(vote.channel_id, 42);
    assert_eq!(vote.message_id, 0);
    assert_eq!(vote.users, vec![10, 11]);
    // The posted message id arrives after posting.
    set_vote_message(&mut fw, 999);
    assert_eq!(fw.vote.as_ref().unwrap().message_id, 999);
}

#[test]
fn vote_start_while_active_changes_nothing() {
    let mut fw = framework(gun_pool(5));
    handle_vote_start(&mut fw, 42, None, 3, vec![1], None).unwrap();
    let before: Vec<String> = fw.vote.as_ref().unwrap().symbols();
    let countdown_before = fw.vote.as_ref().unwrap().countdown;
    let err =
        handle_vote_start(&mut fw, 43, Some(GameMode::SND), 2, vec![9], None).unwrap_err();
    assert_eq!(kind_of(&err), BotErrorKind::VoteInProgress);
    // The existing vote's fields are untouched.
    let vote = fw.vote.as_ref().unwrap();
    assert_eq!(vote.symbols(), before);
    assert_eq!(vote.countdown, countdown_before);
    assert_eq!(vote.channel_id, 42);
}

#[test]
fn vote_start_with_too_few_choices_creates_no_vote() {
    let mut fw = framework(IvanConfig::default());
    let err = handle_vote_start(&mut fw, 42, None, 3, vec![1], None).unwrap_err();
    assert_eq!(kind_of(&err), BotErrorKind::InvalidVoteAmount);
    assert!(fw.vote.is_none());

    let mut one = IvanConfig::default();
    one.add_map("UGC1".to_string(), GameMode::SND, "only".to_string());
    let mut fw = framework(one);
    let err = handle_vote_start(&mut fw, 42, None, 3, vec![1], None).unwrap_err();
    assert_eq!(kind_of(&err), BotErrorKind::InvalidVoteAmount);
    assert!(fw.vote.is_none());
}

#[test]
fn vote_start_filters_by_game_mode() {
    let mut config = IvanConfig::default();
    config.add_map("UGC1".to_string(), GameMode::SND, "a".to_string());
    config.add_map("UGC2".to_string(), GameMode::SND, "b".to_string());
    config.add_map("UGC3".to_string(), GameMode::TDM, "c".to_string());
    let mut fw = framework(config);
    handle_vote_start(&mut fw, 1, Some(GameMode::SND), 8, vec![], None).unwrap();
    let vote = fw.vote.as_ref().unwrap();
    assert_eq!(vote.maps.len(), 2);
    for c in &vote.maps {
        assert_eq!(c.gamemode, GameMode::SND);
    }
}

#[test]
fn countdown_is_monotone_to_zero_then_resolves() {
    let mut fw = framework(gun_pool(5));
    handle_vote_start(&mut fw, 1, None, 3, vec![], None).unwrap();
    let mut observed = vec![fw.vote.as_ref().unwrap().countdown];
    loop {
        match vote_tick(&mut fw) {
            TickAction::Edit(text) => {
                let c = fw.vote.as_ref().unwrap().countdown;
                assert_eq!(text, fw.vote.as_ref().unwrap().to_display());
                observed.push(c);
            }
            TickAction::Finish => break,
            TickAction::Stop => panic!("the vote did not go away"),
        }
    }
    assert_eq!(observed, vec![30, 27, 24, 21, 18, 15, 12, 9, 6, 3, 0]);
    // A tick with no vote stops silently: the cancellation re-check.
    fw.vote = None;
    assert!(matches!(vote_tick(&mut fw), TickAction::Stop));
}

#[test]
fn resolve_prefers_maximal_counts_and_never_a_loser() {
    let (vote, reactions) = test_vote(&[("\u{1F4AF}", 3), ("\u{1F374}", 3), ("\u{1F9C2}", 1)]);
    let mut saw_first = false;
    let mut saw_second = false;
    for _ in 0..300 {
        let w = determine_winner(&vote, &reactions);
        assert!(w == 0 || w == 1, "the low-count choice must never win");
        if w == 0 {
            saw_first = true;
        }
        if w == 1 {
            saw_second = true;
        }
    }
    assert!(saw_first && saw_second, "both tied leaders should win sometimes");
}

#[test]
fn resolve_counts_missing_symbols_as_zero() {
    let (vote, reactions) = test_vote(&[("\u{1F374}", 2)]);
    for _ in 0..20 {
        assert_eq!(determine_winner(&vote, &reactions), 1);
    }
    // No reactions at all: everything ties at zero.
    let (vote, reactions) = test_vote(&[]);
    for _ in 0..20 {
        assert!(determine_winner(&vote, &reactions) < 3);
    }
}

#[test]
fn finish_vote_issues_the_winning_switch_command() {
    let mut fw = framework(gun_pool(5));
    let (vote, reactions) = test_vote(&[("\u{1F4AF}", 4), ("\u{1F374}", 2)]);
    fw.vote = Some(vote);
    let finished = handle_vote_finish(&mut fw, &reactions).unwrap();
    assert_eq!(finished.winner, 0);
    match &finished.command {
        PavlovCommands::SwitchMap { map, gamemode } => {
            assert_eq!(map, "map0");
            assert_eq!(*gamemode, GameMode::SND);
        }
        _ => panic!("the vote resolves to a switch command"),
    }
    assert_eq!(finished.announcement, "The winner is: alias0 gamemode: SND");
    assert!(fw.vote.is_none());
}

#[test]
fn finish_vote_runs_exactly_once() {
    let mut fw = framework(gun_pool(5));
    let (vote, reactions) = test_vote(&[("\u{1F4AF}", 4)]);
    fw.vote = Some(vote);
    // A tick and an explicit stop race for the same vote; serialized by the
    // coordinator's lock, one runs first and wins.
    let first = handle_vote_finish(&mut fw, &reactions);
    let second = handle_vote_finish(&mut fw, &reactions);
    assert!(first.is_ok(), "the first caller resolves the vote");
    assert_eq!(
        kind_of(&second.unwrap_err()),
        BotErrorKind::VoteNotInProgress
    );
    assert!(fw.vote.is_none());
}

#[test]
fn take_vote_empties_the_slot() {
    let mut fw = framework(IvanConfig::default());
    let (vote, _) = test_vote(&[]);
    fw.vote = Some(vote);
    let taken = take_vote(&mut fw).unwrap();
    assert_eq!(taken.message_id, 77);
    assert!(fw.vote.is_none());
    assert_eq!(
        kind_of(&take_vote(&mut fw).unwrap_err()),
        BotErrorKind::VoteNotInProgress
    );
}

#[test]
fn vote_message_lists_countdown_choices_and_mentions() {
    let (vote, _) = test_vote(&[]);
    let expected = "\nThe vote will end in: \"30\" seconds\
                    \nVote: \u{1F4AF} for map: \"alias0\" gamemode: SND\
                    \nVote: \u{1F374} for map: \"alias1\" gamemode: SND\
                    \nVote: \u{1F9C2} for map: \"alias2\" gamemode: SND\
                    \nGet ready to vote: <@1> <@2>";
    assert_eq!(vote.to_display(), expected);
}

#[test]
fn vote_message_shows_team_split() {
    let (mut vote, _) = test_vote(&[]);
    vote.teams = Some((vec![1], vec![2, 3]));
    let text = vote.to_display();
    assert!(text.ends_with("\nRed team: <@1>\nBlue team: <@2> <@3>"));
}

#[test]
fn config_lists_round_trip() {
    let mut config = IvanConfig::default();
    assert_eq!(config.get_vote_amount(), 8);
    assert_eq!(MAX_VOTE_MAPS, 4);
    config.add_admin(5);
    config.add_admin(5);
    assert!(config.is_admin(5));
    config.add_mod(6);
    assert!(config.is_mod(6));
    config.remove_mod(6);
    assert!(!config.is_mod(6));
    config.set_team_channels(100, 200);
    assert_eq!(config.get_team_channels(), Some((100, 200)));
    assert!(config.set_vote_amount(5).is_ok());
    assert_eq!(config.get_vote_amount(), 5);
    assert_eq!(
        kind_of(&config.set_vote_amount(1).unwrap_err()),
        BotErrorKind::InvalidVoteAmount
    );
    assert_eq!(
        kind_of(&config.set_vote_amount(11).unwrap_err()),
        BotErrorKind::InvalidVoteAmount
    );
    assert_eq!(config.get_vote_amount(), 5);
}

#[test]
fn map_pool_updates_and_sampling() {
    let mut config = IvanConfig::default();
    config.add_map("UGC1".to_string(), GameMode::SND, "one".to_string());
    config.add_map("UGC2".to_string(), GameMode::TDM, "two".to_string());
    config.add_map("UGC3".to_string(), GameMode::SND, "three".to_string());
    assert_eq!(config.get_maps().len(), 3);
    let all = config.get_maps_random(None).unwrap();
    assert_eq!(all.len(), 3);
    let snd = config.get_maps_random(Some(GameMode::SND)).unwrap();
    assert_eq!(snd.len(), 2);
    for m in &snd {
        assert_eq!(m.gamemode, GameMode::SND);
    }
    assert_eq!(
        kind_of(&config.get_maps_random(Some(GameMode::KOTH)).unwrap_err()),
        BotErrorKind::InvalidVoteAmount
    );
    config.remove_map(&"two".to_string());
    assert_eq!(config.get_maps().len(), 2);
    config.remove_map(&"UGC1".to_string());
    assert_eq!(config.get_maps().len(), 1);
    assert_eq!(config.get_maps()[0].alias, "three");
    let listing: Vec<String> = config.get_maps().iter().map(|m| m.to_display()).collect();
    assert_eq!(listing[0], "map: \"three\" \t(UGC3) \tgamemode: SND");
}

#[test]
fn pool_map_duplicate_copies_fields() {
    let m = PoolMap {
        map: "UGC9".to_string(),
        gamemode: GameMode::KOTH,
        alias: "hill".to_string(),
    };
    let d = m.duplicate();
    assert_eq!(d.map, "UGC9");
    assert_eq!(d.gamemode, GameMode::KOTH);
    assert_eq!(d.alias, "hill");
}

#[test]
fn sampling_caps_at_the_configured_count() {
    let mut config = gun_pool(5);
    assert!(config.set_vote_amount(2).is_ok());
    assert_eq!(config.get_maps_random(None).unwrap().len(), 2);
}

#[test]
fn vote_start_caps_at_the_pool() {
    let mut fw = framework(gun_pool(3));
    handle_vote_start(&mut fw, 1, None, 8, vec![], None).unwrap();
    assert_eq!(fw.vote.as_ref().unwrap().maps.len(), 3);
}

#[test]
fn vote_start_rejects_more_symbols_than_the_pool_holds() {
    let mut fw = framework(gun_pool(12));
    let err = handle_vote_start(&mut fw, 1, None, 11, vec![], None).unwrap_err();
    assert_eq!(kind_of(&err), BotErrorKind::InvalidVoteAmount);
    assert!(fw.vote.is_none());
}
