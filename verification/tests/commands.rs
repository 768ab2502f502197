use ivan_bot::config::{GunMode, IvanConfig};
use ivan_bot::errors::{BotErrorKind, IvanError};
use ivan_bot::model::{
    assign_teams, balance_plan, can_execute, check_alias, format_default_maps, handle_alias,
    handle_channel, handle_gunmode, handle_skin_request, handle_skin_shuffle, handle_team,
    handle_vote, make_message, route_command, switch_team_plan, team_color, BalancePlan, BotRoute,
    SkinRequest, TeamRequest, VoteRequest, BOT_HELP,
};
use ivan_bot::voting::{Choice, CustomFramework, Vote};
use ivan_bot::parsing::parse_discord_id;
use ivan_bot::pavlov::{
    handle_raw, is_standard_map, pa, parse_game_mode, parse_map, parse_number, parse_number_u32,
    parse_skin, parse_team, GameMode, PavlovCommands, Skin,
};
use ivan_bot::permissions::{handle_admin, handle_mod, mod_allowed, user_allowed, PermissionLevel};

fn args(v: &[&str]) -> Vec<String> {
    v.iter().map(|s| s.to_string()).collect()
}

fn kind_of(e: &IvanError) -> BotErrorKind {
    match e {
        IvanError::BotCommandError(a) => a.kind,
        IvanError::BotPavlovError(p) => p.kind,
        IvanError::BotConfigError(c) => c.kind,
    }
}

#[test]
fn numbers_parse_exactly() {
    assert_eq!(parse_number("76561198012345678").unwrap(), 76561198012345678);
    assert_eq!(kind_of(&parse_number("x1").unwrap_err()), BotErrorKind::InvalidArgument);
    assert_eq!(parse_number_u32("4294967295").unwrap(), u32::MAX);
    assert_eq!(
        kind_of(&parse_number_u32("4294967296").unwrap_err()),
        BotErrorKind::InvalidArgument
    );
    assert_eq!(parse_team("1").unwrap(), 1);
    assert_eq!(parse_discord_id("42").unwrap(), 42);
    match parse_discord_id("abc") {
        Err(IvanError::BotCommandError(e)) => {
            assert_eq!(e.kind, BotErrorKind::InvalidArgument);
            assert_eq!(e.input, "Invalid discord id \"abc\"");
        }
        _ => panic!("expected an invalid-argument error"),
    }
}

#[test]
fn game_modes_parse_case_insensitively() {
    assert_eq!(parse_game_mode("SND").unwrap(), GameMode::SND);
    assert_eq!(parse_game_mode("gun").unwrap(), GameMode::GUN);
    assert_eq!(parse_game_mode("Ww2Gun").unwrap(), GameMode::WW2GUN);
    assert_eq!(parse_game_mode("oitc").unwrap(), GameMode::OITC);
    assert_eq!(
        kind_of(&parse_game_mode("zombies").unwrap_err()),
        BotErrorKind::InvalidArgument
    );
}

#[test]
fn skins_parse_case_insensitively() {
    assert_eq!(parse_skin("Clown").unwrap(), Skin::Clown);
    assert_eq!(parse_skin("US").unwrap(), Skin::Us);
    // `cop` is produced but never accepted as input.
    assert_eq!(kind_of(&parse_skin("cop").unwrap_err()), BotErrorKind::InvalidArgument);
}

#[test]
fn missing_arguments_report_the_help_text() {
    let a = args(&["ban"]);
    match pa(&a, 1, "valid steamId, looks like 76563192370220331") {
        Err(IvanError::BotCommandError(e)) => {
            assert_eq!(e.kind, BotErrorKind::MissingArgument);
            assert_eq!(e.input, "valid steamId, looks like 76563192370220331");
        }
        _ => panic!("expected a missing-argument error"),
    }
    assert_eq!(pa(&a, 0, "help").unwrap(), "ban");
}

#[test]
fn raw_joins_arguments_with_spaces() {
    assert_eq!(handle_raw(&args(&["raw", "a", "b", "c"])).unwrap(), "a b c");
    assert_eq!(handle_raw(&args(&["raw", "single"])).unwrap(), "single");
    assert_eq!(
        kind_of(&handle_raw(&args(&["raw"])).unwrap_err()),
        BotErrorKind::InvalidArgument
    );
}

#[test]
fn standard_maps_are_recognized() {
    assert!(is_standard_map("stalingrad"));
    assert!(is_standard_map("datacenter"));
    assert!(!is_standard_map("Stalingrad"));
    assert!(!is_standard_map("customthing"));
}

#[test]
fn map_parsing_accepts_standard_workshop_and_codes() {
    let config = IvanConfig::default();
    assert_eq!(parse_map("stalingrad", &config).unwrap(), "stalingrad");
    // Case folding applies to the recognition only; the given text is kept.
    assert_eq!(parse_map("StAlInGrAd", &config).unwrap(), "StAlInGrAd");
    assert_eq!(
        parse_map(
            "https://steamcommunity.com/sharedfiles/filedetails/?id=1745146933",
            &config
        )
        .unwrap(),
        "UGC1745146933"
    );
    // Leading zeros are dropped by the numeric round trip.
    assert_eq!(
        parse_map("https://steamcommunity.com/?id=007", &config).unwrap(),
        "UGC7"
    );
    assert_eq!(parse_map("UGC1745146933", &config).unwrap(), "UGC1745146933");
    assert_eq!(
        kind_of(&parse_map("nodigitshere", &config).unwrap_err()),
        BotErrorKind::InvalidMap
    );
    assert_eq!(
        kind_of(&parse_map("https://steamcommunity.com/nothing", &config).unwrap_err()),
        BotErrorKind::InvalidMap
    );
    assert_eq!(
        kind_of(
            &parse_map("https://steamcommunity.com/?id=99999999999", &config).unwrap_err()
        ),
        BotErrorKind::InvalidArgument
    );
}

#[test]
fn map_parsing_resolves_aliases_case_insensitively() {
    let mut config = IvanConfig::default();
    config.add_alias("goodmap".to_string(), "stalingrad".to_string());
    assert_eq!(parse_map("GOODMAP", &config).unwrap(), "stalingrad");
    assert_eq!(config.resolve_alias("GoodMap").unwrap(), "stalingrad");
    assert_eq!(config.resolve_alias("other"), None);
}

#[test]
fn commands_render_their_wire_text() {
    assert_eq!(PavlovCommands::Help.to_text(), "Help");
    assert_eq!(PavlovCommands::Ban(76561198012345678).to_text(), "Ban 76561198012345678");
    assert_eq!(
        PavlovCommands::SwitchMap {
            map: "UGC1745146933".to_string(),
            gamemode: GameMode::SND
        }
        .to_text(),
        "SwitchMap UGC1745146933 SND"
    );
    assert_eq!(PavlovCommands::SwitchTeam(5, 1).to_text(), "SwitchTeam 5 1");
    assert_eq!(PavlovCommands::GiveCash(5, 2000).to_text(), "GiveCash 5 2000");
    assert_eq!(
        PavlovCommands::SetPlayerSkin(5, Skin::Clown).to_text(),
        "SetPlayerSkin 5 clown"
    );
    assert_eq!(PavlovCommands::RotateMap.to_text(), "RotateMap");
    assert_eq!(PavlovCommands::Raw("anything".to_string()).to_text(), "anything");
}

#[test]
fn dispatcher_parses_known_commands() {
    let config = IvanConfig::default();
    assert!(matches!(
        PavlovCommands::parse_from_arguments(&args(&["help"]), &config),
        Ok(PavlovCommands::Help)
    ));
    assert!(matches!(
        PavlovCommands::parse_from_arguments(&args(&["BAN", "123"]), &config),
        Ok(PavlovCommands::Ban(123))
    ));
    match PavlovCommands::parse_from_arguments(&args(&["switchmap", "stalingrad", "snd"]), &config)
    {
        Ok(PavlovCommands::SwitchMap { map, gamemode }) => {
            assert_eq!(map, "stalingrad");
            assert_eq!(gamemode, GameMode::SND);
        }
        _ => panic!("expected a switchmap command"),
    }
    assert!(matches!(
        PavlovCommands::parse_from_arguments(&args(&["switchteam", "9", "0"]), &config),
        Ok(PavlovCommands::SwitchTeam(9, 0))
    ));
    assert!(matches!(
        PavlovCommands::parse_from_arguments(&args(&["rotatemap"]), &config),
        Ok(PavlovCommands::RotateMap)
    ));
    assert!(matches!(
        PavlovCommands::parse_from_arguments(&args(&["maprotate"]), &config),
        Ok(PavlovCommands::RotateMap)
    ));
}

#[test]
fn dispatcher_rejects_bad_commands() {
    let config = IvanConfig::default();
    assert_eq!(
        kind_of(&PavlovCommands::parse_from_arguments(&args(&["frobnicate"]), &config).unwrap_err()),
        BotErrorKind::InvalidCommand
    );
    assert_eq!(
        kind_of(&PavlovCommands::parse_from_arguments(&args(&[]), &config).unwrap_err()),
        BotErrorKind::InvalidCommand
    );
    assert_eq!(
        kind_of(&PavlovCommands::parse_from_arguments(&args(&["ban"]), &config).unwrap_err()),
        BotErrorKind::MissingArgument
    );
    assert_eq!(
        kind_of(&PavlovCommands::parse_from_arguments(&args(&["ban", "notanum"]), &config).unwrap_err()),
        BotErrorKind::InvalidArgument
    );
}

#[test]
fn permission_lists_gate_commands() {
    assert!(user_allowed("maplist".to_string()));
    assert!(user_allowed("serverinfo".to_string()));
    assert!(!user_allowed("ban".to_string()));
    assert!(mod_allowed("switchmap".to_string()));
    assert!(mod_allowed("maplist".to_string()));
    assert!(!mod_allowed("admin".to_string()));
    assert!(can_execute(&PermissionLevel::Admin, "anything".to_string()));
    assert!(can_execute(&PermissionLevel::Mod, "rotatemap".to_string()));
    assert!(!can_execute(&PermissionLevel::User, "rotatemap".to_string()));
    assert!(!can_execute(&PermissionLevel::Anonymous, "maplist".to_string()));
}

#[test]
fn admin_and_mod_lists_update() {
    let mut config = IvanConfig::default();
    let msg = handle_admin(&args(&["admin", "add", "42"]), &mut config).unwrap();
    assert_eq!(msg, "Added admin with id \"42\" to the admin list");
    assert!(config.is_admin(42));
    let msg = handle_admin(&args(&["admin", "remove", "42"]), &mut config).unwrap();
    assert_eq!(msg, "Removed admin with id \"42\" from the admin list");
    assert!(!config.is_admin(42));
    let msg = handle_mod(&args(&["mod", "add", "7"]), &mut config).unwrap();
    assert_eq!(msg, "Added moderator with id \"7\" to the moderator list");
    assert!(config.is_mod(7));
    assert_eq!(
        handle_mod(&args(&["mod", "frob", "7"]), &mut config).unwrap_err().kind,
        BotErrorKind::InvalidArgument
    );
}

#[test]
fn routing_matches_the_builtin_verbs() {
    assert_eq!(route_command(&"admin".to_string()), BotRoute::Admin);
    assert_eq!(route_command(&"alias".to_string()), BotRoute::Alias);
    assert_eq!(route_command(&"map".to_string()), BotRoute::MapCmd);
    assert_eq!(route_command(&"bothelp".to_string()), BotRoute::BotHelp);
    assert_eq!(route_command(&"skin".to_string()), BotRoute::Skin);
    assert_eq!(route_command(&"ban".to_string()), BotRoute::Pavlov);
    assert!(BOT_HELP.contains("-map vote start"));
}

#[test]
fn alias_commands_update_the_table() {
    let mut config = IvanConfig::default();
    let msg = handle_alias(&args(&["alias", "add", "stalingrad", "stal"]), &mut config).unwrap();
    assert_eq!(msg, "alias \"stal\" to map \"stalingrad\" created");
    assert_eq!(config.resolve_alias("stal").unwrap(), "stalingrad");
    let listing = handle_alias(&args(&["alias", "list"]), &mut config).unwrap();
    assert_eq!(listing, "\nalias: stal map: stalingrad");
    let msg = handle_alias(&args(&["alias", "remove", "stal"]), &mut config).unwrap();
    assert_eq!(msg, "alias \"stal\" removed (if it existed)");
    assert_eq!(config.resolve_alias("stal"), None);
    assert_eq!(
        kind_of(&handle_alias(&args(&["alias", "add", "stalingrad", "x"]), &mut config).unwrap_err()),
        BotErrorKind::InvalidMapAlias
    );
}

#[test]
fn alias_names_need_three_word_characters() {
    assert_eq!(check_alias("stal").unwrap(), "stal");
    assert_eq!(check_alias("ab1").unwrap(), "ab1");
    assert_eq!(check_alias("!!abc!!").unwrap(), "!!abc!!");
    assert_eq!(check_alias("ab").unwrap_err().kind, BotErrorKind::InvalidMapAlias);
    assert_eq!(check_alias("").unwrap_err().kind, BotErrorKind::InvalidMapAlias);
}

#[test]
fn gunmode_command_sets_the_mode() {
    let mut config = IvanConfig::default();
    assert_eq!(
        handle_gunmode(&args(&["gunmode", "WW2"]), &mut config).unwrap(),
        "Set gunmode to WW2"
    );
    assert_eq!(config.get_gun_mode(), GunMode::WW2);
    assert_eq!(
        handle_gunmode(&args(&["gunmode", "random"]), &mut config).unwrap(),
        "Set gunmode to Random"
    );
    assert_eq!(
        kind_of(&handle_gunmode(&args(&["gunmode", "plasma"]), &mut config).unwrap_err()),
        BotErrorKind::InvalidArgument
    );
    assert_eq!(config.get_gun_mode(), GunMode::Random);
}

#[test]
fn channel_lock_commands() {
    let mut config = IvanConfig::default();
    assert_eq!(
        handle_channel(&args(&["channel", "lock"]), 555, &mut config).unwrap(),
        "Locked bot channel to: 555"
    );
    assert_eq!(config.get_channel_lock(), Some(555));
    assert_eq!(
        handle_channel(&args(&["channel", "unlock"]), 555, &mut config).unwrap(),
        "removed channel lock"
    );
    assert_eq!(config.get_channel_lock(), None);
}

#[test]
fn skin_shuffle_commands() {
    let mut config = IvanConfig::default();
    assert_eq!(
        handle_skin_shuffle(&args(&["skin", "shuffle", "on"]), &mut config).unwrap(),
        "Skin shuffle set to true"
    );
    assert!(config.get_skin_shuffle());
    assert_eq!(
        handle_skin_shuffle(&args(&["skin", "shuffle", "false"]), &mut config).unwrap(),
        "Skin shuffle set to false"
    );
    assert!(!config.get_skin_shuffle());
}

#[test]
fn vote_requests_parse_with_default_amount() {
    assert!(matches!(
        handle_vote(&args(&["map", "vote", "start"])),
        Ok(VoteRequest::Start(4))
    ));
    assert!(matches!(
        handle_vote(&args(&["map", "vote", "start", "5"])),
        Ok(VoteRequest::Start(5))
    ));
    assert!(matches!(handle_vote(&args(&["map", "vote", "stop"])), Ok(VoteRequest::Stop)));
    assert_eq!(
        kind_of(&handle_vote(&args(&["map", "vote", "start", "1"])).unwrap_err()),
        BotErrorKind::InvalidVoteAmount
    );
    assert_eq!(
        kind_of(&handle_vote(&args(&["map", "vote", "flop"])).unwrap_err()),
        BotErrorKind::InvalidCommand
    );
    assert_eq!(
        kind_of(&handle_vote(&args(&["map", "vote"])).unwrap_err()),
        BotErrorKind::MissingArgument
    );
}

#[test]
fn team_balancing_plans() {
    assert_eq!(balance_plan(&vec![0, 0, 1, 1]), BalancePlan::Balanced);
    assert_eq!(balance_plan(&vec![1, 1, 1, 0]), BalancePlan::Move(0, 1));
    assert_eq!(balance_plan(&vec![1, 1, 1, 1]), BalancePlan::Move(0, 2));
    assert_eq!(balance_plan(&vec![0, 0, 0, 0, 1]), BalancePlan::Balanced);
    assert_eq!(balance_plan(&vec![0, 0, 0, 0, 0, 1]), BalancePlan::Move(1, 2));
    assert_eq!(balance_plan(&Vec::new()), BalancePlan::Balanced);
}

#[test]
fn team_shuffle_assignment_halves() {
    assert_eq!(assign_teams(5), vec![0, 0, 1, 1, 1]);
    assert_eq!(assign_teams(4), vec![0, 0, 1, 1]);
    assert_eq!(assign_teams(0), Vec::<u32>::new());
}

#[test]
fn listing_helpers() {
    assert_eq!(make_message(&Vec::new()), "");
    assert_eq!(make_message(&args(&["a", "b"])), "\na\nb");
    let defaults = format_default_maps();
    assert!(defaults.starts_with("\ndatacenter"));
    assert!(defaults.ends_with("\nindustry"));
    assert_eq!(team_color(&0), "BLUE");
    assert_eq!(team_color(&1), "RED");
    assert_eq!(team_color(&9), "unknown team 9");
}

#[test]
fn map_add_records_alias_and_pool_entry() {
    let mut config = IvanConfig::default();
    let msg = ivan_bot::model::map_add(
        &args(&["map", "add", "https://steamcommunity.com/?id=42", "snd", "fortytwo"]),
        &mut config,
    )
    .unwrap();
    assert_eq!(
        msg,
        "Map added to pool with id: \"UGC42\",gamemode: \"SND\" alias: \"fortytwo\""
    );
    assert_eq!(config.get_maps().len(), 1);
    assert_eq!(config.get_maps()[0].map, "UGC42");
    assert_eq!(config.resolve_alias("fortytwo").unwrap(), "UGC42");
    assert_eq!(
        kind_of(
            &ivan_bot::model::map_add(&args(&["map", "add", "UGC1", "nosuchmode", "x1x"]), &mut config)
                .unwrap_err()
        ),
        BotErrorKind::InvalidGameMode
    );
    assert_eq!(config.get_maps().len(), 1);
}

#[test]
fn map_remove_is_blocked_during_a_vote() {
    let mut config = IvanConfig::default();
    config.add_map("UGC1".to_string(), GameMode::SND, "one".to_string());
    let mut fw = CustomFramework { config, vote: None };
    let listing = ivan_bot::model::map_remove(&args(&["map", "remove", "one"]), &mut fw).unwrap();
    assert_eq!(listing, "The map pool is currently:");
    assert_eq!(fw.config.get_maps().len(), 0);
    fw.config.add_map("UGC2".to_string(), GameMode::SND, "two".to_string());
    fw.config.add_map("UGC3".to_string(), GameMode::TDM, "three".to_string());
    fw.vote = Some(Vote {
        maps: vec![
            Choice {
                id: "\u{1F4AF}".to_string(),
                map: "UGC2".to_string(),
                alias: "two".to_string(),
                gamemode: GameMode::SND,
            },
            Choice {
                id: "\u{1F374}".to_string(),
                map: "UGC3".to_string(),
                alias: "three".to_string(),
                gamemode: GameMode::TDM,
            },
        ],
        message_id: 1,
        channel_id: 2,
        countdown: 30,
        users: vec![],
        teams: None,
    });
    assert_eq!(
        kind_of(&ivan_bot::model::map_remove(&args(&["map", "remove", "two"]), &mut fw).unwrap_err()),
        BotErrorKind::VoteInProgress
    );
    assert_eq!(fw.config.get_maps().len(), 2);
}

#[test]
fn map_pool_listing_shows_every_entry() {
    let mut config = IvanConfig::default();
    config.add_map("UGC5".to_string(), GameMode::KOTH, "hill".to_string());
    assert_eq!(
        ivan_bot::model::map_pool_message(&config),
        "The map pool is currently:\nmap: \"hill\" \t(UGC5) \tgamemode: KOTH"
    );
}

#[test]
fn team_requests_route() {
    assert_eq!(handle_team(&args(&["team", "shuffle"])).unwrap(), TeamRequest::Shuffle);
    assert_eq!(handle_team(&args(&["team", "balance"])).unwrap(), TeamRequest::Balance);
    assert_eq!(handle_team(&args(&["team", "other"])).unwrap(), TeamRequest::Nothing);
    assert_eq!(
        kind_of(&handle_team(&args(&["team"])).unwrap_err()),
        BotErrorKind::MissingArgument
    );
}

#[test]
fn skin_requests_route() {
    assert_eq!(
        handle_skin_request(&args(&["skin", "shuffle", "on"])).unwrap(),
        SkinRequest::Shuffle
    );
    assert_eq!(handle_skin_request(&args(&["skin", "random"])).unwrap(), SkinRequest::Random);
    assert_eq!(
        handle_skin_request(&args(&["skin", "clown"])).unwrap(),
        SkinRequest::Fixed(Skin::Clown)
    );
    assert_eq!(
        kind_of(&handle_skin_request(&args(&["skin", "soviet"])).unwrap_err()),
        BotErrorKind::InvalidArgument
    );
}

#[test]
fn switch_plans_pick_the_first_players_off_the_team() {
    assert_eq!(switch_team_plan(&vec![1, 0, 1, 1], 0, 2), vec![0, 2]);
    assert_eq!(switch_team_plan(&vec![0, 0, 0], 1, 2), vec![0, 1]);
    assert_eq!(switch_team_plan(&vec![0, 0], 0, 5), Vec::<usize>::new());
    assert_eq!(switch_team_plan(&vec![1, 1], 0, 5), vec![0, 1]);
}
