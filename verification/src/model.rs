//! The admin-request dispatcher's decisions: which handler a command verb
//! routes to, who may run it, and the pure handlers for aliases, gun mode,
//! the channel lock, skin shuffle, vote requests, and team balancing.
//! Everything that talks to the network — relaying commands, posting
//! replies, moving users — stays with the caller.

use vstd::prelude::*;

verus! {

use vstd::string::StringExecFns;
use crate::config::{IvanConfig, GunMode};
use crate::errors::{AdminCommandError, BotErrorKind, IvanError};
use crate::pavlov::{pa, parse_map, parse_number, spec_parse_map, spec_u64_arg};
use crate::permissions::{PermissionLevel, spec_mod_allowed, spec_user_allowed};
use crate::text::{dec_digits, lower_of, lowercase, str_eq, u64_to_string};
use crate::voting::MAX_VOTE_MAPS;

pub const BOT_HELP: &'static str = "
-admin [add,remove] discord_id_64 #Add/remove admin users
-mod [add,remove] discord_id_64 #Add/remove moderator users
-alias [add,remove] {url/map} alias #Create a map alias
-alias list #Show all aliases
-bothelp #Help command
-mod [add,remove] discord_id_64 #Add moderator
-map add {url/map} gamemode alias #Add map to pool
-map vote start (X) #Start map vote with X (optional) choices, default 3
-map vote stop #Conclude the map vote and switch map
-map list #List the map pool
-map default #List default maps
-team {shuffle, balance} #Will shuffle or balance the teams always creating evenly matched results
-gunmode {modern,ww2,random}
-skin {random, clown, prisoner, naked, farmer, russian, nato, german, soviet, us} #Change all current players to either a random skin or a specific skin
-skin shuffle {true/false} #When enabled will execute \"skin random\" 90 seconds after a vote is completed
";

/// Whether this permission level may run the given (lowercased) verb.
pub open spec fn spec_can_execute(p: PermissionLevel, low: Seq<char>) -> bool {
    match p {
        PermissionLevel::Admin => true,
        PermissionLevel::Mod => spec_mod_allowed(low),
        PermissionLevel::User => spec_user_allowed(low),
        PermissionLevel::Anonymous => false,
    }
}

pub fn can_execute(permission: &PermissionLevel, first_lower: String) -> (r: bool)
    ensures
        r == spec_can_execute(*permission, first_lower@),
{
    match permission {
        PermissionLevel::Admin => true,
        PermissionLevel::Mod => crate::permissions::mod_allowed(first_lower),
        PermissionLevel::User => crate::permissions::user_allowed(first_lower),
        PermissionLevel::Anonymous => false,
    }
}

/// Where an admin request goes: one of the built-in handlers, or the relay
/// command parser.
#[derive(Clone, Copy, Debug, PartialEq, Eq, Structural)]
pub enum BotRoute {
    Admin,
    Alias,
    Gunmode,
    BotHelp,
    Mod,
    MapCmd,
    Team,
    Channel,
    Skin,
    Pavlov,
}

pub open spec fn spec_route(low: Seq<char>) -> BotRoute {
    if low == "admin"@ {
        BotRoute::Admin
    } else if low == "alias"@ {
        BotRoute::Alias
    } else if low == "gunmode"@ {
        BotRoute::Gunmode
    } else if low == "bothelp"@ {
        BotRoute::BotHelp
    } else if low == "mod"@ {
        BotRoute::Mod
    } else if low == "map"@ {
        BotRoute::MapCmd
    } else if low == "team"@ {
        BotRoute::Team
    } else if low == "channel"@ {
        BotRoute::Channel
    } else if low == "skin"@ {
        BotRoute::Skin
    } else {
        BotRoute::Pavlov
    }
}

/// Routes a (lowercased) verb to its handler; anything unknown goes to the
/// relay command parser.
pub fn route_command(first_lower: &String) -> (r: BotRoute)
    ensures
        r == spec_route(first_lower@),
{
    let l = first_lower.as_str();
    if str_eq(l, "admin") {
        BotRoute::Admin
    } else if str_eq(l, "alias") {
        BotRoute::Alias
    } else if str_eq(l, "gunmode") {
        BotRoute::Gunmode
    } else if str_eq(l, "bothelp") {
        BotRoute::BotHelp
    } else if str_eq(l, "mod") {
        BotRoute::Mod
    } else if str_eq(l, "map") {
        BotRoute::MapCmd
    } else if str_eq(l, "team") {
        BotRoute::Team
    } else if str_eq(l, "channel") {
        BotRoute::Channel
    } else if str_eq(l, "skin") {
        BotRoute::Skin
    } else {
        BotRoute::Pavlov
    }
}

/// One line per item, each preceded by a newline.
pub open spec fn spec_lines_message(items: Seq<Seq<char>>) -> Seq<char>
    decreases items.len(),
{
    if items.len() == 0 {
        Seq::empty()
    } else {
        spec_lines_message(items.drop_last()) + "\n"@ + items.last()
    }
}

pub fn make_message(items: &Vec<String>) -> (r: String)
    ensures
        r@ == spec_lines_message(items.deep_view()),
{
    let mut s = String::new();
    let mut i: usize = 0;
    while i < items.len()
        invariant
            0 <= i <= items@.len(),
            s@ == spec_lines_message(items.deep_view().take(i as int)),
        decreases items@.len() - i,
    {
        s.append("\n");
        s.append(items[i].as_str());
        proof {
            assert(items.deep_view().take(i as int + 1).drop_last() =~= items.deep_view().take(
                i as int,
            ));
            assert(items.deep_view().take(i as int + 1).last() == items.deep_view()[i as int]);
            assert(s@ =~= spec_lines_message(items.deep_view().take(i as int + 1)));
        }
        i = i + 1;
    }
    proof {
        assert(items.deep_view().take(i as int) =~= items.deep_view());
    }
    s
}

/// The listing of the maps the server ships with.
pub fn format_default_maps() -> (r: String)
    ensures
        r@ == spec_lines_message(
            seq![
                "datacenter"@,
                "sand"@,
                "bridge"@,
                "containeryard"@,
                "prisonbreak"@,
                "hospital"@,
                "killhouse"@,
                "range"@,
                "tutorial"@,
                "station"@,
                "stalingrad"@,
                "santorini"@,
                "industry"@,
            ],
        ),
{
    let mut names: Vec<String> = Vec::new();
    names.push(String::from_str("datacenter"));
    names.push(String::from_str("sand"));
    names.push(String::from_str("bridge"));
    names.push(String::from_str("containeryard"));
    names.push(String::from_str("prisonbreak"));
    names.push(String::from_str("hospital"));
    names.push(String::from_str("killhouse"));
    names.push(String::from_str("range"));
    names.push(String::from_str("tutorial"));
    names.push(String::from_str("station"));
    names.push(String::from_str("stalingrad"));
    names.push(String::from_str("santorini"));
    names.push(String::from_str("industry"));
    let r = make_message(&names);
    proof {
        assert(names.deep_view() =~= seq![
            "datacenter"@,
            "sand"@,
            "bridge"@,
            "containeryard"@,
            "prisonbreak"@,
            "hospital"@,
            "killhouse"@,
            "range"@,
            "tutorial"@,
            "station"@,
            "stalingrad"@,
            "santorini"@,
            "industry"@,
        ]);
    }
    r
}

/// The display name of a team id.
pub fn team_color(team: &u32) -> (r: String)
    ensures
        *team == 0 ==> r@ == "BLUE"@,
        *team == 1 ==> r@ == "RED"@,
        *team > 1 ==> r@ == "unknown team "@ + dec_digits(*team as nat),
{
    if *team == 0 {
        String::from_str("BLUE")
    } else if *team == 1 {
        String::from_str("RED")
    } else {
        let mut s = String::from_str("unknown team ");
        let d = u64_to_string(*team as u64);
        s.append(d.as_str());
        s
    }
}

pub open spec fn is_alias_char(c: char) -> bool {
    ('A' <= c && c <= 'z') || ('0' <= c && c <= '9')
}

/// A valid alias: at least three consecutive alias characters somewhere.
pub open spec fn spec_valid_alias(s: Seq<char>) -> bool {
    exists|i: int|
        0 <= i && i + 3 <= s.len() && is_alias_char(#[trigger] s[i]) && is_alias_char(s[i + 1])
            && is_alias_char(s[i + 2])
}

/// Validates an alias name; an invalid one fails with `InvalidMapAlias`.
pub fn check_alias(value: &str) -> (r: Result<String, AdminCommandError>)
    ensures
        r is Ok <==> spec_valid_alias(value@),
        r matches Ok(v) ==> v@ == value@,
        r matches Err(e) ==> e.kind == BotErrorKind::InvalidMapAlias && e.input@ == value@,
{
    let n = value.unicode_len();
    let mut i: usize = 0;
    if n >= 3 {
        while i <= n - 3
            invariant
                n == value@.len(),
                n >= 3,
                0 <= i <= n - 2,
                forall|k: int|
                    0 <= k < i ==> !(is_alias_char(#[trigger] value@[k]) && is_alias_char(
                        value@[k + 1],
                    ) && is_alias_char(value@[k + 2])),
            decreases n - i,
        {
            let c0 = value.get_char(i);
            let c1 = value.get_char(i + 1);
            let c2 = value.get_char(i + 2);
            let ok0 = (c0 >= 'A' && c0 <= 'z') || (c0 >= '0' && c0 <= '9');
            let ok1 = (c1 >= 'A' && c1 <= 'z') || (c1 >= '0' && c1 <= '9');
            let ok2 = (c2 >= 'A' && c2 <= 'z') || (c2 >= '0' && c2 <= '9');
            if ok0 && ok1 && ok2 {
                return Ok(String::from_str(value));
            }
            i = i + 1;
        }
    }
    assert(!spec_valid_alias(value@));
    Err(AdminCommandError { input: String::from_str(value), kind: BotErrorKind::InvalidMapAlias })
}

/// Handles `-alias add <map> <alias>`, `-alias remove <alias>` and
/// `-alias list`: updates the alias table and reports what was done.
pub fn handle_alias(arguments: &Vec<String>, config: &mut IvanConfig) -> (r: Result<
    String,
    IvanError,
>)
    ensures
        r is Err ==> final(config).aliases@ == old(config).aliases@,
        final(config).maps@ == old(config).maps@,
        final(config).admins@ == old(config).admins@,
        final(config).mods@ == old(config).mods@,
        arguments@.len() >= 3 && arguments@[1]@ == "add"@ ==> (match spec_parse_map(
            arguments@[2]@,
            *old(config),
        ) {
            Err(k) => r matches Err(e) && e.spec_kind() == BotErrorKind::InvalidMapAlias,
            Ok(m) => {
                if arguments@.len() >= 4 && spec_valid_alias(arguments@[3]@) {
                    &&& r matches Ok(msg) && msg@ == "alias \""@ + arguments@[3]@ + "\" to map \""@
                        + m + "\" created"@
                    &&& final(config).aliases@.len() == old(config).aliases@.len() + 1
                    &&& final(config).aliases@.last().0@ == arguments@[3]@
                    &&& final(config).aliases@.last().1@ == m
                } else {
                    r matches Err(e) && (e.spec_kind() == BotErrorKind::InvalidMapAlias
                        || e.spec_kind() == BotErrorKind::MissingArgument)
                }
            },
        }),
        arguments@.len() >= 3 && arguments@[1]@ == "remove"@ ==> r is Ok && final(config).aliases@
            == old(config).aliases@.filter(
            |p: (String, String)|
                lower_of(p.0@) != lower_of(arguments@[2]@) && p.1@ != arguments@[2]@,
        ),
        arguments@.len() >= 2 && arguments@[1]@ == "list"@ ==> r is Ok && final(config).aliases@
            == old(config).aliases@,
{
    let mode = match pa(arguments, 1, "valid arguments are [add, remove, list]") {
        Ok(v) => v,
        Err(e) => {
            return Err(e);
        },
    };
    proof {
        reveal_strlit("add");
        reveal_strlit("remove");
        reveal_strlit("list");
        assert("add"@.len() == 3);
        assert("remove"@.len() == 6);
        assert("list"@.len() == 4);
    }
    if str_eq(mode.as_str(), "add") {
        let arg2 = match pa(
            arguments,
            2,
            "specify a map (stalingrad),full steam workshop link or UGC1745146933 map code",
        ) {
            Ok(v) => v,
            Err(e) => {
                return Err(e);
            },
        };
        let map = match parse_map(arg2.as_str(), config) {
            Ok(m) => m,
            Err(e) => {
                let input = e.to_message();
                return Err(
                    IvanError::BotCommandError(
                        AdminCommandError { input, kind: BotErrorKind::InvalidMapAlias },
                    ),
                );
            },
        };
        let arg3 = match pa(arguments, 3, "valid alias are a to z and numbers 0-9") {
            Ok(v) => v,
            Err(e) => {
                return Err(e);
            },
        };
        let alias = match check_alias(arg3.as_str()) {
            Ok(a) => a,
            Err(e) => {
                return Err(IvanError::BotCommandError(e));
            },
        };
        let mut msg = String::from_str("alias \"");
        msg.append(alias.as_str());
        msg.append("\" to map \"");
        msg.append(map.as_str());
        msg.append("\" created");
        config.add_alias(alias, map);
        Ok(msg)
    } else if str_eq(mode.as_str(), "remove") {
        let arg2 = match pa(arguments, 2, "specify a valid alias or map") {
            Ok(v) => v,
            Err(e) => {
                return Err(e);
            },
        };
        config.remove_alias(&arg2);
        let mut msg = String::from_str("alias \"");
        msg.append(arg2.as_str());
        msg.append("\" removed (if it existed)");
        Ok(msg)
    } else if str_eq(mode.as_str(), "list") {
        let list = config.get_alias_list();
        Ok(make_message(&list))
    } else {
        Err(
            IvanError::BotCommandError(
                AdminCommandError { input: mode, kind: BotErrorKind::InvalidArgument },
            ),
        )
    }
}

/// Handles `-gunmode {modern,ww2,random}`: sets the gun mode and reports it.
pub fn handle_gunmode(arguments: &Vec<String>, config: &mut IvanConfig) -> (r: Result<
    String,
    IvanError,
>)
    ensures
        final(config).aliases@ == old(config).aliases@,
        final(config).maps@ == old(config).maps@,
        final(config).admins@ == old(config).admins@,
        final(config).mods@ == old(config).mods@,
        r is Err ==> final(config).gun_mode == old(config).gun_mode,
        arguments@.len() >= 2 ==> {
            let low = lower_of(arguments@[1]@);
            if low == "modern"@ {
                r is Ok && final(config).gun_mode == GunMode::Modern
            } else if low == "ww2"@ {
                r is Ok && final(config).gun_mode == GunMode::WW2
            } else if low == "random"@ {
                r is Ok && final(config).gun_mode == GunMode::Random
            } else {
                r matches Err(e) && e.spec_kind() == BotErrorKind::InvalidArgument
            }
        },
        arguments@.len() < 2 ==> (r matches Err(e) && e.spec_kind()
            == BotErrorKind::MissingArgument),
        r matches Ok(msg) ==> msg@ == "Set gunmode to "@ + final(config).gun_mode.spec_text(),
{
    let argument = match pa(arguments, 1, "valid are [modern, ww2, random, oitcRandom]") {
        Ok(v) => v,
        Err(e) => {
            return Err(e);
        },
    };
    let low = lowercase(argument.as_str());
    let l = low.as_str();
    let gunmode = if str_eq(l, "modern") {
        GunMode::Modern
    } else if str_eq(l, "ww2") {
        GunMode::WW2
    } else if str_eq(l, "random") {
        GunMode::Random
    } else {
        return Err(
            IvanError::BotCommandError(
                AdminCommandError { input: argument, kind: BotErrorKind::InvalidArgument },
            ),
        );
    };
    config.set_gun_mode(gunmode);
    let mut msg = String::from_str("Set gunmode to ");
    let g = gunmode.to_text();
    msg.append(g.as_str());
    Ok(msg)
}

/// Handles `-channel lock` and `-channel unlock` for the channel the
/// request came from.
pub fn handle_channel(arguments: &Vec<String>, channel_id: u64, config: &mut IvanConfig) -> (r:
    Result<String, IvanError>)
    ensures
        final(config).aliases@ == old(config).aliases@,
        final(config).maps@ == old(config).maps@,
        final(config).admins@ == old(config).admins@,
        final(config).mods@ == old(config).mods@,
        r is Err ==> final(config).channel_lock == old(config).channel_lock,
        arguments@.len() >= 2 && arguments@[1]@ == "lock"@ ==> (r matches Ok(m)
            && final(config).channel_lock == Some(channel_id)
            && m@ == "Locked bot channel to: "@ + dec_digits(channel_id as nat)),
        arguments@.len() >= 2 && arguments@[1]@ == "unlock"@ ==> (r matches Ok(m)
            && final(config).channel_lock is None && m@ == "removed channel lock"@),
        arguments@.len() >= 2 && arguments@[1]@ != "lock"@ && arguments@[1]@ != "unlock"@ ==> (r
            matches Err(e) && e.spec_kind() == BotErrorKind::InvalidArgument),
        arguments@.len() < 2 ==> (r matches Err(e) && e.spec_kind()
            == BotErrorKind::MissingArgument),
{
    let argument = match pa(arguments, 1, "valid arguments are [lock, unlock]") {
        Ok(v) => v,
        Err(e) => {
            return Err(e);
        },
    };
    proof {
        reveal_strlit("lock");
        reveal_strlit("unlock");
        assert("lock"@.len() == 4);
        assert("unlock"@.len() == 6);
    }
    if str_eq(argument.as_str(), "lock") {
        config.add_channel_lock(channel_id);
        let mut msg = String::from_str("Locked bot channel to: ");
        let d = u64_to_string(channel_id);
        msg.append(d.as_str());
        Ok(msg)
    } else if str_eq(argument.as_str(), "unlock") {
        config.remove_channel_lock();
        Ok(String::from_str("removed channel lock"))
    } else {
        Err(
            IvanError::BotCommandError(
                AdminCommandError { input: argument, kind: BotErrorKind::InvalidArgument },
            ),
        )
    }
}

/// Handles `-skin shuffle {on,true,off,false}`.
pub fn handle_skin_shuffle(arguments: &Vec<String>, config: &mut IvanConfig) -> (r: Result<
    String,
    IvanError,
>)
    ensures
        final(config).aliases@ == old(config).aliases@,
        final(config).maps@ == old(config).maps@,
        final(config).admins@ == old(config).admins@,
        final(config).mods@ == old(config).mods@,
        r is Err ==> final(config).skin_shuffle == old(config).skin_shuffle,
        arguments@.len() >= 3 && (arguments@[2]@ == "on"@ || arguments@[2]@ == "true"@) ==> (r
            matches Ok(m) && final(config).skin_shuffle && m@ == "Skin shuffle set to true"@),
        arguments@.len() >= 3 && (arguments@[2]@ == "off"@ || arguments@[2]@ == "false"@) ==> (r
            matches Ok(m) && !final(config).skin_shuffle && m@ == "Skin shuffle set to false"@),
        arguments@.len() < 3 ==> (r matches Err(e) && e.spec_kind()
            == BotErrorKind::MissingArgument),
{
    let argument = match pa(arguments, 2, "valid arguments {true, false}") {
        Ok(v) => v,
        Err(e) => {
            return Err(e);
        },
    };
    proof {
        reveal_strlit("on");
        reveal_strlit("true");
        reveal_strlit("off");
        reveal_strlit("false");
        assert("on"@.len() == 2);
        assert("true"@.len() == 4);
        assert("off"@.len() == 3);
        assert("false"@.len() == 5);
        assert("off"@[1] == 'f' && "on"@[1] == 'n');
    }
    let a = argument.as_str();
    if str_eq(a, "on") || str_eq(a, "true") {
        config.set_skin_shuffle(true);
        Ok(String::from_str("Skin shuffle set to true"))
    } else if str_eq(a, "off") || str_eq(a, "false") {
        config.set_skin_shuffle(false);
        Ok(String::from_str("Skin shuffle set to false"))
    } else {
        Err(
            IvanError::BotCommandError(
                AdminCommandError { input: argument, kind: BotErrorKind::InvalidArgument },
            ),
        )
    }
}

/// A parsed `-map vote ...` request.
#[derive(Debug)]
pub enum VoteRequest {
    /// Start a vote with this many choices.
    Start(u64),
    /// Conclude the vote now.
    Stop,
}

/// Parses a `-map vote {start,stop} (choices)` request: the optional choice
/// count defaults to `MAX_VOTE_MAPS` and must be at least 2.
pub fn handle_vote(arguments: &Vec<String>) -> (r: Result<VoteRequest, IvanError>)
    ensures
        arguments@.len() < 3 ==> (r matches Err(e) && e.spec_kind()
            == BotErrorKind::MissingArgument),
        arguments@.len() >= 3 ==> (match spec_u64_arg(arguments.deep_view(), 3) {
            Err(k) => {
                if k == BotErrorKind::MissingArgument {
                    // no explicit amount: the default applies
                    if arguments@[2]@ == "start"@ {
                        r matches Ok(v) && v == VoteRequest::Start(MAX_VOTE_MAPS as u64)
                    } else if arguments@[2]@ == "stop"@ {
                        r matches Ok(v) && v == VoteRequest::Stop
                    } else {
                        r matches Err(e) && e.spec_kind() == BotErrorKind::InvalidCommand
                    }
                } else {
                    r matches Err(e) && e.spec_kind() == BotErrorKind::InvalidArgument
                }
            },
            Ok(n) => {
                if n < 2 {
                    r matches Err(e) && e.spec_kind() == BotErrorKind::InvalidVoteAmount
                } else if arguments@[2]@ == "start"@ {
                    r matches Ok(v) && v == VoteRequest::Start(n)
                } else if arguments@[2]@ == "stop"@ {
                    r matches Ok(v) && v == VoteRequest::Stop
                } else {
                    r matches Err(e) && e.spec_kind() == BotErrorKind::InvalidCommand
                }
            },
        }),
{
    let second = match pa(arguments, 2, "valid arguments are [choices]") {
        Ok(v) => v,
        Err(e) => {
            return Err(e);
        },
    };
    let amount: u64 = if arguments.len() > 3 {
        match parse_number(arguments[3].as_str()) {
            Ok(n) => n,
            Err(e) => {
                return Err(e);
            },
        }
    } else {
        MAX_VOTE_MAPS as u64
    };
    if amount < 2 {
        return Err(
            IvanError::BotCommandError(
                AdminCommandError {
                    input: String::from_str("you need at least 2 maps to choose from"),
                    kind: BotErrorKind::InvalidVoteAmount,
                },
            ),
        );
    }
    if str_eq(second.as_str(), "start") {
        Ok(VoteRequest::Start(amount))
    } else if str_eq(second.as_str(), "stop") {
        Ok(VoteRequest::Stop)
    } else {
        Err(
            IvanError::BotCommandError(
                AdminCommandError { input: second, kind: BotErrorKind::InvalidCommand },
            ),
        )
    }
}

/// Handles `-map add <map> <gamemode> <alias>`: validates all three, then
/// records the alias and the pool entry.
pub fn map_add(arguments: &Vec<String>, config: &mut IvanConfig) -> (r: Result<String, IvanError>)
    ensures
        final(config).admins@ == old(config).admins@,
        final(config).mods@ == old(config).mods@,
        r is Err ==> final(config).maps@ == old(config).maps@ && final(config).aliases@ == old(
            config,
        ).aliases@,
        r matches Err(e) ==> e.spec_kind() == BotErrorKind::MissingArgument || e.spec_kind()
            == BotErrorKind::InvalidMap || e.spec_kind() == BotErrorKind::InvalidArgument
            || e.spec_kind() == BotErrorKind::InvalidGameMode || e.spec_kind()
            == BotErrorKind::InvalidMapAlias,
        r matches Ok(msg) ==> final(config).maps@.len() == old(config).maps@.len() + 1
            && final(config).aliases@.len() == old(config).aliases@.len() + 1
            && arguments@.len() >= 5
            && final(config).maps@.last().alias@ == arguments@[4]@
            && final(config).aliases@.last().0@
            == arguments@[4]@ && (match spec_parse_map(arguments@[2]@, *old(config)) {
            Ok(m) => final(config).maps@.last().map@ == m,
            Err(k) => false,
        }),
{
    let arg2 = match pa(
        arguments,
        2,
        "specify a map (stalingrad),full steam workshop link or UGC1745146933 map code",
    ) {
        Ok(v) => v,
        Err(e) => {
            return Err(e);
        },
    };
    let map = match parse_map(arg2.as_str(), config) {
        Ok(m) => m,
        Err(e) => {
            return Err(e);
        },
    };
    let arg3 = match pa(
        arguments,
        3,
        "valid game modes are [WW2GUN, GUN, DM, KOTH, SND, TDM, OITC, TANKTDM]",
    ) {
        Ok(v) => v,
        Err(e) => {
            return Err(e);
        },
    };
    let gamemode = match crate::pavlov::parse_game_mode(arg3.as_str()) {
        Ok(g) => g,
        Err(e) => {
            let input = e.to_message();
            return Err(
                IvanError::BotCommandError(
                    AdminCommandError { input, kind: BotErrorKind::InvalidGameMode },
                ),
            );
        },
    };
    let arg4 = match pa(arguments, 4, "valid alias are a to z and numbers 0-9") {
        Ok(v) => v,
        Err(e) => {
            return Err(e);
        },
    };
    let alias = match check_alias(arg4.as_str()) {
        Ok(a) => a,
        Err(e) => {
            return Err(IvanError::BotCommandError(e));
        },
    };
    let mut msg = String::from_str("Map added to pool with id: \"");
    msg.append(map.as_str());
    msg.append("\",gamemode: \"");
    let g = gamemode.to_text();
    msg.append(g.as_str());
    msg.append("\" alias: \"");
    msg.append(alias.as_str());
    msg.append("\"");
    let alias_copy = alias.clone();
    let map_copy = map.clone();
    config.add_alias(alias_copy, map_copy);
    config.add_map(map, gamemode, alias);
    Ok(msg)
}

/// The map-pool listing.
pub fn map_pool_message(config: &IvanConfig) -> (r: String)
    ensures
        r@ == "The map pool is currently:"@ + spec_lines_message(
            Seq::new(config.maps@.len(), |i: int| config.maps@[i].spec_display()),
        ),
{
    let mut lines: Vec<String> = Vec::new();
    let mut i: usize = 0;
    while i < config.maps.len()
        invariant
            0 <= i <= config.maps@.len(),
            lines@.len() == i,
            forall|k: int|
                0 <= k < i ==> (#[trigger] lines@[k])@ == config.maps@[k].spec_display(),
        decreases config.maps@.len() - i,
    {
        let line = config.maps[i].to_display();
        lines.push(line);
        i = i + 1;
    }
    let mut r = String::from_str("The map pool is currently:");
    let body = make_message(&lines);
    r.append(body.as_str());
    proof {
        assert(lines.deep_view() =~= Seq::new(
            config.maps@.len(),
            |k: int| config.maps@[k].spec_display(),
        ));
    }
    r
}

/// Handles `-map remove <alias-or-map>`: refused while a vote is running,
/// else drops the matching aliases and pool entries and lists what is left.
pub fn map_remove(arguments: &Vec<String>, framework: &mut crate::voting::CustomFramework) -> (r:
    Result<String, IvanError>)
    requires
        old(framework).wf(),
    ensures
        final(framework).wf(),
        final(framework).vote == old(framework).vote,
        old(framework).vote is Some ==> (r matches Err(e) && e.spec_kind()
            == BotErrorKind::VoteInProgress && *final(framework) == *old(framework)),
        arguments@.len() < 3 ==> (r matches Err(e) && (e.spec_kind() == BotErrorKind::VoteInProgress
            || e.spec_kind() == BotErrorKind::MissingArgument)),
        old(framework).vote is None && arguments@.len() >= 3 ==> r is Ok
            && final(framework).config.maps@ == old(framework).config.maps@.filter(
            |m: crate::config::PoolMap| m.alias@ != arguments@[2]@ && m.map@ != arguments@[2]@,
        ) && final(framework).config.aliases@ == old(framework).config.aliases@.filter(
            |p: (String, String)|
                lower_of(p.0@) != lower_of(arguments@[2]@) && p.1@ != arguments@[2]@,
        ),
{
    if framework.vote.is_some() {
        return Err(
            IvanError::BotCommandError(
                AdminCommandError {
                    input: String::from_str("Can't remove a map when a vote is in progress"),
                    kind: BotErrorKind::VoteInProgress,
                },
            ),
        );
    }
    let alias_or_map = match pa(
        arguments,
        2,
        "specify a valid alias or default map. (use -map list or -map default to find map names)",
    ) {
        Ok(v) => v,
        Err(e) => {
            return Err(e);
        },
    };
    framework.config.remove_alias(&alias_or_map);
    framework.config.remove_map(&alias_or_map);
    Ok(map_pool_message(&framework.config))
}

/// What a `-team` request asks for.
#[derive(Clone, Copy, Debug, PartialEq, Eq, Structural)]
pub enum TeamRequest {
    Shuffle,
    Balance,
    Nothing,
}

/// Routes `-team {shuffle, balance}`; anything else does nothing.
pub fn handle_team(arguments: &Vec<String>) -> (r: Result<TeamRequest, IvanError>)
    ensures
        arguments@.len() < 2 ==> (r matches Err(e) && e.spec_kind()
            == BotErrorKind::MissingArgument),
        arguments@.len() >= 2 && arguments@[1]@ == "shuffle"@ ==> (r matches Ok(t) && t
            == TeamRequest::Shuffle),
        arguments@.len() >= 2 && arguments@[1]@ == "balance"@ ==> (r matches Ok(t) && t
            == TeamRequest::Balance),
        arguments@.len() >= 2 && arguments@[1]@ != "shuffle"@ && arguments@[1]@ != "balance"@ ==> (r
            matches Ok(t) && t == TeamRequest::Nothing),
{
    let argument = match pa(arguments, 1, "valid team mode, valid ones are {channels}") {
        Ok(v) => v,
        Err(e) => {
            return Err(e);
        },
    };
    proof {
        reveal_strlit("shuffle");
        reveal_strlit("balance");
        assert("shuffle"@.len() == 7);
        assert("balance"@.len() == 7);
        assert("shuffle"@[0] == 's' && "balance"@[0] == 'b');
    }
    if str_eq(argument.as_str(), "shuffle") {
        Ok(TeamRequest::Shuffle)
    } else if str_eq(argument.as_str(), "balance") {
        Ok(TeamRequest::Balance)
    } else {
        Ok(TeamRequest::Nothing)
    }
}

/// What a `-skin` request asks for.
#[derive(Clone, Copy, Debug, PartialEq, Eq, Structural)]
pub enum SkinRequest {
    /// `-skin shuffle ...`: toggle the after-vote shuffle.
    Shuffle,
    /// Assign a random skin to every player.
    Random,
    /// Assign this skin to every player.
    Fixed(crate::pavlov::Skin),
}

/// Routes `-skin ...` to a shuffle toggle, a random assignment, or a fixed
/// skin.
pub fn handle_skin_request(arguments: &Vec<String>) -> (r: Result<SkinRequest, IvanError>)
    ensures
        arguments@.len() < 2 ==> (r matches Err(e) && e.spec_kind()
            == BotErrorKind::MissingArgument),
        arguments@.len() >= 2 ==> {
            let a = arguments@[1]@;
            if a == "shuffle"@ {
                r matches Ok(t) && t == SkinRequest::Shuffle
            } else if a == "random"@ {
                r matches Ok(t) && t == SkinRequest::Random
            } else if a == "clown"@ {
                r matches Ok(t) && t == SkinRequest::Fixed(crate::pavlov::Skin::Clown)
            } else if a == "prisoner"@ {
                r matches Ok(t) && t == SkinRequest::Fixed(crate::pavlov::Skin::Prisoner)
            } else if a == "naked"@ {
                r matches Ok(t) && t == SkinRequest::Fixed(crate::pavlov::Skin::Naked)
            } else if a == "farmer"@ {
                r matches Ok(t) && t == SkinRequest::Fixed(crate::pavlov::Skin::Farmer)
            } else if a == "russian"@ {
                r matches Ok(t) && t == SkinRequest::Fixed(crate::pavlov::Skin::Russian)
            } else if a == "nato"@ {
                r matches Ok(t) && t == SkinRequest::Fixed(crate::pavlov::Skin::Nato)
            } else if a == "german"@ {
                r matches Ok(t) && t == SkinRequest::Fixed(crate::pavlov::Skin::German)
            } else {
                r matches Err(e) && e.spec_kind() == BotErrorKind::InvalidArgument
            }
        },
{
    let argument = match pa(
        arguments,
        1,
        "valid skins are [Us, Soviet, German, Nato, Russian, Farmer, Naked, Prisoner, Clown] or use random",
    ) {
        Ok(v) => v,
        Err(e) => {
            return Err(e);
        },
    };
    let a = argument.as_str();
    if str_eq(a, "shuffle") {
        Ok(SkinRequest::Shuffle)
    } else if str_eq(a, "random") {
        Ok(SkinRequest::Random)
    } else if str_eq(a, "clown") {
        Ok(SkinRequest::Fixed(crate::pavlov::Skin::Clown))
    } else if str_eq(a, "prisoner") {
        Ok(SkinRequest::Fixed(crate::pavlov::Skin::Prisoner))
    } else if str_eq(a, "naked") {
        Ok(SkinRequest::Fixed(crate::pavlov::Skin::Naked))
    } else if str_eq(a, "farmer") {
        Ok(SkinRequest::Fixed(crate::pavlov::Skin::Farmer))
    } else if str_eq(a, "russian") {
        Ok(SkinRequest::Fixed(crate::pavlov::Skin::Russian))
    } else if str_eq(a, "nato") {
        Ok(SkinRequest::Fixed(crate::pavlov::Skin::Nato))
    } else if str_eq(a, "german") {
        Ok(SkinRequest::Fixed(crate::pavlov::Skin::German))
    } else {
        Err(
            IvanError::BotCommandError(
                AdminCommandError { input: argument, kind: BotErrorKind::InvalidArgument },
            ),
        )
    }
}

/// How many players sit on team zero.
pub open spec fn spec_team_zero_count(ids: Seq<u32>) -> int {
    ids.filter(|x: u32| x == 0u32).len() as int
}

/// What `-team balance` decides to do.
#[derive(Clone, Copy, Debug, PartialEq, Eq, Structural)]
pub enum BalancePlan {
    /// The teams are close enough already.
    Balanced,
    /// Move this many players to this team.
    Move(u32, usize),
}

/// Decides the balance move from the players' team ids: with `z` players on
/// team zero and `o` elsewhere, a surplus of two or more on the other side
/// moves half the difference to team zero; a surplus of four or more on
/// team zero moves half the difference the other way; anything closer is
/// already balanced.
pub fn balance_plan(team_ids: &Vec<u32>) -> (r: BalancePlan)
    ensures
        ({
            let z = spec_team_zero_count(team_ids@);
            let o = team_ids@.len() - z;
            if o >= z + 2 {
                r == BalancePlan::Move(0u32, (((o - z) / 2) as usize))
            } else if z >= o + 4 {
                r == BalancePlan::Move(1u32, (((z - o) / 2) as usize))
            } else {
                r == BalancePlan::Balanced
            }
        }),
{
    let ghost pred = |x: u32| x == 0u32;
    let mut zeros: usize = 0;
    let mut i: usize = 0;
    proof {
        assert(team_ids@.take(0).filter(pred) =~= Seq::<u32>::empty());
    }
    while i < team_ids.len()
        invariant
            0 <= i <= team_ids@.len(),
            zeros == team_ids@.take(i as int).filter(pred).len(),
            zeros <= i,
            pred == (|x: u32| x == 0u32),
        decreases team_ids@.len() - i,
    {
        proof {
            reveal(Seq::filter);
            assert(team_ids@.take(i as int + 1).drop_last() =~= team_ids@.take(i as int));
            assert(team_ids@.take(i as int + 1).last() == team_ids@[i as int]);
            team_ids@.take(i as int + 1).lemma_filter_len(pred);
        }
        if team_ids[i] == 0 {
            zeros = zeros + 1;
        }
        i = i + 1;
    }
    proof {
        assert(team_ids@.take(i as int) =~= team_ids@);
    }
    let others = team_ids.len() - zeros;
    if others > zeros && others - zeros >= 2 {
        BalancePlan::Move(0, (others - zeros) / 2)
    } else if zeros > others && zeros - others >= 4 {
        BalancePlan::Move(1, (zeros - others) / 2)
    } else {
        BalancePlan::Balanced
    }
}

/// Which players a balance move switches: the first `amount` whose team is
/// not the target, in order.
pub fn switch_team_plan(team_ids: &Vec<u32>, move_to_team: u32, amount: usize) -> (r: Vec<usize>)
    ensures
        r@.len() == (if team_ids@.filter(|x: u32| x != move_to_team).len() <= amount {
            team_ids@.filter(|x: u32| x != move_to_team).len() as int
        } else {
            amount as int
        }),
        forall|k: int|
            0 <= k < r@.len() ==> #[trigger] r@[k] < team_ids@.len() && team_ids@[r@[k] as int]
                != move_to_team,
        forall|k1: int, k2: int| 0 <= k1 < k2 < r@.len() ==> r@[k1] < r@[k2],
{
    let ghost pred = |x: u32| x != move_to_team;
    let mut r: Vec<usize> = Vec::new();
    let mut i: usize = 0;
    proof {
        assert(team_ids@.take(0).filter(pred) =~= Seq::<u32>::empty());
    }
    while i < team_ids.len()
        invariant
            0 <= i <= team_ids@.len(),
            r@.len() <= amount,
            r@.len() <= team_ids@.take(i as int).filter(pred).len(),
            r@.len() < amount ==> r@.len() == team_ids@.take(i as int).filter(pred).len(),
            r@.len() == amount ==> team_ids@.take(i as int).filter(pred).len() >= amount,
            forall|k: int|
                0 <= k < r@.len() ==> #[trigger] r@[k] < i && team_ids@[r@[k] as int]
                    != move_to_team,
            forall|k1: int, k2: int| 0 <= k1 < k2 < r@.len() ==> r@[k1] < r@[k2],
            pred == (|x: u32| x != move_to_team),
        decreases team_ids@.len() - i,
    {
        proof {
            reveal(Seq::filter);
            assert(team_ids@.take(i as int + 1).drop_last() =~= team_ids@.take(i as int));
            assert(team_ids@.take(i as int + 1).last() == team_ids@[i as int]);
            team_ids@.take(i as int + 1).lemma_filter_len(pred);
        }
        if r.len() < amount && team_ids[i] != move_to_team {
            r.push(i);
        }
        i = i + 1;
    }
    proof {
        assert(team_ids@.take(i as int) =~= team_ids@);
    }
    r
}

/// The team assignment of `-team shuffle` for `n` already-shuffled players:
/// the first half goes to team zero, the rest to team one.
pub fn assign_teams(n: usize) -> (r: Vec<u32>)
    ensures
        r@.len() == n,
        forall|j: int| 0 <= j < n ==> #[trigger] r@[j] == (if j < n / 2 {
            0u32
        } else {
            1u32
        }),
{
    let mut r: Vec<u32> = Vec::new();
    let half = n / 2;
    let mut i: usize = 0;
    while i < n
        invariant
            0 <= i <= n,
            half == n / 2,
            r@.len() == i,
            forall|j: int| 0 <= j < i ==> #[trigger] r@[j] == (if j < n / 2 {
                0u32
            } else {
                1u32
            }),
        decreases n - i,
    {
        if i < half {
            r.push(0);
        } else {
            r.push(1);
        }
        i = i + 1;
    }
    r
}

} // verus!
