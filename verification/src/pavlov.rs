//! The relay command set: every verb the bot can send to the game server,
//! its textual rendering, and the parsers that build commands from admin
//! arguments.

use vstd::prelude::*;

verus! {

use vstd::string::StringExecFns;
use crate::errors::{AdminCommandError, BotErrorKind, IvanError};
use crate::config::IvanConfig;
use crate::text::{
    all_dec_digits,
    contains_seq,
    dec_digits,
    dec_val,
    is_dec_digit,
    lower_of,
    lowercase,
    parse_u64,
    str_contains,
    str_eq,
    str_to_nat,
    u64_to_string,
};
use crate::random::random_index;

pub type SteamId = u64;

pub type TeamId = u32;

#[derive(Clone, Copy, Debug, PartialEq, Eq, Structural)]
pub enum GameMode {
    SND,
    DM,
    TDM,
    GUN,
    WW2GUN,
    TANKTDM,
    KOTH,
    TTT,
    WW2TDM,
    OITC,
}

impl GameMode {
    pub open spec fn spec_text(self) -> Seq<char> {
        match self {
            GameMode::SND => "SND"@,
            GameMode::DM => "DM"@,
            GameMode::TDM => "TDM"@,
            GameMode::GUN => "GUN"@,
            GameMode::WW2GUN => "WW2GUN"@,
            GameMode::TANKTDM => "TANKTDM"@,
            GameMode::KOTH => "KOTH"@,
            GameMode::TTT => "TTT"@,
            GameMode::WW2TDM => "WW2TDM"@,
            GameMode::OITC => "OITC"@,
        }
    }

    pub fn to_text(&self) -> (r: String)
        ensures
            r@ == self.spec_text(),
    {
        match self {
            GameMode::SND => String::from_str("SND"),
            GameMode::DM => String::from_str("DM"),
            GameMode::TDM => String::from_str("TDM"),
            GameMode::GUN => String::from_str("GUN"),
            GameMode::WW2GUN => String::from_str("WW2GUN"),
            GameMode::TANKTDM => String::from_str("TANKTDM"),
            GameMode::KOTH => String::from_str("KOTH"),
            GameMode::TTT => String::from_str("TTT"),
            GameMode::WW2TDM => String::from_str("WW2TDM"),
            GameMode::OITC => String::from_str("OITC"),
        }
    }
}

#[derive(Clone, Copy, Debug, PartialEq, Eq, Structural)]
pub enum Skin {
    Clown,
    Prisoner,
    Naked,
    Farmer,
    Russian,
    Nato,
    German,
    Soviet,
    Us,
    Cop,
}

impl Skin {
    pub open spec fn spec_text(self) -> Seq<char> {
        match self {
            Skin::Clown => "clown"@,
            Skin::Prisoner => "prisoner"@,
            Skin::Naked => "naked"@,
            Skin::Farmer => "farmer"@,
            Skin::Russian => "russian"@,
            Skin::Nato => "nato"@,
            Skin::German => "german"@,
            Skin::Soviet => "soviet"@,
            Skin::Us => "us"@,
            Skin::Cop => "cop"@,
        }
    }

    pub fn to_text(&self) -> (r: String)
        ensures
            r@ == self.spec_text(),
    {
        match self {
            Skin::Clown => String::from_str("clown"),
            Skin::Prisoner => String::from_str("prisoner"),
            Skin::Naked => String::from_str("naked"),
            Skin::Farmer => String::from_str("farmer"),
            Skin::Russian => String::from_str("russian"),
            Skin::Nato => String::from_str("nato"),
            Skin::German => String::from_str("german"),
            Skin::Soviet => String::from_str("soviet"),
            Skin::Us => String::from_str("us"),
            Skin::Cop => String::from_str("cop"),
        }
    }

    /// One of the ten skins, drawn at random.
    pub fn get_random() -> Skin {
        let i = random_index(10);
        match i {
            0 => Skin::Clown,
            1 => Skin::Prisoner,
            2 => Skin::Naked,
            3 => Skin::Farmer,
            4 => Skin::Russian,
            5 => Skin::Nato,
            6 => Skin::German,
            7 => Skin::Soviet,
            8 => Skin::Us,
            _ => Skin::Cop,
        }
    }
}

#[derive(Debug)]
pub enum PavlovCommands {
    Help,
    Ban(SteamId),
    Kick(SteamId),
    Kill(SteamId),
    BlackList,
    AddMod(SteamId),
    RemoveMod(SteamId),
    MapList,
    Unban(SteamId),
    RotateMap,
    ItemList,
    SwitchMap { map: String, gamemode: GameMode },
    SwitchTeam(SteamId, TeamId),
    GiveItem(SteamId, String),
    GiveCash(SteamId, u32),
    SetCash(SteamId, u32),
    GiveTeamCash(TeamId, u32),
    InspectPlayer(SteamId),
    RefreshList,
    ServerInfo,
    ResetSND,
    SetPlayerSkin(SteamId, Skin),
    SetLimitedAmmoType(String),
    Raw(String),
}

impl PavlovCommands {
    /// The exact wire text of the command (without the trailing newline).
    pub open spec fn spec_text(self) -> Seq<char> {
        match self {
            PavlovCommands::Help => "Help"@,
            PavlovCommands::Ban(id) => "Ban "@ + dec_digits(id as nat),
            PavlovCommands::Kick(id) => "Kick "@ + dec_digits(id as nat),
            PavlovCommands::Kill(id) => "Kill "@ + dec_digits(id as nat),
            PavlovCommands::BlackList => "BlackList"@,
            PavlovCommands::AddMod(id) => "AddMod "@ + dec_digits(id as nat),
            PavlovCommands::RemoveMod(id) => "RemoveMod "@ + dec_digits(id as nat),
            PavlovCommands::MapList => "MapList"@,
            PavlovCommands::Unban(id) => "Unban "@ + dec_digits(id as nat),
            PavlovCommands::RotateMap => "RotateMap"@,
            PavlovCommands::ItemList => "ItemList"@,
            PavlovCommands::SwitchMap { map, gamemode } => "SwitchMap "@ + map@ + " "@
                + gamemode.spec_text(),
            PavlovCommands::SwitchTeam(id, team) => "SwitchTeam "@ + dec_digits(id as nat) + " "@
                + dec_digits(team as nat),
            PavlovCommands::GiveItem(id, item) => "GiveItem "@ + dec_digits(id as nat) + " "@
                + item@,
            PavlovCommands::GiveCash(id, cash) => "GiveCash "@ + dec_digits(id as nat) + " "@
                + dec_digits(cash as nat),
            PavlovCommands::SetCash(id, cash) => "SetCash "@ + dec_digits(id as nat) + " "@
                + dec_digits(cash as nat),
            PavlovCommands::GiveTeamCash(team, cash) => "GiveTeamCash "@ + dec_digits(team as nat)
                + " "@ + dec_digits(cash as nat),
            PavlovCommands::InspectPlayer(id) => "InspectPlayer "@ + dec_digits(id as nat),
            PavlovCommands::RefreshList => "RefreshList"@,
            PavlovCommands::ServerInfo => "ServerInfo"@,
            PavlovCommands::ResetSND => "ResetSND"@,
            PavlovCommands::SetPlayerSkin(id, skin) => "SetPlayerSkin "@ + dec_digits(id as nat)
                + " "@ + skin.spec_text(),
            PavlovCommands::SetLimitedAmmoType(ammo) => "SetLimitedAmmoType "@ + ammo@,
            PavlovCommands::Raw(s) => s@,
        }
    }

    pub fn to_text(&self) -> (r: String)
        ensures
            r@ == self.spec_text(),
    {
        match self {
            PavlovCommands::Help => String::from_str("Help"),
            PavlovCommands::Ban(id) => verb_u64("Ban ", *id),
            PavlovCommands::Kick(id) => verb_u64("Kick ", *id),
            PavlovCommands::Kill(id) => verb_u64("Kill ", *id),
            PavlovCommands::BlackList => String::from_str("BlackList"),
            PavlovCommands::AddMod(id) => verb_u64("AddMod ", *id),
            PavlovCommands::RemoveMod(id) => verb_u64("RemoveMod ", *id),
            PavlovCommands::MapList => String::from_str("MapList"),
            PavlovCommands::Unban(id) => verb_u64("Unban ", *id),
            PavlovCommands::RotateMap => String::from_str("RotateMap"),
            PavlovCommands::ItemList => String::from_str("ItemList"),
            PavlovCommands::SwitchMap { map, gamemode } => {
                let mut s = String::from_str("SwitchMap ");
                s.append(map.as_str());
                s.append(" ");
                let g = gamemode.to_text();
                s.append(g.as_str());
                s
            },
            PavlovCommands::SwitchTeam(id, team) => {
                let mut s = verb_u64("SwitchTeam ", *id);
                s.append(" ");
                let t = u64_to_string(*team as u64);
                s.append(t.as_str());
                s
            },
            PavlovCommands::GiveItem(id, item) => {
                let mut s = verb_u64("GiveItem ", *id);
                s.append(" ");
                s.append(item.as_str());
                s
            },
            PavlovCommands::GiveCash(id, cash) => {
                let mut s = verb_u64("GiveCash ", *id);
                s.append(" ");
                let c = u64_to_string(*cash as u64);
                s.append(c.as_str());
                s
            },
            PavlovCommands::SetCash(id, cash) => {
                let mut s = verb_u64("SetCash ", *id);
                s.append(" ");
                let c = u64_to_string(*cash as u64);
                s.append(c.as_str());
                s
            },
            PavlovCommands::GiveTeamCash(team, cash) => {
                let mut s = verb_u64("GiveTeamCash ", *team as u64);
                s.append(" ");
                let c = u64_to_string(*cash as u64);
                s.append(c.as_str());
                s
            },
            PavlovCommands::InspectPlayer(id) => verb_u64("InspectPlayer ", *id),
            PavlovCommands::RefreshList => String::from_str("RefreshList"),
            PavlovCommands::ServerInfo => String::from_str("ServerInfo"),
            PavlovCommands::ResetSND => String::from_str("ResetSND"),
            PavlovCommands::SetPlayerSkin(id, skin) => {
                let mut s = verb_u64("SetPlayerSkin ", *id);
                s.append(" ");
                let k = skin.to_text();
                s.append(k.as_str());
                s
            },
            PavlovCommands::SetLimitedAmmoType(ammo) => {
                let mut s = String::from_str("SetLimitedAmmoType ");
                s.append(ammo.as_str());
                s
            },
            PavlovCommands::Raw(s) => s.clone(),
        }
    }
}

fn verb_u64(verb: &str, id: u64) -> (r: String)
    ensures
        r@ == verb@ + dec_digits(id as nat),
{
    let mut s = String::from_str(verb);
    let d = u64_to_string(id);
    s.append(d.as_str());
    s
}

/// Fetches the argument at `index`; a missing argument fails with
/// `MissingArgument` carrying the given help text.
pub fn pa(arguments: &Vec<String>, index: usize, help: &str) -> (r: Result<String, IvanError>)
    ensures
        index < arguments@.len() ==> r is Ok,
        r matches Ok(v) ==> index < arguments@.len() && v@ == arguments@[index as int]@,
        r matches Err(e) ==> index >= arguments@.len() && e.spec_kind()
            == BotErrorKind::MissingArgument && e.spec_input() == help@,
{
    if index < arguments.len() {
        Ok(arguments[index].clone())
    } else {
        Err(
            IvanError::BotCommandError(
                AdminCommandError {
                    input: String::from_str(help),
                    kind: BotErrorKind::MissingArgument,
                },
            ),
        )
    }
}

/// A string that `parse_number` accepts: non-empty, all decimal digits, and
/// small enough for a `u64`.
pub open spec fn valid_u64_text(s: Seq<char>) -> bool {
    s.len() > 0 && all_dec_digits(s) && str_to_nat(s) <= u64::MAX
}

/// Parses a decimal number; rejects anything else with `InvalidArgument`.
pub fn parse_number(value: &str) -> (r: Result<u64, IvanError>)
    ensures
        valid_u64_text(value@) ==> r is Ok,
        r matches Ok(n) ==> valid_u64_text(value@) && n == str_to_nat(value@),
        r matches Err(e) ==> !valid_u64_text(value@) && e.spec_kind()
            == BotErrorKind::InvalidArgument,
{
    match parse_u64(value) {
        Some(n) => Ok(n),
        None => {
            let mut msg = String::from_str("\"");
            msg.append(value);
            msg.append("\" was not a valid number");
            Err(
                IvanError::BotCommandError(
                    AdminCommandError { input: msg, kind: BotErrorKind::InvalidArgument },
                ),
            )
        },
    }
}

/// As `parse_number`, but the value must also fit in a `u32`.
pub fn parse_number_u32(value: &str) -> (r: Result<u32, IvanError>)
    ensures
        valid_u64_text(value@) && str_to_nat(value@) <= u32::MAX ==> r is Ok,
        r matches Ok(n) ==> valid_u64_text(value@) && str_to_nat(value@) <= u32::MAX && n
            == str_to_nat(value@),
        r matches Err(e) ==> !(valid_u64_text(value@) && str_to_nat(value@) <= u32::MAX)
            && e.spec_kind() == BotErrorKind::InvalidArgument,
{
    match parse_number(value) {
        Ok(n) => {
            if n <= 0xffff_ffff {
                Ok(n as u32)
            } else {
                let mut msg = String::from_str("\"");
                msg.append(value);
                msg.append("\" was not a valid number");
                Err(
                    IvanError::BotCommandError(
                        AdminCommandError { input: msg, kind: BotErrorKind::InvalidArgument },
                    ),
                )
            }
        },
        Err(e) => Err(e),
    }
}

/// Parses a team id (0 for blue, 1 for red; any `u32` is accepted).
pub fn parse_team(value: &str) -> (r: Result<u32, IvanError>)
    ensures
        valid_u64_text(value@) && str_to_nat(value@) <= u32::MAX ==> r is Ok,
        r matches Ok(n) ==> valid_u64_text(value@) && str_to_nat(value@) <= u32::MAX && n
            == str_to_nat(value@),
        r matches Err(e) ==> !(valid_u64_text(value@) && str_to_nat(value@) <= u32::MAX)
            && e.spec_kind() == BotErrorKind::InvalidArgument,
{
    parse_number_u32(value)
}

/// The game mode a lowercased keyword denotes, if any.
pub open spec fn spec_game_mode_of(low: Seq<char>) -> Option<GameMode> {
    if low == "snd"@ {
        Some(GameMode::SND)
    } else if low == "dm"@ {
        Some(GameMode::DM)
    } else if low == "tdm"@ {
        Some(GameMode::TDM)
    } else if low == "gun"@ {
        Some(GameMode::GUN)
    } else if low == "ww2gun"@ {
        Some(GameMode::WW2GUN)
    } else if low == "tanktdm"@ {
        Some(GameMode::TANKTDM)
    } else if low == "koth"@ {
        Some(GameMode::KOTH)
    } else if low == "ttt"@ {
        Some(GameMode::TTT)
    } else if low == "ww2tdm"@ {
        Some(GameMode::WW2TDM)
    } else if low == "oitc"@ {
        Some(GameMode::OITC)
    } else {
        None
    }
}

/// Parses a game mode, case-insensitively.
pub fn parse_game_mode(value: &str) -> (r: Result<GameMode, IvanError>)
    ensures
        spec_game_mode_of(lower_of(value@)) is Some ==> r is Ok,
        r matches Ok(m) ==> spec_game_mode_of(lower_of(value@)) == Some(m),
        r matches Err(e) ==> spec_game_mode_of(lower_of(value@)) is None && e.spec_kind()
            == BotErrorKind::InvalidArgument,
{
    let low = lowercase(value);
    let l = low.as_str();
    if str_eq(l, "snd") {
        Ok(GameMode::SND)
    } else if str_eq(l, "dm") {
        Ok(GameMode::DM)
    } else if str_eq(l, "tdm") {
        Ok(GameMode::TDM)
    } else if str_eq(l, "gun") {
        Ok(GameMode::GUN)
    } else if str_eq(l, "ww2gun") {
        Ok(GameMode::WW2GUN)
    } else if str_eq(l, "tanktdm") {
        Ok(GameMode::TANKTDM)
    } else if str_eq(l, "koth") {
        Ok(GameMode::KOTH)
    } else if str_eq(l, "ttt") {
        Ok(GameMode::TTT)
    } else if str_eq(l, "ww2tdm") {
        Ok(GameMode::WW2TDM)
    } else if str_eq(l, "oitc") {
        Ok(GameMode::OITC)
    } else {
        let mut msg = String::from_str("Invalid game mode \"");
        msg.append(value);
        msg.append(
            "\" valid game modes are [WW2GUN, GUN, DM, KOTH, SND, TDM, OITC, TANKTDM]",
        );
        Err(
            IvanError::BotCommandError(
                AdminCommandError { input: msg, kind: BotErrorKind::InvalidArgument },
            ),
        )
    }
}

/// The skin a lowercased keyword denotes, if any (`cop` is not accepted as
/// input, only produced).
pub open spec fn spec_skin_of(low: Seq<char>) -> Option<Skin> {
    if low == "clown"@ {
        Some(Skin::Clown)
    } else if low == "prisoner"@ {
        Some(Skin::Prisoner)
    } else if low == "naked"@ {
        Some(Skin::Naked)
    } else if low == "farmer"@ {
        Some(Skin::Farmer)
    } else if low == "russian"@ {
        Some(Skin::Russian)
    } else if low == "nato"@ {
        Some(Skin::Nato)
    } else if low == "german"@ {
        Some(Skin::German)
    } else if low == "soviet"@ {
        Some(Skin::Soviet)
    } else if low == "us"@ {
        Some(Skin::Us)
    } else {
        None
    }
}

/// Parses a skin, case-insensitively.
pub fn parse_skin(value: &str) -> (r: Result<Skin, IvanError>)
    ensures
        spec_skin_of(lower_of(value@)) is Some ==> r is Ok,
        r matches Ok(s) ==> spec_skin_of(lower_of(value@)) == Some(s),
        r matches Err(e) ==> spec_skin_of(lower_of(value@)) is None && e.spec_kind()
            == BotErrorKind::InvalidArgument,
{
    let low = lowercase(value);
    let l = low.as_str();
    if str_eq(l, "clown") {
        Ok(Skin::Clown)
    } else if str_eq(l, "prisoner") {
        Ok(Skin::Prisoner)
    } else if str_eq(l, "naked") {
        Ok(Skin::Naked)
    } else if str_eq(l, "farmer") {
        Ok(Skin::Farmer)
    } else if str_eq(l, "russian") {
        Ok(Skin::Russian)
    } else if str_eq(l, "nato") {
        Ok(Skin::Nato)
    } else if str_eq(l, "german") {
        Ok(Skin::German)
    } else if str_eq(l, "soviet") {
        Ok(Skin::Soviet)
    } else if str_eq(l, "us") {
        Ok(Skin::Us)
    } else {
        let mut msg = String::from_str("Invalid skin \"");
        msg.append(value);
        msg.append(
            "\" valid skins are {Us, Soviet, German, Nato, Russian, Farmer, Naked, Prisoner, Clown}",
        );
        Err(
            IvanError::BotCommandError(
                AdminCommandError { input: msg, kind: BotErrorKind::InvalidArgument },
            ),
        )
    }
}

/// The arguments after the verb, joined by single spaces.
pub open spec fn spec_join_spaced(parts: Seq<Seq<char>>) -> Seq<char>
    decreases parts.len(),
{
    if parts.len() == 0 {
        Seq::empty()
    } else if parts.len() == 1 {
        parts[0]
    } else {
        spec_join_spaced(parts.drop_last()) + " "@ + parts.last()
    }
}

/// A raw command: every argument after the verb, joined by spaces; fails
/// with `InvalidArgument` when there is nothing after the verb.
pub fn handle_raw(arguments: &Vec<String>) -> (r: Result<String, IvanError>)
    ensures
        arguments@.len() >= 2 ==> r is Ok,
        r matches Ok(s) ==> arguments@.len() >= 2 && s@ == spec_join_spaced(
            arguments.deep_view().skip(1),
        ),
        r matches Err(e) ==> arguments@.len() < 2 && e.spec_kind()
            == BotErrorKind::InvalidArgument && e.spec_input() == "Raw input was empty"@,
{
    if arguments.len() < 2 {
        return Err(
            IvanError::BotCommandError(
                AdminCommandError {
                    input: String::from_str("Raw input was empty"),
                    kind: BotErrorKind::InvalidArgument,
                },
            ),
        );
    }
    let mut s = String::from_str(arguments[1].as_str());
    let mut i: usize = 2;
    proof {
        assert(arguments.deep_view().skip(1).take(1) =~= seq![arguments.deep_view()[1]]);
        assert(spec_join_spaced(arguments.deep_view().skip(1).take(1)) == arguments.deep_view()[1]);
    }
    while i < arguments.len()
        invariant
            2 <= i <= arguments@.len(),
            arguments@.len() >= 2,
            s@ == spec_join_spaced(arguments.deep_view().skip(1).take(i - 1)),
        decreases arguments@.len() - i,
    {
        s.append(" ");
        s.append(arguments[i].as_str());
        proof {
            let parts = arguments.deep_view().skip(1);
            assert(parts.take(i as int).drop_last() =~= parts.take(i - 1));
            assert(parts.take(i as int).last() == arguments.deep_view()[i as int]);
        }
        i = i + 1;
    }
    proof {
        assert(arguments.deep_view().skip(1).take(i - 1) =~= arguments.deep_view().skip(1));
    }
    Ok(s)
}

/// The maps the game server ships with.
pub open spec fn spec_is_standard_map(low: Seq<char>) -> bool {
    ||| low == "datacenter"@
    ||| low == "sand"@
    ||| low == "bridge"@
    ||| low == "containeryard"@
    ||| low == "prisonbreak"@
    ||| low == "hospital"@
    ||| low == "killhouse"@
    ||| low == "range"@
    ||| low == "tutorial"@
    ||| low == "station"@
    ||| low == "stalingrad"@
    ||| low == "santorini"@
    ||| low == "industry"@
}

pub fn is_standard_map(map: &str) -> (r: bool)
    ensures
        r == spec_is_standard_map(map@),
{
    str_eq(map, "datacenter") || str_eq(map, "sand") || str_eq(map, "bridge") || str_eq(
        map,
        "containeryard",
    ) || str_eq(map, "prisonbreak") || str_eq(map, "hospital") || str_eq(map, "killhouse")
        || str_eq(map, "range") || str_eq(map, "tutorial") || str_eq(map, "station") || str_eq(
        map,
        "stalingrad",
    ) || str_eq(map, "santorini") || str_eq(map, "industry")
}

/// The longest leading run of decimal digits.
pub open spec fn spec_digit_run(s: Seq<char>) -> Seq<char>
    decreases s.len(),
{
    if s.len() == 0 || !is_dec_digit(s[0]) {
        Seq::empty()
    } else {
        seq![s[0]] + spec_digit_run(s.drop_first())
    }
}

/// The digits of the first `id=<digits>` occurrence, if any: the workshop
/// id embedded in a steam URL.
pub open spec fn spec_id_capture(s: Seq<char>) -> Option<Seq<char>>
    decreases s.len(),
{
    if s.len() < 4 {
        None
    } else if s.subrange(0, 3) == "id="@ && is_dec_digit(s[3]) {
        Some(spec_digit_run(s.skip(3)))
    } else {
        spec_id_capture(s.drop_first())
    }
}

proof fn lemma_digit_run_chars(t: Seq<char>, m: int)
    requires
        0 <= m <= t.len(),
        forall|q: int| 0 <= q < m ==> is_dec_digit(#[trigger] t[q]),
        m == t.len() || !is_dec_digit(t[m]),
    ensures
        spec_digit_run(t) == t.take(m),
    decreases m,
{
    if m == 0 {
        assert(t.take(0) =~= Seq::<char>::empty());
    } else {
        assert forall|q: int| 0 <= q < m - 1 implies is_dec_digit(
            #[trigger] t.drop_first()[q],
        ) by {
            assert(t.drop_first()[q] == t[q + 1]);
        }
        lemma_digit_run_chars(t.drop_first(), m - 1);
        assert(t.take(m) =~= seq![t[0]] + t.drop_first().take(m - 1));
    }
}

/// The parsed workshop id against the capture: `None` for no capture,
/// `Some(None)` for a capture too large for a `u32`, `Some(Some(n))` for a
/// parsed id.
pub open spec fn spec_capture_matches(r: Option<Option<u32>>, c: Option<Seq<char>>) -> bool {
    match (r, c) {
        (Option::None, Option::None) => true,
        (Some(v), Some(d)) => match v {
            Some(n) => str_to_nat(d) <= u32::MAX && n == str_to_nat(d),
            Option::None => str_to_nat(d) > u32::MAX,
        },
        _ => false,
    }
}

#[verifier::rlimit(30)]
fn find_id_capture(s: &str) -> (r: Option<Option<u32>>)
    ensures
        spec_capture_matches(r, spec_id_capture(s@)),
{
    let n = s.unicode_len();
    let mut i: usize = 0;
    proof {
        assert(s@.skip(0) =~= s@);
    }
    while n - i >= 4
        invariant
            n == s@.len(),
            0 <= i <= n,
            spec_id_capture(s@) == spec_id_capture(s@.skip(i as int)),
        decreases n - i,
    {
        let c0 = s.get_char(i);
        let c1 = s.get_char(i + 1);
        let c2 = s.get_char(i + 2);
        let c3 = s.get_char(i + 3);
        proof {
            reveal_strlit("id=");
            assert(s@.skip(i as int)[0] == s@[i as int]);
            assert(s@.skip(i as int)[1] == s@[i as int + 1]);
            assert(s@.skip(i as int)[2] == s@[i as int + 2]);
            assert(s@.skip(i as int)[3] == s@[i as int + 3]);
        }
        if c0 == 'i' && c1 == 'd' && c2 == '=' && c3 >= '0' && c3 <= '9' {
            proof {
                assert(s@.skip(i as int).subrange(0, 3) =~= "id="@);
                assert(s@.skip(i as int).skip(3) =~= s@.skip(i as int + 3));
            }
            let start = i + 3;
            let mut j: usize = start;
            let mut acc: u64 = 0;
            let mut over: bool = false;
            loop
                invariant_except_break
                    n == s@.len(),
                    start <= j <= n,
                    start < n,
                    forall|q: int| start <= q < j ==> is_dec_digit(#[trigger] s@[q]),
                    !over ==> acc == str_to_nat(s@.subrange(start as int, j as int)) && acc
                        <= u32::MAX,
                    over ==> str_to_nat(s@.subrange(start as int, j as int)) > u32::MAX,
                ensures
                    n == s@.len(),
                    start <= j <= n,
                    forall|q: int| start <= q < j ==> is_dec_digit(#[trigger] s@[q]),
                    j == n || !is_dec_digit(s@[j as int]),
                    !over ==> acc == str_to_nat(s@.subrange(start as int, j as int)) && acc
                        <= u32::MAX,
                    over ==> str_to_nat(s@.subrange(start as int, j as int)) > u32::MAX,
                decreases n - j,
            {
                if j >= n {
                    break ;
                }
                let c = s.get_char(j);
                if c < '0' || c > '9' {
                    break ;
                }
                let d: u64 = (c as u32 as u64) - 48;
                proof {
                    assert(s@.subrange(start as int, j as int + 1).drop_last() =~= s@.subrange(
                        start as int,
                        j as int,
                    ));
                    assert(s@.subrange(start as int, j as int + 1).last() == s@[j as int]);
                    assert(d == dec_val(s@[j as int]));
                }
                if !over {
                    let na = acc * 10 + d;
                    if na > 0xffff_ffff {
                        over = true;
                    } else {
                        acc = na;
                    }
                }
                j = j + 1;
            }
            proof {
                let t = s@.skip(start as int);
                assert forall|q: int| 0 <= q < j - start implies is_dec_digit(
                    #[trigger] t[q],
                ) by {
                    assert(t[q] == s@[start + q]);
                }
                if (j as int) - (start as int) < t.len() {
                    assert(t[j - start] == s@[j as int]);
                }
                lemma_digit_run_chars(t, j as int - start as int);
                assert(t.take(j as int - start as int) =~= s@.subrange(start as int, j as int));
            }
            if over {
                return Some(None);
            }
            #[verifier::truncate]
            let out: u32 = (acc as u32);
            return Some(Some(out));
        }
        proof {
            assert(s@.skip(i as int).len() >= 4);
            if s@.skip(i as int).subrange(0, 3) == "id="@ && is_dec_digit(s@.skip(i as int)[3]) {
                assert(s@.skip(i as int).subrange(0, 3)[0] == s@[i as int]);
                assert(s@.skip(i as int).subrange(0, 3)[1] == s@[i as int + 1]);
                assert(s@.skip(i as int).subrange(0, 3)[2] == s@[i as int + 2]);
                assert(false);
            }
            assert(s@.skip(i as int).drop_first() =~= s@.skip(i as int + 1));
        }
        i = i + 1;
    }
    proof {
        assert(s@.skip(i as int).len() < 4);
    }
    None
}

pub open spec fn spec_has_digit(s: Seq<char>) -> bool {
    exists|i: int| 0 <= i < s.len() && is_dec_digit(#[trigger] s[i])
}

fn has_digit(s: &str) -> (r: bool)
    ensures
        r == spec_has_digit(s@),
{
    let n = s.unicode_len();
    let mut i: usize = 0;
    while i < n
        invariant
            n == s@.len(),
            0 <= i <= n,
            forall|k: int| 0 <= k < i ==> !is_dec_digit(#[trigger] s@[k]),
        decreases n - i,
    {
        let c = s.get_char(i);
        if c >= '0' && c <= '9' {
            return true;
        }
        i = i + 1;
    }
    false
}

/// What the alias list turns a map argument into: the aliased map, or the
/// argument itself.
pub open spec fn spec_resolved_map(config: IvanConfig, value: Seq<char>) -> Seq<char> {
    match crate::config::spec_resolve_alias(config.aliases@, value) {
        Some(v) => v,
        None => value,
    }
}

/// What `parse_map` accepts, after alias resolution and case folding: a
/// standard map, a steam workshop URL carrying `id=<digits>` (rewritten to
/// the `UGC<id>` form), or any name containing a digit (a `UGC` code).
pub open spec fn spec_parse_map(value: Seq<char>, config: IvanConfig) -> Result<
    Seq<char>,
    BotErrorKind,
> {
    let res = spec_resolved_map(config, value);
    let low = lower_of(res);
    if spec_is_standard_map(low) {
        Ok(res)
    } else if contains_seq(res, "steamcommunity.com"@) {
        match spec_id_capture(low) {
            Some(d) => if str_to_nat(d) <= u32::MAX {
                Ok("UGC"@ + dec_digits(str_to_nat(d)))
            } else {
                Err(BotErrorKind::InvalidArgument)
            },
            None => Err(BotErrorKind::InvalidMap),
        }
    } else if spec_has_digit(low) {
        Ok(res)
    } else {
        Err(BotErrorKind::InvalidMap)
    }
}

pub open spec fn spec_map_result_matches(
    r: Result<String, IvanError>,
    s: Result<Seq<char>, BotErrorKind>,
) -> bool {
    match (r, s) {
        (Ok(v), Ok(sv)) => v@ == sv,
        (Err(e), Err(k)) => e.spec_kind() == k,
        _ => false,
    }
}

/// Parses a map argument as `spec_parse_map` describes.
pub fn parse_map(value: &str, config: &IvanConfig) -> (r: Result<String, IvanError>)
    ensures
        spec_map_result_matches(r, spec_parse_map(value@, *config)),
{
    let resolved = match config.resolve_alias(value) {
        Some(v) => v,
        None => String::from_str(value),
    };
    let low = lowercase(resolved.as_str());
    if is_standard_map(low.as_str()) {
        return Ok(resolved);
    }
    if str_contains(resolved.as_str(), "steamcommunity.com") {
        match find_id_capture(low.as_str()) {
            Some(Some(n)) => {
                let mut s = String::from_str("UGC");
                let d = u64_to_string(n as u64);
                s.append(d.as_str());
                Ok(s)
            },
            Some(None) => Err(
                IvanError::BotCommandError(
                    AdminCommandError {
                        input: String::from_str("the workshop id was not a valid number"),
                        kind: BotErrorKind::InvalidArgument,
                    },
                ),
            ),
            None => Err(
                IvanError::BotCommandError(
                    AdminCommandError { input: resolved, kind: BotErrorKind::InvalidMap },
                ),
            ),
        }
    } else if has_digit(low.as_str()) {
        Ok(resolved)
    } else {
        Err(
            IvanError::BotCommandError(
                AdminCommandError { input: resolved, kind: BotErrorKind::InvalidMap },
            ),
        )
    }
}

/// The commands as mathematical values, for specifying the parser.
pub enum SpecCommand {
    Help,
    Ban(u64),
    Kick(u64),
    Kill(u64),
    BlackList,
    AddMod(u64),
    RemoveMod(u64),
    MapList,
    Unban(u64),
    RotateMap,
    ItemList,
    SwitchMap(Seq<char>, GameMode),
    SwitchTeam(u64, u32),
    GiveItem(u64, Seq<char>),
    GiveCash(u64, u32),
    SetCash(u64, u32),
    GiveTeamCash(u32, u32),
    InspectPlayer(u64),
    RefreshList,
    ServerInfo,
    ResetSND,
    SetPlayerSkin(u64, Skin),
    SetLimitedAmmoType(Seq<char>),
}

pub open spec fn spec_arg(args: Seq<Seq<char>>, i: int) -> Option<Seq<char>> {
    if i < args.len() {
        Some(args[i])
    } else {
        None
    }
}

pub open spec fn spec_u64_arg(args: Seq<Seq<char>>, i: int) -> Result<u64, BotErrorKind> {
    match spec_arg(args, i) {
        None => Err(BotErrorKind::MissingArgument),
        Some(a) => if valid_u64_text(a) {
            Ok(str_to_nat(a) as u64)
        } else {
            Err(BotErrorKind::InvalidArgument)
        },
    }
}

pub open spec fn spec_u32_arg(args: Seq<Seq<char>>, i: int) -> Result<u32, BotErrorKind> {
    match spec_arg(args, i) {
        None => Err(BotErrorKind::MissingArgument),
        Some(a) => if valid_u64_text(a) && str_to_nat(a) <= u32::MAX {
            Ok(str_to_nat(a) as u32)
        } else {
            Err(BotErrorKind::InvalidArgument)
        },
    }
}

/// The keyword the dispatcher matches on: the first argument, case-folded.
pub open spec fn spec_keyword(args: Seq<Seq<char>>) -> Seq<char> {
    if args.len() == 0 {
        Seq::empty()
    } else {
        lower_of(args[0])
    }
}

/// The whole parser, as a function of the arguments and the configuration.
pub open spec fn spec_parse_command(args: Seq<Seq<char>>, config: IvanConfig) -> Result<
    SpecCommand,
    BotErrorKind,
> {
    let kw = spec_keyword(args);
    if kw == "help"@ {
        Ok(SpecCommand::Help)
    } else if kw == "ban"@ {
        match spec_u64_arg(args, 1) {
            Ok(id) => Ok(SpecCommand::Ban(id)),
            Err(k) => Err(k),
        }
    } else if kw == "kick"@ {
        match spec_u64_arg(args, 1) {
            Ok(id) => Ok(SpecCommand::Kick(id)),
            Err(k) => Err(k),
        }
    } else if kw == "unban"@ {
        match spec_u64_arg(args, 1) {
            Ok(id) => Ok(SpecCommand::Unban(id)),
            Err(k) => Err(k),
        }
    } else if kw == "kill"@ {
        match spec_u64_arg(args, 1) {
            Ok(id) => Ok(SpecCommand::Kill(id)),
            Err(k) => Err(k),
        }
    } else if kw == "blacklist"@ {
        Ok(SpecCommand::BlackList)
    } else if kw == "addmod"@ {
        match spec_u64_arg(args, 1) {
            Ok(id) => Ok(SpecCommand::AddMod(id)),
            Err(k) => Err(k),
        }
    } else if kw == "removemod"@ {
        match spec_u64_arg(args, 1) {
            Ok(id) => Ok(SpecCommand::RemoveMod(id)),
            Err(k) => Err(k),
        }
    } else if kw == "maplist"@ {
        Ok(SpecCommand::MapList)
    } else if kw == "itemlist"@ {
        Ok(SpecCommand::ItemList)
    } else if kw == "rotatemap"@ || kw == "maprotate"@ {
        Ok(SpecCommand::RotateMap)
    } else if kw == "switchmap"@ || kw == "mapswitch"@ || kw == "switch"@ {
        match spec_arg(args, 1) {
            None => Err(BotErrorKind::MissingArgument),
            Some(a1) => match spec_parse_map(a1, config) {
                Err(k) => Err(k),
                Ok(m) => match spec_arg(args, 2) {
                    None => Err(BotErrorKind::MissingArgument),
                    Some(a2) => match spec_game_mode_of(lower_of(a2)) {
                        None => Err(BotErrorKind::InvalidArgument),
                        Some(g) => Ok(SpecCommand::SwitchMap(m, g)),
                    },
                },
            },
        }
    } else if kw == "switchteam"@ {
        match spec_u64_arg(args, 1) {
            Err(k) => Err(k),
            Ok(id) => match spec_u32_arg(args, 2) {
                Err(k) => Err(k),
                Ok(team) => Ok(SpecCommand::SwitchTeam(id, team)),
            },
        }
    } else if kw == "setcash"@ {
        match spec_u64_arg(args, 1) {
            Err(k) => Err(k),
            Ok(id) => match spec_u32_arg(args, 2) {
                Err(k) => Err(k),
                Ok(cash) => Ok(SpecCommand::SetCash(id, cash)),
            },
        }
    } else if kw == "giveitem"@ {
        match spec_u64_arg(args, 1) {
            Err(k) => Err(k),
            Ok(id) => match spec_arg(args, 2) {
                None => Err(BotErrorKind::MissingArgument),
                Some(item) => Ok(SpecCommand::GiveItem(id, item)),
            },
        }
    } else if kw == "givecash"@ {
        match spec_u64_arg(args, 1) {
            Err(k) => Err(k),
            Ok(id) => match spec_u32_arg(args, 2) {
                Err(k) => Err(k),
                Ok(cash) => Ok(SpecCommand::GiveCash(id, cash)),
            },
        }
    } else if kw == "giveteamcash"@ {
        match spec_u32_arg(args, 1) {
            Err(k) => Err(k),
            Ok(team) => match spec_u32_arg(args, 2) {
                Err(k) => Err(k),
                Ok(cash) => Ok(SpecCommand::GiveTeamCash(team, cash)),
            },
        }
    } else if kw == "inspectplayer"@ {
        match spec_u64_arg(args, 1) {
            Ok(id) => Ok(SpecCommand::InspectPlayer(id)),
            Err(k) => Err(k),
        }
    } else if kw == "refreshlist"@ {
        Ok(SpecCommand::RefreshList)
    } else if kw == "serverinfo"@ {
        Ok(SpecCommand::ServerInfo)
    } else if kw == "resetsnd"@ {
        Ok(SpecCommand::ResetSND)
    } else if kw == "setplayerskin"@ {
        match spec_u64_arg(args, 1) {
            Err(k) => Err(k),
            Ok(id) => match spec_arg(args, 2) {
                None => Err(BotErrorKind::MissingArgument),
                Some(a2) => match spec_skin_of(lower_of(a2)) {
                    None => Err(BotErrorKind::InvalidArgument),
                    Some(skin) => Ok(SpecCommand::SetPlayerSkin(id, skin)),
                },
            },
        }
    } else if kw == "setlimitedammotype"@ {
        match spec_arg(args, 1) {
            None => Err(BotErrorKind::MissingArgument),
            Some(ammo) => Ok(SpecCommand::SetLimitedAmmoType(ammo)),
        }
    } else {
        Err(BotErrorKind::InvalidCommand)
    }
}

/// The executable command agrees with the mathematical one.
pub open spec fn spec_cmd_matches(c: PavlovCommands, s: SpecCommand) -> bool {
    match c {
        PavlovCommands::Help => s == SpecCommand::Help,
        PavlovCommands::Ban(id) => s == SpecCommand::Ban(id),
        PavlovCommands::Kick(id) => s == SpecCommand::Kick(id),
        PavlovCommands::Kill(id) => s == SpecCommand::Kill(id),
        PavlovCommands::BlackList => s == SpecCommand::BlackList,
        PavlovCommands::AddMod(id) => s == SpecCommand::AddMod(id),
        PavlovCommands::RemoveMod(id) => s == SpecCommand::RemoveMod(id),
        PavlovCommands::MapList => s == SpecCommand::MapList,
        PavlovCommands::Unban(id) => s == SpecCommand::Unban(id),
        PavlovCommands::RotateMap => s == SpecCommand::RotateMap,
        PavlovCommands::ItemList => s == SpecCommand::ItemList,
        PavlovCommands::SwitchMap { map, gamemode } => match s {
            SpecCommand::SwitchMap(m, g) => map@ == m && gamemode == g,
            _ => false,
        },
        PavlovCommands::SwitchTeam(id, team) => s == SpecCommand::SwitchTeam(id, team),
        PavlovCommands::GiveItem(id, item) => match s {
            SpecCommand::GiveItem(i2, t) => id == i2 && item@ == t,
            _ => false,
        },
        PavlovCommands::GiveCash(id, cash) => s == SpecCommand::GiveCash(id, cash),
        PavlovCommands::SetCash(id, cash) => s == SpecCommand::SetCash(id, cash),
        PavlovCommands::GiveTeamCash(team, cash) => s == SpecCommand::GiveTeamCash(team, cash),
        PavlovCommands::InspectPlayer(id) => s == SpecCommand::InspectPlayer(id),
        PavlovCommands::RefreshList => s == SpecCommand::RefreshList,
        PavlovCommands::ServerInfo => s == SpecCommand::ServerInfo,
        PavlovCommands::ResetSND => s == SpecCommand::ResetSND,
        PavlovCommands::SetPlayerSkin(id, skin) => s == SpecCommand::SetPlayerSkin(id, skin),
        PavlovCommands::SetLimitedAmmoType(ammo) => match s {
            SpecCommand::SetLimitedAmmoType(t) => ammo@ == t,
            _ => false,
        },
        PavlovCommands::Raw(x) => false,
    }
}

pub open spec fn spec_parse_result_matches(
    r: Result<PavlovCommands, IvanError>,
    s: Result<SpecCommand, BotErrorKind>,
) -> bool {
    match (r, s) {
        (Ok(c), Ok(sc)) => spec_cmd_matches(c, sc),
        (Err(e), Err(k)) => e.spec_kind() == k,
        _ => false,
    }
}

fn u64_arg(arguments: &Vec<String>, index: usize, help: &str) -> (r: Result<u64, IvanError>)
    ensures
        (match spec_u64_arg(arguments.deep_view(), index as int) {
            Ok(n) => r matches Ok(m) && m == n,
            Err(k) => r matches Err(e) && e.spec_kind() == k,
        }),
{
    match pa(arguments, index, help) {
        Ok(a) => parse_number(a.as_str()),
        Err(e) => Err(e),
    }
}

fn u32_arg(arguments: &Vec<String>, index: usize, help: &str) -> (r: Result<u32, IvanError>)
    ensures
        (match spec_u32_arg(arguments.deep_view(), index as int) {
            Ok(n) => r matches Ok(m) && m == n,
            Err(k) => r matches Err(e) && e.spec_kind() == k,
        }),
{
    match pa(arguments, index, help) {
        Ok(a) => parse_number_u32(a.as_str()),
        Err(e) => Err(e),
    }
}

impl PavlovCommands {
    /// Parses an admin request into a relay command, exactly as
    /// `spec_parse_command` describes: the first argument picks the verb,
    /// case-insensitively, and the rest are its arguments.
    #[verifier::rlimit(60)]
    pub fn parse_from_arguments(arguments: &Vec<String>, config: &IvanConfig) -> (r: Result<
        PavlovCommands,
        IvanError,
    >)
        ensures
            spec_parse_result_matches(r, spec_parse_command(arguments.deep_view(), *config)),
    {
        let first = if arguments.len() > 0 {
            arguments[0].clone()
        } else {
            String::new()
        };
        let low = lowercase(first.as_str());
        proof {
            if arguments@.len() == 0 {
                assert(low@ =~= spec_keyword(arguments.deep_view()));
            } else {
                assert(arguments.deep_view()[0] == arguments@[0]@);
            }
        }
        let l = low.as_str();
        if str_eq(l, "help") {
            Ok(PavlovCommands::Help)
        } else if str_eq(l, "ban") {
            match u64_arg(arguments, 1, "valid steamId, looks like 76563192370220331") {
                Ok(id) => Ok(PavlovCommands::Ban(id)),
                Err(e) => Err(e),
            }
        } else if str_eq(l, "kick") {
            match u64_arg(arguments, 1, "valid steamId, looks like 76563192370220331") {
                Ok(id) => Ok(PavlovCommands::Kick(id)),
                Err(e) => Err(e),
            }
        } else if str_eq(l, "unban") {
            match u64_arg(arguments, 1, "valid steamId, looks like 76563192370220331") {
                Ok(id) => Ok(PavlovCommands::Unban(id)),
                Err(e) => Err(e),
            }
        } else if str_eq(l, "kill") {
            match u64_arg(arguments, 1, "valid steamId, looks like 76563192370220331") {
                Ok(id) => Ok(PavlovCommands::Kill(id)),
                Err(e) => Err(e),
            }
        } else if str_eq(l, "blacklist") {
            Ok(PavlovCommands::BlackList)
        } else if str_eq(l, "addmod") {
            match u64_arg(arguments, 1, "valid steamId, looks like 76563192370220331") {
                Ok(id) => Ok(PavlovCommands::AddMod(id)),
                Err(e) => Err(e),
            }
        } else if str_eq(l, "removemod") {
            match u64_arg(arguments, 1, "valid steamId, looks like 76563192370220331") {
                Ok(id) => Ok(PavlovCommands::RemoveMod(id)),
                Err(e) => Err(e),
            }
        } else if str_eq(l, "maplist") {
            Ok(PavlovCommands::MapList)
        } else if str_eq(l, "itemlist") {
            Ok(PavlovCommands::ItemList)
        } else if str_eq(l, "rotatemap") || str_eq(l, "maprotate") {
            Ok(PavlovCommands::RotateMap)
        } else if str_eq(l, "switchmap") || str_eq(l, "mapswitch") || str_eq(l, "switch") {
            let a1 = match pa(
                arguments,
                1,
                "specify a map (stalingrad),full steam workshop link or UGC1745146933 map code",
            ) {
                Ok(a) => a,
                Err(e) => {
                    return Err(e);
                },
            };
            let m = match parse_map(a1.as_str(), config) {
                Ok(m) => m,
                Err(e) => {
                    return Err(e);
                },
            };
            let a2 = match pa(
                arguments,
                2,
                "valid game modes are [WW2GUN, GUN, DM, KOTH, SND, TDM, OITC, TANKTDM]",
            ) {
                Ok(a) => a,
                Err(e) => {
                    return Err(e);
                },
            };
            match parse_game_mode(a2.as_str()) {
                Ok(g) => Ok(PavlovCommands::SwitchMap { map: m, gamemode: g }),
                Err(e) => Err(e),
            }
        } else if str_eq(l, "switchteam") {
            let id = match u64_arg(arguments, 1, "valid steamId, looks like 76563192370220331") {
                Ok(v) => v,
                Err(e) => {
                    return Err(e);
                },
            };
            match u32_arg(arguments, 2, "valid teams are [0,1] (0 for blue, 1 for red)") {
                Ok(team) => Ok(PavlovCommands::SwitchTeam(id, team)),
                Err(e) => Err(e),
            }
        } else if str_eq(l, "setcash") {
            let id = match u64_arg(arguments, 1, "valid steamId, looks like 76563192370220331") {
                Ok(v) => v,
                Err(e) => {
                    return Err(e);
                },
            };
            match u32_arg(arguments, 2, "specify a cash amount") {
                Ok(cash) => Ok(PavlovCommands::SetCash(id, cash)),
                Err(e) => Err(e),
            }
        } else if str_eq(l, "giveitem") {
            let id = match u64_arg(arguments, 1, "valid steamId, looks like 76563192370220331") {
                Ok(v) => v,
                Err(e) => {
                    return Err(e);
                },
            };
            match pa(arguments, 2, "specify valid item id") {
                Ok(item) => Ok(PavlovCommands::GiveItem(id, item)),
                Err(e) => Err(e),
            }
        } else if str_eq(l, "givecash") {
            let id = match u64_arg(arguments, 1, "valid steamId, looks like 76563192370220331") {
                Ok(v) => v,
                Err(e) => {
                    return Err(e);
                },
            };
            match u32_arg(arguments, 2, "specify a cash amount") {
                Ok(cash) => Ok(PavlovCommands::GiveCash(id, cash)),
                Err(e) => Err(e),
            }
        } else if str_eq(l, "giveteamcash") {
            let team = match u32_arg(arguments, 1, "valid teams are [0,1] (0 for blue, 1 for red)")
                {
                Ok(v) => v,
                Err(e) => {
                    return Err(e);
                },
            };
            match u32_arg(arguments, 2, "specify a cash amount") {
                Ok(cash) => Ok(PavlovCommands::GiveTeamCash(team, cash)),
                Err(e) => Err(e),
            }
        } else if str_eq(l, "inspectplayer") {
            match u64_arg(arguments, 1, "valid steamId, looks like 76563192370220331") {
                Ok(id) => Ok(PavlovCommands::InspectPlayer(id)),
                Err(e) => Err(e),
            }
        } else if str_eq(l, "refreshlist") {
            Ok(PavlovCommands::RefreshList)
        } else if str_eq(l, "serverinfo") {
            Ok(PavlovCommands::ServerInfo)
        } else if str_eq(l, "resetsnd") {
            Ok(PavlovCommands::ResetSND)
        } else if str_eq(l, "setplayerskin") {
            let id = match u64_arg(arguments, 1, "valid steamId, looks like 76563192370220331") {
                Ok(v) => v,
                Err(e) => {
                    return Err(e);
                },
            };
            let a2 = match pa(
                arguments,
                2,
                "valid skins are {Us, Soviet, German, Nato, Russian, Farmer, Naked, Prisoner, Clown}",
            ) {
                Ok(a) => a,
                Err(e) => {
                    return Err(e);
                },
            };
            match parse_skin(a2.as_str()) {
                Ok(skin) => Ok(PavlovCommands::SetPlayerSkin(id, skin)),
                Err(e) => Err(e),
            }
        } else if str_eq(l, "setlimitedammotype") {
            match pa(arguments, 1, "valid ammo options are the numbers 0-2") {
                Ok(ammo) => Ok(PavlovCommands::SetLimitedAmmoType(ammo)),
                Err(e) => Err(e),
            }
        } else {
            let mut input = String::new();
            input.append(l);
            Err(
                IvanError::BotCommandError(
                    AdminCommandError { input, kind: BotErrorKind::InvalidCommand },
                ),
            )
        }
    }
}

} // verus!
