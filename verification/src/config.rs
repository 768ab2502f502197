//! The bot's configuration: admins, moderators, map aliases, the map pool,
//! channel lock, and vote settings.  The state and its rules live here;
//! persisting the state to disk is the caller's concern.

use vstd::prelude::*;

verus! {

use vstd::string::StringExecFns;
use crate::errors::{AdminCommandError, BotErrorKind, IvanError};
use crate::pavlov::GameMode;
use crate::text::{lower_of, lowercase, str_eq};
use crate::random::sample_indices;

/// A player list as the server reports it.
pub struct Players {
    #[allow(non_snake_case)]
    pub PlayerList: Vec<Player>,
}

pub struct Player {
    #[allow(non_snake_case)]
    pub Username: String,
    #[allow(non_snake_case)]
    pub UniqueId: String,
}

pub struct PlayerInfoContainer {
    #[allow(non_snake_case)]
    pub PlayerInfo: PlayerInfo,
}

pub struct PlayerInfo {
    #[allow(non_snake_case)]
    pub PlayerName: String,
    #[allow(non_snake_case)]
    pub UniqueId: String,
    #[allow(non_snake_case)]
    pub KDA: String,
    #[allow(non_snake_case)]
    pub Score: String,
    #[allow(non_snake_case)]
    pub Cash: String,
    #[allow(non_snake_case)]
    pub TeamId: String,
}

#[derive(Clone, Copy, Debug, PartialEq, Eq, Structural)]
pub enum GunMode {
    Modern,
    WW2,
    Random,
    OitcRandom,
}

impl GunMode {
    pub open spec fn spec_text(self) -> Seq<char> {
        match self {
            GunMode::Modern => "Modern"@,
            GunMode::WW2 => "WW2"@,
            GunMode::Random => "Random"@,
            GunMode::OitcRandom => "OitcRandom"@,
        }
    }

    pub fn to_text(&self) -> (r: String)
        ensures
            r@ == self.spec_text(),
    {
        match self {
            GunMode::Modern => String::from_str("Modern"),
            GunMode::WW2 => String::from_str("WW2"),
            GunMode::Random => String::from_str("Random"),
            GunMode::OitcRandom => String::from_str("OitcRandom"),
        }
    }
}

impl Default for GunMode {
    fn default() -> (r: GunMode)
        ensures
            r == GunMode::Modern,
    {
        GunMode::Modern
    }
}

/// One entry of the map pool.
#[derive(Debug)]
pub struct PoolMap {
    pub map: String,
    pub gamemode: GameMode,
    pub alias: String,
}

/// The three fields of a pool entry, as mathematical values.
pub open spec fn pool_map_view(m: PoolMap) -> (Seq<char>, GameMode, Seq<char>) {
    (m.map@, m.gamemode, m.alias@)
}

impl PoolMap {
    pub fn duplicate(&self) -> (r: PoolMap)
        ensures
            pool_map_view(r) == pool_map_view(*self),
    {
        PoolMap { map: self.map.clone(), gamemode: self.gamemode, alias: self.alias.clone() }
    }

    /// The pool listing line for this entry.
    pub open spec fn spec_display(self) -> Seq<char> {
        "map: \""@ + self.alias@ + "\" \t("@ + self.map@ + ") \tgamemode: "@
            + self.gamemode.spec_text()
    }

    pub fn to_display(&self) -> (r: String)
        ensures
            r@ == self.spec_display(),
    {
        let mut s = String::from_str("map: \"");
        s.append(self.alias.as_str());
        s.append("\" \t(");
        s.append(self.map.as_str());
        s.append(") \tgamemode: ");
        let g = self.gamemode.to_text();
        s.append(g.as_str());
        s
    }
}

pub struct IvanConfig {
    pub version: u8,
    pub admins: Vec<u64>,
    pub mods: Vec<u64>,
    pub aliases: Vec<(String, String)>,
    pub maps: Vec<PoolMap>,
    pub channel_lock: Option<u64>,
    pub skin_shuffle: bool,
    pub gun_mode: GunMode,
    pub map_vote_count: u64,
    pub team_channels: Option<(u64, u64)>,
}

impl Default for IvanConfig {
    fn default() -> (r: IvanConfig)
        ensures
            r.version == 3,
            r.admins@.len() == 0,
            r.mods@.len() == 0,
            r.aliases@.len() == 0,
            r.maps@.len() == 0,
            r.channel_lock is None,
            !r.skin_shuffle,
            r.gun_mode == GunMode::Modern,
            r.map_vote_count == 8,
            r.team_channels is None,
    {
        IvanConfig {
            version: 3,
            admins: Vec::new(),
            mods: Vec::new(),
            aliases: Vec::new(),
            maps: Vec::new(),
            channel_lock: None,
            skin_shuffle: false,
            gun_mode: GunMode::Modern,
            map_vote_count: 8,
            team_channels: None,
        }
    }
}

fn retain_u64_ne(v: &Vec<u64>, id: u64) -> (r: Vec<u64>)
    ensures
        r@ == v@.filter(|x: u64| x != id),
{
    let mut r: Vec<u64> = Vec::new();
    let mut i: usize = 0;
    proof {
        assert(v@.take(0).filter(|x: u64| x != id) =~= Seq::<u64>::empty());
    }
    while i < v.len()
        invariant
            0 <= i <= v@.len(),
            r@ == v@.take(i as int).filter(|x: u64| x != id),
        decreases v@.len() - i,
    {
        proof {
            reveal(Seq::filter);
            assert(v@.take(i as int + 1).drop_last() =~= v@.take(i as int));
            assert(v@.take(i as int + 1).last() == v@[i as int]);
        }
        if v[i] != id {
            r.push(v[i]);
        }
        i = i + 1;
    }
    proof {
        assert(v@.take(i as int) =~= v@);
    }
    r
}

fn contains_u64(v: &Vec<u64>, id: u64) -> (r: bool)
    ensures
        r == v@.contains(id),
{
    let mut i: usize = 0;
    while i < v.len()
        invariant
            0 <= i <= v@.len(),
            forall|k: int| 0 <= k < i ==> v@[k] != id,
        decreases v@.len() - i,
    {
        if v[i] == id {
            return true;
        }
        i = i + 1;
    }
    false
}

/// The value the alias list maps `alias` to: the first pair whose key equals
/// it, compared case-folded.
pub open spec fn spec_resolve_alias(pairs: Seq<(String, String)>, alias: Seq<char>) -> Option<
    Seq<char>,
>
    decreases pairs.len(),
{
    if pairs.len() == 0 {
        None
    } else if lower_of(pairs[0].0@) == lower_of(alias) {
        Some(pairs[0].1@)
    } else {
        spec_resolve_alias(pairs.drop_first(), alias)
    }
}

impl IvanConfig {
    /// Whether `id` is on the stored admin list.
    pub fn is_admin(&self, id: u64) -> (r: bool)
        ensures
            r == self.admins@.contains(id),
    {
        contains_u64(&self.admins, id)
    }

    pub fn is_mod(&self, id: u64) -> (r: bool)
        ensures
            r == self.mods@.contains(id),
    {
        contains_u64(&self.mods, id)
    }

    /// Adds an admin, moving it to the end if it was already listed.
    pub fn add_admin(&mut self, id: u64)
        ensures
            final(self).admins@ == old(self).admins@.filter(|x: u64| x != id).push(id),
            final(self).mods@ == old(self).mods@,
            final(self).aliases@ == old(self).aliases@,
            final(self).maps@ == old(self).maps@,
            unchanged_rest(*old(self), *final(self)),
    {
        let mut kept = retain_u64_ne(&self.admins, id);
        kept.push(id);
        self.admins = kept;
    }

    pub fn remove_admin(&mut self, id: u64)
        ensures
            final(self).admins@ == old(self).admins@.filter(|x: u64| x != id),
            final(self).mods@ == old(self).mods@,
            final(self).aliases@ == old(self).aliases@,
            final(self).maps@ == old(self).maps@,
            unchanged_rest(*old(self), *final(self)),
    {
        self.admins = retain_u64_ne(&self.admins, id);
    }

    pub fn add_mod(&mut self, id: u64)
        ensures
            final(self).mods@ == old(self).mods@.filter(|x: u64| x != id).push(id),
            final(self).admins@ == old(self).admins@,
            final(self).aliases@ == old(self).aliases@,
            final(self).maps@ == old(self).maps@,
            unchanged_rest(*old(self), *final(self)),
    {
        let mut kept = retain_u64_ne(&self.mods, id);
        kept.push(id);
        self.mods = kept;
    }

    pub fn remove_mod(&mut self, id: u64)
        ensures
            final(self).mods@ == old(self).mods@.filter(|x: u64| x != id),
            final(self).admins@ == old(self).admins@,
            final(self).aliases@ == old(self).aliases@,
            final(self).maps@ == old(self).maps@,
            unchanged_rest(*old(self), *final(self)),
    {
        self.mods = retain_u64_ne(&self.mods, id);
    }

    /// Records an alias for a map; later lookups resolve earlier entries
    /// first.
    pub fn add_alias(&mut self, alias: String, mapname: String)
        ensures
            final(self).aliases@.len() == old(self).aliases@.len() + 1,
            final(self).aliases@.last().0@ == alias@,
            final(self).aliases@.last().1@ == mapname@,
            final(self).aliases@.take(old(self).aliases@.len() as int) == old(self).aliases@,
            final(self).admins@ == old(self).admins@,
            final(self).mods@ == old(self).mods@,
            final(self).maps@ == old(self).maps@,
            unchanged_rest(*old(self), *final(self)),
    {
        self.aliases.push((alias, mapname));
        proof {
            assert(self.aliases@.take(old(self).aliases@.len() as int) =~= old(self).aliases@);
        }
    }

    /// Removes every alias pair whose key equals `alias` case-folded, or
    /// whose target map equals it exactly.
    pub fn remove_alias(&mut self, alias: &String)
        ensures
            final(self).aliases@ == old(self).aliases@.filter(
                |p: (String, String)|
                    lower_of(p.0@) != lower_of(alias@) && p.1@ != alias@,
            ),
            final(self).admins@ == old(self).admins@,
            final(self).mods@ == old(self).mods@,
            final(self).maps@ == old(self).maps@,
            unchanged_rest(*old(self), *final(self)),
    {
        let ghost pred = |p: (String, String)|
            lower_of(p.0@) != lower_of(alias@) && p.1@ != alias@;
        let ghost orig = self.aliases@;
        let ghost mut k: int = 0;
        let target = lowercase(alias.as_str());
        let mut i: usize = 0;
        proof {
            assert(orig.take(0).filter(pred) =~= Seq::<(String, String)>::empty());
            assert(self.aliases@ =~= orig.take(0).filter(pred) + orig.skip(0));
        }
        while i < self.aliases.len()
            invariant
                target@ == lower_of(alias@),
                0 <= i <= self.aliases@.len(),
                0 <= k <= orig.len(),
                i == orig.take(k).filter(pred).len(),
                self.aliases@ == orig.take(k).filter(pred) + orig.skip(k),
                self.admins@ == old(self).admins@,
                self.mods@ == old(self).mods@,
                self.maps@ == old(self).maps@,
                unchanged_rest(*old(self), *self),
                pred == (|p: (String, String)|
                    lower_of(p.0@) != lower_of(alias@) && p.1@ != alias@),
            decreases orig.len() - k,
        {
            proof {
                reveal(Seq::filter);
                assert(orig.skip(k).len() > 0);
                assert(self.aliases@[i as int] == orig.skip(k)[0]);
                assert(orig.skip(k)[0] == orig[k]);
                assert(orig.take(k + 1).drop_last() =~= orig.take(k));
                assert(orig.take(k + 1).last() == orig[k]);
                assert(orig.skip(k) =~= seq![orig[k]] + orig.skip(k + 1));
            }
            let key_low = lowercase(self.aliases[i].0.as_str());
            let keep = !str_eq(key_low.as_str(), target.as_str()) && !str_eq(
                self.aliases[i].1.as_str(),
                alias.as_str(),
            );
            if keep {
                proof {
                    assert(orig.take(k + 1).filter(pred) =~= orig.take(k).filter(pred).push(
                        orig[k],
                    ));
                    assert(self.aliases@ =~= orig.take(k + 1).filter(pred) + orig.skip(k + 1));
                }
                i = i + 1;
            } else {
                self.aliases.remove(i);
                proof {
                    assert(orig.take(k + 1).filter(pred) =~= orig.take(k).filter(pred));
                    assert(self.aliases@ =~= orig.take(k + 1).filter(pred) + orig.skip(k + 1));
                }
            }
            proof {
                k = k + 1;
            }
        }
        proof {
            assert(orig.skip(k).len() == 0);
            assert(self.aliases@ =~= orig.filter(pred)) by {
                assert(orig.take(k) =~= orig);
                assert(self.aliases@ =~= orig.take(k).filter(pred));
            }
        }
    }

    /// Looks an alias up, case-insensitively on the key.
    pub fn resolve_alias(&self, alias: &str) -> (r: Option<String>)
        ensures
            r matches Some(v) ==> spec_resolve_alias(self.aliases@, alias@) == Some(v@),
            r is None ==> spec_resolve_alias(self.aliases@, alias@) is None,
    {
        let target = lowercase(alias);
        let mut i: usize = 0;
        proof {
            assert(self.aliases@.skip(0) =~= self.aliases@);
        }
        while i < self.aliases.len()
            invariant
                0 <= i <= self.aliases@.len(),
                target@ == lower_of(alias@),
                spec_resolve_alias(self.aliases@, alias@) == spec_resolve_alias(
                    self.aliases@.skip(i as int),
                    alias@,
                ),
            decreases self.aliases@.len() - i,
        {
            let key_low = lowercase(self.aliases[i].0.as_str());
            proof {
                assert(self.aliases@.skip(i as int)[0] == self.aliases@[i as int]);
                assert(self.aliases@.skip(i as int).drop_first() =~= self.aliases@.skip(
                    i as int + 1,
                ));
            }
            if str_eq(key_low.as_str(), target.as_str()) {
                return Some(self.aliases[i].1.clone());
            }
            i = i + 1;
        }
        proof {
            assert(self.aliases@.skip(i as int).len() == 0);
        }
        None
    }

    pub fn get_team_channels(&self) -> (r: Option<(u64, u64)>)
        ensures
            r == self.team_channels,
    {
        self.team_channels
    }

    pub fn set_team_channels(&mut self, team1: u64, team2: u64)
        ensures
            final(self).team_channels == Some((team1, team2)),
            *final(self) == (IvanConfig { team_channels: Some((team1, team2)), ..*old(self) }),
    {
        self.team_channels = Some((team1, team2));
    }

    /// Adds a map to the pool.
    pub fn add_map(&mut self, map: String, gamemode: GameMode, alias: String)
        ensures
            final(self).maps@.len() == old(self).maps@.len() + 1,
            pool_map_view(final(self).maps@.last()) == (map@, gamemode, alias@),
            final(self).maps@.take(old(self).maps@.len() as int) == old(self).maps@,
            final(self).admins@ == old(self).admins@,
            final(self).mods@ == old(self).mods@,
            final(self).aliases@ == old(self).aliases@,
            unchanged_rest(*old(self), *final(self)),
    {
        self.maps.push(PoolMap { map, gamemode, alias });
        proof {
            assert(self.maps@.take(old(self).maps@.len() as int) =~= old(self).maps@);
        }
    }

    /// Removes every pool entry whose alias or map name equals `alias`.
    pub fn remove_map(&mut self, alias: &String)
        ensures
            final(self).maps@ == old(self).maps@.filter(
                |m: PoolMap| m.alias@ != alias@ && m.map@ != alias@,
            ),
            final(self).admins@ == old(self).admins@,
            final(self).mods@ == old(self).mods@,
            final(self).aliases@ == old(self).aliases@,
            unchanged_rest(*old(self), *final(self)),
    {
        let ghost pred = |m: PoolMap| m.alias@ != alias@ && m.map@ != alias@;
        let ghost orig = self.maps@;
        let ghost mut k: int = 0;
        let mut i: usize = 0;
        proof {
            assert(orig.take(0).filter(pred) =~= Seq::<PoolMap>::empty());
            assert(self.maps@ =~= orig.take(0).filter(pred) + orig.skip(0));
        }
        while i < self.maps.len()
            invariant
                0 <= i <= self.maps@.len(),
                0 <= k <= orig.len(),
                i == orig.take(k).filter(pred).len(),
                self.maps@ == orig.take(k).filter(pred) + orig.skip(k),
                self.admins@ == old(self).admins@,
                self.mods@ == old(self).mods@,
                self.aliases@ == old(self).aliases@,
                unchanged_rest(*old(self), *self),
                pred == (|m: PoolMap| m.alias@ != alias@ && m.map@ != alias@),
            decreases orig.len() - k,
        {
            proof {
                reveal(Seq::filter);
                assert(orig.skip(k).len() > 0);
                assert(self.maps@[i as int] == orig.skip(k)[0]);
                assert(orig.skip(k)[0] == orig[k]);
                assert(orig.take(k + 1).drop_last() =~= orig.take(k));
                assert(orig.take(k + 1).last() == orig[k]);
                assert(orig.skip(k) =~= seq![orig[k]] + orig.skip(k + 1));
            }
            let keep = !str_eq(self.maps[i].alias.as_str(), alias.as_str()) && !str_eq(
                self.maps[i].map.as_str(),
                alias.as_str(),
            );
            if keep {
                proof {
                    assert(orig.take(k + 1).filter(pred) =~= orig.take(k).filter(pred).push(
                        orig[k],
                    ));
                    assert(self.maps@ =~= orig.take(k + 1).filter(pred) + orig.skip(k + 1));
                }
                i = i + 1;
            } else {
                self.maps.remove(i);
                proof {
                    assert(orig.take(k + 1).filter(pred) =~= orig.take(k).filter(pred));
                    assert(self.maps@ =~= orig.take(k + 1).filter(pred) + orig.skip(k + 1));
                }
            }
            proof {
                k = k + 1;
            }
        }
        proof {
            assert(orig.skip(k).len() == 0);
            assert(self.maps@ =~= orig.filter(pred)) by {
                assert(orig.take(k) =~= orig);
                assert(self.maps@ =~= orig.take(k).filter(pred));
            }
        }
    }

    pub fn get_maps(&self) -> (r: &Vec<PoolMap>)
        ensures
            r@ == self.maps@,
    {
        &self.maps
    }

    /// The alias listing, one line per pair.
    pub fn get_alias_list(&self) -> (r: Vec<String>)
        ensures
            r@.len() == self.aliases@.len(),
            forall|i: int|
                0 <= i < r@.len() ==> (#[trigger] r@[i])@ == "alias: "@ + self.aliases@[i].0@
                    + " map: "@ + self.aliases@[i].1@,
    {
        let mut r: Vec<String> = Vec::new();
        let mut i: usize = 0;
        while i < self.aliases.len()
            invariant
                0 <= i <= self.aliases@.len(),
                r@.len() == i,
                forall|k: int|
                    0 <= k < i ==> (#[trigger] r@[k])@ == "alias: "@ + self.aliases@[k].0@
                        + " map: "@ + self.aliases@[k].1@,
            decreases self.aliases@.len() - i,
        {
            let mut line = String::from_str("alias: ");
            line.append(self.aliases[i].0.as_str());
            line.append(" map: ");
            line.append(self.aliases[i].1.as_str());
            r.push(line);
            i = i + 1;
        }
        r
    }

    pub fn get_channel_lock(&self) -> (r: Option<u64>)
        ensures
            r == self.channel_lock,
    {
        self.channel_lock
    }

    pub fn add_channel_lock(&mut self, channel_id: u64)
        ensures
            *final(self) == (IvanConfig { channel_lock: Some(channel_id), ..*old(self) }),
    {
        self.channel_lock = Some(channel_id);
    }

    pub fn remove_channel_lock(&mut self)
        ensures
            *final(self) == (IvanConfig { channel_lock: None, ..*old(self) }),
    {
        self.channel_lock = None;
    }

    pub fn set_skin_shuffle(&mut self, value: bool)
        ensures
            *final(self) == (IvanConfig { skin_shuffle: value, ..*old(self) }),
    {
        self.skin_shuffle = value;
    }

    pub fn get_skin_shuffle(&self) -> (r: bool)
        ensures
            r == self.skin_shuffle,
    {
        self.skin_shuffle
    }

    pub fn set_gun_mode(&mut self, value: GunMode)
        ensures
            *final(self) == (IvanConfig { gun_mode: value, ..*old(self) }),
    {
        self.gun_mode = value;
    }

    pub fn get_gun_mode(&self) -> (r: GunMode)
        ensures
            r == self.gun_mode,
    {
        self.gun_mode
    }

    /// Sets how many choices a vote offers; only 2 to 10 are accepted.
    pub fn set_vote_amount(&mut self, value: u64) -> (r: Result<(), IvanError>)
        ensures
            2 <= value <= 10 ==> r is Ok && *final(self) == (IvanConfig {
                map_vote_count: value,
                ..*old(self)
            }),
            !(2 <= value <= 10) ==> *final(self) == *old(self) && (r matches Err(e) && e.spec_kind()
                == BotErrorKind::InvalidVoteAmount),
    {
        if value <= 10 && value >= 2 {
            self.map_vote_count = value;
            Ok(())
        } else {
            Err(
                IvanError::BotCommandError(
                    AdminCommandError {
                        input: String::from_str(
                            "Invalid vote amount, it should be within 2-10 range",
                        ),
                        kind: BotErrorKind::InvalidVoteAmount,
                    },
                ),
            )
        }
    }

    pub fn get_vote_amount(&self) -> (r: u64)
        ensures
            r == self.map_vote_count,
    {
        self.map_vote_count
    }

    /// The pool entries that a vote with this mode filter may offer.
    pub open spec fn spec_vote_pool(self, game_mode: Option<GameMode>) -> Seq<PoolMap> {
        self.maps@.filter(|m: PoolMap| spec_mode_matches(m, game_mode, self.gun_mode))
    }

    /// How many choices a vote asking for `count` would have: the request,
    /// capped by the filtered pool.
    pub open spec fn spec_sample_size_with(self, game_mode: Option<GameMode>, count: u64) -> int {
        if self.spec_vote_pool(game_mode).len() <= count {
            self.spec_vote_pool(game_mode).len() as int
        } else {
            count as int
        }
    }

    /// How many choices a vote with the configured count would have.
    pub open spec fn spec_vote_sample_size(self, game_mode: Option<GameMode>) -> int {
        self.spec_sample_size_with(game_mode, self.map_vote_count)
    }

    /// Draws the vote's candidate maps with the configured choice count.
    pub fn get_maps_random(&self, game_mode: Option<GameMode>) -> (r: Result<
        Vec<PoolMap>,
        IvanError,
    >)
        ensures
            r is Ok <==> self.maps@.len() >= 1 && self.spec_vote_sample_size(game_mode) >= 2,
            r matches Err(e) ==> e.spec_kind() == BotErrorKind::InvalidVoteAmount,
            r matches Ok(v) ==> v@.len() == self.spec_vote_sample_size(game_mode),
            r matches Ok(v) ==> (forall|i: int|
                0 <= i < v@.len() ==> spec_mode_matches(
                    #[trigger] v@[i],
                    game_mode,
                    self.gun_mode,
                )),
            r matches Ok(v) ==> (forall|i: int|
                0 <= i < v@.len() ==> view_in_pool(
                    #[trigger] v@[i],
                    self.spec_vote_pool(game_mode),
                )),
            r matches Ok(v) ==> ((forall|j1: int, j2: int|
                0 <= j1 < self.spec_vote_pool(game_mode).len() && 0 <= j2 < self.spec_vote_pool(
                    game_mode,
                ).len() && j1 != j2 ==> #[trigger] pool_map_view(
                    self.spec_vote_pool(game_mode)[j1],
                ) != #[trigger] pool_map_view(self.spec_vote_pool(game_mode)[j2])) ==> (
            forall|i1: int, i2: int|
                0 <= i1 < v@.len() && 0 <= i2 < v@.len() && i1 != i2 ==> #[trigger] pool_map_view(
                    v@[i1],
                ) != #[trigger] pool_map_view(v@[i2]))),
    {
        let count = self.map_vote_count;
        self.sample_vote_maps(game_mode, count)
    }

    /// Draws the vote's candidate maps: filters the pool by the mode filter
    /// (with the gun-mode rules), then samples `count` of them (or as many
    /// as there are) without repetition, in random order.  Fails with
    /// `InvalidVoteAmount` when the pool is empty or fewer than 2
    /// candidates result.
    pub fn sample_vote_maps(&self, game_mode: Option<GameMode>, count: u64) -> (r: Result<
        Vec<PoolMap>,
        IvanError,
    >)
        ensures
            r is Ok <==> self.maps@.len() >= 1 && self.spec_sample_size_with(game_mode, count)
                >= 2,
            r matches Err(e) ==> e.spec_kind() == BotErrorKind::InvalidVoteAmount,
            r matches Ok(v) ==> v@.len() == self.spec_sample_size_with(game_mode, count),
            r matches Ok(v) ==> (forall|i: int|
                0 <= i < v@.len() ==> spec_mode_matches(
                    #[trigger] v@[i],
                    game_mode,
                    self.gun_mode,
                )),
            r matches Ok(v) ==> (forall|i: int|
                0 <= i < v@.len() ==> view_in_pool(
                    #[trigger] v@[i],
                    self.spec_vote_pool(game_mode),
                )),
            r matches Ok(v) ==> ((forall|j1: int, j2: int|
                0 <= j1 < self.spec_vote_pool(game_mode).len() && 0 <= j2 < self.spec_vote_pool(
                    game_mode,
                ).len() && j1 != j2 ==> #[trigger] pool_map_view(
                    self.spec_vote_pool(game_mode)[j1],
                ) != #[trigger] pool_map_view(self.spec_vote_pool(game_mode)[j2])) ==> (
            forall|i1: int, i2: int|
                0 <= i1 < v@.len() && 0 <= i2 < v@.len() && i1 != i2 ==> #[trigger] pool_map_view(
                    v@[i1],
                ) != #[trigger] pool_map_view(v@[i2]))),
    {
        let ghost pred = |m: PoolMap| spec_mode_matches(m, game_mode, self.gun_mode);
        if self.maps.len() < 1 {
            return Err(
                IvanError::BotCommandError(
                    AdminCommandError {
                        input: String::from_str("there were no maps in the pool"),
                        kind: BotErrorKind::InvalidVoteAmount,
                    },
                ),
            );
        }
        let mut fv: Vec<PoolMap> = Vec::new();
        let mut i: usize = 0;
        proof {
            assert(self.maps@.take(0).filter(pred) =~= Seq::<PoolMap>::empty());
        }
        while i < self.maps.len()
            invariant
                0 <= i <= self.maps@.len(),
                fv@.len() == self.maps@.take(i as int).filter(pred).len(),
                forall|k: int|
                    0 <= k < fv@.len() ==> #[trigger] pool_map_view(fv@[k]) == pool_map_view(
                        self.maps@.take(i as int).filter(pred)[k],
                    ),
                pred == (|m: PoolMap| spec_mode_matches(m, game_mode, self.gun_mode)),
            decreases self.maps@.len() - i,
        {
            proof {
                reveal(Seq::filter);
                assert(self.maps@.take(i as int + 1).drop_last() =~= self.maps@.take(i as int));
                assert(self.maps@.take(i as int + 1).last() == self.maps@[i as int]);
            }
            let matches_mode = mode_matches(&self.maps[i], game_mode, self.gun_mode);
            if matches_mode {
                let m = self.maps[i].duplicate();
                fv.push(m);
                proof {
                    assert(self.maps@.take(i as int + 1).filter(pred) =~= self.maps@.take(
                        i as int,
                    ).filter(pred).push(self.maps@[i as int]));
                }
            }
            i = i + 1;
        }
        proof {
            assert(self.maps@.take(i as int) =~= self.maps@);
        }
        let amount: usize = if (fv.len() as u64) <= count {
            fv.len()
        } else {
            #[verifier::truncate]
            (count as usize)
        };
        if amount < 2 {
            return Err(
                IvanError::BotCommandError(
                    AdminCommandError {
                        input: String::from_str(
                            "Could not start map vote because the map pool didn't contain at least 2 maps (with the selected gameMode)",
                        ),
                        kind: BotErrorKind::InvalidVoteAmount,
                    },
                ),
            );
        }
        let idxs = sample_indices(fv.len(), amount);
        let mut out: Vec<PoolMap> = Vec::new();
        let mut j: usize = 0;
        while j < idxs.len()
            invariant
                0 <= j <= idxs@.len(),
                out@.len() == j,
                forall|k: int| 0 <= k < idxs@.len() ==> #[trigger] idxs@[k] < fv@.len(),
                forall|k1: int, k2: int|
                    0 <= k1 < idxs@.len() && 0 <= k2 < idxs@.len() && k1 != k2 ==> idxs@[k1]
                        != idxs@[k2],
                forall|k: int|
                    0 <= k < j ==> #[trigger] pool_map_view(out@[k]) == pool_map_view(
                        fv@[idxs@[k] as int],
                    ),
            decreases idxs@.len() - j,
        {
            let m = fv[idxs[j]].duplicate();
            out.push(m);
            j = j + 1;
        }
        proof {
            let pool = self.spec_vote_pool(game_mode);
            assert forall|i: int| 0 <= i < out@.len() implies spec_mode_matches(
                #[trigger] out@[i],
                game_mode,
                self.gun_mode,
            ) by {
                let jj = idxs@[i] as int;
                self.maps@.lemma_filter_pred(pred, jj);
                assert(pool_map_view(out@[i]) == pool_map_view(pool[jj]));
            }
            assert forall|i: int| 0 <= i < out@.len() implies view_in_pool(
                #[trigger] out@[i],
                self.spec_vote_pool(game_mode),
            ) by {
                let jj = idxs@[i] as int;
                assert(0 <= jj < pool.len() && pool_map_view(out@[i]) == pool_map_view(
                    self.spec_vote_pool(game_mode)[jj],
                ));
            }
        }
        Ok(out)
    }
}

/// A pool entry whose fields coincide with some entry of `pool`.
pub open spec fn view_in_pool(m: PoolMap, pool: Seq<PoolMap>) -> bool {
    exists|j: int| 0 <= j < pool.len() && pool_map_view(m) == pool_map_view(#[trigger] pool[j])
}

/// Whether a pool entry passes the vote's mode filter under the current
/// gun mode.  A generic gun request is special-cased per gun mode: the two
/// random modes accept the concrete gun-era variants; the modern mode
/// accepts every entry, and the WW2 mode none.
pub open spec fn spec_mode_matches(
    m: PoolMap,
    game_mode: Option<GameMode>,
    gun_mode: GunMode,
) -> bool {
    match game_mode {
        None => true,
        Some(value) => {
            if value == GameMode::GUN {
                match gun_mode {
                    GunMode::Random => m.gamemode == GameMode::GUN || m.gamemode
                        == GameMode::WW2GUN,
                    GunMode::WW2 => value == GameMode::WW2GUN,
                    GunMode::OitcRandom => m.gamemode == GameMode::GUN || m.gamemode
                        == GameMode::WW2GUN || m.gamemode == GameMode::OITC,
                    GunMode::Modern => value == GameMode::GUN,
                }
            } else {
                value == m.gamemode
            }
        },
    }
}

fn mode_matches(m: &PoolMap, game_mode: Option<GameMode>, gun_mode: GunMode) -> (r: bool)
    ensures
        r == spec_mode_matches(*m, game_mode, gun_mode),
{
    match game_mode {
        None => true,
        Some(value) => {
            if value == GameMode::GUN {
                match gun_mode {
                    GunMode::Random => m.gamemode == GameMode::GUN || m.gamemode
                        == GameMode::WW2GUN,
                    GunMode::WW2 => value == GameMode::WW2GUN,
                    GunMode::OitcRandom => m.gamemode == GameMode::GUN || m.gamemode
                        == GameMode::WW2GUN || m.gamemode == GameMode::OITC,
                    GunMode::Modern => value == GameMode::GUN,
                }
            } else {
                value == m.gamemode
            }
        },
    }
}

/// Everything but the four list fields is unchanged.
pub open spec fn unchanged_rest(a: IvanConfig, b: IvanConfig) -> bool {
    b.version == a.version && b.channel_lock == a.channel_lock && b.skin_shuffle == a.skin_shuffle
        && b.gun_mode == a.gun_mode && b.map_vote_count == a.map_vote_count && b.team_channels
        == a.team_channels
}

} // verus!
