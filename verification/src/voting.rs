//! The vote coordinator: vote lifecycle, countdown ticks, tally resolution,
//! and the finalize-once guarantee.
//!
//! At most one Vote exists per coordinator at any time.  A vote is created by
//! `handle_vote_start`, counted down by `vote_tick`, and destroyed exactly
//! once — by the timer reaching zero or by an explicit stop, whichever takes
//! the Vote first; the other caller observes `VoteNotInProgress`.

use vstd::prelude::*;

verus! {

use vstd::string::StringExecFns;
use crate::config::{IvanConfig, GunMode, pool_map_view, view_in_pool};
use crate::errors::{AdminCommandError, BotErrorKind, IvanError};
use crate::pavlov::{GameMode, PavlovCommands};
use crate::random::{random_index, sample_indices};
use crate::text::{dec_digits, str_eq, u64_to_string};

pub const MAX_VOTE_MAPS: u32 = 4;

/// The fixed pool of reaction symbols, by index.
pub open spec fn spec_vote_symbol(i: int) -> Seq<char> {
    if i == 0 {
        "\u{1F4AF}"@
    } else if i == 1 {
        "\u{1F374}"@
    } else if i == 2 {
        "\u{1F9C2}"@
    } else if i == 3 {
        "\u{1F4B8}"@
    } else if i == 4 {
        "\u{1F37E}"@
    } else if i == 5 {
        "\u{1F60F}"@
    } else if i == 6 {
        "\u{1F44C}"@
    } else if i == 7 {
        "\u{1F92E}"@
    } else if i == 8 {
        "\u{1F4A9}"@
    } else {
        "\u{1F47A}"@
    }
}

/// A reaction symbol that may appear in a vote.
pub open spec fn is_vote_symbol(s: Seq<char>) -> bool {
    exists|i: int| 0 <= i < 10 && s == spec_vote_symbol(i)
}

fn vote_symbol(i: usize) -> (r: String)
    requires
        i < 10,
    ensures
        r@ == spec_vote_symbol(i as int),
{
    match i {
        0 => String::from_str("\u{1F4AF}"),
        1 => String::from_str("\u{1F374}"),
        2 => String::from_str("\u{1F9C2}"),
        3 => String::from_str("\u{1F4B8}"),
        4 => String::from_str("\u{1F37E}"),
        5 => String::from_str("\u{1F60F}"),
        6 => String::from_str("\u{1F44C}"),
        7 => String::from_str("\u{1F92E}"),
        8 => String::from_str("\u{1F4A9}"),
        _ => String::from_str("\u{1F47A}"),
    }
}

/// The ten symbols are pairwise distinct.
proof fn lemma_symbols_distinct()
    ensures
        forall|i: int, j: int|
            0 <= i < 10 && 0 <= j < 10 && i != j ==> spec_vote_symbol(i) != spec_vote_symbol(j),
{
    reveal_strlit("\u{1F4AF}");
    reveal_strlit("\u{1F374}");
    reveal_strlit("\u{1F9C2}");
    reveal_strlit("\u{1F4B8}");
    reveal_strlit("\u{1F37E}");
    reveal_strlit("\u{1F60F}");
    reveal_strlit("\u{1F44C}");
    reveal_strlit("\u{1F92E}");
    reveal_strlit("\u{1F4A9}");
    reveal_strlit("\u{1F47A}");
    assert forall|i: int, j: int|
        0 <= i < 10 && 0 <= j < 10 && i != j implies spec_vote_symbol(i) != spec_vote_symbol(
        j,
    ) by {
        assert(spec_vote_symbol(i)[0] != spec_vote_symbol(j)[0]);
    }
}

/// One candidate outcome of a vote, tied to one reaction symbol.
#[derive(Debug)]
pub struct Choice {
    /// The reaction symbol, as the one-character emoji text.
    pub id: String,
    pub map: String,
    pub alias: String,
    pub gamemode: GameMode,
}

impl Choice {
    /// The announcement line for this choice.
    pub open spec fn spec_display(self) -> Seq<char> {
        self.alias@ + " gamemode: "@ + self.gamemode.spec_text()
    }

    pub fn to_display(&self) -> (r: String)
        ensures
            r@ == self.spec_display(),
    {
        let mut s = String::from_str(self.alias.as_str());
        s.append(" gamemode: ");
        let g = self.gamemode.to_text();
        s.append(g.as_str());
        s
    }
}

/// An open poll over 2 or more choices with a countdown and participant
/// metadata.
#[derive(Debug)]
pub struct Vote {
    pub maps: Vec<Choice>,
    pub message_id: u64,
    pub channel_id: u64,
    pub countdown: u64,
    pub users: Vec<u64>,
    pub teams: Option<(Vec<u64>, Vec<u64>)>,
}

/// Every well-formed vote offers at least 2 choices, each with a distinct
/// reaction symbol drawn from the fixed pool.
pub open spec fn spec_vote_wf(v: Vote) -> bool {
    &&& 2 <= v.maps@.len() <= 10
    &&& forall|i: int| 0 <= i < v.maps@.len() ==> is_vote_symbol((#[trigger] v.maps@[i]).id@)
    &&& forall|i: int, j: int|
        0 <= i < v.maps@.len() && 0 <= j < v.maps@.len() && i != j ==> (#[trigger] v.maps@[i]).id@
            != (#[trigger] v.maps@[j]).id@
}

/// The participant mentions, separated by single spaces.
pub open spec fn spec_mentions(users: Seq<u64>) -> Seq<char>
    decreases users.len(),
{
    if users.len() == 0 {
        Seq::empty()
    } else if users.len() == 1 {
        "<@"@ + dec_digits(users[0] as nat) + ">"@
    } else {
        spec_mentions(users.drop_last()) + " <@"@ + dec_digits(users.last() as nat) + ">"@
    }
}

fn format_users(users: &Vec<u64>) -> (r: String)
    ensures
        r@ == spec_mentions(users@),
{
    let mut s = String::new();
    let mut i: usize = 0;
    while i < users.len()
        invariant
            0 <= i <= users@.len(),
            s@ == spec_mentions(users@.take(i as int)),
        decreases users@.len() - i,
    {
        if i == 0 {
            s.append("<@");
        } else {
            s.append(" <@");
        }
        let d = u64_to_string(users[i]);
        s.append(d.as_str());
        s.append(">");
        proof {
            assert(users@.take(i as int + 1).drop_last() =~= users@.take(i as int));
            assert(users@.take(i as int + 1).last() == users@[i as int]);
            if i == 0 {
                assert(s@ =~= spec_mentions(users@.take(1)));
            } else {
                assert(s@ =~= spec_mentions(users@.take(i as int + 1)));
            }
        }
        i = i + 1;
    }
    proof {
        assert(users@.take(i as int) =~= users@);
    }
    s
}

/// One listing line of the posted vote.
pub open spec fn spec_choice_line(c: Choice) -> Seq<char> {
    "Vote: "@ + c.id@ + " for map: \""@ + c.alias@ + "\" gamemode: "@ + c.gamemode.spec_text()
}

/// All listing lines, each on its own line.
pub open spec fn spec_choice_block(maps: Seq<Choice>) -> Seq<char>
    decreases maps.len(),
{
    if maps.len() == 0 {
        Seq::empty()
    } else {
        spec_choice_block(maps.drop_last()) + "\n"@ + spec_choice_line(maps.last())
    }
}

/// The full text of the posted vote message.
pub open spec fn spec_vote_display(v: Vote) -> Seq<char> {
    let header = "\nThe vote will end in: \""@ + dec_digits(v.countdown as nat) + "\" seconds"@
        + spec_choice_block(v.maps@);
    match v.teams {
        Some(t) => header + "\nRed team: "@ + spec_mentions(t.0@) + "\nBlue team: "@
            + spec_mentions(t.1@),
        None => header + "\nGet ready to vote: "@ + spec_mentions(v.users@),
    }
}

impl Vote {
    /// Renders the posted message: the countdown, one line per choice, and
    /// the mentions of the participants or the two teams.
    pub fn to_display(&self) -> (r: String)
        ensures
            r@ == spec_vote_display(*self),
    {
        let mut s = String::from_str("\nThe vote will end in: \"");
        let d = u64_to_string(self.countdown);
        s.append(d.as_str());
        s.append("\" seconds");
        let mut i: usize = 0;
        while i < self.maps.len()
            invariant
                0 <= i <= self.maps@.len(),
                s@ == "\nThe vote will end in: \""@ + dec_digits(self.countdown as nat)
                    + "\" seconds"@ + spec_choice_block(self.maps@.take(i as int)),
            decreases self.maps@.len() - i,
        {
            s.append("\n");
            s.append("Vote: ");
            s.append(self.maps[i].id.as_str());
            s.append(" for map: \"");
            s.append(self.maps[i].alias.as_str());
            s.append("\" gamemode: ");
            let g = self.maps[i].gamemode.to_text();
            s.append(g.as_str());
            proof {
                assert(self.maps@.take(i as int + 1).drop_last() =~= self.maps@.take(i as int));
                assert(self.maps@.take(i as int + 1).last() == self.maps@[i as int]);
                assert(s@ =~= "\nThe vote will end in: \""@ + dec_digits(self.countdown as nat)
                    + "\" seconds"@ + spec_choice_block(self.maps@.take(i as int + 1)));
            }
            i = i + 1;
        }
        proof {
            assert(self.maps@.take(i as int) =~= self.maps@);
        }
        match &self.teams {
            Some(t) => {
                s.append("\nRed team: ");
                let m1 = format_users(&t.0);
                s.append(m1.as_str());
                s.append("\nBlue team: ");
                let m2 = format_users(&t.1);
                s.append(m2.as_str());
            },
            None => {
                s.append("\nGet ready to vote: ");
                let m = format_users(&self.users);
                s.append(m.as_str());
            },
        }
        proof {
            assert(s@ =~= spec_vote_display(*self));
        }
        s
    }

    /// The reaction symbols of the choices, in posting order.
    pub fn symbols(&self) -> (r: Vec<String>)
        ensures
            r@.len() == self.maps@.len(),
            forall|i: int| 0 <= i < r@.len() ==> (#[trigger] r@[i])@ == self.maps@[i].id@,
    {
        let mut r: Vec<String> = Vec::new();
        let mut i: usize = 0;
        while i < self.maps.len()
            invariant
                0 <= i <= self.maps@.len(),
                r@.len() == i,
                forall|k: int| 0 <= k < i ==> (#[trigger] r@[k])@ == self.maps@[k].id@,
            decreases self.maps@.len() - i,
        {
            r.push(self.maps[i].id.clone());
            i = i + 1;
        }
        r
    }
}

/// What the gun-mode remap may turn a choice's game mode into: a generic
/// gun request resolves to a concrete variant, everything else is kept.
pub open spec fn spec_gunmode_allows(orig: GameMode, gun: GunMode, result: GameMode) -> bool {
    if orig == GameMode::GUN && gun == GunMode::WW2 {
        result == GameMode::WW2GUN
    } else if orig == GameMode::GUN && gun == GunMode::OitcRandom {
        result == GameMode::GUN || result == GameMode::WW2GUN || result == GameMode::OITC
    } else if orig == GameMode::GUN && gun == GunMode::Random {
        result == GameMode::GUN || result == GameMode::WW2GUN
    } else {
        result == orig
    }
}

/// Applies the gun-mode remap to one game mode; the random gun modes pick a
/// variant at random.
pub fn handle_gunmode(gamemode: GameMode, gun_mode: GunMode) -> (r: GameMode)
    ensures
        spec_gunmode_allows(gamemode, gun_mode, r),
{
    if gamemode == GameMode::GUN && gun_mode == GunMode::WW2 {
        GameMode::WW2GUN
    } else if gamemode == GameMode::GUN && gun_mode == GunMode::OitcRandom {
        let i = random_index(3);
        if i == 0 {
            GameMode::GUN
        } else if i == 1 {
            GameMode::WW2GUN
        } else {
            GameMode::OITC
        }
    } else if gamemode == GameMode::GUN && gun_mode == GunMode::Random {
        let i = random_index(2);
        if i == 0 {
            GameMode::GUN
        } else {
            GameMode::WW2GUN
        }
    } else {
        gamemode
    }
}

/// Draws `amount` distinct reaction symbols from the fixed pool, in random
/// order; more than the pool holds fails with `InvalidVoteAmount`.
pub fn get_random_emojis(amount: usize) -> (r: Result<Vec<String>, IvanError>)
    ensures
        r is Ok <==> amount <= 10,
        r matches Err(e) ==> e.spec_kind() == BotErrorKind::InvalidVoteAmount,
        r matches Ok(v) ==> v@.len() == amount && (forall|i: int|
            0 <= i < v@.len() ==> is_vote_symbol((#[trigger] v@[i])@)) && (forall|i: int, j: int|
            0 <= i < v@.len() && 0 <= j < v@.len() && i != j ==> (#[trigger] v@[i])@ != (
            #[trigger] v@[j])@),
{
    if amount > 10 {
        let mut msg = u64_to_string(amount as u64);
        msg.append(" was more than the amount of emojis I have hardcoded :)");
        return Err(
            IvanError::BotCommandError(
                AdminCommandError { input: msg, kind: BotErrorKind::InvalidVoteAmount },
            ),
        );
    }
    let idxs = sample_indices(10, amount);
    let mut out: Vec<String> = Vec::new();
    let mut i: usize = 0;
    while i < idxs.len()
        invariant
            0 <= i <= idxs@.len(),
            out@.len() == i,
            forall|k: int| 0 <= k < idxs@.len() ==> #[trigger] idxs@[k] < 10,
            forall|k1: int, k2: int|
                0 <= k1 < idxs@.len() && 0 <= k2 < idxs@.len() && k1 != k2 ==> idxs@[k1]
                    != idxs@[k2],
            forall|k: int|
                0 <= k < i ==> (#[trigger] out@[k])@ == spec_vote_symbol(idxs@[k] as int),
        decreases idxs@.len() - i,
    {
        let s = vote_symbol(idxs[i]);
        out.push(s);
        i = i + 1;
    }
    proof {
        lemma_symbols_distinct();
        assert forall|k: int| 0 <= k < out@.len() implies is_vote_symbol(
            (#[trigger] out@[k])@,
        ) by {
            assert(out@[k]@ == spec_vote_symbol(idxs@[k] as int));
        }
    }
    Ok(out)
}

/// The shared coordinator state: the configuration and the zero-or-one
/// active Vote.
pub struct CustomFramework {
    pub config: IvanConfig,
    pub vote: Option<Vote>,
}

impl CustomFramework {
    /// If a vote is active, it is well formed.
    pub open spec fn wf(self) -> bool {
        self.vote matches Some(v) ==> spec_vote_wf(v)
    }
}

/// The two team member lists as mathematical values.
pub open spec fn spec_teams_view(t: Option<(Vec<u64>, Vec<u64>)>) -> Option<(Seq<u64>, Seq<u64>)> {
    match t {
        Some(p) => Some((p.0@, p.1@)),
        None => None,
    }
}

/// Starts a vote: rejected with `VoteInProgress` while one is active, and
/// with `InvalidVoteAmount` when fewer than 2 candidates can be drawn; on
/// success the Vote is stored (with a 30-second countdown and no message id
/// yet) and the text to post is returned.
pub fn handle_vote_start(
    framework: &mut CustomFramework,
    channel_id: u64,
    game_mode: Option<GameMode>,
    requested_count: u64,
    users: Vec<u64>,
    teams: Option<(Vec<u64>, Vec<u64>)>,
) -> (r: Result<String, IvanError>)
    ensures
        old(framework).vote is Some ==> (r matches Err(e) && e.spec_kind()
            == BotErrorKind::VoteInProgress && *final(framework) == *old(framework)),
        r matches Err(e) ==> *final(framework) == *old(framework) && (e.spec_kind()
            == BotErrorKind::VoteInProgress || e.spec_kind() == BotErrorKind::InvalidVoteAmount),
        old(framework).vote is None ==> (r is Ok <==> old(framework).config.maps@.len() >= 1 && old(
            framework,
        ).config.spec_sample_size_with(game_mode, requested_count) >= 2 && requested_count <= 10),
        r is Ok ==> final(framework).config == old(framework).config,
        r is Ok ==> final(framework).vote is Some && final(framework).wf(),
        r matches Ok(text) ==> (final(framework).vote matches Some(v) && {
            &&& v.maps@.len() == old(framework).config.spec_sample_size_with(
                game_mode,
                requested_count,
            )
            &&& v.message_id == 0
            &&& v.channel_id == channel_id
            &&& v.countdown == 30
            &&& v.users@ == users@
            &&& spec_teams_view(v.teams) == spec_teams_view(teams)
            &&& text@ == spec_vote_display(v)
            &&& forall|i: int|
                0 <= i < v.maps@.len() ==> choice_from_pool(
                    #[trigger] v.maps@[i],
                    old(framework).config.spec_vote_pool(game_mode),
                    old(framework).config.gun_mode,
                )
        }),
{
    if framework.vote.is_some() {
        return Err(
            IvanError::BotCommandError(
                AdminCommandError {
                    input: String::new(),
                    kind: BotErrorKind::VoteInProgress,
                },
            ),
        );
    }
    let maps = match framework.config.sample_vote_maps(game_mode, requested_count) {
        Ok(m) => m,
        Err(e) => {
            return Err(e);
        },
    };
    let amount64 = requested_count;
    if amount64 > 10 {
        let mut msg = u64_to_string(amount64);
        msg.append(" was more than the amount of emojis I have hardcoded :)");
        return Err(
            IvanError::BotCommandError(
                AdminCommandError { input: msg, kind: BotErrorKind::InvalidVoteAmount },
            ),
        );
    }
    let emojis = match get_random_emojis(amount64 as usize) {
        Ok(v) => v,
        Err(e) => {
            return Err(e);
        },
    };
    let mut choices: Vec<Choice> = Vec::new();
    let mut i: usize = 0;
    let gun_mode = framework.config.get_gun_mode();
    proof {
        assert(maps@.len() <= emojis@.len());
    }
    while i < maps.len()
        invariant
            0 <= i <= maps@.len(),
            maps@.len() <= emojis@.len(),
            choices@.len() == i,
            forall|k: int|
                0 <= k < emojis@.len() ==> is_vote_symbol((#[trigger] emojis@[k])@),
            forall|k1: int, k2: int|
                0 <= k1 < emojis@.len() && 0 <= k2 < emojis@.len() && k1 != k2 ==> (
                #[trigger] emojis@[k1])@ != (#[trigger] emojis@[k2])@,
            forall|k: int| 0 <= k < i ==> (#[trigger] choices@[k]).id@ == emojis@[k]@,
            forall|k: int|
                0 <= k < i ==> (#[trigger] choices@[k]).map@ == maps@[k].map@ && choices@[k].alias@
                    == maps@[k].alias@ && spec_gunmode_allows(
                    maps@[k].gamemode,
                    gun_mode,
                    choices@[k].gamemode,
                ),
        decreases maps@.len() - i,
    {
        let remapped = handle_gunmode(maps[i].gamemode, gun_mode);
        let c = Choice {
            id: emojis[i].clone(),
            map: maps[i].map.clone(),
            alias: maps[i].alias.clone(),
            gamemode: remapped,
        };
        choices.push(c);
        i = i + 1;
    }
    let vote = Vote {
        maps: choices,
        message_id: 0,
        channel_id,
        countdown: 30,
        users,
        teams,
    };
    let text = vote.to_display();
    proof {
        let pool = old(framework).config.spec_vote_pool(game_mode);
        assert forall|k: int| 0 <= k < vote.maps@.len() implies choice_from_pool(
            #[trigger] vote.maps@[k],
            pool,
            gun_mode,
        ) by {
            assert(view_in_pool(maps@[k], pool));
            let j = choose|j: int|
                0 <= j < pool.len() && pool_map_view(maps@[k]) == pool_map_view(#[trigger] pool[j]);
            assert(vote.maps@[k].map@ == pool[j].map@ && vote.maps@[k].alias@ == pool[j].alias@
                && spec_gunmode_allows(pool[j].gamemode, gun_mode, vote.maps@[k].gamemode));
        }
    }
    framework.vote = Some(vote);
    Ok(text)
}

/// A choice built from some entry of the filtered pool: same map and alias,
/// with the gun-mode remap applied to its game mode.
pub open spec fn choice_from_pool(
    c: Choice,
    pool: Seq<crate::config::PoolMap>,
    gun: GunMode,
) -> bool {
    exists|j: int|
        0 <= j < pool.len() && c.map@ == (#[trigger] pool[j]).map@ && c.alias@ == pool[j].alias@
            && spec_gunmode_allows(pool[j].gamemode, gun, c.gamemode)
}

/// What one countdown tick leaves of the remaining seconds.
pub open spec fn spec_tick_countdown(c: nat) -> nat {
    if c >= 3 {
        (c - 3) as nat
    } else {
        0
    }
}

/// What the timer task does on one tick.
pub enum TickAction {
    /// The vote is still open: edit the posted message to this text.
    Edit(String),
    /// The countdown reached zero: resolve the vote now.
    Finish,
    /// No vote is active (or it was superseded): the task stops silently.
    Stop,
}

/// One tick of the countdown task.  With no active vote the task stops —
/// this re-check is the cancellation mechanism.  While seconds remain the
/// countdown decreases strictly and the updated text is returned; at zero
/// the vote is resolved.
pub fn vote_tick(framework: &mut CustomFramework) -> (a: TickAction)
    requires
        old(framework).wf(),
    ensures
        final(framework).wf(),
        final(framework).config == old(framework).config,
        old(framework).vote is None ==> a is Stop && *final(framework) == *old(framework),
        old(framework).vote matches Some(v) && v.countdown == 0 ==> a is Finish
            && *final(framework) == *old(framework),
        old(framework).vote matches Some(v) ==> (v.countdown > 0 ==> (final(framework).vote
            matches Some(v2) && v2.countdown == spec_tick_countdown(v.countdown as nat)
            && v2.maps == v.maps && v2.message_id == v.message_id && v2.channel_id == v.channel_id
            && v2.users == v.users && v2.teams == v.teams && (a matches TickAction::Edit(text)
            && text@ == spec_vote_display(v2)))),
{
    match &mut framework.vote {
        None => TickAction::Stop,
        Some(vote) => {
            if vote.countdown == 0 {
                TickAction::Finish
            } else {
                if vote.countdown >= 3 {
                    vote.countdown = vote.countdown - 3;
                } else {
                    vote.countdown = 0;
                }
                let text = vote.to_display();
                TickAction::Edit(text)
            }
        },
    }
}

/// The countdown after `k` ticks from a 30-second start.
pub open spec fn spec_countdown_after(k: nat) -> nat
    decreases k,
{
    if k == 0 {
        30
    } else {
        spec_tick_countdown(spec_countdown_after((k - 1) as nat))
    }
}

/// The countdown sequence of a 30-second vote with 3-second ticks is
/// monotonically non-increasing — strictly decreasing while positive — and
/// runs 30, 27, ..., 3, 0, reaching zero after 10 ticks and staying there.
pub proof fn lemma_countdown_sequence(k: nat)
    ensures
        spec_countdown_after(k + 1) <= spec_countdown_after(k),
        spec_countdown_after(k) > 0 ==> spec_countdown_after(k + 1) < spec_countdown_after(k),
        k <= 10 ==> spec_countdown_after(k) == 30 - 3 * k,
        k >= 10 ==> spec_countdown_after(k) == 0,
    decreases k,
{
    if k > 0 {
        lemma_countdown_sequence((k - 1) as nat);
    }
}

/// Takes the active vote out of the coordinator, if any: the caller that
/// gets the Vote is the one that resolves it; any later caller observes
/// `VoteNotInProgress`.
pub fn take_vote(framework: &mut CustomFramework) -> (r: Result<Vote, IvanError>)
    ensures
        final(framework).vote is None,
        final(framework).config == old(framework).config,
        old(framework).vote is None ==> (r matches Err(e) && e.spec_kind()
            == BotErrorKind::VoteNotInProgress && *final(framework) == *old(framework)),
        old(framework).vote matches Some(v) ==> r matches Ok(taken) && taken == v,
{
    let taken = framework.vote.take();
    match taken {
        Some(v) => Ok(v),
        None => Err(
            IvanError::BotCommandError(
                AdminCommandError {
                    input: String::new(),
                    kind: BotErrorKind::VoteNotInProgress,
                },
            ),
        ),
    }
}

/// What taking the vote does to the shared state, and whether the caller
/// won the right to resolve it.
pub open spec fn spec_take(s: Option<Vote>) -> (Option<Vote>, bool) {
    match s {
        Some(v) => (None, true),
        None => (None, false),
    }
}

/// Finalize-once: of two callers that try to finish the same vote in turn,
/// exactly the first wins the Vote (when one is active) and every later one
/// observes absence, so the state-change command runs at most once per vote.
pub proof fn lemma_finalize_once(s: Option<Vote>)
    ensures
        (spec_take(s).1 <==> s is Some),
        spec_take(s).0 is None,
        !spec_take(spec_take(s).0).1,
{
}

/// The count recorded for a symbol: the first matching reaction's count, or
/// zero when the symbol is missing.
pub open spec fn spec_reaction_count(rs: Seq<(String, u64)>, sym: Seq<char>) -> u64
    decreases rs.len(),
{
    if rs.len() == 0 {
        0
    } else if rs[0].0@ == sym {
        rs[0].1
    } else {
        spec_reaction_count(rs.drop_first(), sym)
    }
}

fn reaction_count(rs: &Vec<(String, u64)>, sym: &String) -> (r: u64)
    ensures
        r == spec_reaction_count(rs@, sym@),
{
    let mut i: usize = 0;
    proof {
        assert(rs@.skip(0) =~= rs@);
    }
    while i < rs.len()
        invariant
            0 <= i <= rs@.len(),
            spec_reaction_count(rs@, sym@) == spec_reaction_count(rs@.skip(i as int), sym@),
        decreases rs@.len() - i,
    {
        proof {
            assert(rs@.skip(i as int)[0] == rs@[i as int]);
            assert(rs@.skip(i as int).drop_first() =~= rs@.skip(i as int + 1));
        }
        if str_eq(rs[i].0.as_str(), sym.as_str()) {
            return rs[i].1;
        }
        i = i + 1;
    }
    0
}

/// Resolves the winner: every choice's count is looked up (missing symbol
/// means zero), the maximum is found, and among the tied leaders one is
/// chosen uniformly at random.  The result always carries a maximal count.
pub fn determine_winner(vote: &Vote, reactions: &Vec<(String, u64)>) -> (w: usize)
    requires
        vote.maps@.len() >= 1,
    ensures
        w < vote.maps@.len(),
        forall|i: int|
            0 <= i < vote.maps@.len() ==> spec_reaction_count(
                reactions@,
                (#[trigger] vote.maps@[i]).id@,
            ) <= spec_reaction_count(reactions@, vote.maps@[w as int].id@),
{
    let mut counts: Vec<u64> = Vec::new();
    let mut i: usize = 0;
    while i < vote.maps.len()
        invariant
            0 <= i <= vote.maps@.len(),
            counts@.len() == i,
            forall|k: int|
                0 <= k < i ==> counts@[k] == spec_reaction_count(
                    reactions@,
                    (#[trigger] vote.maps@[k]).id@,
                ),
        decreases vote.maps@.len() - i,
    {
        let c = reaction_count(reactions, &vote.maps[i].id);
        counts.push(c);
        i = i + 1;
    }
    let mut max: u64 = counts[0];
    let mut j: usize = 1;
    while j < counts.len()
        invariant
            1 <= j <= counts@.len(),
            counts@.len() >= 1,
            forall|k: int| 0 <= k < j ==> counts@[k] <= max,
            exists|k: int| 0 <= k < j && counts@[k] == max,
        decreases counts@.len() - j,
    {
        if counts[j] > max {
            max = counts[j];
        }
        j = j + 1;
    }
    let mut tied: Vec<usize> = Vec::new();
    let mut k: usize = 0;
    while k < counts.len()
        invariant
            0 <= k <= counts@.len(),
            counts@.len() == vote.maps@.len(),
            forall|t: int| 0 <= t < counts@.len() ==> counts@[t] <= max,
            exists|t: int| 0 <= t < counts@.len() && counts@[t] == max,
            forall|t: int| 0 <= t < tied@.len() ==> #[trigger] tied@[t] < k,
            forall|t: int|
                0 <= t < tied@.len() ==> counts@[#[trigger] tied@[t] as int] == max,
            (exists|x: int| 0 <= x < k && counts@[x] == max) ==> tied@.len() > 0,
        decreases counts@.len() - k,
    {
        if counts[k] >= max {
            tied.push(k);
        }
        k = k + 1;
    }
    proof {
        assert(exists|x: int| 0 <= x < counts@.len() && counts@[x] == max);
    }
    let pick = random_index(tied.len());
    let w = tied[pick];
    proof {
        assert(counts@[w as int] == max);
    }
    w
}

/// The finished vote: who won and what to do about it.
#[derive(Debug)]
pub struct FinishedVote {
    /// The resolved vote, removed from the coordinator.
    pub vote: Vote,
    /// The index of the winning choice in `vote.maps`.
    pub winner: usize,
    /// The state-change command the winning choice stands for.
    pub command: PavlovCommands,
    /// The announcement of the winner.
    pub announcement: String,
}

/// Finishes the vote: takes it (failing with `VoteNotInProgress` when none
/// is active — the finalize-once guard), resolves the winner from the given
/// reaction counts, and returns the switch command to relay.  The caller
/// posts the announcement, relays the command, and moves teams.
pub fn handle_vote_finish(framework: &mut CustomFramework, reactions: &Vec<(String, u64)>) -> (r:
    Result<FinishedVote, IvanError>)
    requires
        old(framework).wf(),
    ensures
        final(framework).wf(),
        final(framework).vote is None,
        final(framework).config == old(framework).config,
        old(framework).vote is None ==> (r matches Err(e) && e.spec_kind()
            == BotErrorKind::VoteNotInProgress && *final(framework) == *old(framework)),
        old(framework).vote matches Some(v) ==> (r matches Ok(f) && {
            &&& f.vote == v
            &&& f.winner < v.maps@.len()
            &&& forall|i: int|
                0 <= i < v.maps@.len() ==> spec_reaction_count(
                    reactions@,
                    (#[trigger] v.maps@[i]).id@,
                ) <= spec_reaction_count(reactions@, v.maps@[f.winner as int].id@)
            &&& f.command == (PavlovCommands::SwitchMap {
                map: v.maps@[f.winner as int].map,
                gamemode: v.maps@[f.winner as int].gamemode,
            })
            &&& f.announcement@ == "The winner is: "@ + v.maps@[f.winner as int].spec_display()
        }),
{
    let vote = match take_vote(framework) {
        Ok(v) => v,
        Err(e) => {
            return Err(e);
        },
    };
    let winner = determine_winner(&vote, reactions);
    let map = vote.maps[winner].map.clone();
    let gamemode = vote.maps[winner].gamemode;
    let mut announcement = String::from_str("The winner is: ");
    let line = vote.maps[winner].to_display();
    announcement.append(line.as_str());
    proof {
        assert(map@ == vote.maps@[winner as int].map@);
    }
    let command = PavlovCommands::SwitchMap { map, gamemode };
    Ok(FinishedVote { vote, winner, command, announcement })
}

/// Sets the posted message's id on the active vote, once the caller has
/// posted it.
pub fn set_vote_message(framework: &mut CustomFramework, message_id: u64)
    requires
        old(framework).wf(),
    ensures
        final(framework).wf(),
        final(framework).config == old(framework).config,
        old(framework).vote is None ==> *final(framework) == *old(framework),
        old(framework).vote matches Some(v) ==> final(framework).vote == Some(
            Vote { message_id, ..v },
        ),
{
    match &mut framework.vote {
        Some(vote) => {
            vote.message_id = message_id;
        },
        None => {},
    }
}

} // verus!
