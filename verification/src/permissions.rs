//! Who may run what: the three permission levels and the admin/moderator
//! list commands.

use vstd::prelude::*;

verus! {

use vstd::string::StringExecFns;
use crate::config::IvanConfig;
use crate::errors::{AdminCommandError, BotErrorKind};
use crate::parsing::parse_discord_id;
use crate::pavlov::pa;
use crate::pavlov::valid_u64_text;
use crate::text::{dec_digits, str_eq, str_to_nat, u64_to_string};

#[derive(Clone, Copy, Debug, PartialEq, Eq, Structural)]
pub enum PermissionLevel {
    Admin,
    Mod,
    User,
    Anonymous,
}

impl PermissionLevel {
    pub open spec fn spec_text(self) -> Seq<char> {
        match self {
            PermissionLevel::Admin => "Admin"@,
            PermissionLevel::Mod => "Mod"@,
            PermissionLevel::User => "User"@,
            PermissionLevel::Anonymous => "None"@,
        }
    }

    pub fn to_text(&self) -> (r: String)
        ensures
            r@ == self.spec_text(),
    {
        match self {
            PermissionLevel::Admin => String::from_str("Admin"),
            PermissionLevel::Mod => String::from_str("Mod"),
            PermissionLevel::User => String::from_str("User"),
            PermissionLevel::Anonymous => String::from_str("None"),
        }
    }
}

/// The commands a moderator may run, besides everything a user may.
pub open spec fn spec_mod_allowed(low: Seq<char>) -> bool {
    ||| spec_user_allowed(low)
    ||| low == "switchmap"@
    ||| low == "rotatemap"@
    ||| low == "alias"@
    ||| low == "map"@
    ||| low == "maplist"@
    ||| low == "switchteam"@
    ||| low == "giveitem"@
    ||| low == "givecash"@
    ||| low == "setCash"@
    ||| low == "resetsnd"@
    ||| low == "setplayerskin"@
    ||| low == "setlimitedammotype"@
}

/// The commands any permitted user may run.
pub open spec fn spec_user_allowed(low: Seq<char>) -> bool {
    ||| low == "inspectplayer"@
    ||| low == "serverinfo"@
    ||| low == "refreshlist"@
    ||| low == "bothelp"@
    ||| low == "maplist"@
}

pub fn mod_allowed(argument: String) -> (r: bool)
    ensures
        r == spec_mod_allowed(argument@),
{
    let a = argument.as_str();
    user_allowed_str(a) || str_eq(a, "switchmap") || str_eq(a, "rotatemap") || str_eq(a, "alias")
        || str_eq(a, "map") || str_eq(a, "maplist") || str_eq(a, "switchteam") || str_eq(
        a,
        "giveitem",
    ) || str_eq(a, "givecash") || str_eq(a, "setCash") || str_eq(a, "resetsnd") || str_eq(
        a,
        "setplayerskin",
    ) || str_eq(a, "setlimitedammotype")
}

fn user_allowed_str(a: &str) -> (r: bool)
    ensures
        r == spec_user_allowed(a@),
{
    str_eq(a, "inspectplayer") || str_eq(a, "serverinfo") || str_eq(a, "refreshlist") || str_eq(
        a,
        "bothelp",
    ) || str_eq(a, "maplist")
}

pub fn user_allowed(argument: String) -> (r: bool)
    ensures
        r == spec_user_allowed(argument@),
{
    user_allowed_str(argument.as_str())
}

fn add_admin(id: u64, config: &mut IvanConfig) -> (r: Result<String, AdminCommandError>)
    ensures
        final(config).admins@ == old(config).admins@.filter(|x: u64| x != id).push(id),
        final(config).mods@ == old(config).mods@,
        r matches Ok(m) && m@ == "Added admin with id \""@ + dec_digits(id as nat)
            + "\" to the admin list"@,
{
    config.add_admin(id);
    let mut m = String::from_str("Added admin with id \"");
    let d = u64_to_string(id);
    m.append(d.as_str());
    m.append("\" to the admin list");
    Ok(m)
}

fn remove_admin(id: u64, config: &mut IvanConfig) -> (r: Result<String, AdminCommandError>)
    ensures
        final(config).admins@ == old(config).admins@.filter(|x: u64| x != id),
        final(config).mods@ == old(config).mods@,
        r matches Ok(m) && m@ == "Removed admin with id \""@ + dec_digits(id as nat)
            + "\" from the admin list"@,
{
    config.remove_admin(id);
    let mut m = String::from_str("Removed admin with id \"");
    let d = u64_to_string(id);
    m.append(d.as_str());
    m.append("\" from the admin list");
    Ok(m)
}

fn add_mod(id: u64, config: &mut IvanConfig) -> (r: Result<String, AdminCommandError>)
    ensures
        final(config).mods@ == old(config).mods@.filter(|x: u64| x != id).push(id),
        final(config).admins@ == old(config).admins@,
        r matches Ok(m) && m@ == "Added moderator with id \""@ + dec_digits(id as nat)
            + "\" to the moderator list"@,
{
    config.add_mod(id);
    let mut m = String::from_str("Added moderator with id \"");
    let d = u64_to_string(id);
    m.append(d.as_str());
    m.append("\" to the moderator list");
    Ok(m)
}

fn remove_mod(id: u64, config: &mut IvanConfig) -> (r: Result<String, AdminCommandError>)
    ensures
        final(config).mods@ == old(config).mods@.filter(|x: u64| x != id),
        final(config).admins@ == old(config).admins@,
        r matches Ok(m) && m@ == "Removed moderator with id \""@ + dec_digits(id as nat)
            + "\" from the moderator list"@,
{
    config.remove_mod(id);
    let mut m = String::from_str("Removed moderator with id \"");
    let d = u64_to_string(id);
    m.append(d.as_str());
    m.append("\" from the moderator list");
    Ok(m)
}

/// Handles `-mod add <id>` and `-mod remove <id>`: updates the moderator
/// list and reports what was done; anything else is `InvalidArgument` or
/// `MissingArgument`.
pub fn handle_mod(arguments: &Vec<String>, config: &mut IvanConfig) -> (r: Result<
    String,
    AdminCommandError,
>)
    ensures
        final(config).admins@ == old(config).admins@,
        r is Err ==> final(config).mods@ == old(config).mods@,
        r matches Err(e) ==> e.kind == BotErrorKind::MissingArgument || e.kind
            == BotErrorKind::InvalidArgument,
        arguments@.len() >= 3 && arguments@[1]@ == "add"@ && valid_u64_text(arguments@[2]@) ==> (r
            matches Ok(m) && final(config).mods@ == old(config).mods@.filter(
            |x: u64| x != (str_to_nat(arguments@[2]@) as u64),
        ).push((str_to_nat(arguments@[2]@) as u64)) && m@ == "Added moderator with id \""@
            + dec_digits(str_to_nat(arguments@[2]@)) + "\" to the moderator list"@),
        arguments@.len() >= 3 && arguments@[1]@ == "remove"@ && valid_u64_text(arguments@[2]@)
            ==> (r matches Ok(m) && final(config).mods@ == old(config).mods@.filter(
            |x: u64| x != (str_to_nat(arguments@[2]@) as u64),
        ) && m@ == "Removed moderator with id \""@ + dec_digits(str_to_nat(arguments@[2]@))
            + "\" from the moderator list"@),
        arguments@.len() >= 2 && arguments@[1]@ != "add"@ && arguments@[1]@ != "remove"@ ==> (r
            matches Err(e) && e.kind == BotErrorKind::InvalidArgument),
        arguments@.len() >= 3 && !valid_u64_text(arguments@[2]@) ==> r is Err,
        arguments@.len() < 2 ==> (r matches Err(e) && e.kind == BotErrorKind::MissingArgument),
{
    proof {
        reveal_strlit("add");
        reveal_strlit("remove");
        assert("add"@.len() == 3);
        assert("remove"@.len() == 6);
    }
    let mode = match pa(arguments, 1, "valid ones are {add, remove}") {
        Ok(v) => v,
        Err(e) => {
            return Err(
                AdminCommandError {
                    input: String::from_str("valid ones are {add, remove}"),
                    kind: BotErrorKind::MissingArgument,
                },
            );
        },
    };
    if str_eq(mode.as_str(), "add") {
        let arg = match pa(arguments, 2, "specify a discord id") {
            Ok(v) => v,
            Err(e) => {
                return Err(
                    AdminCommandError {
                        input: String::from_str("specify a discord id"),
                        kind: BotErrorKind::MissingArgument,
                    },
                );
            },
        };
        match parse_discord_id(arg.as_str()) {
            Ok(id) => add_mod(id, config),
            Err(e) => Err(
                AdminCommandError { input: e.to_message(), kind: BotErrorKind::InvalidArgument },
            ),
        }
    } else if str_eq(mode.as_str(), "remove") {
        let arg = match pa(arguments, 2, "specify a discord id") {
            Ok(v) => v,
            Err(e) => {
                return Err(
                    AdminCommandError {
                        input: String::from_str("specify a discord id"),
                        kind: BotErrorKind::MissingArgument,
                    },
                );
            },
        };
        match parse_discord_id(arg.as_str()) {
            Ok(id) => remove_mod(id, config),
            Err(e) => Err(
                AdminCommandError { input: e.to_message(), kind: BotErrorKind::InvalidArgument },
            ),
        }
    } else {
        Err(AdminCommandError { input: mode, kind: BotErrorKind::InvalidArgument })
    }
}

/// Handles `-admin add <id>` and `-admin remove <id>`, as `handle_mod` does
/// for moderators.
pub fn handle_admin(arguments: &Vec<String>, config: &mut IvanConfig) -> (r: Result<
    String,
    AdminCommandError,
>)
    ensures
        final(config).mods@ == old(config).mods@,
        r is Err ==> final(config).admins@ == old(config).admins@,
        r matches Err(e) ==> e.kind == BotErrorKind::MissingArgument || e.kind
            == BotErrorKind::InvalidArgument,
        arguments@.len() >= 3 && arguments@[1]@ == "add"@ && valid_u64_text(arguments@[2]@) ==> (r
            matches Ok(m) && final(config).admins@ == old(config).admins@.filter(
            |x: u64| x != (str_to_nat(arguments@[2]@) as u64),
        ).push((str_to_nat(arguments@[2]@) as u64)) && m@ == "Added admin with id \""@ + dec_digits(
            str_to_nat(arguments@[2]@),
        ) + "\" to the admin list"@),
        arguments@.len() >= 3 && arguments@[1]@ == "remove"@ && valid_u64_text(arguments@[2]@)
            ==> (r matches Ok(m) && final(config).admins@ == old(config).admins@.filter(
            |x: u64| x != (str_to_nat(arguments@[2]@) as u64),
        ) && m@ == "Removed admin with id \""@ + dec_digits(str_to_nat(arguments@[2]@))
            + "\" from the admin list"@),
        arguments@.len() >= 2 && arguments@[1]@ != "add"@ && arguments@[1]@ != "remove"@ ==> (r
            matches Err(e) && e.kind == BotErrorKind::InvalidArgument),
        arguments@.len() >= 3 && !valid_u64_text(arguments@[2]@) ==> r is Err,
        arguments@.len() < 2 ==> (r matches Err(e) && e.kind == BotErrorKind::MissingArgument),
{
    proof {
        reveal_strlit("add");
        reveal_strlit("remove");
        assert("add"@.len() == 3);
        assert("remove"@.len() == 6);
    }
    let mode = match pa(arguments, 1, "valid ones are {add, remove}") {
        Ok(v) => v,
        Err(e) => {
            return Err(
                AdminCommandError {
                    input: String::from_str("valid ones are {add, remove}"),
                    kind: BotErrorKind::MissingArgument,
                },
            );
        },
    };
    if str_eq(mode.as_str(), "add") {
        let arg = match pa(arguments, 2, "specify a discord id") {
            Ok(v) => v,
            Err(e) => {
                return Err(
                    AdminCommandError {
                        input: String::from_str("specify a discord id"),
                        kind: BotErrorKind::MissingArgument,
                    },
                );
            },
        };
        match parse_discord_id(arg.as_str()) {
            Ok(id) => add_admin(id, config),
            Err(e) => Err(
                AdminCommandError { input: e.to_message(), kind: BotErrorKind::InvalidArgument },
            ),
        }
    } else if str_eq(mode.as_str(), "remove") {
        let arg = match pa(arguments, 2, "specify a discord id") {
            Ok(v) => v,
            Err(e) => {
                return Err(
                    AdminCommandError {
                        input: String::from_str("specify a discord id"),
                        kind: BotErrorKind::MissingArgument,
                    },
                );
            },
        };
        match parse_discord_id(arg.as_str()) {
            Ok(id) => remove_admin(id, config),
            Err(e) => Err(
                AdminCommandError { input: e.to_message(), kind: BotErrorKind::InvalidArgument },
            ),
        }
    } else {
        Err(AdminCommandError { input: mode, kind: BotErrorKind::InvalidArgument })
    }
}

} // verus!
