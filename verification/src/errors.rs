//! The closed error taxonomy of the bot.
//!
//! Every failure the bot can surface is one of the variants below.  The
//! classification `is_fatal` decides whether the relay discards its session
//! and reconnects (connection-level failures) or surfaces the error at once
//! (command rejections, vote-state errors, presentation errors).

use vstd::prelude::*;

verus! {

use vstd::string::StringExecFns;

#[derive(Clone, Copy, Debug, PartialEq, Eq, Structural)]
pub enum BotErrorKind {
    InvalidCommand,
    InvalidArgument,
    MissingArgument,
    ErrorConfig,
    InvalidMapAlias,
    InvalidGameMode,
    VoteInProgress,
    VoteNotInProgress,
    CouldNotReply,
    InvalidVoteAmount,
    InvalidMap,
    InvalidPlayerList,
    ConnectionError,
    Authentication,
    InvalidConnectionAddress,
    MessageRetrieveError,
    MessageEditError,
    DiscordError,
}

impl BotErrorKind {
    /// A fatal error invalidates the current session and justifies one
    /// reconnect attempt; every other kind is surfaced immediately.
    pub open spec fn spec_is_fatal(self) -> bool {
        self is ConnectionError || self is Authentication || self is InvalidConnectionAddress
    }

    pub fn is_fatal(&self) -> (r: bool)
        ensures
            r == self.spec_is_fatal(),
    {
        match self {
            BotErrorKind::ConnectionError => true,
            BotErrorKind::Authentication => true,
            BotErrorKind::InvalidConnectionAddress => true,
            _ => false,
        }
    }

    pub open spec fn spec_message(self) -> Seq<char> {
        match self {
            BotErrorKind::InvalidCommand => "Invalid command try -bothelp (for bot commands) and -help (for pavlov commands)"@,
            BotErrorKind::InvalidArgument => "Invalid argument"@,
            BotErrorKind::MissingArgument => "Missing argument {}"@,
            BotErrorKind::ErrorConfig => "Missing argument {}"@,
            BotErrorKind::InvalidMapAlias => "Invalid map Alias"@,
            BotErrorKind::InvalidGameMode => "Invalid game mode valid valid [DM,TDM,GUN,SND]"@,
            BotErrorKind::VoteInProgress => "There's already a vote in progress"@,
            BotErrorKind::VoteNotInProgress => "There's no vote in progress"@,
            BotErrorKind::CouldNotReply => "Could not reply to the channel"@,
            BotErrorKind::InvalidVoteAmount => "Can't start a vote of this size"@,
            BotErrorKind::InvalidMap => "Invalid map"@,
            BotErrorKind::InvalidPlayerList => "Invalid player list"@,
            BotErrorKind::ConnectionError => "Connection error"@,
            BotErrorKind::Authentication => "Authentication error"@,
            BotErrorKind::InvalidConnectionAddress => "Invalid connection address"@,
            BotErrorKind::MessageRetrieveError => "Could not retrieve the vote message"@,
            BotErrorKind::MessageEditError => "Could not edit the vote message"@,
            BotErrorKind::DiscordError => "Discord error"@,
        }
    }

    pub fn message(&self) -> (r: String)
        ensures
            r@ == self.spec_message(),
    {
        match self {
            BotErrorKind::InvalidCommand => String::from_str("Invalid command try -bothelp (for bot commands) and -help (for pavlov commands)"),
            BotErrorKind::InvalidArgument => String::from_str("Invalid argument"),
            BotErrorKind::MissingArgument => String::from_str("Missing argument {}"),
            BotErrorKind::ErrorConfig => String::from_str("Missing argument {}"),
            BotErrorKind::InvalidMapAlias => String::from_str("Invalid map Alias"),
            BotErrorKind::InvalidGameMode => String::from_str("Invalid game mode valid valid [DM,TDM,GUN,SND]"),
            BotErrorKind::VoteInProgress => String::from_str("There's already a vote in progress"),
            BotErrorKind::VoteNotInProgress => String::from_str("There's no vote in progress"),
            BotErrorKind::CouldNotReply => String::from_str("Could not reply to the channel"),
            BotErrorKind::InvalidVoteAmount => String::from_str("Can't start a vote of this size"),
            BotErrorKind::InvalidMap => String::from_str("Invalid map"),
            BotErrorKind::InvalidPlayerList => String::from_str("Invalid player list"),
            BotErrorKind::ConnectionError => String::from_str("Connection error"),
            BotErrorKind::Authentication => String::from_str("Authentication error"),
            BotErrorKind::InvalidConnectionAddress => String::from_str("Invalid connection address"),
            BotErrorKind::MessageRetrieveError => String::from_str("Could not retrieve the vote message"),
            BotErrorKind::MessageEditError => String::from_str("Could not edit the vote message"),
            BotErrorKind::DiscordError => String::from_str("Discord error"),
        }
    }
}

/// The rendered text of an error: its kind's message, then the offending input.
pub open spec fn error_text(kind: BotErrorKind, input: Seq<char>) -> Seq<char> {
    kind.spec_message() + " because of: \""@ + input + "\""@
}

fn render_error(kind: &BotErrorKind, input: &String) -> (r: String)
    ensures
        r@ == error_text(*kind, input@),
{
    let mut s = kind.message();
    s.append(" because of: \"");
    s.append(input.as_str());
    s.append("\"");
    s
}

/// An error from the game-server connection or command layer.
#[derive(Debug)]
pub struct PavlovError {
    pub input: String,
    pub kind: BotErrorKind,
}

impl PavlovError {
    pub fn to_message(&self) -> (r: String)
        ensures
            r@ == error_text(self.kind, self.input@),
    {
        render_error(&self.kind, &self.input)
    }
}

/// An error from handling an admin command.
#[derive(Debug)]
pub struct AdminCommandError {
    pub input: String,
    pub kind: BotErrorKind,
}

impl AdminCommandError {
    pub fn to_message(&self) -> (r: String)
        ensures
            r@ == error_text(self.kind, self.input@),
    {
        render_error(&self.kind, &self.input)
    }
}

/// An error from the configuration store.
#[derive(Debug)]
pub struct ConfigError {
    pub input: String,
    pub kind: BotErrorKind,
}

impl ConfigError {
    pub fn to_message(&self) -> (r: String)
        ensures
            r@ == error_text(self.kind, self.input@),
    {
        render_error(&self.kind, &self.input)
    }
}

/// Any error the bot can raise to its caller.
#[derive(Debug)]
pub enum IvanError {
    BotCommandError(AdminCommandError),
    BotPavlovError(PavlovError),
    BotConfigError(ConfigError),
}

impl IvanError {
    /// The kind carried by whichever variant this is.
    pub open spec fn spec_kind(self) -> BotErrorKind {
        match self {
            IvanError::BotCommandError(e) => e.kind,
            IvanError::BotPavlovError(e) => e.kind,
            IvanError::BotConfigError(e) => e.kind,
        }
    }

    pub open spec fn spec_input(self) -> Seq<char> {
        match self {
            IvanError::BotCommandError(e) => e.input@,
            IvanError::BotPavlovError(e) => e.input@,
            IvanError::BotConfigError(e) => e.input@,
        }
    }

    pub fn to_message(&self) -> (r: String)
        ensures
            r@ == error_text(self.spec_kind(), self.spec_input()),
    {
        match self {
            IvanError::BotCommandError(e) => e.to_message(),
            IvanError::BotPavlovError(e) => e.to_message(),
            IvanError::BotConfigError(e) => e.to_message(),
        }
    }
}

/// Converts a connection-layer error into an admin-command error, keeping
/// its kind and offending input.
pub fn convert_error_not_found<T>(result: Result<T, PavlovError>) -> (r: Result<T, AdminCommandError>)
    ensures
        result is Ok ==> r is Ok,
        r matches Err(e) ==> (result matches Err(p) && e.kind == p.kind && e.input@ == p.input@),
{
    match result {
        Ok(v) => Ok(v),
        Err(e) => Err(AdminCommandError { input: e.input, kind: e.kind }),
    }
}

} // verus!
