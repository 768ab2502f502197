//! Parsing of chat-platform identifiers.

use vstd::prelude::*;

verus! {

use vstd::string::StringExecFns;
use crate::errors::{AdminCommandError, BotErrorKind, IvanError};
use crate::text::{parse_u64, str_to_nat};
use crate::pavlov::valid_u64_text;

/// Parses a decimal user id; anything else fails with `InvalidArgument`.
pub fn parse_discord_id(value: &str) -> (r: Result<u64, IvanError>)
    ensures
        valid_u64_text(value@) ==> r is Ok,
        r matches Ok(n) ==> valid_u64_text(value@) && n == str_to_nat(value@),
        r matches Err(e) ==> !valid_u64_text(value@) && e.spec_kind()
            == BotErrorKind::InvalidArgument && e.spec_input() == "Invalid discord id \""@ + value@
            + "\""@,
{
    match parse_u64(value) {
        Some(n) => Ok(n),
        None => {
            let mut msg = String::from_str("Invalid discord id \"");
            msg.append(value);
            msg.append("\"");
            Err(
                IvanError::BotCommandError(
                    AdminCommandError { input: msg, kind: BotErrorKind::InvalidArgument },
                ),
            )
        },
    }
}

} // verus!
