//! Checks on the lobby named by an administrative command (close,
//! reschedule).
use vstd::prelude::*;
use crate::recovery::LobbyRecord;

verus! {

/// The hyphenated text of the UUID that `s` names, if it names one.
pub uninterp spec fn uuid_hyphenated(s: Seq<char>) -> Option<Seq<char>>;

/// Relies on `uuid::Uuid::parse_str` and `Uuid::hyphenated`: the text of
/// the parsed UUID in hyphenated form, which is 36 characters long, or `None`
/// when the text is not a UUID.
#[verifier::external_body]
fn parse_uuid(text: &str) -> (r: Option<String>)
    ensures
        r is None <==> uuid_hyphenated(text@) is None,
        r matches Some(k) ==> uuid_hyphenated(text@) == Some(k@) && k@.len() == 36,
{
    match uuid::Uuid::parse_str(text) {
        Ok(u) => Some(u.hyphenated().to_string()),
        Err(_) => None,
    }
}

/// Why a command may not act on a lobby.
#[derive(Clone, Copy, Debug, PartialEq, Eq, Structural)]
pub enum TargetError {
    /// The given id is not a UUID.
    InvalidId,
    /// The lobby belongs to another guild.
    WrongGuild,
    /// The lobby is no longer active.
    NotActive,
}

/// The registry key of the lobby id given as text: its hyphenated form.
pub fn lobby_key(text: &str) -> (r: Result<String, TargetError>)
    ensures
        r is Err <==> uuid_hyphenated(text@) is None,
        r is Err ==> r == Err::<String, TargetError>(TargetError::InvalidId),
        r matches Ok(k) ==> uuid_hyphenated(text@) == Some(k@) && k@.len() == 36,
{
    match parse_uuid(text) {
        Some(k) => Ok(k),
        None => Err(TargetError::InvalidId),
    }
}

/// Whether a command issued in guild `guild` may act on the stored lobby.
pub fn check_target(record: &LobbyRecord, guild: u64) -> (r: Result<(), TargetError>)
    ensures
        record.guild_id != guild ==> r == Err::<(), TargetError>(TargetError::WrongGuild),
        record.guild_id == guild && !record.active ==> r == Err::<(), TargetError>(
            TargetError::NotActive,
        ),
        record.guild_id == guild && record.active ==> r is Ok,
{
    if record.guild_id != guild {
        Err(TargetError::WrongGuild)
    } else if !record.active {
        Err(TargetError::NotActive)
    } else {
        Ok(())
    }
}

} // verus!
