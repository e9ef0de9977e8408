//! The arguments that call client requests hand to the native SDK, where the
//! bindings compute or check them.
use vstd::prelude::*;

use crate::error::{DailyError, ErrorKind};

verus! {

/// An ASCII hexadecimal digit, in either case.
pub open spec fn is_hex_digit(c: char) -> bool {
    ('0' <= c && c <= '9') || ('a' <= c && c <= 'f') || ('A' <= c && c <= 'F')
}

/// 32 hex digits in five groups of 8, 4, 4, 4 and 12, joined by hyphens.
pub open spec fn is_hyphenated_uuid(s: Seq<char>) -> bool {
    &&& s.len() == 36
    &&& forall|i: int|
        0 <= i < 36 ==> if i == 8 || i == 13 || i == 18 || i == 23 {
            s[i] == '-'
        } else {
            is_hex_digit(#[trigger] s[i])
        }
}

/// 32 hex digits with nothing between them.
pub open spec fn is_simple_uuid(s: Seq<char>) -> bool {
    s.len() == 32 && forall|i: int| 0 <= i < 32 ==> is_hex_digit(#[trigger] s[i])
}

/// `c` is `lower`, or its ASCII upper-case form when `lower` is a letter.
pub open spec fn ascii_matches_ignoring_case(c: char, lower: char) -> bool {
    c == lower || ('a' <= lower && lower <= 'z' && c as int == lower as int - 32)
}

/// The first nine characters spell "urn:uuid:" in any ASCII case.
pub open spec fn has_urn_prefix(s: Seq<char>) -> bool {
    let prefix = seq!['u', 'r', 'n', ':', 'u', 'u', 'i', 'd', ':'];
    s.len() >= 9 && forall|i: int| 0 <= i < 9 ==> ascii_matches_ignoring_case(#[trigger] s[i], prefix[i])
}

/// The texts that `uuid::Uuid` parses: 32 hex digits; the hyphenated form;
/// the hyphenated form in braces; or "urn:uuid:", in any case, followed by
/// the hyphenated form.
pub open spec fn is_uuid_text(s: Seq<char>) -> bool {
    ||| is_simple_uuid(s)
    ||| is_hyphenated_uuid(s)
    ||| (s.len() == 38 && s[0] == '{' && s[37] == '}' && is_hyphenated_uuid(s.subrange(1, 37)))
    ||| (s.len() == 45 && has_urn_prefix(s) && is_hyphenated_uuid(s.subrange(9, 45)))
}

/// Calls `<uuid::Uuid as FromStr>::from_str` and reports whether it parsed
/// the text. uuid's `try_parse` accepts exactly the shapes of
/// `is_uuid_text`: it switches on the byte length (32, 36, 38 or 45), checks
/// the hyphens, braces or "urn:uuid:" prefix, and decodes the remaining 32
/// characters as hex digits of either case. Every accepted text is ASCII, so
/// its characters are its bytes.
#[verifier::external_body]
fn participant_id_parses(participant_id: &str) -> (r: bool)
    ensures
        r == is_uuid_text(participant_id@),
{
    <uuid::Uuid as std::str::FromStr>::from_str(participant_id).is_ok()
}

/// The checks of an app message before it is sent, given whether the
/// message is `None` and, for a participant ID, whether it parses as a UUID.
pub fn app_message_check(
    message_is_none: bool,
    participant_id: Option<&str>,
    participant_id_is_uuid: bool,
) -> (r: Result<(), DailyError>)
    ensures
        match r {
            Ok(_) => !message_is_none && (participant_id is Some ==> participant_id_is_uuid),
            Err(e) => if message_is_none {
                e.is(ErrorKind::ValueError, "invalid app message 'None'"@)
            } else {
                &&& participant_id is Some
                &&& !participant_id_is_uuid
                &&& e.is(
                    ErrorKind::ValueError,
                    "invalid participant ID '"@ + participant_id.unwrap()@ + "'"@,
                )
            },
        },
{
    if message_is_none {
        return Err(DailyError::new(ErrorKind::ValueError, "invalid app message 'None'"));
    }
    match participant_id {
        Some(id) => if participant_id_is_uuid {
            Ok(())
        } else {
            Err(DailyError::with_value(ErrorKind::ValueError, "invalid participant ID '", id, "'"))
        },
        None => Ok(()),
    }
}

/// Checks an app message before it is sent: the message cannot be `None`,
/// and a participant ID, when given, must be a UUID.
pub fn check_app_message(message_is_none: bool, participant_id: Option<&str>) -> (r: Result<(), DailyError>)
    ensures
        match r {
            Ok(_) => !message_is_none && (participant_id matches Some(id) ==> is_uuid_text(id@)),
            Err(e) => if message_is_none {
                e.is(ErrorKind::ValueError, "invalid app message 'None'"@)
            } else {
                &&& participant_id matches Some(id)
                &&& !is_uuid_text(id@)
                &&& e.is(ErrorKind::ValueError, "invalid participant ID '"@ + id@ + "'"@)
            },
        },
{
    let is_uuid = match participant_id {
        Some(id) => if message_is_none {
            false
        } else {
            participant_id_parses(id)
        },
        None => false,
    };
    app_message_check(message_is_none, participant_id, is_uuid)
}

/// The value that tells the native SDK whether the SFU ignores a custom
/// audio track when it computes audio levels: 1 for yes, 0 for no, -1 to
/// leave it to the default.
pub fn ignore_audio_level_value(ignore_audio_level: Option<bool>) -> (r: i32)
    ensures
        r == match ignore_audio_level {
            Some(true) => 1i32,
            Some(false) => 0i32,
            None => -1i32,
        },
{
    match ignore_audio_level {
        Some(true) => 1,
        Some(false) => 0,
        None => -1,
    }
}

} // verus!
