use vstd::prelude::*;
use crate::text::{push_signed_decimal, signed_decimal};

verus! {

/// Longest username accepted, in bytes of UTF-8 (`str::len`).
pub const MAX_USERNAME_BYTES: usize = 32;

/// Why the server refuses to rename a player.
#[derive(Debug)]
pub enum RegistrationError {
    /// The requested name is empty.
    EmptyName,
    /// The requested name is longer than 32 bytes.
    NameTooLong,
    /// Another player already carries the requested name.
    NameTaken(String),
    /// The requesting client has no player yet (it never connected).
    PlayerNotFound,
}

/// The server's answer to a rename request, given whether the name belongs
/// to another player and whether the requester has a player record.
pub open spec fn spec_registration(
    username: &str,
    name_taken_by_other: bool,
    requester_registered: bool,
) -> Option<int> {
    if username@.len() == 0 {
        Some(0)
    } else if username.len() > MAX_USERNAME_BYTES {
        Some(1)
    } else if name_taken_by_other {
        Some(2)
    } else if !requester_registered {
        Some(3)
    } else {
        None
    }
}

/// Checks a rename request: the name must be non-empty, at most 32 bytes
/// long and not carried by another player, and the requester must already
/// have a player record. `name_taken_by_other` tells whether a player
/// with that name exists and is someone else.
pub fn validate_registration(
    username: &str,
    name_taken_by_other: bool,
    requester_registered: bool,
) -> (result: Result<(), RegistrationError>)
    ensures
        username@.len() == 0 ==> result matches Err(RegistrationError::EmptyName),
        username@.len() != 0 && username.len() > MAX_USERNAME_BYTES
            ==> result matches Err(RegistrationError::NameTooLong),
        username@.len() != 0 && username.len() <= MAX_USERNAME_BYTES && name_taken_by_other
            ==> (result matches Err(RegistrationError::NameTaken(name)) && name@ == username@),
        username@.len() != 0 && username.len() <= MAX_USERNAME_BYTES && !name_taken_by_other
            && !requester_registered ==> result matches Err(RegistrationError::PlayerNotFound),
        result is Ok <==> spec_registration(username, name_taken_by_other, requester_registered) is None,
{
    if username.is_empty() {
        return Err(RegistrationError::EmptyName);
    }
    if username.len() > MAX_USERNAME_BYTES {
        return Err(RegistrationError::NameTooLong);
    }
    if name_taken_by_other {
        return Err(RegistrationError::NameTaken(String::from_str(username)));
    }
    if !requester_registered {
        return Err(RegistrationError::PlayerNotFound);
    }
    Ok(())
}

impl RegistrationError {
    /// The message sent back to the client.
    pub fn message(&self) -> (text: String)
        ensures
            text@ == (match self {
                RegistrationError::EmptyName => "Username must not be empty"@,
                RegistrationError::NameTooLong => "Username must be 32 characters or less"@,
                RegistrationError::NameTaken(name) => "'"@ + name@ + "' is already taken!"@,
                RegistrationError::PlayerNotFound => "Cannot rename: player not found. Connect first."@,
            }),
    {
        match self {
            RegistrationError::EmptyName => String::from_str("Username must not be empty"),
            RegistrationError::NameTooLong => String::from_str("Username must be 32 characters or less"),
            RegistrationError::NameTaken(name) => {
                let mut text = String::from_str("'");
                text.append(name.as_str());
                text.append("' is already taken!");
                text
            },
            RegistrationError::PlayerNotFound => String::from_str("Cannot rename: player not found. Connect first."),
        }
    }
}

/// Name given to a new player: the generated one, or "player-" followed by
/// the connection time in microseconds when generation gave nothing.
pub fn username_or_fallback(generated: Option<String>, micros_since_epoch: i64) -> (name: String)
    ensures
        match generated {
            Some(g) => name@ == g@,
            None => name@ == seq!['p', 'l', 'a', 'y', 'e', 'r', '-'] + signed_decimal(micros_since_epoch as int),
        },
{
    match generated {
        Some(g) => g,
        None => {
            proof { reveal_strlit("player-"); }
            let mut name = String::from_str("player-");
            push_signed_decimal(&mut name, micros_since_epoch);
            name
        },
    }
}

/// A rename is accepted exactly when the name is 1 to 32 bytes long, free or
/// already the requester's, and the requester is known.
pub proof fn lemma_registration_accepts(username: &str, name_taken_by_other: bool, requester_registered: bool)
    ensures
        spec_registration(username, name_taken_by_other, requester_registered) is None <==> (
            username@.len() != 0 && username.len() <= MAX_USERNAME_BYTES
            && !name_taken_by_other && requester_registered),
{
}

} // verus!
