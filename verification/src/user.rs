//! The user record.

use uuid::Uuid;
use vstd::prelude::*;

verus! {

/// A user of the service.
#[derive(Debug)]
pub struct User {
    /// The identifier given to the record when it was made.
    pub id: String,
    /// The name the user goes by.
    pub username: String,
    /// The address the user is written to.
    pub email: String,
}

/// Whether `c` is one of `0`-`9`, `a`-`f`.
pub open spec fn is_lower_hex_digit(c: char) -> bool {
    ('0' <= c <= '9') || ('a' <= c <= 'f')
}

/// Whether `text` is a random (version 4) UUID in its usual form: 36
/// characters, lowercase hexadecimal digits in groups of 8, 4, 4, 4 and 12 with
/// a hyphen between groups, the third group starting with `4` and the fourth
/// with `8`, `9`, `a` or `b`.
pub open spec fn is_random_uuid(text: Seq<char>) -> bool {
    &&& text.len() == 36
    &&& forall|k: int|
        0 <= k < 36 ==> if k == 8 || k == 13 || k == 18 || k == 23 {
            #[trigger] text[k] == '-'
        } else {
            is_lower_hex_digit(text[k])
        }
    &&& text[14] == '4'
    &&& (text[19] == '8' || text[19] == '9' || text[19] == 'a' || text[19] == 'b')
}

/// Draws an identifier: a UUID from `Uuid::new_v4`, written by its
/// `to_string`. Assumed: the text has the form of a random UUID. Nothing is
/// assumed of the digits that chance decides. The call does not return where
/// the operating system has no random bytes to give.
#[verifier::external_body]
fn fresh_id() -> (id: String)
    ensures
        is_random_uuid(id@),
{
    Uuid::new_v4().to_string()
}

/// Tells whether `c` occurs in `text`.
fn has_char(text: &str, c: char) -> (found: bool)
    ensures
        found == text@.contains(c),
{
    let mut found = false;
    for x in it: text.chars()
        invariant
            it.seq() == text@,
            found == exists|k: int| 0 <= k < it.index() && text@[k] == c,
    {
        if x == c {
            found = true;
        }
    }
    found
}

/// Whether a user of this name and address can be stored: there is a name,
/// and an address with an `@` in it.
pub open spec fn storable(username: Seq<char>, email: Seq<char>) -> bool {
    &&& username.len() > 0
    &&& email.len() > 0
    &&& email.contains('@')
}

impl User {
    /// Makes the record of a user, under an identifier drawn for it.
    pub fn new(username: String, email: String) -> (user: User)
        ensures
            user.username == username,
            user.email == email,
            is_random_uuid(user.id@),
    {
        User { id: fresh_id(), username, email }
    }

    /// Whether the record can be stored.
    pub open spec fn is_valid(&self) -> bool {
        storable(self.username@, self.email@)
    }

    /// Tells whether the record can be stored.
    pub fn validate(&self) -> (ok: bool)
        ensures
            ok == self.is_valid(),
    {
        !self.username.as_str().is_empty() && !self.email.as_str().is_empty() && has_char(
            self.email.as_str(),
            '@',
        )
    }
}

impl Clone for User {
    fn clone(&self) -> (user: Self)
        ensures
            user == *self,
    {
        User { id: self.id.clone(), username: self.username.clone(), email: self.email.clone() }
    }
}

} // verus!
