//! The bot's users.

use vstd::prelude::*;
use vstd::string::*;

verus! {

/// A user as the bot knows them.
#[derive(Clone, Debug, PartialEq, Eq)]
pub struct BotUser {
    pub id: i64,
    pub username: Option<String>,
    pub first_name: String,
    pub beta: bool,
    pub waitlist: bool,
}

impl BotUser {
    /// The user name where there is one, else the first name.
    pub open spec fn name_spec(&self) -> Seq<char> {
        match self.username {
            Some(name) => name@,
            None => self.first_name@,
        }
    }

    /// A user who has asked for nothing yet.
    pub fn new(id: i64, username: Option<String>, first_name: String) -> (user: BotUser)
        ensures
            user.id == id,
            user.username == username,
            user.first_name == first_name,
            !user.beta,
            !user.waitlist,
    {
        BotUser { id, username, first_name, beta: false, waitlist: false }
    }

    /// The name to show for the user.
    pub fn user_or_name(&self) -> (name: String)
        ensures
            name@ == self.name_spec(),
    {
        match &self.username {
            Some(name) => name.clone(),
            None => self.first_name.clone(),
        }
    }
}

/// The name to show for the sender of a message, who may be unknown.
pub open spec fn represent_user_spec(user: Option<BotUser>) -> Seq<char> {
    match user {
        Some(u) => u.name_spec(),
        None => "unknown"@,
    }
}

/// The name under which a message's sender appears in the log.
pub fn represent_user(user: &Option<BotUser>) -> (name: String)
    ensures
        name@ == represent_user_spec(*user),
{
    match user {
        Some(u) => u.user_or_name(),
        None => String::from_str("unknown"),
    }
}

/// Whether the sender is the administrator: known, with a user name, and
/// that name the configured one.
pub open spec fn is_admin_spec(user: Option<BotUser>, admin: Seq<char>) -> bool {
    match user {
        Some(u) => u.username matches Some(name) && name@ == admin,
        None => false,
    }
}

/// Whether the sender of a message is the administrator named `admin`.
pub fn is_admin(user: &Option<BotUser>, admin: &String) -> (yes: bool)
    ensures
        yes == is_admin_spec(*user, admin@),
{
    match user {
        Some(u) => match &u.username {
            Some(name) => *name == *admin,
            None => false,
        },
        None => false,
    }
}

} // verus!
