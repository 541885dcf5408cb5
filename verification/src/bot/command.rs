//! The commands the bot understands, and who may give them.

use vstd::prelude::*;
use vstd::string::*;

verus! {

/// A command with its argument.
#[derive(Clone, Debug, PartialEq, Eq)]
pub enum Command {
    Start,
    Help,
    Search(String),
    SearchAdvanced(String),
    SearchAdvancedEpisode(String),
    Beta,
    BetaList,
    BetaWaitList,
    BetaAccept(String),
    Cancel,
}

/// What the bot does with a command, given who sent it.
#[derive(Clone, Copy, Debug, PartialEq, Eq, Structural)]
pub enum Access {
    /// The command is carried out.
    Granted,
    /// The sender is not on the whitelist: they are told so.
    NotWhitelisted,
    /// The command is the administrator's and the sender is someone else.
    NotAuthorized,
}

impl Command {
    /// Whether only the administrator may give the command.
    pub open spec fn admin_access_spec(&self) -> bool {
        self is BetaList || self is BetaWaitList || self is BetaAccept
    }

    /// Whether the command is open to users who are not on the whitelist.
    pub open spec fn unrestricted_spec(&self) -> bool {
        self is Beta || self is BetaList || self is BetaWaitList || self is BetaAccept
    }

    /// The command's name and, where it has one, its argument after a space.
    pub open spec fn text_spec(&self) -> Seq<char> {
        match self {
            Command::Start => "start"@,
            Command::Help => "help"@,
            Command::Search(q) => "search "@ + q@,
            Command::SearchAdvanced(q) => "searchAdvanced "@ + q@,
            Command::SearchAdvancedEpisode(q) => "searchAdvancedEpisode "@ + q@,
            Command::Beta => "beta"@,
            Command::BetaList => "betaList"@,
            Command::BetaWaitList => "betaWaitList"@,
            Command::BetaAccept(q) => "betaAccept "@ + q@,
            Command::Cancel => "cancel"@,
        }
    }

    /// Whether the whitelist must be asked: the command is restricted and
    /// the sender is known.
    pub open spec fn needs_whitelist_spec(&self, known_sender: bool) -> bool {
        !self.unrestricted_spec() && known_sender
    }

    /// What becomes of the command: a sender who was looked up and is not on
    /// the whitelist is turned away first; then a command of the
    /// administrator from anyone else.
    pub open spec fn access_spec(&self, whitelisted: Option<bool>, admin: bool) -> Access {
        if !self.unrestricted_spec() && whitelisted == Some(false) {
            Access::NotWhitelisted
        } else if self.admin_access_spec() && !admin {
            Access::NotAuthorized
        } else {
            Access::Granted
        }
    }

    /// Whether only the administrator may give the command.
    pub fn admin_access(&self) -> (yes: bool)
        ensures
            yes == self.admin_access_spec(),
    {
        matches!(self, Command::BetaList | Command::BetaWaitList | Command::BetaAccept(..))
    }

    /// Whether the command is open to users who are not on the whitelist.
    pub fn unrestricted(&self) -> (yes: bool)
        ensures
            yes == self.unrestricted_spec(),
    {
        matches!(
            self,
            Command::Beta | Command::BetaList | Command::BetaWaitList | Command::BetaAccept(..)
        )
    }

    /// Whether the whitelist must be asked about the sender.
    pub fn needs_whitelist(&self, known_sender: bool) -> (yes: bool)
        ensures
            yes == self.needs_whitelist_spec(known_sender),
    {
        !self.unrestricted() && known_sender
    }

    /// Decides whether the command is carried out. `whitelisted` is the
    /// whitelist's answer where it was asked; `admin` says whether the
    /// sender is the administrator.
    pub fn access(&self, whitelisted: Option<bool>, admin: bool) -> (access: Access)
        ensures
            access == self.access_spec(whitelisted, admin),
    {
        let turned_away = match whitelisted {
            Some(listed) => !listed,
            None => false,
        };
        if !self.unrestricted() && turned_away {
            Access::NotWhitelisted
        } else if self.admin_access() && !admin {
            Access::NotAuthorized
        } else {
            Access::Granted
        }
    }

    /// The command as it is written in the log and in list headings.
    pub fn text(&self) -> (text: String)
        ensures
            text@ == self.text_spec(),
    {
        match self {
            Command::Start => String::from_str("start"),
            Command::Help => String::from_str("help"),
            Command::Search(q) => String::from_str("search ").concat(q.as_str()),
            Command::SearchAdvanced(q) => String::from_str("searchAdvanced ").concat(q.as_str()),
            Command::SearchAdvancedEpisode(q) => String::from_str("searchAdvancedEpisode ").concat(
                q.as_str(),
            ),
            Command::Beta => String::from_str("beta"),
            Command::BetaList => String::from_str("betaList"),
            Command::BetaWaitList => String::from_str("betaWaitList"),
            Command::BetaAccept(q) => String::from_str("betaAccept ").concat(q.as_str()),
            Command::Cancel => String::from_str("cancel"),
        }
    }
}

/// No command of the administrator is closed to users off the whitelist: they
/// are turned away only for not being the administrator.
pub proof fn lemma_admin_commands_are_unrestricted(command: Command)
    ensures
        command.admin_access_spec() ==> command.unrestricted_spec(),
{
}

} // verus!
