use vstd::prelude::*;

verus! {

/// The admin configuration, set once when the registry is initialized.
#[derive(Clone, Debug, PartialEq, Eq)]
pub struct Config {
    pub admin_address: String,
}

/// A poll: its question (also its key) and the two tallies.
#[derive(Clone, Debug, PartialEq, Eq)]
pub struct Poll {
    pub question: String,
    pub yes_votes: u64,
    pub no_votes: u64,
}

/// The two tallies of a poll, as mathematical values.
pub struct Tally {
    pub yes: nat,
    pub no: nat,
}

impl Poll {
    pub open spec fn tally(&self) -> Tally {
        Tally { yes: self.yes_votes as nat, no: self.no_votes as nat }
    }

    /// A poll with its own copy of the question and the same tallies.
    pub fn duplicate(&self) -> (r: Poll)
        ensures
            r == *self,
    {
        Poll { question: self.question.clone(), yes_votes: self.yes_votes, no_votes: self.no_votes }
    }
}

/// A vote's direction.
#[derive(Clone, Copy, Debug, PartialEq, Eq, Structural)]
pub enum Choice {
    Yes,
    No,
}

pub open spec fn yes_token() -> Seq<char> {
    seq!['y', 'e', 's']
}

pub open spec fn no_token() -> Seq<char> {
    seq!['n', 'o']
}

/// The choice that a token names: exactly "yes" or "no", case-sensitive.
pub open spec fn choice_of(s: Seq<char>) -> Option<Choice> {
    if s == yes_token() {
        Some(Choice::Yes)
    } else if s == no_token() {
        Some(Choice::No)
    } else {
        None
    }
}

impl Choice {
    /// Reads a choice token; anything but "yes" or "no" gives `None`.
    pub fn parse(s: &str) -> (r: Option<Choice>)
        ensures
            r == choice_of(s@),
    {
        let given = s.to_owned();
        let yes = "yes".to_owned();
        let no = "no".to_owned();
        proof {
            reveal_strlit("yes");
            reveal_strlit("no");
            assert(yes@ =~= yes_token());
            assert(no@ =~= no_token());
        }
        if given == yes {
            Some(Choice::Yes)
        } else if given == no {
            Some(Choice::No)
        } else {
            None
        }
    }
}

/// The kind of a successful command, reported as its `action` attribute.
#[derive(Clone, Copy, Debug, PartialEq, Eq, Structural)]
pub enum Action {
    Instantiate,
    CreatePoll,
    Vote,
}

impl Action {
    /// The value of the `action` attribute.
    pub fn as_str(&self) -> (r: &'static str)
        ensures
            r@ == action_name(*self),
    {
        match self {
            Action::Instantiate => "instantiate",
            Action::CreatePoll => "create_poll",
            Action::Vote => "vote",
        }
    }
}

pub open spec fn action_name(a: Action) -> Seq<char> {
    match a {
        Action::Instantiate => "instantiate"@,
        Action::CreatePoll => "create_poll"@,
        Action::Vote => "vote"@,
    }
}

/// Why a command or a read was rejected.
#[derive(Clone, Copy, Debug, PartialEq, Eq, Structural)]
pub enum ContractError {
    /// The admin address did not pass identity validation.
    ValidationError,
    /// The registry already holds a configuration.
    AlreadyInitialized,
    /// A poll with this question already exists.
    DuplicateKey,
    /// No poll has this question.
    NotFound,
    /// The choice is neither "yes" nor "no".
    InvalidChoice,
    /// The configuration was never stored.
    StorageError,
    /// The tally to increment is already at its largest value.
    Overflow,
}

impl ContractError {
    /// The human-readable message of the error.
    pub fn message(&self) -> (r: &'static str)
        ensures
            r@ == error_message(*self),
    {
        match self {
            ContractError::ValidationError => "invalid admin address",
            ContractError::AlreadyInitialized => "already initialized",
            ContractError::DuplicateKey => "key already taken",
            ContractError::NotFound => "poll doesn't exist!",
            ContractError::InvalidChoice => "invalid choice",
            ContractError::StorageError => "config not found",
            ContractError::Overflow => "vote count overflow",
        }
    }
}

pub open spec fn error_message(e: ContractError) -> Seq<char> {
    match e {
        ContractError::ValidationError => "invalid admin address"@,
        ContractError::AlreadyInitialized => "already initialized"@,
        ContractError::DuplicateKey => "key already taken"@,
        ContractError::NotFound => "poll doesn't exist!"@,
        ContractError::InvalidChoice => "invalid choice"@,
        ContractError::StorageError => "config not found"@,
        ContractError::Overflow => "vote count overflow"@,
    }
}

} // verus!
