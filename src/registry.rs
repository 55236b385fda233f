use vstd::prelude::*;

use crate::state::{choice_of, Action, Choice, Config, ContractError, Poll, Tally};

verus! {

/// What a registry holds: the admin address, once initialized, and the
/// tallies of each poll by question.
pub struct RegistryView {
    pub admin: Option<Seq<char>>,
    pub polls: Map<Seq<char>, Tally>,
}

pub open spec fn empty_tally() -> Tally {
    Tally { yes: 0, no: 0 }
}

pub open spec fn with_admin(s: RegistryView, admin: Seq<char>) -> RegistryView {
    RegistryView { admin: Some(admin), polls: s.polls }
}

pub open spec fn with_tally(s: RegistryView, q: Seq<char>, t: Tally) -> RegistryView {
    RegistryView { admin: s.admin, polls: s.polls.insert(q, t) }
}

/// Initialization: `validated` is the admin address as the identity check
/// returned it, or `None` where the check rejected it.
pub open spec fn init_outcome(s: RegistryView, validated: Option<Seq<char>>) -> (
    RegistryView,
    Result<Action, ContractError>,
) {
    match validated {
        None => (s, Err(ContractError::ValidationError)),
        Some(a) => if s.admin is Some {
            (s, Err(ContractError::AlreadyInitialized))
        } else {
            (with_admin(s, a), Ok(Action::Instantiate))
        },
    }
}

/// Poll creation: refused where the question is taken, else a poll with
/// no votes is added.
pub open spec fn create_outcome(s: RegistryView, q: Seq<char>) -> (
    RegistryView,
    Result<Action, ContractError>,
) {
    if s.polls.contains_key(q) {
        (s, Err(ContractError::DuplicateKey))
    } else {
        (with_tally(s, q, empty_tally()), Ok(Action::CreatePoll))
    }
}

/// A vote: existence is checked before the choice, and the chosen tally
/// grows by one unless it is already at the largest `u64`.
pub open spec fn vote_outcome(s: RegistryView, q: Seq<char>, c: Seq<char>) -> (
    RegistryView,
    Result<Action, ContractError>,
) {
    if !s.polls.contains_key(q) {
        (s, Err(ContractError::NotFound))
    } else {
        let t = s.polls[q];
        match choice_of(c) {
            None => (s, Err(ContractError::InvalidChoice)),
            Some(Choice::Yes) => if t.yes >= u64::MAX {
                (s, Err(ContractError::Overflow))
            } else {
                (with_tally(s, q, Tally { yes: t.yes + 1, no: t.no }), Ok(Action::Vote))
            },
            Some(Choice::No) => if t.no >= u64::MAX {
                (s, Err(ContractError::Overflow))
            } else {
                (with_tally(s, q, Tally { yes: t.yes, no: t.no + 1 }), Ok(Action::Vote))
            },
        }
    }
}

pub open spec fn opt_view(o: Option<String>) -> Option<Seq<char>> {
    match o {
        Some(a) => Some(a@),
        None => None,
    }
}

pub open spec fn opt_view_config(o: Option<Config>) -> Option<Seq<char>> {
    match o {
        Some(c) => Some(c.admin_address@),
        None => None,
    }
}

/// The poll registry: the configuration and the polls, each question once.
pub struct Registry {
    config: Option<Config>,
    polls: Vec<Poll>,
    model: Ghost<Map<Seq<char>, Tally>>,
}

impl View for Registry {
    type V = RegistryView;

    closed spec fn view(&self) -> RegistryView {
        RegistryView {
            admin: match self.config {
                Some(c) => Some(c.admin_address@),
                None => None,
            },
            polls: self.model@,
        }
    }
}

impl Registry {
    /// The stored polls agree with the model, and no question occurs twice.
    pub closed spec fn wf(&self) -> bool {
        &&& forall|i: int, j: int|
            0 <= i < self.polls@.len() && 0 <= j < self.polls@.len() && i != j
                ==> #[trigger] self.polls@[i].question@ != #[trigger] self.polls@[j].question@
        &&& forall|i: int|
            0 <= i < self.polls@.len() ==> self.model@.contains_key(#[trigger] self.polls@[i].question@)
                && self.model@[self.polls@[i].question@] == self.polls@[i].tally()
        &&& forall|q: Seq<char>|
            #[trigger] self.model@.contains_key(q) ==> exists|i: int|
                0 <= i < self.polls@.len() && #[trigger] self.polls@[i].question@ == q
    }

    /// An uninitialized registry with no polls.
    pub fn new() -> (r: Registry)
        ensures
            r.wf(),
            r@.admin is None,
            r@.polls == Map::<Seq<char>, Tally>::empty(),
    {
        Registry { config: None, polls: Vec::new(), model: Ghost(Map::empty()) }
    }

    /// The position of the poll with this question, if there is one.
    fn find(&self, q: &String) -> (r: Option<usize>)
        requires
            self.wf(),
        ensures
            match r {
                Some(i) => i < self.polls@.len() && self.polls@[i as int].question@ == q@,
                None => !self@.polls.contains_key(q@),
            },
    {
        let mut i: usize = 0;
        while i < self.polls.len()
            invariant
                self.wf(),
                i <= self.polls@.len(),
                forall|j: int| 0 <= j < i ==> self.polls@[j].question@ != q@,
            decreases self.polls@.len() - i,
        {
            if self.polls[i].question == *q {
                return Some(i);
            }
            i = i + 1;
        }
        None
    }

    /// Stores the admin configuration. `validated_admin` is the address as
    /// the identity check returned it, `None` where it was rejected.
    pub fn instantiate(&mut self, validated_admin: Option<String>) -> (r: Result<Action, ContractError>)
        requires
            old(self).wf(),
        ensures
            final(self).wf(),
            (final(self)@, r) == init_outcome(old(self)@, opt_view(validated_admin)),
    {
        match validated_admin {
            None => Err(ContractError::ValidationError),
            Some(a) => {
                if self.config.is_some() {
                    Err(ContractError::AlreadyInitialized)
                } else {
                    self.config = Some(Config { admin_address: a });
                    Ok(Action::Instantiate)
                }
            },
        }
    }

    /// Adds a poll with no votes under `question`, unless one exists.
    pub fn create_poll(&mut self, question: String) -> (r: Result<Action, ContractError>)
        requires
            old(self).wf(),
        ensures
            final(self).wf(),
            (final(self)@, r) == create_outcome(old(self)@, question@),
    {
        if self.find(&question).is_some() {
            return Err(ContractError::DuplicateKey);
        }
        let ghost q = question@;
        let ghost old_polls = self.polls@;
        let poll = Poll { question, yes_votes: 0, no_votes: 0 };
        self.polls.push(poll);
        self.model = Ghost(self.model@.insert(q, empty_tally()));
        proof {
            assert(self.polls@[old_polls.len() as int].question@ == q);
            assert forall|k: Seq<char>| #[trigger] self.model@.contains_key(k) implies exists|i: int|
                0 <= i < self.polls@.len() && #[trigger] self.polls@[i].question@ == k by {
                if k != q {
                    let i = choose|i: int| 0 <= i < old_polls.len() && #[trigger] old_polls[i].question@ == k;
                    assert(self.polls@[i] == old_polls[i]);
                }
            }
        }
        Ok(Action::CreatePoll)
    }

    /// Counts one vote for `choice` on the poll under `question`.
    pub fn vote(&mut self, question: String, choice: &str) -> (r: Result<Action, ContractError>)
        requires
            old(self).wf(),
        ensures
            final(self).wf(),
            (final(self)@, r) == vote_outcome(old(self)@, question@, choice@),
    {
        let idx = match self.find(&question) {
            None => return Err(ContractError::NotFound),
            Some(i) => i,
        };
        let parsed = Choice::parse(choice);
        let choice = match parsed {
            None => return Err(ContractError::InvalidChoice),
            Some(c) => c,
        };
        let mut poll = self.polls[idx].duplicate();
        match choice {
            Choice::Yes => {
                if poll.yes_votes == u64::MAX {
                    return Err(ContractError::Overflow);
                }
                poll.yes_votes = poll.yes_votes + 1;
            },
            Choice::No => {
                if poll.no_votes == u64::MAX {
                    return Err(ContractError::Overflow);
                }
                poll.no_votes = poll.no_votes + 1;
            },
        }
        let ghost old_polls = self.polls@;
        let ghost t = poll.tally();
        self.polls.set(idx, poll);
        self.model = Ghost(self.model@.insert(question@, t));
        proof {
            assert(self.polls@[idx as int].question@ == question@);
            assert forall|i: int| 0 <= i < self.polls@.len() && i != idx implies self.polls@[i]
                == old_polls[i] by {}
            assert forall|k: Seq<char>| #[trigger] self.model@.contains_key(k) implies exists|i: int|
                0 <= i < self.polls@.len() && #[trigger] self.polls@[i].question@ == k by {
                if k != question@ {
                    let i = choose|i: int| 0 <= i < old_polls.len() && #[trigger] old_polls[i].question@ == k;
                    assert(self.polls@[i] == old_polls[i]);
                }
            }
        }
        Ok(Action::Vote)
    }

    /// The poll under `question`, or `None` where there is none; a read
    /// that changes nothing and cannot fail.
    pub fn get_poll(&self, question: &str) -> (r: Option<Poll>)
        requires
            self.wf(),
        ensures
            match r {
                Some(p) => self@.polls.contains_key(question@) && p.question@ == question@
                    && p.tally() == self@.polls[question@],
                None => !self@.polls.contains_key(question@),
            },
    {
        let q = question.to_owned();
        match self.find(&q) {
            None => None,
            Some(i) => Some(self.polls[i].duplicate()),
        }
    }

    /// The stored configuration; `StorageError` where none was stored.
    pub fn get_config(&self) -> (r: Result<Config, ContractError>)
        ensures
            match self@.admin {
                Some(a) => r is Ok && r->Ok_0.admin_address@ == a,
                None => r == Err::<Config, ContractError>(ContractError::StorageError),
            },
    {
        match &self.config {
            None => Err(ContractError::StorageError),
            Some(c) => Ok(Config { admin_address: c.admin_address.clone() }),
        }
    }

    /// A registry holding `config` and `polls`, as a store hands them back;
    /// `StorageError` where two polls share a question.
    pub fn from_parts(config: Option<Config>, polls: Vec<Poll>) -> (r: Result<Registry, ContractError>)
        ensures
            r is Err <==> exists|i: int, j: int|
                0 <= i < j < polls@.len() && #[trigger] polls@[i].question@ == #[trigger] polls@[j].question@,
            r is Err ==> r == Err::<Registry, ContractError>(ContractError::StorageError),
            r is Ok ==> {
                let g = r->Ok_0;
                &&& g.wf()
                &&& g@.admin == opt_view_config(config)
                &&& forall|i: int| 0 <= i < polls@.len() ==> g@.polls.contains_key(#[trigger] polls@[i].question@)
                    && g@.polls[polls@[i].question@] == polls@[i].tally()
                &&& forall|q: Seq<char>| #[trigger] g@.polls.contains_key(q) ==> exists|i: int|
                    0 <= i < polls@.len() && #[trigger] polls@[i].question@ == q
            },
    {
        let mut g = Registry { config, polls: Vec::new(), model: Ghost(Map::empty()) };
        let mut k: usize = 0;
        while k < polls.len()
            invariant
                g.wf(),
                k <= polls@.len(),
                g.polls@.len() == k,
                g@.admin == opt_view_config(config),
                forall|i: int| 0 <= i < k ==> g.polls@[i] == polls@[i],
                forall|i: int, j: int|
                    0 <= i < j < k ==> #[trigger] polls@[i].question@ != #[trigger] polls@[j].question@,
            decreases polls@.len() - k,
        {
            let p = polls[k].duplicate();
            match g.find(&p.question) {
                Some(i) => {
                    proof {
                        assert(polls@[i as int].question@ == polls@[k as int].question@);
                    }
                    return Err(ContractError::StorageError);
                },
                None => {},
            }
            let ghost q = p.question@;
            let ghost t = p.tally();
            let ghost old_polls = g.polls@;
            g.polls.push(p);
            g.model = Ghost(g.model@.insert(q, t));
            proof {
                assert(g.polls@[k as int] == polls@[k as int]);
                assert forall|i: int| 0 <= i < k implies polls@[i].question@ != q by {
                    assert(g.model@.contains_key(old_polls[i].question@));
                }
                assert forall|x: Seq<char>| #[trigger] g.model@.contains_key(x) implies exists|i: int|
                    0 <= i < g.polls@.len() && #[trigger] g.polls@[i].question@ == x by {
                    if x != q {
                        let i = choose|i: int| 0 <= i < old_polls.len() && #[trigger] old_polls[i].question@ == x;
                        assert(g.polls@[i] == old_polls[i]);
                    }
                }
            }
            k = k + 1;
        }
        proof {
            assert forall|i: int| 0 <= i < polls@.len() implies g@.polls.contains_key(#[trigger] polls@[i].question@)
                && g@.polls[polls@[i].question@] == polls@[i].tally() by {
                assert(g.polls@[i] == polls@[i]);
            }
            assert forall|q: Seq<char>| #[trigger] g@.polls.contains_key(q) implies exists|i: int|
                0 <= i < polls@.len() && #[trigger] polls@[i].question@ == q by {
                let i = choose|i: int| 0 <= i < g.polls@.len() && #[trigger] g.polls@[i].question@ == q;
                assert(g.polls@[i] == polls@[i]);
            }
        }
        Ok(g)
    }

    /// The stored configuration and polls, as a store keeps them.
    pub fn records(&self) -> (r: (Option<Config>, Vec<Poll>))
        requires
            self.wf(),
        ensures
            opt_view_config(r.0) == self@.admin,
            forall|i: int| 0 <= i < r.1@.len() ==> self@.polls.contains_key(#[trigger] r.1@[i].question@)
                && self@.polls[r.1@[i].question@] == r.1@[i].tally(),
            forall|q: Seq<char>| #[trigger] self@.polls.contains_key(q) ==> exists|i: int|
                0 <= i < r.1@.len() && #[trigger] r.1@[i].question@ == q,
            forall|i: int, j: int|
                0 <= i < j < r.1@.len() ==> #[trigger] r.1@[i].question@ != #[trigger] r.1@[j].question@,
    {
        let config = match &self.config {
            None => None,
            Some(c) => Some(Config { admin_address: c.admin_address.clone() }),
        };
        let mut out: Vec<Poll> = Vec::new();
        let mut k: usize = 0;
        while k < self.polls.len()
            invariant
                self.wf(),
                k <= self.polls@.len(),
                out@.len() == k,
                forall|i: int| 0 <= i < k ==> out@[i] == self.polls@[i],
            decreases self.polls@.len() - k,
        {
            out.push(self.polls[k].duplicate());
            k = k + 1;
        }
        let r = (config, out);
        proof {
            assert forall|q: Seq<char>| #[trigger] self@.polls.contains_key(q) implies exists|i: int|
                0 <= i < r.1@.len() && #[trigger] r.1@[i].question@ == q by {
                assert(self.model@.contains_key(q));
                let i = choose|i: int| 0 <= i < self.polls@.len() && #[trigger] self.polls@[i].question@ == q;
                assert(r.1@[i] == self.polls@[i]);
            }
            assert forall|i: int, j: int| 0 <= i < j < r.1@.len() implies #[trigger] r.1@[i].question@
                != #[trigger] r.1@[j].question@ by {
                assert(r.1@[i] == self.polls@[i] && r.1@[j] == self.polls@[j]);
            }
        }
        r
    }
}

} // verus!
