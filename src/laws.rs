use vstd::prelude::*;

use crate::registry::{create_outcome, vote_outcome, RegistryView};
use crate::state::{choice_of, no_token, yes_token, Action, ContractError};

verus! {

/// The registry after a sequence of votes, each given as (question, choice),
/// applied in order; a vote that is rejected changes nothing.
pub open spec fn apply_votes(s: RegistryView, votes: Seq<(Seq<char>, Seq<char>)>) -> RegistryView
    decreases votes.len(),
{
    if votes.len() == 0 {
        s
    } else {
        apply_votes(vote_outcome(s, votes[0].0, votes[0].1).0, votes.drop_first())
    }
}

/// How many of the votes carry the choice token `c`.
pub open spec fn count_choice(votes: Seq<(Seq<char>, Seq<char>)>, c: Seq<char>) -> nat
    decreases votes.len(),
{
    if votes.len() == 0 {
        0
    } else {
        (if votes[0].1 == c { 1nat } else { 0nat }) + count_choice(votes.drop_first(), c)
    }
}

/// Votes never remove a poll.
pub proof fn lemma_votes_keep_polls(s: RegistryView, votes: Seq<(Seq<char>, Seq<char>)>, q: Seq<char>)
    requires
        s.polls.contains_key(q),
    ensures
        apply_votes(s, votes).polls.contains_key(q),
    decreases votes.len(),
{
    if votes.len() > 0 {
        lemma_votes_keep_polls(vote_outcome(s, votes[0].0, votes[0].1).0, votes.drop_first(), q);
    }
}

/// Once `CreatePoll(q)` has succeeded, creating `q` again fails with
/// `DuplicateKey`, whatever votes came in between.
pub proof fn lemma_question_stays_taken(s: RegistryView, q: Seq<char>, votes: Seq<(Seq<char>, Seq<char>)>)
    requires
        create_outcome(s, q).1 is Ok,
    ensures
        create_outcome(apply_votes(create_outcome(s, q).0, votes), q).1
            == Err::<Action, ContractError>(ContractError::DuplicateKey),
{
    lemma_votes_keep_polls(create_outcome(s, q).0, votes, q);
}

/// On an existing poll, a sequence of votes on it that all succeed (each
/// choice is "yes" or "no", and the tallies stay within `u64`) adds to each
/// tally the number of votes with that choice, and to their sum the number
/// of votes; each of those votes succeeds.
pub proof fn lemma_tally_counts_votes(s: RegistryView, q: Seq<char>, votes: Seq<(Seq<char>, Seq<char>)>)
    requires
        s.polls.contains_key(q),
        forall|i: int| 0 <= i < votes.len() ==> (#[trigger] votes[i]).0 == q && choice_of(votes[i].1) is Some,
        s.polls[q].yes + s.polls[q].no + votes.len() <= u64::MAX,
    ensures
        apply_votes(s, votes).polls.contains_key(q),
        apply_votes(s, votes).polls[q].yes == s.polls[q].yes + count_choice(votes, yes_token()),
        apply_votes(s, votes).polls[q].no == s.polls[q].no + count_choice(votes, no_token()),
        apply_votes(s, votes).polls[q].yes + apply_votes(s, votes).polls[q].no
            == s.polls[q].yes + s.polls[q].no + votes.len(),
        votes.len() > 0 ==> vote_outcome(s, votes[0].0, votes[0].1).1 == Ok::<Action, ContractError>(Action::Vote),
    decreases votes.len(),
{
    if votes.len() > 0 {
        let next = vote_outcome(s, votes[0].0, votes[0].1).0;
        let rest = votes.drop_first();
        assert(votes[0].0 == q && choice_of(votes[0].1) is Some);
        assert forall|i: int| 0 <= i < rest.len() implies (#[trigger] rest[i]).0 == q && choice_of(rest[i].1) is Some by {
            assert(rest[i] == votes[i + 1]);
        }
        assert(yes_token() != no_token()) by {
            assert(yes_token().len() != no_token().len());
        }
        lemma_tally_counts_votes(next, q, rest);
    }
}

/// A vote on a question with no poll reports `NotFound`, whatever the choice,
/// and changes nothing.
pub proof fn lemma_missing_poll_first(s: RegistryView, q: Seq<char>, c: Seq<char>)
    requires
        !s.polls.contains_key(q),
    ensures
        vote_outcome(s, q, c).1 == Err::<Action, ContractError>(ContractError::NotFound),
        vote_outcome(s, q, c).0 == s,
{
}

} // verus!
