use vstd::prelude::*;

use crate::registry::{create_outcome, init_outcome, opt_view, vote_outcome, Registry};
use crate::state::{action_name, Action, Config, ContractError, Poll};

verus! {

/// A key/value pair reported with a successful command.
#[derive(Clone, Debug, PartialEq, Eq)]
pub struct Attribute {
    pub key: String,
    pub value: String,
}

/// What a successful command reports.
#[derive(Clone, Debug, PartialEq, Eq)]
pub struct Response {
    pub attributes: Vec<Attribute>,
}

/// The commands that change the registry.
#[derive(Clone, Debug, PartialEq, Eq)]
pub enum ExecuteMsg {
    CreatePoll { question: String },
    Vote { question: String, choice: String },
}

/// The reads.
#[derive(Clone, Debug, PartialEq, Eq)]
pub enum QueryMsg {
    GetPoll { question: String },
    GetConfig,
}

/// The answer to `GetPoll`: the poll, or `None` where there is none.
#[derive(Clone, Debug, PartialEq, Eq)]
pub struct GetPollResponse {
    pub poll: Option<Poll>,
}

/// The answer to a read.
#[derive(Clone, Debug, PartialEq, Eq)]
pub enum QueryResponse {
    Poll(GetPollResponse),
    Config(Config),
}

/// `r` carries the single attribute `action` naming `a`.
pub open spec fn reports(r: Response, a: Action) -> bool {
    &&& r.attributes@.len() == 1
    &&& r.attributes@[0].key@ == "action"@
    &&& r.attributes@[0].value@ == action_name(a)
}

/// `r` is the response that a command with outcome `o` gives.
pub open spec fn answers(r: Result<Response, ContractError>, o: Result<Action, ContractError>) -> bool {
    match o {
        Ok(a) => r is Ok && reports(r->Ok_0, a),
        Err(e) => r == Err::<Response, ContractError>(e),
    }
}

/// The response of a command that succeeded as `a`.
pub fn respond(a: Action) -> (r: Response)
    ensures
        reports(r, a),
{
    let attr = Attribute { key: "action".to_owned(), value: a.as_str().to_owned() };
    let mut attributes = Vec::new();
    attributes.push(attr);
    Response { attributes }
}

fn finish(o: Result<Action, ContractError>) -> (r: Result<Response, ContractError>)
    ensures
        answers(r, o),
{
    match o {
        Ok(a) => Ok(respond(a)),
        Err(e) => Err(e),
    }
}

/// Initializes the registry with the admin address as the identity check
/// returned it (`None` where the check rejected it).
pub fn instantiate(registry: &mut Registry, validated_admin: Option<String>) -> (r: Result<
    Response,
    ContractError,
>)
    requires
        old(registry).wf(),
    ensures
        final(registry).wf(),
        final(registry)@ == init_outcome(old(registry)@, opt_view(validated_admin)).0,
        answers(r, init_outcome(old(registry)@, opt_view(validated_admin)).1),
{
    let o = registry.instantiate(validated_admin);
    finish(o)
}

/// Applies a command to the registry.
pub fn execute(registry: &mut Registry, msg: ExecuteMsg) -> (r: Result<Response, ContractError>)
    requires
        old(registry).wf(),
    ensures
        final(registry).wf(),
        match msg {
            ExecuteMsg::CreatePoll { question } => {
                &&& final(registry)@ == create_outcome(old(registry)@, question@).0
                &&& answers(r, create_outcome(old(registry)@, question@).1)
            },
            ExecuteMsg::Vote { question, choice } => {
                &&& final(registry)@ == vote_outcome(old(registry)@, question@, choice@).0
                &&& answers(r, vote_outcome(old(registry)@, question@, choice@).1)
            },
        },
{
    match msg {
        ExecuteMsg::CreatePoll { question } => finish(registry.create_poll(question)),
        ExecuteMsg::Vote { question, choice } => finish(registry.vote(question, choice.as_str())),
    }
}

/// Answers a read; the registry is left as it was.
pub fn query(registry: &Registry, msg: QueryMsg) -> (r: Result<QueryResponse, ContractError>)
    requires
        registry.wf(),
    ensures
        match msg {
            QueryMsg::GetPoll { question } => r is Ok && match r->Ok_0 {
                QueryResponse::Poll(resp) => match resp.poll {
                    Some(p) => registry@.polls.contains_key(question@) && p.question@ == question@
                        && p.tally() == registry@.polls[question@],
                    None => !registry@.polls.contains_key(question@),
                },
                QueryResponse::Config(_) => false,
            },
            QueryMsg::GetConfig => match registry@.admin {
                Some(a) => r is Ok && match r->Ok_0 {
                    QueryResponse::Config(c) => c.admin_address@ == a,
                    QueryResponse::Poll(_) => false,
                },
                None => r == Err::<QueryResponse, ContractError>(ContractError::StorageError),
            },
        },
{
    match msg {
        QueryMsg::GetPoll { question } => {
            let poll = registry.get_poll(question.as_str());
            Ok(QueryResponse::Poll(GetPollResponse { poll }))
        },
        QueryMsg::GetConfig => match registry.get_config() {
            Ok(c) => Ok(QueryResponse::Config(c)),
            Err(e) => Err(e),
        },
    }
}

} // verus!
