use mycosmwasm::contract::{respond, Attribute};
use mycosmwasm::registry::Registry;
use mycosmwasm::state::{Action, Choice, Config, ContractError, Poll};

#[test]
fn choice_tokens() {
    assert_eq!(Choice::parse("yes"), Some(Choice::Yes));
    assert_eq!(Choice::parse("no"), Some(Choice::No));
    assert_eq!(Choice::parse("maybe"), None);
    assert_eq!(Choice::parse("yes "), None);
}

#[test]
fn action_names() {
    assert_eq!(Action::Instantiate.as_str(), "instantiate");
    assert_eq!(Action::CreatePoll.as_str(), "create_poll");
    assert_eq!(Action::Vote.as_str(), "vote");
    let r = respond(Action::Vote);
    assert_eq!(
        r.attributes,
        vec![Attribute { key: "action".to_string(), value: "vote".to_string() }]
    );
}

#[test]
fn error_messages() {
    assert_eq!(ContractError::DuplicateKey.message(), "key already taken");
    assert_eq!(ContractError::NotFound.message(), "poll doesn't exist!");
    assert_eq!(ContractError::InvalidChoice.message(), "invalid choice");
}

#[test]
fn registry_methods_directly() {
    let mut r = Registry::new();
    assert_eq!(r.create_poll("Q".to_string()), Ok(Action::CreatePoll));
    assert_eq!(r.vote("Q".to_string(), "no"), Ok(Action::Vote));
    assert_eq!(r.vote("Q".to_string(), "no"), Ok(Action::Vote));
    let p = r.get_poll("Q").unwrap();
    assert_eq!((p.yes_votes, p.no_votes), (0, 2));
    assert_eq!(r.instantiate(Some("addr1".to_string())), Ok(Action::Instantiate));
    assert_eq!(r.get_config().unwrap().admin_address, "addr1".to_string());
}

fn poll(q: &str, yes: u64, no: u64) -> Poll {
    Poll { question: q.to_string(), yes_votes: yes, no_votes: no }
}

#[test]
fn from_parts_rejects_shared_question() {
    let polls = vec![poll("A", 0, 0), poll("B", 1, 0), poll("A", 2, 2)];
    assert!(matches!(Registry::from_parts(None, polls), Err(ContractError::StorageError)));
}

#[test]
fn from_parts_keeps_records() {
    let config = Some(Config { admin_address: "addr1".to_string() });
    let polls = vec![poll("A", 3, 1), poll("B", 0, 7)];
    let mut r = Registry::from_parts(config.clone(), polls.clone()).ok().unwrap();
    assert_eq!(r.get_poll("A"), Some(poll("A", 3, 1)));
    assert_eq!(r.get_poll("B"), Some(poll("B", 0, 7)));
    assert_eq!(r.get_poll("C"), None);
    assert_eq!(r.get_config(), Ok(Config { admin_address: "addr1".to_string() }));
    assert_eq!(r.records(), (config, polls));
    assert_eq!(r.vote("B".to_string(), "yes"), Ok(Action::Vote));
    assert_eq!(r.records().1, vec![poll("A", 3, 1), poll("B", 1, 7)]);
}

#[test]
fn full_tally_overflows() {
    let polls = vec![poll("A", u64::MAX, 0)];
    let mut r = Registry::from_parts(None, polls).ok().unwrap();
    assert_eq!(r.vote("A".to_string(), "yes"), Err(ContractError::Overflow));
    assert_eq!(r.vote("A".to_string(), "no"), Ok(Action::Vote));
    assert_eq!(r.get_poll("A"), Some(poll("A", u64::MAX, 1)));
}
