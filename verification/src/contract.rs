use vstd::prelude::*;

use crate::error::ContractError;
use crate::msg::{AttributeView, ExecuteMsg, GetPollResponse, QueryMsg, Response};
use crate::state::{Config, ConfigView, Poll, PollView, Store, StoreView};

verus! {

/// The attribute list a successful transition reports: a single `action`
/// tag naming the operation.
pub open spec fn action_attributes(action: Seq<char>) -> Seq<AttributeView> {
    seq![(AttributeView { key: "action"@, value: action })]
}

/// The outcome of instantiation over the store model. The host's address
/// validator has already judged the proposed admin address: `validated` is
/// its output, or `None` where it rejected the input.
pub open spec fn instantiate_outcome(s: StoreView, validated: Option<Seq<char>>) -> Result<
    StoreView,
    ContractError,
> {
    match validated {
        Some(addr) => Ok(
            (StoreView { config: Some((ConfigView { admin_address: addr })), polls: s.polls }),
        ),
        None => Err(ContractError::InvalidAddress),
    }
}

/// The outcome of creating a poll over the store model: a fresh record
/// with zero counts under a free question, or `DuplicateKey` against a
/// taken one.
pub open spec fn create_poll_outcome(s: StoreView, question: Seq<char>) -> Result<
    StoreView,
    ContractError,
> {
    if s.polls.dom().contains(question) {
        Err(ContractError::DuplicateKey)
    } else {
        Ok(
            (StoreView {
                config: s.config,
                polls: s.polls.insert(
                    question,
                    (PollView { question, yes_votes: 0, no_votes: 0 }),
                ),
            }),
        )
    }
}

/// The outcome of a vote over the store model: exactly one count of the
/// addressed poll grows by one, under an exact, case-sensitive match of
/// the choice against the two recognized literals.
pub open spec fn vote_outcome(s: StoreView, question: Seq<char>, choice: Seq<char>) -> Result<
    StoreView,
    ContractError,
> {
    if !s.polls.dom().contains(question) {
        Err(ContractError::PollNotFound)
    } else if choice == "yes"@ {
        let p = s.polls[question];
        Ok(
            (StoreView {
                config: s.config,
                polls: s.polls.insert(
                    question,
                    (PollView {
                        question: p.question,
                        yes_votes: (p.yes_votes + 1) as u64,
                        no_votes: p.no_votes,
                    }),
                ),
            }),
        )
    } else if choice == "no"@ {
        let p = s.polls[question];
        Ok(
            (StoreView {
                config: s.config,
                polls: s.polls.insert(
                    question,
                    (PollView {
                        question: p.question,
                        yes_votes: p.yes_votes,
                        no_votes: (p.no_votes + 1) as u64,
                    }),
                ),
            }),
        )
    } else {
        Err(ContractError::InvalidChoice)
    }
}

/// The outcome of reading one poll: the stored record, or `None` where the
/// question has none. A read never fails and never mutates.
pub open spec fn get_poll_outcome(s: StoreView, question: Seq<char>) -> Option<PollView> {
    if s.polls.dom().contains(question) {
        Some(s.polls[question])
    } else {
        None
    }
}

/// The outcome of reading the configuration: the record, or `NotFound`
/// where instantiation never ran.
pub open spec fn get_config_outcome(s: StoreView) -> Result<ConfigView, ContractError> {
    match s.config {
        Some(c) => Ok(c),
        None => Err(ContractError::NotFound),
    }
}

/// The counts of the poll under `question`, if any, can still grow by one
/// without leaving `u64`.
pub open spec fn vote_counts_ok(s: StoreView, question: Seq<char>) -> bool {
    s.polls.dom().contains(question) ==> s.polls[question].yes_votes < u64::MAX
        && s.polls[question].no_votes < u64::MAX
}

/// A vote's choice once recognized; parsing it first keeps the mutation
/// match exhaustive.
#[derive(Clone, Copy, Debug, PartialEq, Eq, Structural)]
pub enum Choice {
    Yes,
    No,
}

/// The recognized reading of a raw choice string: an exact,
/// case-sensitive match of one of the two literals, or nothing.
pub open spec fn choice_of(choice: Seq<char>) -> Option<Choice> {
    if choice == "yes"@ {
        Some(Choice::Yes)
    } else if choice == "no"@ {
        Some(Choice::No)
    } else {
        None
    }
}

/// Exact, case-sensitive recognition of the two choice literals; anything
/// else is rejected.
pub fn parse_choice(choice: &String) -> (r: Option<Choice>)
    ensures
        r == choice_of(choice@),
{
    proof {
        reveal_strlit("yes");
        reveal_strlit("no");
        assert("yes"@.len() == 3);
        assert("no"@.len() == 2);
        assert("yes"@ != "no"@);
    }
    if *choice == "yes".to_owned() {
        Some(Choice::Yes)
    } else if *choice == "no".to_owned() {
        Some(Choice::No)
    } else {
        None
    }
}

/// Instantiation: records the validated admin address as the
/// configuration singleton, exactly once per contract lifetime.
/// `validated_admin` is what the host's address validator returned for the
/// proposed address, or `None` where it rejected it; on rejection the
/// transition fails with `InvalidAddress` and the store is untouched.
pub fn instantiate(store: &mut Store, validated_admin: Option<String>) -> (r: Result<
    Response,
    ContractError,
>)
    requires
        old(store).wf(),
    ensures
        final(store).wf(),
        (match instantiate_outcome(
            old(store)@,
            match validated_admin {
                Some(a) => Some(a@),
                None => None,
            },
        ) {
            Ok(s) => r matches Ok(resp) && final(store)@ == s && resp@ == action_attributes(
                "instantiate"@,
            ),
            Err(e) => r matches Err(actual) && actual == e && final(store)@ == old(store)@,
        }),
{
    match validated_admin {
        Some(addr) => {
            store.save_config(Config { admin_address: addr });
            let resp = Response::new().add_attribute("action", "instantiate");
            proof {
                assert(resp@ =~= action_attributes("instantiate"@));
            }
            Ok(resp)
        },
        None => Err(ContractError::InvalidAddress),
    }
}

/// Dispatch of a write instruction to the operation it names.
pub fn execute(store: &mut Store, msg: ExecuteMsg) -> (r: Result<Response, ContractError>)
    requires
        old(store).wf(),
        (msg matches ExecuteMsg::Vote { question, .. } ==> vote_counts_ok(
            old(store)@,
            question@,
        )),
    ensures
        final(store).wf(),
        (match msg {
            ExecuteMsg::CreatePoll { question } => (match create_poll_outcome(
                old(store)@,
                question@,
            ) {
                Ok(s) => r matches Ok(resp) && final(store)@ == s && resp@ == action_attributes(
                    "create_poll"@,
                ),
                Err(e) => r matches Err(actual) && actual == e && final(store)@ == old(store)@,
            }),
            ExecuteMsg::Vote { question, choice } => (match vote_outcome(
                old(store)@,
                question@,
                choice@,
            ) {
                Ok(s) => r matches Ok(resp) && final(store)@ == s && resp@ == action_attributes(
                    "vote"@,
                ),
                Err(e) => r matches Err(actual) && actual == e && final(store)@ == old(store)@,
            }),
        }),
{
    match msg {
        ExecuteMsg::CreatePoll { question } => execute_create_poll(store, question),
        ExecuteMsg::Vote { question, choice } => execute_vote(store, question, choice),
    }
}

/// Poll creation: checks the question is free, then persists a fresh
/// record with zero counts. Against a taken question it fails with
/// `DuplicateKey` and writes nothing, so a retried creation fails the same
/// way and never reinitializes the counts.
pub fn execute_create_poll(store: &mut Store, question: String) -> (r: Result<
    Response,
    ContractError,
>)
    requires
        old(store).wf(),
    ensures
        final(store).wf(),
        (match create_poll_outcome(old(store)@, question@) {
            Ok(s) => r matches Ok(resp) && final(store)@ == s && resp@ == action_attributes(
                "create_poll"@,
            ),
            Err(e) => r matches Err(actual) && actual == e && final(store)@ == old(store)@,
        }),
{
    if store.has_poll(&question) {
        return Err(ContractError::DuplicateKey);
    }
    let poll = Poll { question: question.clone(), yes_votes: 0, no_votes: 0 };
    store.save_poll(question, poll);
    let resp = Response::new().add_attribute("action", "create_poll");
    proof {
        assert(resp@ =~= action_attributes("create_poll"@));
    }
    Ok(resp)
}

/// A vote: loads the poll under the question, failing with `PollNotFound`
/// where there is none; recognizes the choice, failing with
/// `InvalidChoice` (and writing nothing) on anything but the two exact
/// literals; then persists the poll with exactly one count one higher.
pub fn execute_vote(store: &mut Store, question: String, choice: String) -> (r: Result<
    Response,
    ContractError,
>)
    requires
        old(store).wf(),
        vote_counts_ok(old(store)@, question@),
    ensures
        final(store).wf(),
        (match vote_outcome(old(store)@, question@, choice@) {
            Ok(s) => r matches Ok(resp) && final(store)@ == s && resp@ == action_attributes(
                "vote"@,
            ),
            Err(e) => r matches Err(actual) && actual == e && final(store)@ == old(store)@,
        }),
{
    let mut poll = match store.load_poll(&question) {
        Ok(p) => p,
        Err(_) => {
            return Err(ContractError::PollNotFound);
        },
    };
    match parse_choice(&choice) {
        Some(Choice::Yes) => {
            poll.yes_votes = poll.yes_votes + 1;
        },
        Some(Choice::No) => {
            poll.no_votes = poll.no_votes + 1;
        },
        None => {
            return Err(ContractError::InvalidChoice);
        },
    }
    store.save_poll(question, poll);
    let resp = Response::new().add_attribute("action", "vote");
    proof {
        assert(resp@ =~= action_attributes("vote"@));
    }
    Ok(resp)
}

/// Dispatch of a read instruction. Reads never mutate the store; only
/// `GetConfig` can fail, and only before instantiation.
pub fn query(store: &Store, msg: QueryMsg) -> (r: Result<QueryResponse, ContractError>)
    requires
        store.wf(),
    ensures
        (match msg {
            QueryMsg::GetPoll { question } => r matches Ok(QueryResponse::Poll(gp)) && gp@
                == get_poll_outcome(store@, question@),
            QueryMsg::GetConfig {} => (match get_config_outcome(store@) {
                Ok(c) => r matches Ok(QueryResponse::Config(config)) && config@ == c,
                Err(e) => r matches Err(actual) && actual == e,
            }),
        }),
{
    match msg {
        QueryMsg::GetPoll { question } => Ok(QueryResponse::Poll(query_get_poll(store, question))),
        QueryMsg::GetConfig {} => match store.load_config() {
            Ok(c) => Ok(QueryResponse::Config(c)),
            Err(e) => Err(e),
        },
    }
}

/// The structured answer to a read instruction.
#[derive(Debug, PartialEq)]
pub enum QueryResponse {
    Poll(GetPollResponse),
    Config(Config),
}

/// The read of one poll: an empty answer, never an error, where no poll
/// exists under the question.
pub fn query_get_poll(store: &Store, question: String) -> (r: GetPollResponse)
    requires
        store.wf(),
    ensures
        r@ == get_poll_outcome(store@, question@),
{
    GetPollResponse { poll: store.load_poll_optional(&question) }
}

/// Instantiate validity: over any store, a validated admin address makes
/// instantiation succeed with exactly that address recorded, and the
/// configuration then reads back as that address; a rejected address
/// fails with `InvalidAddress` and yields no new state, so a
/// configuration that was absent stays unreadable.
pub proof fn lemma_instantiate_validity(s: StoreView, validated: Option<Seq<char>>)
    ensures
        (validated matches Some(addr) ==> (instantiate_outcome(s, validated) matches Ok(s1)
            && s1.config == Some((ConfigView { admin_address: addr })) && s1.polls == s.polls
            && get_config_outcome(s1) == Ok::<ConfigView, ContractError>(
            (ConfigView { admin_address: addr }),
        ))),
        (validated is None ==> instantiate_outcome(s, validated) == Err::<
            StoreView,
            ContractError,
        >(ContractError::InvalidAddress) && (s.config is None ==> get_config_outcome(s) == Err::<
            ConfigView,
            ContractError,
        >(ContractError::NotFound))),
{
}

/// Create idempotence-of-failure: creating a poll under a free question
/// succeeds and stores zero counts; creating again under the same
/// question fails with `DuplicateKey` and yields no new state, so the
/// stored poll still holds the counts of the first creation.
pub proof fn lemma_create_idempotence_of_failure(s: StoreView, question: Seq<char>)
    requires
        !s.polls.dom().contains(question),
    ensures
        create_poll_outcome(s, question) matches Ok(s1) && s1.polls[question] == (PollView {
            question,
            yes_votes: 0,
            no_votes: 0,
        }) && create_poll_outcome(s1, question) == Err::<StoreView, ContractError>(
            ContractError::DuplicateKey,
        ),
{
}

/// Vote monotonicity: on a poll holding counts `(y, n)`, a `"yes"` vote
/// yields `(y + 1, n)`, a `"no"` vote yields `(y, n + 1)`, and any other
/// choice fails with `InvalidChoice` and yields no new state, leaving the
/// counts at `(y, n)`. Stated for counts that can still grow by one
/// without leaving `u64`.
pub proof fn lemma_vote_monotonicity(s: StoreView, question: Seq<char>, choice: Seq<char>)
    requires
        s.polls.dom().contains(question),
        s.polls[question].yes_votes < u64::MAX,
        s.polls[question].no_votes < u64::MAX,
    ensures
        (choice == "yes"@ ==> (vote_outcome(s, question, choice) matches Ok(s1)
            && s1.polls[question].yes_votes == s.polls[question].yes_votes + 1
            && s1.polls[question].no_votes == s.polls[question].no_votes)),
        (choice == "no"@ ==> (vote_outcome(s, question, choice) matches Ok(s1)
            && s1.polls[question].yes_votes == s.polls[question].yes_votes
            && s1.polls[question].no_votes == s.polls[question].no_votes + 1)),
        (choice != "yes"@ && choice != "no"@ ==> vote_outcome(s, question, choice) == Err::<
            StoreView,
            ContractError,
        >(ContractError::InvalidChoice)),
{
    reveal_strlit("yes");
    reveal_strlit("no");
    assert("yes"@.len() == 3);
    assert("no"@.len() == 2);
}

/// Missing-poll vote: a vote against a question with no poll fails with
/// `PollNotFound` and yields no new state, so a subsequent read of that
/// question still answers empty.
pub proof fn lemma_vote_missing_poll(s: StoreView, question: Seq<char>, choice: Seq<char>)
    requires
        !s.polls.dom().contains(question),
    ensures
        vote_outcome(s, question, choice) == Err::<StoreView, ContractError>(
            ContractError::PollNotFound,
        ),
        get_poll_outcome(s, question) is None,
{
}

} // verus!
