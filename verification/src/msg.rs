use vstd::prelude::*;

use crate::state::{Poll, PollView};

verus! {

/// The instruction that starts a contract's life: it proposes the admin
/// address, as a raw string for the host's address validator.
#[derive(Debug, PartialEq)]
pub struct InstantiateMsg {
    pub admin_address: String,
}

/// The write instructions: create a poll under a question, or cast a vote
/// on an existing poll.
#[derive(Debug, PartialEq)]
pub enum ExecuteMsg {
    CreatePoll { question: String },
    Vote { question: String, choice: String },
}

/// The read instructions: fetch one poll, or fetch the configuration.
#[derive(Debug, PartialEq)]
pub enum QueryMsg {
    GetPoll { question: String },
    GetConfig {},
}

/// The answer to `QueryMsg::GetPoll`: the poll stored under the asked
/// question, or `None` when there is none.
#[derive(Debug, PartialEq)]
pub struct GetPollResponse {
    pub poll: Option<Poll>,
}

impl View for GetPollResponse {
    type V = Option<PollView>;

    open spec fn view(&self) -> Option<PollView> {
        match self.poll {
            Some(p) => Some(p@),
            None => None,
        }
    }
}

/// One observable outcome attribute of a successful transition.
#[derive(Debug, PartialEq)]
pub struct Attribute {
    pub key: String,
    pub value: String,
}

/// The mathematical model of an `Attribute`.
pub struct AttributeView {
    pub key: Seq<char>,
    pub value: Seq<char>,
}

impl View for Attribute {
    type V = AttributeView;

    open spec fn view(&self) -> AttributeView {
        AttributeView { key: self.key@, value: self.value@ }
    }
}

/// An attribute built from its two parts.
pub fn attr(key: &str, value: &str) -> (a: Attribute)
    ensures
        a@ == (AttributeView { key: key@, value: value@ }),
{
    Attribute { key: key.to_owned(), value: value.to_owned() }
}

/// The successful outcome of a transition: the attributes it reports
/// outward, in the order they were attached.
#[derive(Debug, PartialEq)]
pub struct Response {
    pub attributes: Vec<Attribute>,
}

impl View for Response {
    type V = Seq<AttributeView>;

    open spec fn view(&self) -> Seq<AttributeView> {
        self.attributes@.map_values(|a: Attribute| a@)
    }
}

impl Response {
    /// A response with no attributes yet.
    pub fn new() -> (r: Response)
        ensures
            r@ == Seq::<AttributeView>::empty(),
    {
        let r = Response { attributes: Vec::new() };
        proof {
            assert(r@ =~= Seq::<AttributeView>::empty());
        }
        r
    }

    /// The same response with one more attribute at the end.
    pub fn add_attribute(self, key: &str, value: &str) -> (r: Response)
        ensures
            r@ == self@.push((AttributeView { key: key@, value: value@ })),
    {
        let ghost orig = self.attributes@;
        let mut attributes = self.attributes;
        attributes.push(attr(key, value));
        let r = Response { attributes };
        proof {
            assert(r@ =~= orig.map_values(|a: Attribute| a@).push(
                (AttributeView { key: key@, value: value@ }),
            ));
        }
        r
    }
}

} // verus!
