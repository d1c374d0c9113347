use vstd::prelude::*;

use crate::error::ContractError;

verus! {

/// The singleton configuration record: the admin identity recorded at
/// instantiation. The address is already validated by the host's address
/// validator; the engine stores it as given and never mutates it afterward.
#[derive(Debug, PartialEq)]
pub struct Config {
    pub admin_address: String,
}

/// The mathematical model of a `Config`.
pub struct ConfigView {
    pub admin_address: Seq<char>,
}

impl View for Config {
    type V = ConfigView;

    open spec fn view(&self) -> ConfigView {
        ConfigView { admin_address: self.admin_address@ }
    }
}

/// A poll record. The store keys every poll by its own `question`, so the
/// key a poll is found under always equals its `question` field.
#[derive(Debug, PartialEq)]
pub struct Poll {
    pub question: String,
    pub yes_votes: u64,
    pub no_votes: u64,
}

/// The mathematical model of a `Poll`.
pub struct PollView {
    pub question: Seq<char>,
    pub yes_votes: u64,
    pub no_votes: u64,
}

impl View for Poll {
    type V = PollView;

    open spec fn view(&self) -> PollView {
        PollView {
            question: self.question@,
            yes_votes: self.yes_votes,
            no_votes: self.no_votes,
        }
    }
}

/// The mathematical model of the persistent store: the optional
/// configuration singleton and the poll collection as a map from a
/// question to the poll stored under it.
pub struct StoreView {
    pub config: Option<ConfigView>,
    pub polls: Map<Seq<char>, PollView>,
}

/// Whether the sequence holds a poll stored under `question`.
pub open spec fn contains_question(polls: Seq<Poll>, question: Seq<char>) -> bool {
    exists|i: int| 0 <= i < polls.len() && polls[i].question@ == question
}

/// The position of the poll stored under `question`; meaningful only when
/// `contains_question` holds and the questions are distinct.
pub open spec fn question_index(polls: Seq<Poll>, question: Seq<char>) -> int {
    choose|i: int| 0 <= i < polls.len() && polls[i].question@ == question
}

/// No two stored polls share a question.
pub open spec fn distinct_questions(polls: Seq<Poll>) -> bool {
    forall|i: int, j: int|
        0 <= i < j < polls.len() ==> polls[i].question@ != polls[j].question@
}

/// The poll sequence read as a map keyed by question.
pub open spec fn polls_as_map(polls: Seq<Poll>) -> Map<Seq<char>, PollView> {
    Map::new(
        |question: Seq<char>| contains_question(polls, question),
        |question: Seq<char>| polls[question_index(polls, question)]@,
    )
}

/// The persistent store a transition runs against: one configuration
/// record under a fixed slot and one collection of polls keyed by their
/// question. The engine reads and writes it only through the operations
/// below; a transition that fails issues no write at all.
pub struct Store {
    config: Option<Config>,
    polls: Vec<Poll>,
}

impl View for Store {
    type V = StoreView;

    closed spec fn view(&self) -> StoreView {
        StoreView {
            config: match self.config {
                Some(c) => Some(c@),
                None => None,
            },
            polls: polls_as_map(self.polls@),
        }
    }
}

/// A position in a distinct sequence determines membership, and the index
/// found for its question is that position itself.
proof fn lemma_question_at_index(polls: Seq<Poll>, i: int)
    requires
        distinct_questions(polls),
        0 <= i < polls.len(),
    ensures
        contains_question(polls, polls[i].question@),
        question_index(polls, polls[i].question@) == i,
{
    assert(contains_question(polls, polls[i].question@));
    let j = question_index(polls, polls[i].question@);
    if j != i {
        assert(polls[i].question@ != polls[j].question@);
    }
}

/// Appending a poll whose question is absent adds exactly one map entry.
proof fn lemma_polls_as_map_push(polls: Seq<Poll>, p: Poll)
    requires
        distinct_questions(polls),
        !contains_question(polls, p.question@),
    ensures
        distinct_questions(polls.push(p)),
        polls_as_map(polls.push(p)) == polls_as_map(polls).insert(p.question@, p@),
{
    let grown = polls.push(p);
    assert forall|i: int, j: int| 0 <= i < j < grown.len() implies grown[i].question@
        != grown[j].question@ by {
        if j < polls.len() {
            assert(polls[i].question@ != polls[j].question@);
        } else {
            assert(grown[j] == p);
            assert(grown[i] == polls[i]);
            if polls[i].question@ == p.question@ {
                assert(contains_question(polls, p.question@));
            }
        }
    }
    assert forall|q: Seq<char>| contains_question(grown, q) implies contains_question(polls, q)
        || q == p.question@ by {
        let i = choose|i: int| 0 <= i < grown.len() && grown[i].question@ == q;
        if i < polls.len() {
            assert(polls[i].question@ == q);
        }
    }
    assert forall|q: Seq<char>| contains_question(polls, q) implies contains_question(grown, q) by {
        let i = choose|i: int| 0 <= i < polls.len() && polls[i].question@ == q;
        assert(grown[i].question@ == q);
    }
    assert(grown[polls.len() as int].question@ == p.question@);
    assert(contains_question(grown, p.question@));
    assert forall|q: Seq<char>| contains_question(grown, q) implies polls_as_map(grown)[q]
        == polls_as_map(polls).insert(p.question@, p@)[q] by {
        let i = question_index(grown, q);
        assert(0 <= i < grown.len() && grown[i].question@ == q);
        lemma_question_at_index(grown, i);
        if q == p.question@ {
            lemma_question_at_index(grown, polls.len() as int);
            assert(i == polls.len());
            assert(grown[i] == p);
        } else {
            assert(i < polls.len());
            assert(grown[i] == polls[i]);
            lemma_question_at_index(polls, i);
        }
    }
    assert(polls_as_map(grown) =~= polls_as_map(polls).insert(p.question@, p@));
}

/// Overwriting the poll at the position of its question rewrites exactly
/// that map entry.
proof fn lemma_polls_as_map_update(polls: Seq<Poll>, i: int, p: Poll)
    requires
        distinct_questions(polls),
        0 <= i < polls.len(),
        polls[i].question@ == p.question@,
    ensures
        distinct_questions(polls.update(i, p)),
        polls_as_map(polls.update(i, p)) == polls_as_map(polls).insert(p.question@, p@),
{
    let changed = polls.update(i, p);
    assert forall|a: int, b: int| 0 <= a < b < changed.len() implies changed[a].question@
        != changed[b].question@ by {
        assert(changed[a].question@ == polls[a].question@);
        assert(changed[b].question@ == polls[b].question@);
        assert(polls[a].question@ != polls[b].question@);
    }
    assert forall|q: Seq<char>| contains_question(changed, q) <==> contains_question(
        polls,
        q,
    ) by {
        if contains_question(changed, q) {
            let a = choose|a: int| 0 <= a < changed.len() && changed[a].question@ == q;
            assert(polls[a].question@ == q);
            assert(contains_question(polls, q));
        }
        if contains_question(polls, q) {
            let a = choose|a: int| 0 <= a < polls.len() && polls[a].question@ == q;
            assert(changed[a].question@ == q);
            assert(contains_question(changed, q));
        }
    }
    assert forall|q: Seq<char>| contains_question(changed, q) implies polls_as_map(changed)[q]
        == polls_as_map(polls).insert(p.question@, p@)[q] by {
        let a = question_index(changed, q);
        assert(0 <= a < changed.len() && changed[a].question@ == q);
        lemma_question_at_index(changed, a);
        if q == p.question@ {
            assert(changed[i].question@ == q);
            lemma_question_at_index(changed, i);
            assert(a == i);
            assert(changed[a] == p);
        } else {
            assert(a != i);
            assert(changed[a] == polls[a]);
            lemma_question_at_index(polls, a);
        }
    }
    assert(polls_as_map(changed) =~= polls_as_map(polls).insert(p.question@, p@));
}

impl Store {
    /// Well-formedness: the store never holds two polls under one question.
    pub closed spec fn wf(self) -> bool {
        distinct_questions(self.polls@)
    }

    /// An empty store: no configuration yet, no polls.
    pub fn new() -> (s: Store)
        ensures
            s.wf(),
            s@.config is None,
            s@.polls == Map::<Seq<char>, PollView>::empty(),
    {
        let s = Store { config: None, polls: Vec::new() };
        proof {
            assert(s@.polls =~= Map::<Seq<char>, PollView>::empty());
        }
        s
    }

    /// Unconditional overwrite of the configuration singleton.
    pub fn save_config(&mut self, config: Config)
        requires
            old(self).wf(),
        ensures
            final(self).wf(),
            final(self)@.config == Some(config@),
            final(self)@.polls == old(self)@.polls,
    {
        self.config = Some(config);
    }

    /// Read of the configuration singleton; `NotFound` exactly when
    /// instantiation has not written it yet.
    pub fn load_config(&self) -> (r: Result<Config, ContractError>)
        ensures
            match r {
                Ok(c) => self@.config == Some(c@),
                Err(e) => self@.config is None && e == ContractError::NotFound,
            },
    {
        match &self.config {
            Some(c) => Ok(Config { admin_address: c.admin_address.clone() }),
            None => Err(ContractError::NotFound),
        }
    }

    /// Whether a poll is stored under `question`.
    #[verifier::loop_isolation(false)]
    pub fn has_poll(&self, question: &String) -> (r: bool)
        ensures
            r == self@.polls.dom().contains(question@),
    {
        let n = self.polls.len();
        let mut i: usize = 0;
        while i < n
            invariant
                n == self.polls.len(),
                i <= n,
                forall|j: int| 0 <= j < i ==> self.polls@[j].question@ != question@,
            decreases n - i,
        {
            if self.polls[i].question == *question {
                proof {
                    assert(contains_question(self.polls@, question@));
                }
                return true;
            }
            i += 1;
        }
        proof {
            assert(!contains_question(self.polls@, question@));
        }
        false
    }

    /// Read of the poll under `question`, or `None` when there is none;
    /// this read never fails.
    #[verifier::loop_isolation(false)]
    pub fn load_poll_optional(&self, question: &String) -> (r: Option<Poll>)
        requires
            self.wf(),
        ensures
            match r {
                Some(p) => self@.polls.dom().contains(question@) && p@ == self@.polls[question@]
                    && p@.question == question@,
                None => !self@.polls.dom().contains(question@),
            },
    {
        let n = self.polls.len();
        let mut i: usize = 0;
        while i < n
            invariant
                n == self.polls.len(),
                i <= n,
                forall|j: int| 0 <= j < i ==> self.polls@[j].question@ != question@,
            decreases n - i,
        {
            let p = &self.polls[i];
            if p.question == *question {
                proof {
                    lemma_question_at_index(self.polls@, i as int);
                }
                return Some(
                    Poll {
                        question: p.question.clone(),
                        yes_votes: p.yes_votes,
                        no_votes: p.no_votes,
                    },
                );
            }
            i += 1;
        }
        proof {
            assert(!contains_question(self.polls@, question@));
        }
        None
    }

    /// Read of the poll under `question`; `NotFound` exactly when there is
    /// none.
    pub fn load_poll(&self, question: &String) -> (r: Result<Poll, ContractError>)
        requires
            self.wf(),
        ensures
            match r {
                Ok(p) => self@.polls.dom().contains(question@) && p@ == self@.polls[question@]
                    && p@.question == question@,
                Err(e) => !self@.polls.dom().contains(question@) && e == ContractError::NotFound,
            },
    {
        match self.load_poll_optional(question) {
            Some(p) => Ok(p),
            None => Err(ContractError::NotFound),
        }
    }

    /// Unconditional overwrite of the poll under `question`. The caller
    /// hands the poll under its own question, which keeps the key equal to
    /// the record's `question` field.
    #[verifier::loop_isolation(false)]
    pub fn save_poll(&mut self, question: String, poll: Poll)
        requires
            old(self).wf(),
            question@ == poll@.question,
        ensures
            final(self).wf(),
            final(self)@.config == old(self)@.config,
            final(self)@.polls == old(self)@.polls.insert(question@, poll@),
    {
        let n = self.polls.len();
        let mut i: usize = 0;
        while i < n
            invariant
                n == self.polls.len(),
                i <= n,
                self.polls@ == old(self).polls@,
                self.config == old(self).config,
                forall|j: int| 0 <= j < i ==> self.polls@[j].question@ != question@,
            decreases n - i,
        {
            if self.polls[i].question == question {
                proof {
                    lemma_polls_as_map_update(self.polls@, i as int, poll);
                }
                self.polls.set(i, poll);
                return;
            }
            i += 1;
        }
        proof {
            assert(!contains_question(self.polls@, question@));
            lemma_polls_as_map_push(self.polls@, poll);
        }
        self.polls.push(poll);
    }
}

} // verus!
