//! Length rules on request fields, and the message that names the rules
//! a request broke.

use vstd::prelude::*;
use validator::ValidateLength;
use crate::reply::{failure_view, Reply, Status};

verus! {

/// Whether the number of characters of `value` lies within the bounds
/// that are given.
pub open spec fn length_between(value: Seq<char>, min: Option<u64>, max: Option<u64>) -> bool {
    &&& min matches Some(least) ==> least <= value.len()
    &&& max matches Some(most) ==> value.len() <= most
}

/// Calls `validator::ValidateLength::validate_length` on a string slice,
/// with no `equal` bound. The validator counts the characters of the
/// slice and answers whether that count is at least `min` and at most
/// `max`, each bound only where it is given; the contract says the same.
#[verifier::external_body]
fn has_length(value: &str, min: Option<u64>, max: Option<u64>) -> (ok: bool)
    ensures
        ok == length_between(value@, min, max),
{
    value.validate_length(min, max, None)
}

/// A length rule on one field of a request.
#[derive(Clone, Copy, Debug, PartialEq, Eq, Structural)]
pub enum Rule {
    /// The text of a todo is not empty.
    Text,
    /// The title of a post has 1 to 100 characters.
    Title,
    /// The body of a post has 1 to 1000 characters.
    Body,
    /// A password has 6 to 128 characters.
    Password,
}

impl Rule {
    /// The least number of characters that the rule accepts.
    pub open spec fn spec_min(self) -> Option<u64> {
        match self {
            Rule::Text => Some(1),
            Rule::Title => Some(1),
            Rule::Body => Some(1),
            Rule::Password => Some(6),
        }
    }

    /// The greatest number of characters that the rule accepts, if it
    /// has a bound.
    pub open spec fn spec_max(self) -> Option<u64> {
        match self {
            Rule::Text => None,
            Rule::Title => Some(100),
            Rule::Body => Some(1000),
            Rule::Password => Some(128),
        }
    }

    /// Whether `value` satisfies the rule.
    pub open spec fn holds(self, value: Seq<char>) -> bool {
        length_between(value, self.spec_min(), self.spec_max())
    }

    /// The line that reports a breach of the rule.
    pub open spec fn spec_line(self) -> Seq<char> {
        match self {
            Rule::Text => "text: must not be empty"@,
            Rule::Title => "title: length must be between 1 and 100"@,
            Rule::Body => "body: length must be between 1 and 1000"@,
            Rule::Password => "password: length must be between 6 and 128"@,
        }
    }

    #[verifier::when_used_as_spec(spec_min)]
    pub fn min(self) -> (m: Option<u64>)
        ensures
            m == self.spec_min(),
    {
        match self {
            Rule::Text => Some(1),
            Rule::Title => Some(1),
            Rule::Body => Some(1),
            Rule::Password => Some(6),
        }
    }

    #[verifier::when_used_as_spec(spec_max)]
    pub fn max(self) -> (m: Option<u64>)
        ensures
            m == self.spec_max(),
    {
        match self {
            Rule::Text => None,
            Rule::Title => Some(100),
            Rule::Body => Some(1000),
            Rule::Password => Some(128),
        }
    }

    /// Tests `value` against the rule.
    pub fn check(self, value: &str) -> (ok: bool)
        ensures
            ok == self.holds(value@),
    {
        has_length(value, self.min(), self.max())
    }

    /// The line that reports a breach of the rule, as text.
    pub fn line(self) -> (s: &'static str)
        ensures
            s@ == self.spec_line(),
    {
        match self {
            Rule::Text => "text: must not be empty",
            Rule::Title => "title: length must be between 1 and 100",
            Rule::Body => "body: length must be between 1 and 1000",
            Rule::Password => "password: length must be between 6 and 128",
        }
    }
}

/// The message for the rules in `broken`: one line for each, in order,
/// with a line feed between two lines.
pub open spec fn message_of(broken: Seq<Rule>) -> Seq<char>
    decreases broken.len(),
{
    if broken.len() == 0 {
        Seq::empty()
    } else if broken.len() == 1 {
        broken[0].spec_line()
    } else {
        message_of(broken.drop_last()) + seq!['\n'] + broken.last().spec_line()
    }
}

/// Writes the message for the rules in `broken`.
pub fn message(broken: &Vec<Rule>) -> (m: String)
    ensures
        m@ == message_of(broken@),
{
    let mut m = String::new();
    let mut i: usize = 0;
    while i < broken.len()
        invariant
            i <= broken.len(),
            m@ == message_of(broken@.take(i as int)),
        decreases broken.len() - i,
    {
        proof {
            reveal_strlit("\n");
            assert(broken@.take(i + 1).drop_last() == broken@.take(i as int));
            assert("\n"@ == seq!['\n']);
        }
        if i > 0 {
            m.append("\n");
        }
        m.append(broken[i].line());
        i = i + 1;
    }
    proof {
        assert(broken@.take(i as int) == broken@);
    }
    m
}

/// What testing `value` against `rule` adds to a list of broken rules:
/// the rule itself where the value breaks it, nothing where it holds.
pub open spec fn breach(rule: Rule, value: Seq<char>) -> Seq<Rule> {
    if rule.holds(value) {
        Seq::empty()
    } else {
        seq![rule]
    }
}

/// As [`breach`], for a field that may be absent: an absent field breaks
/// no rule.
pub open spec fn breach_if_present(rule: Rule, value: Option<String>) -> Seq<Rule> {
    match value {
        Some(v) => breach(rule, v@),
        None => Seq::empty(),
    }
}

/// Tests `value` against `rule` and records the rule in `broken` where
/// the value breaks it.
pub fn note(rule: Rule, value: &str, broken: &mut Vec<Rule>)
    ensures
        final(broken)@ == old(broken)@ + breach(rule, value@),
{
    if !rule.check(value) {
        broken.push(rule);
    }
}

/// The reply to a request that broke the rules in `broken`: a bad
/// request whose text names each of them.
pub fn rejection<T: DeepView>(broken: &Vec<Rule>) -> (r: Reply<T>)
    ensures
        r.deep_view() == failure_view::<T::V>(Status::BadRequest, message_of(broken@)),
{
    let text = message(broken);
    Reply::failure(Status::BadRequest, text.as_str())
}

} // verus!
