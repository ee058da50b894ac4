//! Rules that tell whether a text is the one a button stands for.
use vstd::pervasive::cloned;
use vstd::prelude::*;

verus! {

/// A rule that a text meets or does not meet.
pub enum TextMatch {
    /// Met by the given text and by no other.
    Verbatim(&'static str),
    /// Met by every text that begins with the given text.
    Prefix(&'static str),
    /// Met by every text that holds the given text somewhere.
    Inner(&'static str),
}

/// Whether `part` stands in `text` from the position `at` on.
pub open spec fn occurs_at(part: Seq<char>, text: Seq<char>, at: int) -> bool {
    0 <= at && at + part.len() <= text.len() && text.subrange(at, at + part.len()) == part
}

/// Whether `part` stands somewhere in `text`.
pub open spec fn occurs_in(part: Seq<char>, text: Seq<char>) -> bool {
    exists|at: int| occurs_at(part, text, at)
}

/// Whether two texts are equal, by `==` of `str`: true where both hold the same
/// characters in the same order, and only there.
#[verifier::external_body]
fn same_text(a: &str, b: &str) -> (same: bool)
    ensures
        same == (a@ == b@),
{
    a == b
}

/// Whether `text` begins with `prefix`, by `str::starts_with`: true where the
/// first characters of `text` are those of `prefix`, and only there.
#[verifier::external_body]
fn begins_with(text: &str, prefix: &str) -> (begins: bool)
    ensures
        begins == prefix@.is_prefix_of(text@),
{
    text.starts_with(prefix)
}

/// Whether `text` holds `part`, by `str::contains`: true where the characters
/// of `part` stand one after the other somewhere in `text`, and only there.
#[verifier::external_body]
fn holds_text(text: &str, part: &str) -> (holds: bool)
    ensures
        holds == occurs_in(part@, text@),
{
    text.contains(part)
}

impl TextMatch {
    /// Whether `text` meets the rule.
    pub open spec fn accepts(self, text: Seq<char>) -> bool {
        match self {
            TextMatch::Verbatim(wanted) => text == wanted@,
            TextMatch::Prefix(wanted) => wanted@.is_prefix_of(text),
            TextMatch::Inner(wanted) => occurs_in(wanted@, text),
        }
    }

    /// Whether `text` meets the rule.
    pub fn matches(&self, text: &str) -> (met: bool)
        ensures
            met == self.accepts(text@),
    {
        match self {
            TextMatch::Verbatim(wanted) => same_text(text, wanted),
            TextMatch::Prefix(wanted) => begins_with(text, wanted),
            TextMatch::Inner(wanted) => holds_text(text, wanted),
        }
    }

    /// A copy of the button of the first entry whose rule `text` meets, or
    /// `None` where it meets the rule of no entry.
    pub fn find<T: Clone>(matches: &[(T, TextMatch)], text: &str) -> (found: Option<T>)
        ensures
            match found {
                Some(button) => exists|i: int|
                    0 <= i < matches@.len() && (#[trigger] matches@[i]).1.accepts(text@) && cloned(
                        matches@[i].0,
                        button,
                    ) && forall|j: int| 0 <= j < i ==> !(#[trigger] matches@[j]).1.accepts(text@),
                None => forall|i: int|
                    0 <= i < matches@.len() ==> !(#[trigger] matches@[i]).1.accepts(text@),
            },
    {
        let mut i: usize = 0;
        while i < matches.len()
            invariant
                i <= matches@.len(),
                forall|j: int| 0 <= j < i ==> !(#[trigger] matches@[j]).1.accepts(text@),
            decreases matches@.len() - i,
        {
            if matches[i].1.matches(text) {
                let button = matches[i].0.clone();
                return Some(button);
            }
            i += 1;
        }
        None
    }
}

} // verus!
