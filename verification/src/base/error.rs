//! The error type every assertion helper reports.
use vstd::prelude::*;

verus! {

/// Errors raised by testkit assertion helpers and setup routines.
///
/// Every failing check in this crate reports one of these, never a bare
/// string, so that a failure carries a stable, matchable kind.
#[derive(Debug)]
pub enum TestkitError {
    /// An expectation about contract state or behaviour was not met.
    AssertionFailed(String),
    /// A captured value could not be decoded into the requested type.
    DecodeFailed(String),
    /// The testkit API was used in a way its contract does not allow.
    Misuse(String),
}

impl TestkitError {
    /// The human-readable detail carried by the error.
    pub open spec fn detail(&self) -> Seq<char> {
        match self {
            TestkitError::AssertionFailed(m) => m@,
            TestkitError::DecodeFailed(m) => m@,
            TestkitError::Misuse(m) => m@,
        }
    }

    /// The stable, machine-readable code of the error's kind.
    pub open spec fn code_text(&self) -> Seq<char> {
        match self {
            TestkitError::AssertionFailed(_) => "TESTKIT_ASSERTION_FAILED"@,
            TestkitError::DecodeFailed(_) => "TESTKIT_DECODE_FAILED"@,
            TestkitError::Misuse(_) => "TESTKIT_MISUSE"@,
        }
    }

    /// The prefix that the displayed message puts before the detail.
    pub open spec fn prefix_text(&self) -> Seq<char> {
        match self {
            TestkitError::AssertionFailed(_) => "assertion failed: "@,
            TestkitError::DecodeFailed(_) => "failed to decode value: "@,
            TestkitError::Misuse(_) => "misuse of testkit API: "@,
        }
    }

    /// The full displayed message: the kind's prefix, then the detail.
    pub open spec fn message_text(&self) -> Seq<char> {
        self.prefix_text() + self.detail()
    }

    /// A stable, machine-readable code identifying the kind of error,
    /// independent of the human-readable message.
    ///
    /// | Variant | Code |
    /// |---|---|
    /// | `AssertionFailed` | `TESTKIT_ASSERTION_FAILED` |
    /// | `DecodeFailed` | `TESTKIT_DECODE_FAILED` |
    /// | `Misuse` | `TESTKIT_MISUSE` |
    pub fn code(&self) -> (c: &'static str)
        ensures
            c@ == self.code_text(),
    {
        match self {
            TestkitError::AssertionFailed(_) => "TESTKIT_ASSERTION_FAILED",
            TestkitError::DecodeFailed(_) => "TESTKIT_DECODE_FAILED",
            TestkitError::Misuse(_) => "TESTKIT_MISUSE",
        }
    }

    /// The displayed message, e.g. `misuse of testkit API: <detail>`.
    pub fn to_string(&self) -> (s: String)
        ensures
            s@ == self.message_text(),
    {
        match self {
            TestkitError::AssertionFailed(m) => {
                let mut s = String::from_str("assertion failed: ");
                s.append(m.as_str());
                s
            },
            TestkitError::DecodeFailed(m) => {
                let mut s = String::from_str("failed to decode value: ");
                s.append(m.as_str());
                s
            },
            TestkitError::Misuse(m) => {
                let mut s = String::from_str("misuse of testkit API: ");
                s.append(m.as_str());
                s
            },
        }
    }
}

/// Whether a character may appear in an error code: an ASCII capital or `_`.
pub open spec fn is_code_char(c: char) -> bool {
    ('A' <= c && c <= 'Z') || c == '_'
}

/// Codes identify kinds: two errors of different kinds never share a code.
pub proof fn lemma_codes_distinguish_kinds(a: TestkitError, b: TestkitError)
    requires
        a.code_text() == b.code_text(),
    ensures
        (a is AssertionFailed) == (b is AssertionFailed),
        (a is DecodeFailed) == (b is DecodeFailed),
        (a is Misuse) == (b is Misuse),
{
    reveal_strlit("TESTKIT_ASSERTION_FAILED");
    reveal_strlit("TESTKIT_DECODE_FAILED");
    reveal_strlit("TESTKIT_MISUSE");
    assert("TESTKIT_ASSERTION_FAILED"@[8] != "TESTKIT_DECODE_FAILED"@[8]);
    assert("TESTKIT_ASSERTION_FAILED"@[8] != "TESTKIT_MISUSE"@[8]);
    assert("TESTKIT_DECODE_FAILED"@[8] != "TESTKIT_MISUSE"@[8]);
}

/// A code depends on the kind of error only, never on its message.
pub proof fn lemma_code_ignores_detail(a: TestkitError, b: TestkitError)
    requires
        (a is AssertionFailed && b is AssertionFailed) || (a is DecodeFailed && b is DecodeFailed)
            || (a is Misuse && b is Misuse),
    ensures
        a.code_text() == b.code_text(),
{
}

/// Every code is non-empty SCREAMING_SNAKE_CASE.
pub proof fn lemma_codes_are_screaming_snake_case(e: TestkitError)
    ensures
        e.code_text().len() > 0,
        forall|i: int| 0 <= i < e.code_text().len() ==> is_code_char(#[trigger] e.code_text()[i]),
{
    reveal_strlit("TESTKIT_ASSERTION_FAILED");
    reveal_strlit("TESTKIT_DECODE_FAILED");
    reveal_strlit("TESTKIT_MISUSE");
}

} // verus!
