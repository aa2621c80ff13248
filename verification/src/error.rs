use vstd::prelude::*;
use vstd::string::StringExecFns;

verus! {

/// How a failure is surfaced: a malformed query the user can correct, or a
/// syntactically valid one that asks for something the engine rejects by
/// policy.
#[derive(Clone, Copy, PartialEq, Eq, Structural, Debug)]
pub enum ErrorKind {
    User,
    Unsupported,
}

/// The metadata key under which a diagnostic carries the original,
/// unrewritten query text.
pub const META_QUERY_KEY: &'static str = "query";

pub const NO_STATEMENTS_PREFIX: &'static str = "Invalid query, no statements was specified: ";

pub const MULTIPLE_STATEMENTS_PREFIX: &'static str = "Multiple statements was specified in one query: ";

pub const UNABLE_TO_PARSE_PREFIX: &'static str = "Unable to parse: ";

/// The message of the diagnostic for a query that holds no statement.
pub open spec fn no_statements_message(q: Seq<char>) -> Seq<char> {
    NO_STATEMENTS_PREFIX@ + q
}

/// The message of the diagnostic for a query that holds more than one
/// statement.
pub open spec fn multiple_statements_message(q: Seq<char>) -> Seq<char> {
    MULTIPLE_STATEMENTS_PREFIX@ + q
}

/// The message of the diagnostic for text the parser refuses, over the
/// parser's own rendered detail.
pub open spec fn unable_to_parse_message(detail: Seq<char>) -> Seq<char> {
    UNABLE_TO_PARSE_PREFIX@ + detail
}

/// Whether `pat` stands somewhere in `s`.
pub open spec fn seq_contains(s: Seq<char>, pat: Seq<char>) -> bool {
    exists|i: int|
        0 <= i <= s.len() - pat.len() && #[trigger] s.subrange(i, i + pat.len() as int) == pat
}

/// A typed diagnostic: a human-readable message, a classification, and
/// key-value metadata carrying at least the original query text.
pub struct CompilationError {
    pub kind: ErrorKind,
    pub message: String,
    pub meta: Option<Vec<(String, String)>>,
}

impl CompilationError {
    /// Whether the metadata holds the text `q` under the "query" key.
    pub open spec fn has_query_meta(self, q: Seq<char>) -> bool {
        match self.meta {
            Some(meta) => exists|i: int|
                0 <= i < meta@.len() && (#[trigger] meta@[i]).0@ == META_QUERY_KEY@ && meta@[i].1@
                    == q,
            None => false,
        }
    }

    /// A diagnostic for an error the user can correct.
    pub fn user(message: String) -> (r: Self)
        ensures
            r.kind == ErrorKind::User,
            r.message == message,
            r.meta is None,
    {
        CompilationError { kind: ErrorKind::User, message, meta: None }
    }

    /// A diagnostic for a query the engine rejects by policy.
    pub fn unsupported(message: String) -> (r: Self)
        ensures
            r.kind == ErrorKind::Unsupported,
            r.message == message,
            r.meta is None,
    {
        CompilationError { kind: ErrorKind::Unsupported, message, meta: None }
    }

    /// The same diagnostic with the metadata replaced.
    pub fn with_meta(self, meta: Option<Vec<(String, String)>>) -> (r: Self)
        ensures
            r.kind == self.kind,
            r.message == self.message,
            r.meta == meta,
    {
        CompilationError { kind: self.kind, message: self.message, meta }
    }

    /// The same diagnostic with the original query text attached under the
    /// "query" key.
    pub fn with_query_meta(self, query: &String) -> (r: Self)
        ensures
            r.kind == self.kind,
            r.message == self.message,
            r.has_query_meta(query@),
    {
        let mut meta: Vec<(String, String)> = Vec::new();
        meta.push((String::from_str(META_QUERY_KEY), query.clone()));
        let r = self.with_meta(Some(meta));
        proof {
            let m = r.meta->Some_0;
            assert(m@[0].0@ == META_QUERY_KEY@ && m@[0].1@ == query@);
        }
        r
    }

    /// The diagnostic's message, rendered for display.
    pub fn to_string(&self) -> (r: String)
        ensures
            r@ == self.message@,
    {
        self.message.clone()
    }
}

/// Builds a diagnostic message: the fixed prefix followed by the query text.
pub(crate) fn prefixed_message(prefix: &str, text: &str) -> (r: String)
    ensures
        r@ == prefix@ + text@,
{
    String::from_str(prefix).concat(text)
}

/// Whatever query was submitted, the diagnostic for a statement-less query
/// names the failure: its message contains "no statements".
pub proof fn lemma_no_statements_message_is_diagnosable(q: Seq<char>)
    ensures
        seq_contains(no_statements_message(q), "no statements"@),
{
    reveal_strlit("Invalid query, no statements was specified: ");
    reveal_strlit("no statements");
    let msg = no_statements_message(q);
    let pat = "no statements"@;
    assert(pat.len() == 13);
    assert(msg.subrange(15, 15 + pat.len() as int) =~= pat);
}

/// Whatever query was submitted, the diagnostic for a multi-statement query
/// names the failure: its message contains "Multiple statements".
pub proof fn lemma_multiple_statements_message_is_diagnosable(q: Seq<char>)
    ensures
        seq_contains(multiple_statements_message(q), "Multiple statements"@),
{
    reveal_strlit("Multiple statements was specified in one query: ");
    reveal_strlit("Multiple statements");
    let msg = multiple_statements_message(q);
    let pat = "Multiple statements"@;
    assert(pat.len() == 19);
    assert(msg.subrange(0, 0 + pat.len() as int) =~= pat);
}

} // verus!
