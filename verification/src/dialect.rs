use vstd::prelude::*;

verus! {

/// The wire protocol a client speaks; it selects the SQL dialect used for
/// tokenization and parsing.
#[derive(Clone, Copy, PartialEq, Eq, Structural, Debug)]
pub enum DatabaseProtocol {
    MySQL,
    PostgreSQL,
}

/// True for the characters that may open a delimited (quoted) identifier in
/// the MySQL-like dialect: double quote and backtick.
pub open spec fn spec_is_delimited_identifier_start(ch: char) -> bool {
    ch == '"' || ch == '`'
}

/// True for the characters that may begin an ordinary identifier in the
/// MySQL-like dialect: ASCII letters, `_`, `$`, `@`, and the extended range
/// U+0080..=U+FFFF. Digits are excluded so identifiers cannot be confused
/// with numeric literals.
pub open spec fn spec_is_identifier_start(ch: char) -> bool {
    ||| 'a' <= ch <= 'z'
    ||| 'A' <= ch <= 'Z'
    ||| ch == '_'
    ||| ch == '$'
    ||| ch == '@'
    ||| '\u{0080}' <= ch <= '\u{ffff}'
}

/// True for the characters that may continue an identifier in the MySQL-like
/// dialect: any identifier-start character, or an ASCII digit.
pub open spec fn spec_is_identifier_part(ch: char) -> bool {
    spec_is_identifier_start(ch) || '0' <= ch <= '9'
}

/// Tokenization rules for MySQL-like clients: identifiers may be delimited
/// with backticks as well as double quotes.
#[derive(Debug)]
pub struct MySqlDialectWithBackTicks {}

impl MySqlDialectWithBackTicks {
    pub fn is_delimited_identifier_start(&self, ch: char) -> (r: bool)
        ensures
            r == spec_is_delimited_identifier_start(ch),
    {
        ch == '"' || ch == '`'
    }

    pub fn is_identifier_start(&self, ch: char) -> (r: bool)
        ensures
            r == spec_is_identifier_start(ch),
    {
        ('a' <= ch && ch <= 'z') || ('A' <= ch && ch <= 'Z') || ch == '_' || ch == '$' || ch == '@'
            || ('\u{0080}' <= ch && ch <= '\u{ffff}')
    }

    pub fn is_identifier_part(&self, ch: char) -> (r: bool)
        ensures
            r == spec_is_identifier_part(ch),
    {
        self.is_identifier_start(ch) || ('0' <= ch && ch <= '9')
    }
}

} // verus!
