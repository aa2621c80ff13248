use vstd::prelude::*;
use sqlparser::ast::Statement;
use crate::dialect::DatabaseProtocol;
use crate::error::CompilationError;
use crate::error::ErrorKind;
use crate::error::multiple_statements_message;
use crate::error::no_statements_message;
use crate::error::prefixed_message;
use crate::error::seq_contains;
use crate::error::unable_to_parse_message;
use crate::error::MULTIPLE_STATEMENTS_PREFIX;
use crate::error::NO_STATEMENTS_PREFIX;
use crate::error::UNABLE_TO_PARSE_PREFIX;
use crate::qtrace::notify_replaced_query;
use crate::qtrace::trace_reports;
use crate::qtrace::Qtrace;
use crate::rewrite::normalize_spec;
use crate::rewrite::rewrite_query;

verus! {

/// sqlparser's statement tree; opaque to this library, which never looks
/// inside a parsed statement.
#[verifier::external_type_specification]
#[verifier::external_body]
pub struct ExStatement(Statement);

/// What sqlparser's `Parser::parse_sql` returns on the text under the MySQL
/// dialect: the parsed statements, or the parser error's rendered detail.
/// Parsing is deterministic, a function of the text alone.
pub uninterp spec fn mysql_parse(text: Seq<char>) -> Result<Seq<Statement>, Seq<char>>;

/// What sqlparser's `Parser::parse_sql` returns on the text under the
/// Postgres dialect: the parsed statements, or the parser error's rendered
/// detail. Parsing is deterministic, a function of the text alone.
pub uninterp spec fn postgres_parse(text: Seq<char>) -> Result<Seq<Statement>, Seq<char>>;

/// The parse outcome under the dialect the protocol selects.
pub open spec fn protocol_parse(protocol: DatabaseProtocol, text: Seq<char>) -> Result<
    Seq<Statement>,
    Seq<char>,
> {
    match protocol {
        DatabaseProtocol::MySQL => mysql_parse(text),
        DatabaseProtocol::PostgreSQL => postgres_parse(text),
    }
}

/// Relies on sqlparser's `Parser::parse_sql` with `MySqlDialect`: the
/// statements it parses the text into, or the parser error, rendered; either
/// is a function of the text alone. sqlparser's `Dialect` is an outside
/// trait, so `MySqlDialectWithBackTicks` cannot be handed to the parser from
/// here; the stock MySQL dialect, which also treats backticks as identifier
/// quotes, stands in for it.
#[verifier::external_body]
fn parse_mysql(query: &str) -> (r: Result<Vec<Statement>, String>)
    ensures
        match r {
            Ok(v) => mysql_parse(query@) == Ok::<Seq<Statement>, Seq<char>>(v@),
            Err(e) => mysql_parse(query@) == Err::<Seq<Statement>, Seq<char>>(e@),
        },
{
    match sqlparser::parser::Parser::parse_sql(&sqlparser::dialect::MySqlDialect {}, query) {
        Ok(v) => Ok(v),
        Err(e) => Err(format!("{:?}", e)),
    }
}

/// Relies on sqlparser's `Parser::parse_sql` with `PostgreSqlDialect`: the
/// statements it parses the text into, or the parser error, rendered; either
/// is a function of the text alone.
#[verifier::external_body]
fn parse_postgres(query: &str) -> (r: Result<Vec<Statement>, String>)
    ensures
        match r {
            Ok(v) => postgres_parse(query@) == Ok::<Seq<Statement>, Seq<char>>(v@),
            Err(e) => postgres_parse(query@) == Err::<Seq<Statement>, Seq<char>>(e@),
        },
{
    match sqlparser::parser::Parser::parse_sql(&sqlparser::dialect::PostgreSqlDialect {}, query) {
        Ok(v) => Ok(v),
        Err(e) => Err(format!("{:?}", e)),
    }
}

fn parse_with_protocol(query: &str, protocol: DatabaseProtocol) -> (r: Result<
    Vec<Statement>,
    String,
>)
    ensures
        r is Ok <==> protocol_parse(protocol, query@) is Ok,
        r matches Ok(v) ==> protocol_parse(protocol, query@) == Ok::<Seq<Statement>, Seq<char>>(v@),
        r matches Err(e) ==> protocol_parse(protocol, query@) == Err::<Seq<Statement>, Seq<char>>(
            e@,
        ),
{
    match protocol {
        DatabaseProtocol::MySQL => parse_mysql(query),
        DatabaseProtocol::PostgreSQL => parse_postgres(query),
    }
}

/// Rewrites the raw query into engine-parsable text, reports the normalized
/// text to the trace sink where one is supplied, and parses it under the
/// protocol's dialect. A parse failure becomes a user-error diagnostic whose
/// message carries the parser's detail and whose metadata carries the
/// original, unrewritten query text.
pub fn parse_sql_to_statements(
    query: &String,
    protocol: DatabaseProtocol,
    qtrace: &mut Option<Qtrace>,
) -> (r: Result<Vec<Statement>, CompilationError>)
    ensures
        trace_reports(*old(qtrace), *final(qtrace), normalize_spec(query@)),
        r is Ok <==> protocol_parse(protocol, normalize_spec(query@)) is Ok,
        r matches Ok(v) ==> protocol_parse(protocol, normalize_spec(query@)) == Ok::<
            Seq<Statement>,
            Seq<char>,
        >(v@),
        r matches Err(e) ==> {
            &&& protocol_parse(protocol, normalize_spec(query@)) matches Err(detail)
                && e.message@ == unable_to_parse_message(detail)
            &&& e.kind == ErrorKind::User
            &&& e.has_query_meta(query@)
        },
{
    let normalized = rewrite_query(query.as_str());
    notify_replaced_query(qtrace, normalized.as_str());
    match parse_with_protocol(normalized.as_str(), protocol) {
        Ok(statements) => Ok(statements),
        Err(detail) => {
            let message = prefixed_message(UNABLE_TO_PARSE_PREFIX, detail.as_str());
            Err(CompilationError::user(message).with_query_meta(query))
        },
    }
}

/// Enforces the single-statement policy: exactly one parsed statement comes
/// back as it is; zero statements are a user error and more than one an
/// unsupported-feature error, each diagnostic carrying the original query
/// text in its message and metadata.
pub fn validate_single_statement(statements: Vec<Statement>, query: &String) -> (r: Result<
    Statement,
    CompilationError,
>)
    ensures
        statements@.len() == 1 ==> (r matches Ok(s) && s == statements@[0]),
        statements@.len() == 0 ==> (r matches Err(e) && e.kind == ErrorKind::User && e.message@
            == no_statements_message(query@) && e.has_query_meta(query@)),
        statements@.len() > 1 ==> (r matches Err(e) && e.kind == ErrorKind::Unsupported
            && e.message@ == multiple_statements_message(query@) && e.has_query_meta(query@)),
{
    let mut statements = statements;
    if statements.len() == 1 {
        let s = statements.pop().unwrap();
        Ok(s)
    } else if statements.len() == 0 {
        let message = prefixed_message(NO_STATEMENTS_PREFIX, query.as_str());
        Err(CompilationError::user(message).with_query_meta(query))
    } else {
        let message = prefixed_message(MULTIPLE_STATEMENTS_PREFIX, query.as_str());
        Err(CompilationError::unsupported(message).with_query_meta(query))
    }
}

/// What `parse_sql_to_statement` promises of its outcome on a query under a
/// protocol: the one statement of a single-statement query, and the exact
/// diagnostic on each of the three failure paths.
pub open spec fn single_statement_outcome(
    r: Result<Statement, CompilationError>,
    protocol: DatabaseProtocol,
    query: Seq<char>,
) -> bool {
    match protocol_parse(protocol, normalize_spec(query)) {
        Ok(stmts) => {
            &&& stmts.len() == 1 ==> (r matches Ok(s) && s == stmts[0])
            &&& stmts.len() == 0 ==> (r matches Err(e) && e.kind == ErrorKind::User && e.message@
                == no_statements_message(query) && e.has_query_meta(query))
            &&& stmts.len() > 1 ==> (r matches Err(e) && e.kind == ErrorKind::Unsupported
                && e.message@ == multiple_statements_message(query) && e.has_query_meta(query))
        },
        Err(detail) => r matches Err(e) && e.kind == ErrorKind::User && e.message@
            == unable_to_parse_message(detail) && e.has_query_meta(query),
    }
}

/// Parses the raw query under the protocol's dialect and enforces that it
/// holds exactly one statement.
pub fn parse_sql_to_statement(
    query: &String,
    protocol: DatabaseProtocol,
    qtrace: &mut Option<Qtrace>,
) -> (r: Result<Statement, CompilationError>)
    ensures
        trace_reports(*old(qtrace), *final(qtrace), normalize_spec(query@)),
        single_statement_outcome(r, protocol, query@),
{
    match parse_sql_to_statements(query, protocol, qtrace) {
        Ok(statements) => validate_single_statement(statements, query),
        Err(e) => Err(e),
    }
}

/// For every protocol: on a query whose normalized text parses to zero
/// statements, the single-statement entry point returns a user error whose
/// message contains "no statements" and whose metadata carries the original
/// query text.
pub proof fn lemma_zero_statements_outcome(
    r: Result<Statement, CompilationError>,
    protocol: DatabaseProtocol,
    query: Seq<char>,
)
    requires
        single_statement_outcome(r, protocol, query),
        protocol_parse(protocol, normalize_spec(query)) matches Ok(stmts) && stmts.len() == 0,
    ensures
        r matches Err(e) && e.kind == ErrorKind::User && seq_contains(
            e.message@,
            "no statements"@,
        ) && e.has_query_meta(query),
{
    crate::error::lemma_no_statements_message_is_diagnosable(query);
}

/// For every protocol: on a query whose normalized text parses to two or
/// more statements, the single-statement entry point returns an
/// unsupported-feature error whose message contains "Multiple statements"
/// and whose metadata carries the original query text.
pub proof fn lemma_multiple_statements_outcome(
    r: Result<Statement, CompilationError>,
    protocol: DatabaseProtocol,
    query: Seq<char>,
)
    requires
        single_statement_outcome(r, protocol, query),
        protocol_parse(protocol, normalize_spec(query)) matches Ok(stmts) && stmts.len() > 1,
    ensures
        r matches Err(e) && e.kind == ErrorKind::Unsupported && seq_contains(
            e.message@,
            "Multiple statements"@,
        ) && e.has_query_meta(query),
{
    crate::error::lemma_multiple_statements_message_is_diagnosable(query);
}

/// Every failing outcome, on whatever path it failed, carries the original,
/// pre-rewrite query text in its metadata.
pub proof fn lemma_failure_metadata_has_original_query(
    r: Result<Statement, CompilationError>,
    protocol: DatabaseProtocol,
    query: Seq<char>,
)
    requires
        single_statement_outcome(r, protocol, query),
        r is Err,
    ensures
        r matches Err(e) && e.has_query_meta(query),
{
}

} // verus!
