mod dialect;
mod error;
mod parser;
mod qtrace;
mod replace;
mod rewrite;

pub use dialect::DatabaseProtocol;
pub use dialect::MySqlDialectWithBackTicks;
pub use error::CompilationError;
pub use error::ErrorKind;
pub use parser::parse_sql_to_statement;
pub use parser::parse_sql_to_statements;
pub use parser::validate_single_statement;
pub use qtrace::Qtrace;
pub use rewrite::rewrite_query;
