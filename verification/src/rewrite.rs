use vstd::prelude::*;
use crate::replace::replace_seq;
use crate::replace::replace_str;

verus! {

// The ordered rule table of the rewrite pipeline. Each rule addresses one
// known client-compatibility gap: an exact fragment of a query some BI or
// ODBC/JDBC client is known to send, together with the engine-parsable text
// that stands in for it. Rules apply in the order they are listed here; each
// rule's input is the previous rule's output.
/// Replacement text of the rules that simply drop a fragment.
pub const REMOVED: &'static str = "";

// Metabase
pub const METABASE_TABLE_TYPE_IF_FROM: &'static str = "IF(TABLE_TYPE='BASE TABLE' or TABLE_TYPE='SYSTEM VERSIONED', 'TABLE', TABLE_TYPE) as TABLE_TYPE";

pub const METABASE_TABLE_TYPE_IF_TO: &'static str = "TABLE_TYPE";

pub const METABASE_ORDER_BY_FROM: &'static str = "ORDER BY TABLE_TYPE, TABLE_SCHEMA, TABLE_NAME";

// The CONVERT invocation has no engine support; a constant stands in for it.
pub const CONVERT_NUMERIC_SCALE_FROM: &'static str = "CONVERT (CASE DATA_TYPE WHEN 'year' THEN NUMERIC_SCALE WHEN 'tinyint' THEN 0 ELSE NUMERIC_SCALE END, UNSIGNED INTEGER)";

pub const CONVERT_NUMERIC_SCALE_TO: &'static str = "0";

// Types written with a space defeat the parser; both casings occur in the
// wild and are matched as distinct rules so that nothing else in the query
// is case-folded.
pub const SIGNED_INTEGER_LOWER_FROM: &'static str = "signed integer";

pub const SIGNED_INTEGER_UPPER_FROM: &'static str = "SIGNED INTEGER";

pub const UNSIGNED_INTEGER_LOWER_FROM: &'static str = "unsigned integer";

pub const UNSIGNED_INTEGER_UPPER_FROM: &'static str = "UNSIGNED INTEGER";

pub const SPACED_INTEGER_TO: &'static str = "bigint";

// DBeaver
pub const DBEAVER_DATABASE_OID_FROM: &'static str = "SELECT db.oid,db.* FROM pg_catalog.pg_database db";

pub const DBEAVER_DATABASE_OID_TO: &'static str = "SELECT db.oid as _oid,db.* FROM pg_catalog.pg_database db";

pub const DBEAVER_TABLE_OID_FROM: &'static str = "SELECT t.oid,t.*,c.relkind";

pub const DBEAVER_TABLE_OID_TO: &'static str = "SELECT t.oid as _oid,t.*,c.relkind";

pub const DBEAVER_NAMESPACE_OID_FROM: &'static str = "SELECT n.oid,n.*,d.description FROM";

pub const DBEAVER_NAMESPACE_OID_TO: &'static str = "SELECT n.oid as _oid,n.*,d.description FROM";

// Superset
pub const SUPERSET_ATTRDEF_FROM: &'static str = "(SELECT pg_catalog.pg_get_expr(d.adbin, d.adrelid)\
\n                FROM pg_catalog.pg_attrdef d\
\n               WHERE d.adrelid = a.attrelid AND d.adnum = a.attnum\
\n               AND a.atthasdef)\
\n              AS DEFAULT";

pub const SUPERSET_ATTRDEF_TO: &'static str = "NULL AS DEFAULT";

pub const SUPERSET_INDEX_QUERY_FROM: &'static str = "SELECT\
\n                  i.relname as relname,\
\n                  ix.indisunique, ix.indexprs, ix.indpred,\
\n                  a.attname, a.attnum, c.conrelid, ix.indkey::varchar,\
\n                  ix.indoption::varchar, i.reloptions, am.amname,\
\n                  ix.indnkeyatts as indnkeyatts\
\n              FROM\
\n                  pg_class t\
\n                        join pg_index ix on t.oid = ix.indrelid\
\n                        join pg_class i on i.oid = ix.indexrelid\
\n                        left outer join\
\n                            pg_attribute a\
\n                            on t.oid = a.attrelid and a.attnum = ANY(ix.indkey)\
\n                        left outer join\
\n                            pg_constraint c\
\n                            on (ix.indrelid = c.conrelid and\
\n                                ix.indexrelid = c.conindid and\
\n                                c.contype in ('p', 'u', 'x'))\
\n                        left outer join\
\n                            pg_am am\
\n                            on i.relam = am.oid\
\n              WHERE\
\n                  t.relkind IN ('r', 'v', 'f', 'm', 'p')";

pub const SUPERSET_INDEX_QUERY_TO: &'static str = "SELECT\
\n                  i.relname as relname,\
\n                  ix.indisunique, ix.indexprs, ix.indpred,\
\n                  a.attname, a.attnum, c.conrelid, ix.indkey,\
\n                  ix.indoption, i.reloptions, am.amname,\
\n                  ix.indnkeyatts as indnkeyatts\
\n              FROM\
\n                  pg_class t\
\n                        join pg_index ix on t.oid = ix.indrelid\
\n                        join pg_class i on i.oid = ix.indexrelid\
\n                        left outer join\
\n                            pg_attribute a\
\n                            on t.oid = a.attrelid\
\n                        left outer join\
\n                            pg_constraint c\
\n                            on (ix.indrelid = c.conrelid and\
\n                                ix.indexrelid = c.conindid and\
\n                                c.contype in ('p', 'u', 'x'))\
\n                        left outer join\
\n                            pg_am am\
\n                            on i.relam = am.oid\
\n              WHERE\
\n                  t.relkind IN ('r', 'v', 'f', 'm', 'p')";

pub const SUPERSET_INDISPRIMARY_FROM: &'static str = "and ix.indisprimary = 'f'\
\n              ORDER BY\
\n                  t.relname,\
\n                  i.relname";

pub const SUPERSET_INDISPRIMARY_TO: &'static str = "and ix.indisprimary = false";

pub const SUPERSET_INDKEY_JOIN_FROM: &'static str = "on t.oid = a.attrelid and a.attnum = ANY(ix.indkey)";

pub const SUPERSET_INDKEY_JOIN_TO: &'static str = "on t.oid = a.attrelid";

// Tableau Desktop (ODBC): the downstream compiler refuses ON conditions with
// these filters; a simplified join condition stands in for them.
pub const TABLEAU_ATTRDEF_JOIN_FROM: &'static str = "left outer join pg_attrdef d on a.atthasdef and";

pub const TABLEAU_ATTRDEF_JOIN_TO: &'static str = "left outer join pg_attrdef d on";

pub const TABLEAU_CONKEY_FROM: &'static str = "a.attnum = ANY(cons.conkey)";

pub const TABLEAU_CONKEY_TO: &'static str = "1 = 1";

pub const TABLEAU_CONSTRAINTDEF_FROM: &'static str = "pg_get_constraintdef(cons.oid) as src";

pub const TABLEAU_CONSTRAINTDEF_TO: &'static str = "NULL as src";

// ThoughtSpot (Redshift): subqueries must carry an alias.
pub const THOUGHTSPOT_SVV_TABLES_FROM: &'static str = "AS REF_GENERATION  FROM svv_tables) WHERE true  AND current_database() = ";

pub const THOUGHTSPOT_SVV_TABLES_TO: &'static str = "AS REF_GENERATION  FROM svv_tables) as svv_tables WHERE current_database() =";

pub const THOUGHTSPOT_TABLE_TYPE_IN_FROM: &'static str = "AND TABLE_TYPE IN ( 'TABLE', 'VIEW', 'EXTERNAL TABLE')";

pub const THOUGHTSPOT_LBV_FROM: &'static str = "FROM (select lbv_cols.schemaname, lbv_cols.tablename, lbv_cols.columnname,REGEXP_REPLACE(REGEXP_REPLACE(lbv_cols.columntype,'\\\\(.*\\\\)'),'^_.+','ARRAY') as columntype_rep,columntype, lbv_cols.columnnum from pg_get_late_binding_view_cols() lbv_cols( schemaname name, tablename name, columnname name, columntype text, columnnum int)) lbv_columns   WHERE";

pub const THOUGHTSPOT_LBV_TO: &'static str = "FROM (select schemaname, tablename, columnname,REGEXP_REPLACE(REGEXP_REPLACE(columntype,'\\\\(.*\\\\)'),'^_.+','ARRAY') as columntype_rep,columntype, columnnum from get_late_binding_view_cols_unpacked) as lbv_columns   WHERE";

pub const THOUGHTSPOT_UNION_ALIAS_FROM: &'static str = "ORDER BY TABLE_SCHEM,c.relname,attnum )  UNION ALL SELECT current_database()::VARCHAR(128) AS TABLE_CAT";

pub const THOUGHTSPOT_UNION_ALIAS_TO: &'static str = "ORDER BY TABLE_SCHEM,c.relname,attnum ) as t  UNION ALL SELECT current_database()::VARCHAR(128) AS TABLE_CAT";

pub const THOUGHTSPOT_AUTOINCREMENT_FROM: &'static str = "END AS IS_AUTOINCREMENT, IS_AUTOINCREMENT AS IS_GENERATEDCOLUMN";

pub const THOUGHTSPOT_AUTOINCREMENT_TO: &'static str = "END AS IS_AUTOINCREMENT, false AS IS_GENERATEDCOLUMN";

// Sigma Computing sends a recursive-CTE introspection query whose join and
// filter conditions have to be restructured. The rewrite is gated by a guard
// signature over the whole query so that it never fires on unrelated text
// that shares a short substring.
pub const SIGMA_GUARD: &'static str = r#"(?s)^\s*with\s+nsp\sas\s\(.*nspname\s=\s.*\),\s+tbl\sas\s\(.*relname\s=\s.*\).*select\s+attname.*from\spg_attribute.*$"#;

pub const SIGMA_RELNAMESPACE_RE: &'static str = r#"(?s)from\spg_catalog\.pg_class\s+where\s+relname\s=\s(?P<relname>'(?:[^']|'')+'|\$\d+)\s+and\s+relnamespace\s=\s\(select\soid\sfrom\snsp\)"#;

pub const SIGMA_RELNAMESPACE_REP: &'static str = "from pg_catalog.pg_class join nsp on relnamespace = nsp.oid where relname = $relname";

pub const SIGMA_ATTRELID_RE: &'static str = r#"(?s)left\sjoin\spg_description\son\s+attrelid\s=\sobjoid\sand\s+attnum\s=\sobjsubid\s+where\s+attnum\s>\s0\s+and\s+attrelid\s=\s\(select\soid\sfrom\stbl\)"#;

pub const SIGMA_ATTRELID_REP: &'static str = "left join pg_description on attrelid = objoid and attnum = objsubid join tbl on attrelid = tbl.oid where attnum > 0";

// Metabase
pub const METABASE_ENUM_FROM: &'static str = "WHERE t.oid IN (SELECT DISTINCT enumtypid FROM pg_enum e)";

pub const METABASE_ENUM_TO: &'static str = "WHERE t.oid = 0";

// Holistics: the downstream compiler refuses ON conditions with these
// filters.
pub const HOLISTICS_CONKEY_FROM: &'static str = "ON c.conrelid=ta.attrelid AND ta.attnum=c.conkey[o.ord]";

pub const HOLISTICS_CONKEY_TO: &'static str = "ON c.conrelid=ta.attrelid";

pub const HOLISTICS_CONFKEY_FROM: &'static str = "ON c.confrelid=fa.attrelid AND fa.attnum=c.confkey[o.ord]";

pub const HOLISTICS_CONFKEY_TO: &'static str = "ON c.confrelid=fa.attrelid";

pub const HOLISTICS_TABLES_IN_FROM: &'static str = "AND c.relname IN (SELECT table_name\nFROM information_schema.tables\nWHERE (table_type = 'BASE TABLE' OR table_type = 'VIEW')\n  AND table_schema NOT IN ('pg_catalog', 'information_schema')\n  AND has_schema_privilege(table_schema, 'USAGE'::text)\n)\n";

// Microstrategy
pub const MICROSTRATEGY_SCHEMA_FROM: &'static str = "= (SELECT current_schema())";

pub const MICROSTRATEGY_SCHEMA_TO: &'static str = "= current_schema()";

// Grafana
pub const GRAFANA_SCHEMATA_FROM: &'static str = "WHERE quote_ident(table_schema) NOT IN ('information_schema', 'pg_catalog', '_timescaledb_cache', '_timescaledb_catalog', '_timescaledb_internal', '_timescaledb_config', 'timescaledb_information', 'timescaledb_experimental') AND table_type = 'BASE TABLE' AND quote_ident(table_schema) IN (SELECT CASE WHEN TRIM(s[i]) = '\"$user\"' THEN user ELSE TRIM(s[i]) END FROM generate_series(array_lower(string_to_array(current_setting('search_path'), ','), 1), array_upper(string_to_array(current_setting('search_path'), ','), 1)) AS i, string_to_array(current_setting('search_path'), ',') AS s)";

pub const GRAFANA_SCHEMATA_TO: &'static str = "WHERE quote_ident(table_schema) IN (current_user, current_schema()) AND table_type = 'BASE TABLE'";

pub const GRAFANA_SCHEMATA_ML_FROM: &'static str = "where quote_ident(table_schema) not in ('information_schema',\
\n                             'pg_catalog',\
\n                             '_timescaledb_cache',\
\n                             '_timescaledb_catalog',\
\n                             '_timescaledb_internal',\
\n                             '_timescaledb_config',\
\n                             'timescaledb_information',\
\n                             'timescaledb_experimental')\
\n      and \
\n          quote_ident(table_schema) IN (\
\n          SELECT\
\n            CASE WHEN trim(s[i]) = '\"$user\"' THEN user ELSE trim(s[i]) END\
\n          FROM\
\n            generate_series(\
\n              array_lower(string_to_array(current_setting('search_path'),','),1),\
\n              array_upper(string_to_array(current_setting('search_path'),','),1)\
\n            ) as i,\
\n            string_to_array(current_setting('search_path'),',') s\
\n          )";

pub const GRAFANA_SCHEMATA_ML_TO: &'static str = "WHERE quote_ident(table_schema) IN (current_user, current_schema())";

// psqlODBC: repeated unnamed NULL columns need distinct aliases.
pub const PSQLODBC_NULLS_FROM: &'static str = "select NULL, NULL, NULL";

pub const PSQLODBC_NULLS_TO: &'static str = "select NULL, NULL AS NULL2, NULL AS NULL3";

/// Whether the text compiles as a regular expression. Relied on by the
/// trusted regex wrappers below; compiling depends on the pattern alone.
pub uninterp spec fn regex_compiles(pattern: Seq<char>) -> bool;

/// Whether the pattern, as a regular expression, matches somewhere in the
/// text. Relied on by the trusted regex wrappers below; matching depends on
/// the pattern and the text alone.
pub uninterp spec fn regex_matches(pattern: Seq<char>, text: Seq<char>) -> bool;

/// The text with the leftmost match of the pattern, if any, replaced by the
/// replacement (`$name` expanding to the matched groups). Relied on by the
/// trusted regex wrappers below; the result depends on the three arguments
/// alone.
pub uninterp spec fn regex_replaced(pattern: Seq<char>, text: Seq<char>, rep: Seq<char>) -> Seq<char>;

/// Relies on `regex::Regex::new` and `regex::Regex::is_match`: whether a
/// pattern compiles is a function of the pattern alone, and whether it
/// matches is a function of the pattern and the text alone.
#[verifier::external_body]
fn regex_is_match(pattern: &str, text: &str) -> (r: Option<bool>)
    ensures
        r is Some <==> regex_compiles(pattern@),
        r matches Some(b) ==> b == regex_matches(pattern@, text@),
{
    match regex::Regex::new(pattern) {
        Ok(re) => Some(re.is_match(text)),
        Err(_) => None,
    }
}

/// Relies on `regex::Regex::new` and `regex::Regex::replace`: the result is
/// the text with the leftmost match of the pattern, if any, replaced by the
/// replacement, a function of the three arguments alone; a text without a
/// match comes back unchanged.
#[verifier::external_body]
fn regex_replace(pattern: &str, text: &str, rep: &str) -> (r: Option<String>)
    ensures
        r is Some <==> regex_compiles(pattern@),
        r matches Some(t) ==> t@ == regex_replaced(pattern@, text@, rep@) && (!regex_matches(
            pattern@,
            text@,
        ) ==> t@ == text@),
{
    match regex::Regex::new(pattern) {
        Ok(re) => Some(re.replace(text, rep).into_owned()),
        Err(_) => None,
    }
}

/// The rules that run before the guarded compound rewrite, in order.
pub open spec fn head_rules_spec(q: Seq<char>) -> Seq<char> {
    let q = replace_seq(q, METABASE_TABLE_TYPE_IF_FROM@, METABASE_TABLE_TYPE_IF_TO@);
    let q = replace_seq(q, METABASE_ORDER_BY_FROM@, REMOVED@);
    let q = replace_seq(q, CONVERT_NUMERIC_SCALE_FROM@, CONVERT_NUMERIC_SCALE_TO@);
    let q = replace_seq(q, SIGNED_INTEGER_LOWER_FROM@, SPACED_INTEGER_TO@);
    let q = replace_seq(q, SIGNED_INTEGER_UPPER_FROM@, SPACED_INTEGER_TO@);
    let q = replace_seq(q, UNSIGNED_INTEGER_LOWER_FROM@, SPACED_INTEGER_TO@);
    let q = replace_seq(q, UNSIGNED_INTEGER_UPPER_FROM@, SPACED_INTEGER_TO@);
    let q = replace_seq(q, DBEAVER_DATABASE_OID_FROM@, DBEAVER_DATABASE_OID_TO@);
    let q = replace_seq(q, DBEAVER_TABLE_OID_FROM@, DBEAVER_TABLE_OID_TO@);
    let q = replace_seq(q, DBEAVER_NAMESPACE_OID_FROM@, DBEAVER_NAMESPACE_OID_TO@);
    let q = replace_seq(q, SUPERSET_ATTRDEF_FROM@, SUPERSET_ATTRDEF_TO@);
    let q = replace_seq(q, SUPERSET_INDEX_QUERY_FROM@, SUPERSET_INDEX_QUERY_TO@);
    let q = replace_seq(q, SUPERSET_INDISPRIMARY_FROM@, SUPERSET_INDISPRIMARY_TO@);
    let q = replace_seq(q, SUPERSET_INDKEY_JOIN_FROM@, SUPERSET_INDKEY_JOIN_TO@);
    let q = replace_seq(q, TABLEAU_ATTRDEF_JOIN_FROM@, TABLEAU_ATTRDEF_JOIN_TO@);
    let q = replace_seq(q, TABLEAU_CONKEY_FROM@, TABLEAU_CONKEY_TO@);
    let q = replace_seq(q, TABLEAU_CONSTRAINTDEF_FROM@, TABLEAU_CONSTRAINTDEF_TO@);
    let q = replace_seq(q, THOUGHTSPOT_SVV_TABLES_FROM@, THOUGHTSPOT_SVV_TABLES_TO@);
    let q = replace_seq(q, THOUGHTSPOT_TABLE_TYPE_IN_FROM@, REMOVED@);
    let q = replace_seq(q, THOUGHTSPOT_LBV_FROM@, THOUGHTSPOT_LBV_TO@);
    let q = replace_seq(q, THOUGHTSPOT_UNION_ALIAS_FROM@, THOUGHTSPOT_UNION_ALIAS_TO@);
    let q = replace_seq(q, THOUGHTSPOT_AUTOINCREMENT_FROM@, THOUGHTSPOT_AUTOINCREMENT_TO@);
    q
}

/// One conditional pattern substitution: the text with the pattern's leftmost
/// match replaced, or the text itself where the pattern does not compile.
pub open spec fn apply_re_spec(pattern: Seq<char>, rep: Seq<char>, q: Seq<char>) -> Seq<char> {
    if regex_compiles(pattern) {
        regex_replaced(pattern, q, rep)
    } else {
        q
    }
}

/// The guarded compound rewrite: only when the whole query matches the guard
/// signature are the two join/filter substitutions applied, in order; any
/// other query passes through unchanged.
pub open spec fn sigma_spec(q: Seq<char>) -> Seq<char> {
    if regex_compiles(SIGMA_GUARD@) && regex_matches(SIGMA_GUARD@, q) {
        apply_re_spec(
            SIGMA_ATTRELID_RE@,
            SIGMA_ATTRELID_REP@,
            apply_re_spec(SIGMA_RELNAMESPACE_RE@, SIGMA_RELNAMESPACE_REP@, q),
        )
    } else {
        q
    }
}

/// The rules that run after the guarded compound rewrite, in order.
pub open spec fn tail_rules_spec(q: Seq<char>) -> Seq<char> {
    let q = replace_seq(q, METABASE_ENUM_FROM@, METABASE_ENUM_TO@);
    let q = replace_seq(q, HOLISTICS_CONKEY_FROM@, HOLISTICS_CONKEY_TO@);
    let q = replace_seq(q, HOLISTICS_CONFKEY_FROM@, HOLISTICS_CONFKEY_TO@);
    let q = replace_seq(q, HOLISTICS_TABLES_IN_FROM@, REMOVED@);
    let q = replace_seq(q, MICROSTRATEGY_SCHEMA_FROM@, MICROSTRATEGY_SCHEMA_TO@);
    let q = replace_seq(q, GRAFANA_SCHEMATA_FROM@, GRAFANA_SCHEMATA_TO@);
    let q = replace_seq(q, GRAFANA_SCHEMATA_ML_FROM@, GRAFANA_SCHEMATA_ML_TO@);
    let q = replace_seq(q, PSQLODBC_NULLS_FROM@, PSQLODBC_NULLS_TO@);
    q
}

/// The whole rewrite pipeline: the head rules, then the guarded compound
/// rewrite, then the tail rules. A pure function of the raw query text.
pub open spec fn normalize_spec(q: Seq<char>) -> Seq<char> {
    tail_rules_spec(sigma_spec(head_rules_spec(q)))
}

fn apply_head_rules(query: &str) -> (r: String)
    ensures
        r@ == head_rules_spec(query@),
{
    let q = replace_str(query, METABASE_TABLE_TYPE_IF_FROM, METABASE_TABLE_TYPE_IF_TO);
    let q = replace_str(q.as_str(), METABASE_ORDER_BY_FROM, REMOVED);
    let q = replace_str(q.as_str(), CONVERT_NUMERIC_SCALE_FROM, CONVERT_NUMERIC_SCALE_TO);
    let q = replace_str(q.as_str(), SIGNED_INTEGER_LOWER_FROM, SPACED_INTEGER_TO);
    let q = replace_str(q.as_str(), SIGNED_INTEGER_UPPER_FROM, SPACED_INTEGER_TO);
    let q = replace_str(q.as_str(), UNSIGNED_INTEGER_LOWER_FROM, SPACED_INTEGER_TO);
    let q = replace_str(q.as_str(), UNSIGNED_INTEGER_UPPER_FROM, SPACED_INTEGER_TO);
    let q = replace_str(q.as_str(), DBEAVER_DATABASE_OID_FROM, DBEAVER_DATABASE_OID_TO);
    let q = replace_str(q.as_str(), DBEAVER_TABLE_OID_FROM, DBEAVER_TABLE_OID_TO);
    let q = replace_str(q.as_str(), DBEAVER_NAMESPACE_OID_FROM, DBEAVER_NAMESPACE_OID_TO);
    let q = replace_str(q.as_str(), SUPERSET_ATTRDEF_FROM, SUPERSET_ATTRDEF_TO);
    let q = replace_str(q.as_str(), SUPERSET_INDEX_QUERY_FROM, SUPERSET_INDEX_QUERY_TO);
    let q = replace_str(q.as_str(), SUPERSET_INDISPRIMARY_FROM, SUPERSET_INDISPRIMARY_TO);
    let q = replace_str(q.as_str(), SUPERSET_INDKEY_JOIN_FROM, SUPERSET_INDKEY_JOIN_TO);
    let q = replace_str(q.as_str(), TABLEAU_ATTRDEF_JOIN_FROM, TABLEAU_ATTRDEF_JOIN_TO);
    let q = replace_str(q.as_str(), TABLEAU_CONKEY_FROM, TABLEAU_CONKEY_TO);
    let q = replace_str(q.as_str(), TABLEAU_CONSTRAINTDEF_FROM, TABLEAU_CONSTRAINTDEF_TO);
    let q = replace_str(q.as_str(), THOUGHTSPOT_SVV_TABLES_FROM, THOUGHTSPOT_SVV_TABLES_TO);
    let q = replace_str(q.as_str(), THOUGHTSPOT_TABLE_TYPE_IN_FROM, REMOVED);
    let q = replace_str(q.as_str(), THOUGHTSPOT_LBV_FROM, THOUGHTSPOT_LBV_TO);
    let q = replace_str(q.as_str(), THOUGHTSPOT_UNION_ALIAS_FROM, THOUGHTSPOT_UNION_ALIAS_TO);
    let q = replace_str(q.as_str(), THOUGHTSPOT_AUTOINCREMENT_FROM, THOUGHTSPOT_AUTOINCREMENT_TO);
    q
}

fn apply_sigma(q: String) -> (r: String)
    ensures
        r@ == sigma_spec(q@),
{
    match regex_is_match(SIGMA_GUARD, q.as_str()) {
        Some(true) => {
            let q1 = match regex_replace(SIGMA_RELNAMESPACE_RE, q.as_str(), SIGMA_RELNAMESPACE_REP) {
                Some(t) => t,
                None => q,
            };
            let q2 = match regex_replace(SIGMA_ATTRELID_RE, q1.as_str(), SIGMA_ATTRELID_REP) {
                Some(t) => t,
                None => q1,
            };
            q2
        },
        _ => q,
    }
}

fn apply_tail_rules(query: &str) -> (r: String)
    ensures
        r@ == tail_rules_spec(query@),
{
    let q = replace_str(query, METABASE_ENUM_FROM, METABASE_ENUM_TO);
    let q = replace_str(q.as_str(), HOLISTICS_CONKEY_FROM, HOLISTICS_CONKEY_TO);
    let q = replace_str(q.as_str(), HOLISTICS_CONFKEY_FROM, HOLISTICS_CONFKEY_TO);
    let q = replace_str(q.as_str(), HOLISTICS_TABLES_IN_FROM, REMOVED);
    let q = replace_str(q.as_str(), MICROSTRATEGY_SCHEMA_FROM, MICROSTRATEGY_SCHEMA_TO);
    let q = replace_str(q.as_str(), GRAFANA_SCHEMATA_FROM, GRAFANA_SCHEMATA_TO);
    let q = replace_str(q.as_str(), GRAFANA_SCHEMATA_ML_FROM, GRAFANA_SCHEMATA_ML_TO);
    let q = replace_str(q.as_str(), PSQLODBC_NULLS_FROM, PSQLODBC_NULLS_TO);
    q
}

/// The rewrite pipeline: the raw query text mapped to normalized text by the
/// fixed, ordered rule list above.
pub fn rewrite_query(query: &str) -> (r: String)
    ensures
        r@ == normalize_spec(query@),
{
    let q = apply_head_rules(query);
    let q = apply_sigma(q);
    apply_tail_rules(q.as_str())
}

/// The guarded compound rewrite fires only when the guard signature matches
/// the whole query: any other query passes through that stage unchanged.
pub proof fn lemma_sigma_needs_guard(q: Seq<char>)
    requires
        !regex_matches(SIGMA_GUARD@, q),
    ensures
        sigma_spec(q) == q,
{
}

/// The rewrite pipeline is deterministic: two runs on the same raw text give
/// the same normalized text.
pub proof fn lemma_normalize_deterministic(q: Seq<char>, r1: Seq<char>, r2: Seq<char>)
    requires
        r1 == normalize_spec(q),
        r2 == normalize_spec(q),
    ensures
        r1 == r2,
{
}

} // verus!
