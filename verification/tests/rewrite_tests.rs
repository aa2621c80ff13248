use cubesql::parse_sql_to_statement;
use cubesql::parse_sql_to_statements;
use cubesql::rewrite_query;
use cubesql::DatabaseProtocol;
use cubesql::ErrorKind;
use cubesql::Qtrace;

#[test]
fn test_metabase_table_type_if_rule() {
    let raw = "SELECT TABLE_NAME, IF(TABLE_TYPE='BASE TABLE' or TABLE_TYPE='SYSTEM VERSIONED', 'TABLE', TABLE_TYPE) as TABLE_TYPE FROM information_schema.tables ORDER BY TABLE_TYPE, TABLE_SCHEMA, TABLE_NAME";
    let normalized = rewrite_query(raw);
    assert_eq!(
        normalized,
        "SELECT TABLE_NAME, TABLE_TYPE FROM information_schema.tables "
    );
    assert!(parse_sql_to_statements(&raw.to_string(), DatabaseProtocol::MySQL, &mut None).is_ok());
}

#[test]
fn test_convert_numeric_scale_rule() {
    let raw = "SELECT CONVERT (CASE DATA_TYPE WHEN 'year' THEN NUMERIC_SCALE WHEN 'tinyint' THEN 0 ELSE NUMERIC_SCALE END, UNSIGNED INTEGER) FROM information_schema.columns";
    let normalized = rewrite_query(raw);
    assert_eq!(normalized, "SELECT 0 FROM information_schema.columns");
    assert!(parse_sql_to_statements(&raw.to_string(), DatabaseProtocol::MySQL, &mut None).is_ok());
}

#[test]
fn test_spaced_integer_type_rules() {
    assert_eq!(rewrite_query("CAST(a AS signed integer)"), "CAST(a AS bigint)");
    assert_eq!(rewrite_query("CAST(a AS SIGNED INTEGER)"), "CAST(a AS bigint)");
    // The rules run in a fixed order: the signed-integer rules fire inside
    // "unsigned integer" first, so the unsigned-integer rules see no match.
    assert_eq!(rewrite_query("CAST(a AS unsigned integer)"), "CAST(a AS unbigint)");
    assert_eq!(rewrite_query("CAST(a AS UNSIGNED INTEGER)"), "CAST(a AS UNbigint)");
    let raw = "SELECT CAST(1 AS signed integer)".to_string();
    assert!(parse_sql_to_statement(&raw, DatabaseProtocol::MySQL, &mut None).is_ok());
}

#[test]
fn test_dbeaver_oid_alias_rules() {
    assert_eq!(
        rewrite_query("SELECT db.oid,db.* FROM pg_catalog.pg_database db"),
        "SELECT db.oid as _oid,db.* FROM pg_catalog.pg_database db"
    );
    assert_eq!(
        rewrite_query("SELECT t.oid,t.*,c.relkind FROM pg_catalog.pg_class t"),
        "SELECT t.oid as _oid,t.*,c.relkind FROM pg_catalog.pg_class t"
    );
    assert_eq!(
        rewrite_query("SELECT n.oid,n.*,d.description FROM pg_catalog.pg_namespace n"),
        "SELECT n.oid as _oid,n.*,d.description FROM pg_catalog.pg_namespace n"
    );
}

#[test]
fn test_superset_attrdef_rule() {
    let raw = "SELECT a.attname, (SELECT pg_catalog.pg_get_expr(d.adbin, d.adrelid)\
\n                FROM pg_catalog.pg_attrdef d\
\n               WHERE d.adrelid = a.attrelid AND d.adnum = a.attnum\
\n               AND a.atthasdef)\
\n              AS DEFAULT FROM pg_catalog.pg_attribute a";
    let normalized = rewrite_query(raw);
    assert_eq!(
        normalized,
        "SELECT a.attname, NULL AS DEFAULT FROM pg_catalog.pg_attribute a"
    );
}

#[test]
fn test_superset_index_query_rule() {
    let raw = "SELECT\
\n                  i.relname as relname,\
\n                  ix.indisunique, ix.indexprs, ix.indpred,\
\n                  a.attname, a.attnum, c.conrelid, ix.indkey::varchar,\
\n                  ix.indoption::varchar, i.reloptions, am.amname,\
\n                  ix.indnkeyatts as indnkeyatts\
\n              FROM\
\n                  pg_class t\
\n                        join pg_index ix on t.oid = ix.indrelid\
\n                        join pg_class i on i.oid = ix.indexrelid\
\n                        left outer join\
\n                            pg_attribute a\
\n                            on t.oid = a.attrelid and a.attnum = ANY(ix.indkey)\
\n                        left outer join\
\n                            pg_constraint c\
\n                            on (ix.indrelid = c.conrelid and\
\n                                ix.indexrelid = c.conindid and\
\n                                c.contype in ('p', 'u', 'x'))\
\n                        left outer join\
\n                            pg_am am\
\n                            on i.relam = am.oid\
\n              WHERE\
\n                  t.relkind IN ('r', 'v', 'f', 'm', 'p')";
    let normalized = rewrite_query(raw);
    assert!(!normalized.contains("::varchar"));
    assert!(!normalized.contains("a.attnum = ANY(ix.indkey)"));
    assert!(normalized.contains("ix.indkey,"));
    assert!(normalized.contains("on t.oid = a.attrelid"));
}

#[test]
fn test_superset_indisprimary_rule() {
    let raw = "SELECT 1 FROM x WHERE q and ix.indisprimary = 'f'\
\n              ORDER BY\
\n                  t.relname,\
\n                  i.relname";
    assert_eq!(
        rewrite_query(raw),
        "SELECT 1 FROM x WHERE q and ix.indisprimary = false"
    );
}

#[test]
fn test_tableau_rules() {
    assert_eq!(
        rewrite_query("left outer join pg_attrdef d on a.atthasdef and d.adrelid = a.attrelid"),
        "left outer join pg_attrdef d on d.adrelid = a.attrelid"
    );
    assert_eq!(rewrite_query("WHERE a.attnum = ANY(cons.conkey)"), "WHERE 1 = 1");
    assert_eq!(
        rewrite_query("SELECT pg_get_constraintdef(cons.oid) as src"),
        "SELECT NULL as src"
    );
}

#[test]
fn test_thoughtspot_rules() {
    assert_eq!(
        rewrite_query("AS REF_GENERATION  FROM svv_tables) WHERE true  AND current_database() = 'db'"),
        "AS REF_GENERATION  FROM svv_tables) as svv_tables WHERE current_database() ='db'"
    );
    assert_eq!(
        rewrite_query("WHERE x AND TABLE_TYPE IN ( 'TABLE', 'VIEW', 'EXTERNAL TABLE')"),
        "WHERE x "
    );
    let lbv = "FROM (select lbv_cols.schemaname, lbv_cols.tablename, lbv_cols.columnname,REGEXP_REPLACE(REGEXP_REPLACE(lbv_cols.columntype,'\\\\(.*\\\\)'),'^_.+','ARRAY') as columntype_rep,columntype, lbv_cols.columnnum from pg_get_late_binding_view_cols() lbv_cols( schemaname name, tablename name, columnname name, columntype text, columnnum int)) lbv_columns   WHERE";
    assert_eq!(
        rewrite_query(lbv),
        "FROM (select schemaname, tablename, columnname,REGEXP_REPLACE(REGEXP_REPLACE(columntype,'\\\\(.*\\\\)'),'^_.+','ARRAY') as columntype_rep,columntype, columnnum from get_late_binding_view_cols_unpacked) as lbv_columns   WHERE"
    );
    assert_eq!(
        rewrite_query("ORDER BY TABLE_SCHEM,c.relname,attnum )  UNION ALL SELECT current_database()::VARCHAR(128) AS TABLE_CAT"),
        "ORDER BY TABLE_SCHEM,c.relname,attnum ) as t  UNION ALL SELECT current_database()::VARCHAR(128) AS TABLE_CAT"
    );
    assert_eq!(
        rewrite_query("END AS IS_AUTOINCREMENT, IS_AUTOINCREMENT AS IS_GENERATEDCOLUMN"),
        "END AS IS_AUTOINCREMENT, false AS IS_GENERATEDCOLUMN"
    );
}

#[test]
fn test_metabase_enum_rule() {
    assert_eq!(
        rewrite_query("SELECT t.typname FROM pg_type t WHERE t.oid IN (SELECT DISTINCT enumtypid FROM pg_enum e)"),
        "SELECT t.typname FROM pg_type t WHERE t.oid = 0"
    );
}

#[test]
fn test_holistics_rules() {
    assert_eq!(
        rewrite_query("join pg_attribute ta ON c.conrelid=ta.attrelid AND ta.attnum=c.conkey[o.ord]"),
        "join pg_attribute ta ON c.conrelid=ta.attrelid"
    );
    assert_eq!(
        rewrite_query("join pg_attribute fa ON c.confrelid=fa.attrelid AND fa.attnum=c.confkey[o.ord]"),
        "join pg_attribute fa ON c.confrelid=fa.attrelid"
    );
    assert_eq!(
        rewrite_query("WHERE x\n  AND c.relname IN (SELECT table_name\nFROM information_schema.tables\nWHERE (table_type = 'BASE TABLE' OR table_type = 'VIEW')\n  AND table_schema NOT IN ('pg_catalog', 'information_schema')\n  AND has_schema_privilege(table_schema, 'USAGE'::text)\n)\nORDER BY 1"),
        "WHERE x\n  ORDER BY 1"
    );
}

#[test]
fn test_microstrategy_rule() {
    let raw = "SELECT * FROM information_schema.tables WHERE table_schema = (SELECT current_schema())".to_string();
    assert_eq!(
        rewrite_query(&raw),
        "SELECT * FROM information_schema.tables WHERE table_schema = current_schema()"
    );
    assert!(parse_sql_to_statement(&raw, DatabaseProtocol::PostgreSQL, &mut None).is_ok());
}

#[test]
fn test_grafana_rules() {
    let raw = "SELECT quote_ident(table_name) as \"table\" FROM information_schema.tables WHERE quote_ident(table_schema) NOT IN ('information_schema', 'pg_catalog', '_timescaledb_cache', '_timescaledb_catalog', '_timescaledb_internal', '_timescaledb_config', 'timescaledb_information', 'timescaledb_experimental') AND table_type = 'BASE TABLE' AND quote_ident(table_schema) IN (SELECT CASE WHEN TRIM(s[i]) = '\"$user\"' THEN user ELSE TRIM(s[i]) END FROM generate_series(array_lower(string_to_array(current_setting('search_path'), ','), 1), array_upper(string_to_array(current_setting('search_path'), ','), 1)) AS i, string_to_array(current_setting('search_path'), ',') AS s)";
    assert_eq!(
        rewrite_query(raw),
        "SELECT quote_ident(table_name) as \"table\" FROM information_schema.tables WHERE quote_ident(table_schema) IN (current_user, current_schema()) AND table_type = 'BASE TABLE'"
    );
    let raw_ml = "select quote_ident(table_name) as \"table\"\nfrom information_schema.tables\n    where quote_ident(table_schema) not in ('information_schema',\
\n                             'pg_catalog',\
\n                             '_timescaledb_cache',\
\n                             '_timescaledb_catalog',\
\n                             '_timescaledb_internal',\
\n                             '_timescaledb_config',\
\n                             'timescaledb_information',\
\n                             'timescaledb_experimental')\
\n      and \
\n          quote_ident(table_schema) IN (\
\n          SELECT\
\n            CASE WHEN trim(s[i]) = '\"$user\"' THEN user ELSE trim(s[i]) END\
\n          FROM\
\n            generate_series(\
\n              array_lower(string_to_array(current_setting('search_path'),','),1),\
\n              array_upper(string_to_array(current_setting('search_path'),','),1)\
\n            ) as i,\
\n            string_to_array(current_setting('search_path'),',') s\
\n          )";
    assert_eq!(
        rewrite_query(raw_ml),
        "select quote_ident(table_name) as \"table\"\nfrom information_schema.tables\n    WHERE quote_ident(table_schema) IN (current_user, current_schema())"
    );
}

#[test]
fn test_psqlodbc_rule() {
    let raw = "select NULL, NULL, NULL".to_string();
    assert_eq!(rewrite_query(&raw), "select NULL, NULL AS NULL2, NULL AS NULL3");
    assert!(parse_sql_to_statement(&raw, DatabaseProtocol::PostgreSQL, &mut None).is_ok());
}

#[test]
fn test_sigma_compound_rewrite_fires_on_full_signature() {
    let raw = "with nsp as (select oid from pg_catalog.pg_namespace where nspname = 'public'),\n tbl as (select oid from pg_catalog.pg_class where relname = 'orders' and relnamespace = (select oid from nsp))\nselect attname from pg_attribute left join pg_description on attrelid = objoid and attnum = objsubid where attnum > 0 and attrelid = (select oid from tbl)";
    let normalized = rewrite_query(raw);
    assert!(normalized.contains(
        "from pg_catalog.pg_class join nsp on relnamespace = nsp.oid where relname = 'orders'"
    ));
    assert!(normalized.contains(
        "left join pg_description on attrelid = objoid and attnum = objsubid join tbl on attrelid = tbl.oid where attnum > 0"
    ));
    assert!(!normalized.contains("(select oid from nsp)"));
    assert!(!normalized.contains("(select oid from tbl)"));
}

#[test]
fn test_sigma_rewrite_needs_the_whole_guard() {
    // Only the inner filter, without the surrounding recursive-CTE shape:
    // the guard does not match and the text passes through unchanged.
    let fragment = "select attname from pg_attribute left join pg_description on attrelid = objoid and attnum = objsubid where attnum > 0 and attrelid = (select oid from tbl)";
    assert_eq!(rewrite_query(fragment), fragment);
    let other = "select oid from pg_catalog.pg_class where relname = 'orders' and relnamespace = (select oid from nsp)";
    assert_eq!(rewrite_query(other), other);
}

#[test]
fn test_rewrite_is_deterministic() {
    let raw = "SELECT CAST(a AS signed integer), IF(TABLE_TYPE='BASE TABLE' or TABLE_TYPE='SYSTEM VERSIONED', 'TABLE', TABLE_TYPE) as TABLE_TYPE FROM t";
    let first = rewrite_query(raw);
    let second = rewrite_query(raw);
    assert_eq!(first, second);
}

#[test]
fn test_plain_query_passes_through_unchanged() {
    let raw = "SELECT id, name FROM orders WHERE id = 1";
    assert_eq!(rewrite_query(raw), raw);
}

#[test]
fn test_error_kinds() {
    let no_stmt = parse_sql_to_statement(
        &"-- just a comment".to_string(),
        DatabaseProtocol::PostgreSQL,
        &mut None,
    )
    .unwrap_err();
    assert_eq!(no_stmt.kind, ErrorKind::User);

    let multi = parse_sql_to_statement(
        &"SELECT 1; SELECT 2;".to_string(),
        DatabaseProtocol::PostgreSQL,
        &mut None,
    )
    .unwrap_err();
    assert_eq!(multi.kind, ErrorKind::Unsupported);

    let unparsable = parse_sql_to_statement(
        &"SELEC 1".to_string(),
        DatabaseProtocol::PostgreSQL,
        &mut None,
    )
    .unwrap_err();
    assert_eq!(unparsable.kind, ErrorKind::User);
    assert!(unparsable.to_string().contains("Unable to parse"));
}

#[test]
fn test_failure_metadata_holds_original_query() {
    // The query is rewritten before parsing fails, yet the metadata must
    // carry the original, pre-rewrite text verbatim.
    let original = "signed integer".to_string();
    let err = parse_sql_to_statements(&original, DatabaseProtocol::PostgreSQL, &mut None)
        .err()
        .expect("bare type name must not parse");
    let meta = err.meta.expect("failure must carry metadata");
    assert!(meta.iter().any(|kv| kv.0 == "query" && kv.1 == original));

    let err2 = parse_sql_to_statement(&original, DatabaseProtocol::PostgreSQL, &mut None)
        .err()
        .expect("bare type name must not parse");
    let meta2 = err2.meta.expect("failure must carry metadata");
    assert!(meta2.iter().any(|kv| kv.0 == "query" && kv.1 == original));
}

#[test]
fn test_trace_sink_sees_normalized_text() {
    let mut qtrace = Some(Qtrace::new());
    let _ = parse_sql_to_statement(
        &"SELECT CAST(1 AS signed integer)".to_string(),
        DatabaseProtocol::MySQL,
        &mut qtrace,
    );
    let recorded = qtrace.unwrap().replaced_query.unwrap();
    assert_eq!(recorded, "SELECT CAST(1 AS bigint)");
}
