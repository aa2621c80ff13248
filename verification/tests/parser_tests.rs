use cubesql::parse_sql_to_statement;
use cubesql::DatabaseProtocol;

#[test]
fn test_no_statements_mysql() {
    let result = parse_sql_to_statement(
        &"-- 6dcd92a04feb50f14bbcf07c661680ba SELECT NOW".to_string(),
        DatabaseProtocol::MySQL,
        &mut None,
    );
    match result {
        Ok(_) => panic!("This test should throw an error"),
        Err(err) => assert_eq!(
            true,
            err.to_string()
                .contains("Invalid query, no statements was specified")
        ),
    }
}

#[test]
fn test_multiple_statements_mysql() {
    let result = parse_sql_to_statement(
        &"SELECT NOW(); SELECT NOW();".to_string(),
        DatabaseProtocol::MySQL,
        &mut None,
    );
    match result {
        Ok(_) => panic!("This test should throw an error"),
        Err(err) => assert_eq!(
            true,
            err.to_string()
                .contains("Multiple statements was specified in one query")
        ),
    }
}

#[test]
fn test_single_line_comments_mysql() {
    let result = parse_sql_to_statement(
        &"-- 6dcd92a04feb50f14bbcf07c661680ba
            SELECT DATE(`createdAt`) AS __timestamp,
                   COUNT(*) AS count
            FROM db.`Orders`
            GROUP BY DATE(`createdAt`)
            ORDER BY count DESC
            LIMIT 10000
            -- 6dcd92a04feb50f14bbcf07c661680ba
        "
        .to_string(),
        DatabaseProtocol::MySQL,
        &mut None,
    );
    match result {
        Ok(_) => {}
        Err(err) => panic!("{}", err.to_string()),
    }
}

#[test]
fn test_no_statements_postgres() {
    let result = parse_sql_to_statement(
        &"-- 6dcd92a04feb50f14bbcf07c661680ba SELECT NOW".to_string(),
        DatabaseProtocol::PostgreSQL,
        &mut None,
    );
    match result {
        Ok(_) => panic!("This test should throw an error"),
        Err(err) => assert_eq!(
            true,
            err.to_string()
                .contains("Invalid query, no statements was specified")
        ),
    }
}

#[test]
fn test_multiple_statements_postgres() {
    let result = parse_sql_to_statement(
        &"SELECT NOW(); SELECT NOW();".to_string(),
        DatabaseProtocol::PostgreSQL,
        &mut None,
    );
    match result {
        Ok(_) => panic!("This test should throw an error"),
        Err(err) => assert_eq!(
            true,
            err.to_string()
                .contains("Multiple statements was specified in one query")
        ),
    }
}

#[test]
fn test_single_line_comments_postgres() {
    let result = parse_sql_to_statement(
        &"-- 6dcd92a04feb50f14bbcf07c661680ba
            SELECT createdAt AS __timestamp,
                   COUNT(*) AS count
            FROM Orders
            GROUP BY createdAt
            ORDER BY count DESC
            LIMIT 10000
            -- 6dcd92a04feb50f14bbcf07c661680ba
        "
        .to_string(),
        DatabaseProtocol::PostgreSQL,
        &mut None,
    );
    match result {
        Ok(_) => {}
        Err(err) => panic!("{}", err.to_string()),
    }
}
