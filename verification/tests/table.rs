use sqlgen::expr::Expr;
use sqlgen::schema::ColumnType;
use sqlgen::table::{
    write_type, Column, Table, TableCreateStatement, TableRenameStatement, TableTruncateStatement,
};
use sqlgen::types::{
    Clause, DBEngine, IndexType, LockBehavior, LockType, NullsOrder, OrderBy, PyValue, SqlError,
    UnionType,
};

fn n(text: &str) -> String {
    text.to_string()
}

fn one_column(c: Column, d: DBEngine) -> Result<String, SqlError> {
    Table::create().name(n("t")).column(c).build_sql(&d)
}

fn unsupported(d: DBEngine, clause: Clause) -> Result<String, SqlError> {
    Err(SqlError::UnsupportedFeature { dialect: d, clause })
}

#[test]
fn create_table_per_dialect() {
    let q = || {
        Table::create()
            .name(n("users"))
            .if_not_exists()
            .column(Column::new("id").integer().not_null().primary_key().auto_increment())
            .column(Column::new("name").string_len(64).not_null().unique())
            .column(Column::new("bio").text().null())
    };
    assert_eq!(
        q().build_sql(&DBEngine::Mysql),
        Ok(n(
            "CREATE TABLE IF NOT EXISTS `users` (`id` int NOT NULL PRIMARY KEY AUTO_INCREMENT, \
             `name` varchar(64) NOT NULL UNIQUE, `bio` text NULL)"
        ))
    );
    assert_eq!(
        q().build_sql(&DBEngine::Postgres),
        Ok(n(
            "CREATE TABLE IF NOT EXISTS \"users\" (\"id\" serial NOT NULL PRIMARY KEY, \
             \"name\" varchar(64) NOT NULL UNIQUE, \"bio\" text NULL)"
        ))
    );
    assert_eq!(
        q().build_sql(&DBEngine::Sqlite),
        Ok(n(
            "CREATE TABLE IF NOT EXISTS \"users\" (\"id\" integer NOT NULL PRIMARY KEY AUTOINCREMENT, \
             \"name\" varchar(64) NOT NULL UNIQUE, \"bio\" text NULL)"
        ))
    );
}

#[test]
fn type_names_of_the_catalogue() {
    let all = [
        (ColumnType::Char(None), "char", "char", "char"),
        (ColumnType::Char(Some(3)), "char(3)", "char(3)", "char(3)"),
        (ColumnType::String(None), "varchar(255)", "varchar", "varchar"),
        (ColumnType::String(Some(10)), "varchar(10)", "varchar(10)", "varchar(10)"),
        (ColumnType::Text, "text", "text", "text"),
        (ColumnType::TinyInteger, "tinyint", "smallint", "integer"),
        (ColumnType::SmallInteger, "smallint", "smallint", "integer"),
        (ColumnType::Integer, "int", "integer", "integer"),
        (ColumnType::BigInteger, "bigint", "bigint", "integer"),
        (ColumnType::TinyUnsigned, "tinyint unsigned", "smallint", "integer"),
        (ColumnType::SmallUnsigned, "smallint unsigned", "smallint", "integer"),
        (ColumnType::Unsigned, "int unsigned", "integer", "integer"),
        (ColumnType::BigUnsigned, "bigint unsigned", "bigint", "integer"),
        (ColumnType::Float, "float", "real", "real"),
        (ColumnType::Double, "double", "double precision", "real"),
        (ColumnType::Decimal(None), "decimal", "decimal", "decimal"),
        (ColumnType::Decimal(Some((10, 2))), "decimal(10, 2)", "decimal(10, 2)", "decimal(10, 2)"),
        (ColumnType::DateTime, "datetime", "timestamp without time zone", "datetime"),
        (ColumnType::Timestamp, "timestamp", "timestamp", "timestamp"),
        (ColumnType::TimestampWithTimeZone, "timestamp", "timestamp with time zone", "timestamp"),
        (ColumnType::Date, "date", "date", "date"),
        (ColumnType::Time, "time", "time", "time"),
        (ColumnType::Blob, "blob", "bytea", "blob"),
        (ColumnType::Boolean, "bool", "bool", "boolean"),
        (ColumnType::Json, "json", "json", "text"),
        (ColumnType::JsonBinary, "json", "jsonb", "blob"),
        (ColumnType::Uuid, "binary(16)", "uuid", "text"),
    ];
    for (t, mysql, postgres, sqlite) in all {
        assert_eq!(write_type(t, DBEngine::Mysql, false), mysql);
        assert_eq!(write_type(t, DBEngine::Postgres, false), postgres);
        assert_eq!(write_type(t, DBEngine::Sqlite, false), sqlite);
    }
    assert_eq!(write_type(ColumnType::SmallInteger, DBEngine::Postgres, true), "smallserial");
    assert_eq!(write_type(ColumnType::Integer, DBEngine::Postgres, true), "serial");
    assert_eq!(write_type(ColumnType::BigInteger, DBEngine::Postgres, true), "bigserial");
    assert_eq!(write_type(ColumnType::Integer, DBEngine::Mysql, true), "int");
}

#[test]
fn type_methods_set_the_type() {
    let pg = |c: Column| one_column(c, DBEngine::Postgres).unwrap();
    let def = |ty: &str| format!("CREATE TABLE \"t\" (\"c\" {})", ty);
    assert_eq!(pg(Column::new("c").char()), def("char"));
    assert_eq!(pg(Column::new("c").char_len(4)), def("char(4)"));
    assert_eq!(pg(Column::new("c").string()), def("varchar"));
    assert_eq!(pg(Column::new("c").string_len(4)), def("varchar(4)"));
    assert_eq!(pg(Column::new("c").text()), def("text"));
    assert_eq!(pg(Column::new("c").tiny_integer()), def("smallint"));
    assert_eq!(pg(Column::new("c").small_integer()), def("smallint"));
    assert_eq!(pg(Column::new("c").integer()), def("integer"));
    assert_eq!(pg(Column::new("c").big_integer()), def("bigint"));
    assert_eq!(pg(Column::new("c").tiny_unsigned()), def("smallint"));
    assert_eq!(pg(Column::new("c").small_unsigned()), def("smallint"));
    assert_eq!(pg(Column::new("c").unsigned()), def("integer"));
    assert_eq!(pg(Column::new("c").big_unsigned()), def("bigint"));
    assert_eq!(pg(Column::new("c").float()), def("real"));
    assert_eq!(pg(Column::new("c").double()), def("double precision"));
    assert_eq!(pg(Column::new("c").decimal()), def("decimal"));
    assert_eq!(pg(Column::new("c").decimal_len(8, 3)), def("decimal(8, 3)"));
    assert_eq!(pg(Column::new("c").datetime()), def("timestamp without time zone"));
    assert_eq!(pg(Column::new("c").timestamp()), def("timestamp"));
    assert_eq!(pg(Column::new("c").timestamp_with_tz()), def("timestamp with time zone"));
    assert_eq!(pg(Column::new("c").date()), def("date"));
    assert_eq!(pg(Column::new("c").time()), def("time"));
    assert_eq!(pg(Column::new("c").blob()), def("bytea"));
    assert_eq!(pg(Column::new("c").boolean()), def("bool"));
    assert_eq!(pg(Column::new("c").json()), def("json"));
    assert_eq!(pg(Column::new("c").jsonb()), def("jsonb"));
    assert_eq!(pg(Column::new("c").uuid()), def("uuid"));
}

#[test]
fn last_type_wins() {
    assert_eq!(
        one_column(Column::new("c").integer().text().uuid(), DBEngine::Postgres),
        Ok(n("CREATE TABLE \"t\" (\"c\" uuid)"))
    );
}

#[test]
fn jsonb_and_uuid_degrade_on_sqlite() {
    assert_eq!(
        one_column(Column::new("c").jsonb(), DBEngine::Sqlite),
        Ok(n("CREATE TABLE \"t\" (\"c\" blob)"))
    );
    assert_eq!(
        one_column(Column::new("c").uuid(), DBEngine::Sqlite),
        Ok(n("CREATE TABLE \"t\" (\"c\" text)"))
    );
}

#[test]
fn default_and_check() {
    let c = || {
        Column::new("n")
            .integer()
            .default(Expr::value(PyValue::Int(0)))
            .check(Expr::column(n("n"), None).gte(PyValue::Int(0)))
    };
    assert_eq!(
        one_column(c(), DBEngine::Postgres),
        Ok(n("CREATE TABLE \"t\" (\"n\" integer DEFAULT 0 CHECK (\"n\" >= 0))"))
    );
    assert_eq!(
        one_column(c(), DBEngine::Mysql),
        Ok(n("CREATE TABLE `t` (`n` int DEFAULT 0 CHECK (`n` >= 0))"))
    );
    let other = Column::new("m").integer().default(Expr::column(n("n"), None));
    assert_eq!(
        one_column(other, DBEngine::Sqlite),
        Ok(n("CREATE TABLE \"t\" (\"m\" integer DEFAULT (\"n\"))"))
    );
    let text = Column::new("s").text().default(Expr::value(PyValue::String(n("it's"))));
    assert_eq!(
        one_column(text, DBEngine::Sqlite),
        Ok(n("CREATE TABLE \"t\" (\"s\" text DEFAULT 'it''s')"))
    );
}

#[test]
fn untyped_column_gating() {
    assert_eq!(
        one_column(Column::new("c"), DBEngine::Sqlite),
        Ok(n("CREATE TABLE \"t\" (\"c\")"))
    );
    assert_eq!(
        one_column(Column::new("c"), DBEngine::Mysql),
        unsupported(DBEngine::Mysql, Clause::UntypedColumn)
    );
    assert_eq!(
        one_column(Column::new("c"), DBEngine::Postgres),
        unsupported(DBEngine::Postgres, Clause::UntypedColumn)
    );
}

#[test]
fn auto_increment_gating() {
    assert_eq!(
        one_column(Column::new("c").text().auto_increment(), DBEngine::Postgres),
        unsupported(DBEngine::Postgres, Clause::AutoIncrement)
    );
    assert_eq!(
        one_column(Column::new("c").big_integer().auto_increment(), DBEngine::Postgres),
        Ok(n("CREATE TABLE \"t\" (\"c\" bigserial)"))
    );
    assert_eq!(
        one_column(Column::new("c").small_integer().auto_increment(), DBEngine::Postgres),
        Ok(n("CREATE TABLE \"t\" (\"c\" smallserial)"))
    );
    assert_eq!(
        one_column(Column::new("c").integer().auto_increment(), DBEngine::Sqlite),
        unsupported(DBEngine::Sqlite, Clause::AutoIncrement)
    );
    assert_eq!(
        one_column(Column::new("c").text().primary_key().auto_increment(), DBEngine::Sqlite),
        unsupported(DBEngine::Sqlite, Clause::AutoIncrement)
    );
    assert_eq!(
        one_column(Column::new("c").big_integer().primary_key().auto_increment(), DBEngine::Sqlite),
        Ok(n("CREATE TABLE \"t\" (\"c\" integer PRIMARY KEY AUTOINCREMENT)"))
    );
    assert_eq!(
        one_column(Column::new("c").big_integer().auto_increment(), DBEngine::Mysql),
        Ok(n("CREATE TABLE `t` (`c` bigint AUTO_INCREMENT)"))
    );
}

#[test]
fn comment_gating() {
    let q = || {
        Table::create()
            .name(n("t"))
            .column(Column::new("c").integer().comment(n("it's c")))
            .comment(n("the table"))
    };
    assert_eq!(
        q().build_sql(&DBEngine::Mysql),
        Ok(n("CREATE TABLE `t` (`c` int COMMENT 'it''s c') COMMENT 'the table'"))
    );
    assert_eq!(q().build_sql(&DBEngine::Postgres), unsupported(DBEngine::Postgres, Clause::Comment));
    assert_eq!(q().build_sql(&DBEngine::Sqlite), unsupported(DBEngine::Sqlite, Clause::Comment));
    let table_only = Table::create().name(n("t")).column(Column::new("c").integer()).comment(n("x"));
    assert_eq!(
        table_only.build_sql(&DBEngine::Postgres),
        unsupported(DBEngine::Postgres, Clause::Comment)
    );
}

#[test]
fn incomplete_create_is_invalid_state() {
    assert_eq!(TableCreateStatement::new().build_sql(&DBEngine::Mysql), Err(SqlError::InvalidState));
    assert_eq!(
        Table::create().name(n("t")).build_sql(&DBEngine::Mysql),
        Err(SqlError::InvalidState)
    );
    assert_eq!(
        Table::create().column(Column::new("c").integer()).build_sql(&DBEngine::Mysql),
        Err(SqlError::InvalidState)
    );
}

#[test]
fn first_column_problem_is_reported() {
    let q = Table::create()
        .name(n("t"))
        .column(Column::new("a").integer())
        .column(Column::new("b").text().auto_increment())
        .column(Column::new("c"));
    assert_eq!(q.build_sql(&DBEngine::Postgres), unsupported(DBEngine::Postgres, Clause::AutoIncrement));
}

#[test]
fn column_clone_keeps_the_definition() {
    let c = Column::new("c").integer().not_null();
    let copy = c.clone();
    assert_eq!(one_column(copy, DBEngine::Postgres), one_column(c, DBEngine::Postgres));
}

#[test]
fn rename_table_per_dialect() {
    let q = Table::rename().table(n("old"), n("new"));
    assert_eq!(q.build_sql(&DBEngine::Mysql), Ok(n("RENAME TABLE `old` TO `new`")));
    assert_eq!(q.build_sql(&DBEngine::Postgres), Ok(n("ALTER TABLE \"old\" RENAME TO \"new\"")));
    assert_eq!(q.build_sql(&DBEngine::Sqlite), Ok(n("ALTER TABLE \"old\" RENAME TO \"new\"")));
    assert_eq!(TableRenameStatement::new().build_sql(&DBEngine::Mysql), Err(SqlError::InvalidState));
}

#[test]
fn truncate_table_per_dialect() {
    let q = Table::truncate().table(n("t"));
    assert_eq!(q.build_sql(&DBEngine::Mysql), Ok(n("TRUNCATE TABLE `t`")));
    assert_eq!(q.build_sql(&DBEngine::Postgres), Ok(n("TRUNCATE TABLE \"t\"")));
    assert_eq!(q.build_sql(&DBEngine::Sqlite), unsupported(DBEngine::Sqlite, Clause::Truncate));
    assert_eq!(
        TableTruncateStatement::new().build_sql(&DBEngine::Sqlite),
        Err(SqlError::InvalidState)
    );
}

#[test]
fn keywords_of_the_enumerations() {
    assert_eq!(OrderBy::Asc.keyword(), "ASC");
    assert_eq!(OrderBy::Desc.keyword(), "DESC");
    assert_eq!(NullsOrder::First.keyword(), "NULLS FIRST");
    assert_eq!(NullsOrder::Last.keyword(), "NULLS LAST");
    assert_eq!(UnionType::Intersect.keyword(), "INTERSECT");
    assert_eq!(UnionType::Distinct.keyword(), "UNION");
    assert_eq!(UnionType::Except.keyword(), "EXCEPT");
    assert_eq!(UnionType::All.keyword(), "UNION ALL");
    assert_eq!(LockType::Update.keyword(), "UPDATE");
    assert_eq!(LockType::NoKeyUpdate.keyword(), "NO KEY UPDATE");
    assert_eq!(LockType::Share.keyword(), "SHARE");
    assert_eq!(LockType::KeyShare.keyword(), "KEY SHARE");
    assert_eq!(LockBehavior::Nowait.keyword(), "NOWAIT");
    assert_eq!(LockBehavior::SkipLocked.keyword(), "SKIP LOCKED");
    assert_eq!(IndexType::BTree.keyword(), "BTREE");
    assert_eq!(IndexType::FullText.keyword(), "FULLTEXT");
    assert_eq!(IndexType::Hash.keyword(), "HASH");
}

#[test]
fn error_messages_name_dialect_and_clause() {
    let e = SqlError::UnsupportedFeature { dialect: DBEngine::Sqlite, clause: Clause::Lock };
    assert_eq!(e.message(), "SQLite does not support row locking");
    let e = SqlError::UnsupportedFeature { dialect: DBEngine::Mysql, clause: Clause::Returning };
    assert_eq!(e.message(), "MySQL does not support RETURNING");
    let e = SqlError::UnsupportedFeature { dialect: DBEngine::Postgres, clause: Clause::Comment };
    assert_eq!(e.message(), "PostgreSQL does not support COMMENT");
    assert_eq!(SqlError::MalformedExpression.message(), "malformed expression");
    assert_eq!(SqlError::InvalidState.message(), "invalid statement state");
    assert_eq!(
        SqlError::ValueArityMismatch { expected: 2, found: 1 }.message(),
        "value count differs from column count"
    );
}
