use sqlgen::query::{InsertStatement, Query};
use sqlgen::table::{Column, Table, TableAlterStatement, TableDropStatement};
use sqlgen::types::{Clause, DBEngine, PyValue, SqlError};

fn w(text: &str) -> String {
    text.to_string()
}

#[test]
fn drop_table() {
    let q = Table::drop().table(w("t"));
    assert_eq!(q.build_sql(&DBEngine::Mysql), Ok(w("DROP TABLE `t`")));
    assert_eq!(q.build_sql(&DBEngine::Postgres), Ok(w("DROP TABLE \"t\"")));
    let q = q.if_exists();
    assert_eq!(q.build_sql(&DBEngine::Sqlite), Ok(w("DROP TABLE IF EXISTS \"t\"")));
    assert_eq!(q.clone().build_sql(&DBEngine::Sqlite), q.build_sql(&DBEngine::Sqlite));
    assert_eq!(TableDropStatement::new().build_sql(&DBEngine::Mysql), Err(SqlError::InvalidState));
    assert_eq!(
        TableDropStatement::new().if_exists().build_sql(&DBEngine::Mysql),
        Err(SqlError::InvalidState)
    );
}

#[test]
fn alter_table_changes_in_order() {
    let q = Table::alter()
        .table(w("t"))
        .add_column(Column::new("a").integer().not_null())
        .drop_column(w("b"))
        .rename_column(w("c"), w("d"));
    assert_eq!(
        q.build_sql(&DBEngine::Postgres),
        Ok(w(
            "ALTER TABLE \"t\" ADD COLUMN \"a\" integer NOT NULL, DROP COLUMN \"b\", \
             RENAME COLUMN \"c\" TO \"d\""
        ))
    );
    assert_eq!(
        q.build_sql(&DBEngine::Mysql),
        Ok(w("ALTER TABLE `t` ADD COLUMN `a` int NOT NULL, DROP COLUMN `b`, RENAME COLUMN `c` TO `d`"))
    );
    assert_eq!(
        q.build_sql(&DBEngine::Sqlite),
        Err(SqlError::UnsupportedFeature { dialect: DBEngine::Sqlite, clause: Clause::AlterTable })
    );
    assert_eq!(q.clone().build_sql(&DBEngine::Mysql), q.build_sql(&DBEngine::Mysql));
}

#[test]
fn alter_table_on_sqlite() {
    let q = Table::alter().table(w("t")).add_column(Column::new("a").text());
    assert_eq!(q.build_sql(&DBEngine::Sqlite), Ok(w("ALTER TABLE \"t\" ADD COLUMN \"a\" text")));
    let q = Table::alter().table(w("t")).add_column(Column::new("a").text().unique());
    assert_eq!(
        q.build_sql(&DBEngine::Sqlite),
        Err(SqlError::UnsupportedFeature { dialect: DBEngine::Sqlite, clause: Clause::AlterTable })
    );
    let q = Table::alter().table(w("t")).add_column(Column::new("a").integer().primary_key());
    assert_eq!(
        q.build_sql(&DBEngine::Sqlite),
        Err(SqlError::UnsupportedFeature { dialect: DBEngine::Sqlite, clause: Clause::AlterTable })
    );
    assert_eq!(
        q.build_sql(&DBEngine::Postgres),
        Ok(w("ALTER TABLE \"t\" ADD COLUMN \"a\" integer PRIMARY KEY"))
    );
    let q = Table::alter().table(w("t")).rename_column(w("a"), w("b"));
    assert_eq!(
        q.build_sql(&DBEngine::Sqlite),
        Ok(w("ALTER TABLE \"t\" RENAME COLUMN \"a\" TO \"b\""))
    );
}

#[test]
fn alter_table_problems() {
    assert_eq!(TableAlterStatement::new().build_sql(&DBEngine::Mysql), Err(SqlError::InvalidState));
    assert_eq!(
        Table::alter().table(w("t")).build_sql(&DBEngine::Mysql),
        Err(SqlError::InvalidState)
    );
    assert_eq!(
        Table::alter().drop_column(w("a")).build_sql(&DBEngine::Mysql),
        Err(SqlError::InvalidState)
    );
    let q = Table::alter().table(w("t")).drop_column(w("x")).add_column(Column::new("a"));
    assert_eq!(
        q.build_sql(&DBEngine::Mysql),
        Err(SqlError::UnsupportedFeature { dialect: DBEngine::Mysql, clause: Clause::UntypedColumn })
    );
    let e = SqlError::UnsupportedFeature { dialect: DBEngine::Sqlite, clause: Clause::AlterTable };
    assert_eq!(e.message(), "SQLite does not support this alteration of a table");
}

#[test]
fn statements_can_be_copied() {
    let insert = InsertStatement::new()
        .into(w("t"))
        .columns(vec![w("a")])
        .ok()
        .unwrap()
        .values(vec![PyValue::Int(1)])
        .ok()
        .unwrap()
        .returning_all();
    let copy = insert.clone();
    let grown = insert.values(vec![PyValue::Int(2)]).ok().unwrap();
    assert_eq!(
        copy.build_sql(&DBEngine::Postgres),
        Ok(w("INSERT INTO \"t\" (\"a\") VALUES (1) RETURNING *"))
    );
    assert_eq!(
        grown.build_sql(&DBEngine::Postgres),
        Ok(w("INSERT INTO \"t\" (\"a\") VALUES (1), (2) RETURNING *"))
    );
    let update = Query::update().table(w("t")).value(w("a"), PyValue::Int(1));
    assert_eq!(update.clone().build_sql(&DBEngine::Mysql), update.build_sql(&DBEngine::Mysql));
    let delete = Query::delete().from_table(w("t")).returning_column(w("a"));
    assert_eq!(delete.clone().build_sql(&DBEngine::Sqlite), delete.build_sql(&DBEngine::Sqlite));
    let create = Table::create().name(w("t")).column(Column::new("a").text());
    assert_eq!(create.clone().build_sql(&DBEngine::Sqlite), create.build_sql(&DBEngine::Sqlite));
    let rename = Table::rename().table(w("a"), w("b"));
    assert_eq!(rename.clone().build_sql(&DBEngine::Mysql), rename.build_sql(&DBEngine::Mysql));
    let truncate = Table::truncate().table(w("a"));
    assert_eq!(truncate.clone().build_sql(&DBEngine::Mysql), truncate.build_sql(&DBEngine::Mysql));
}
