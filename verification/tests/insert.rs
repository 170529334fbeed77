use sqlgen::expr::{Expr, OnConflict};
use sqlgen::query::{DeleteStatement, InsertStatement, Query, Refused, UpdateStatement};
use sqlgen::types::{Clause, DBEngine, PyValue, SqlError};

fn t(text: &str) -> String {
    text.to_string()
}

fn why(r: Result<InsertStatement, Refused>) -> Option<SqlError> {
    r.err().map(|x| x.error)
}

fn two_columns() -> InsertStatement {
    InsertStatement::new().into(t("t")).columns(vec![t("a"), t("b")]).ok().unwrap()
}

#[test]
fn insert_arity_check() {
    let r = InsertStatement::new()
        .into(t("t"))
        .columns(vec![t("a"), t("b")])
        .ok()
        .unwrap()
        .values(vec![PyValue::Int(1)]);
    assert_eq!(why(r), Some(SqlError::ValueArityMismatch { expected: 2, found: 1 }));
}

#[test]
fn insert_arity_check_without_columns() {
    let r = Query::insert().into(t("t")).values(vec![PyValue::Int(1)]);
    assert_eq!(why(r), Some(SqlError::ValueArityMismatch { expected: 0, found: 1 }));
    let r = two_columns().values(vec![PyValue::Int(1), PyValue::Int(2), PyValue::Int(3)]);
    assert_eq!(why(r), Some(SqlError::ValueArityMismatch { expected: 2, found: 3 }));
}

#[test]
fn insert_rows() {
    let q = two_columns()
        .values(vec![PyValue::Int(1), PyValue::String(t("x"))])
        .ok()
        .unwrap()
        .values(vec![PyValue::Null, PyValue::Bool(true)])
        .ok()
        .unwrap();
    assert_eq!(
        q.build_sql(&DBEngine::Postgres),
        Ok(t("INSERT INTO \"t\" (\"a\", \"b\") VALUES (1, 'x'), (NULL, TRUE)"))
    );
    assert_eq!(
        q.build_sql(&DBEngine::Mysql),
        Ok(t("INSERT INTO `t` (`a`, `b`) VALUES (1, 'x'), (NULL, TRUE)"))
    );
    assert_eq!(
        q.build_sql(&DBEngine::Sqlite),
        Ok(t("INSERT INTO \"t\" (\"a\", \"b\") VALUES (1, 'x'), (NULL, 1)"))
    );
}

#[test]
fn redeclaring_columns_checks_the_rows() {
    let q = two_columns().values(vec![PyValue::Int(1), PyValue::Int(2)]).ok().unwrap();
    let r = q.columns(vec![t("a")]);
    assert_eq!(why(r), Some(SqlError::ValueArityMismatch { expected: 1, found: 2 }));
    let q = two_columns().values(vec![PyValue::Int(1), PyValue::Int(2)]).ok().unwrap();
    let q = q.columns(vec![t("x"), t("y")]).ok().unwrap();
    assert_eq!(
        q.build_sql(&DBEngine::Postgres),
        Ok(t("INSERT INTO \"t\" (\"x\", \"y\") VALUES (1, 2)"))
    );
}

#[test]
fn insert_from_select() {
    let source = Query::select().columns(vec![t("a"), t("b")], None).from_table(t("u"));
    let q = two_columns().select_from(source).ok().unwrap();
    assert_eq!(
        q.build_sql(&DBEngine::Postgres),
        Ok(t("INSERT INTO \"t\" (\"a\", \"b\") SELECT \"a\", \"b\" FROM \"u\""))
    );
    let source = Query::select().all().from_table(t("u"));
    let q = Query::insert().into(t("t")).select_from(source).ok().unwrap();
    assert_eq!(q.build_sql(&DBEngine::Mysql), Ok(t("INSERT INTO `t` SELECT * FROM `u`")));
}

#[test]
fn values_and_select_are_mutually_exclusive() {
    let source = || Query::select().all().from_table(t("u"));
    let q = two_columns().values(vec![PyValue::Int(1), PyValue::Int(2)]).ok().unwrap();
    assert_eq!(why(q.select_from(source())), Some(SqlError::InvalidState));
    let q = two_columns().select_from(source()).ok().unwrap();
    assert_eq!(
        why(q.values(vec![PyValue::Int(1), PyValue::Int(2)])),
        Some(SqlError::InvalidState)
    );
    let q = two_columns().select_from(source()).ok().unwrap();
    assert_eq!(why(q.values(vec![PyValue::Int(1)])), Some(SqlError::InvalidState));
}

#[test]
fn incomplete_insert_is_invalid_state() {
    assert_eq!(Query::insert().build_sql(&DBEngine::Postgres), Err(SqlError::InvalidState));
    assert_eq!(
        Query::insert().into(t("t")).build_sql(&DBEngine::Postgres),
        Err(SqlError::InvalidState)
    );
    assert_eq!(two_columns().build_sql(&DBEngine::Postgres), Err(SqlError::InvalidState));
    let no_table = InsertStatement::new()
        .columns(vec![t("a")])
        .ok()
        .unwrap()
        .values(vec![PyValue::Int(1)])
        .ok()
        .unwrap();
    assert_eq!(no_table.build_sql(&DBEngine::Postgres), Err(SqlError::InvalidState));
    let no_columns = Query::insert().into(t("t")).values(vec![]).ok().unwrap();
    assert_eq!(no_columns.build_sql(&DBEngine::Mysql), Err(SqlError::InvalidState));
}

#[test]
fn insert_from_a_select_with_a_problem() {
    let source = Query::select().all().from_table(t("u")).lock_shared();
    let q = Query::insert().into(t("t")).select_from(source).ok().unwrap();
    assert_eq!(
        q.build_sql(&DBEngine::Sqlite),
        Err(SqlError::UnsupportedFeature { dialect: DBEngine::Sqlite, clause: Clause::Lock })
    );
}

#[test]
fn returning_is_gated_for_mysql() {
    let row = || two_columns().values(vec![PyValue::Int(1), PyValue::Int(2)]).ok().unwrap();
    assert_eq!(
        row().returning_all().build_sql(&DBEngine::Mysql),
        Err(SqlError::UnsupportedFeature { dialect: DBEngine::Mysql, clause: Clause::Returning })
    );
    assert_eq!(
        row().returning_column(t("a")).build_sql(&DBEngine::Mysql),
        Err(SqlError::UnsupportedFeature { dialect: DBEngine::Mysql, clause: Clause::Returning })
    );
    assert_eq!(
        row().returning_all().build_sql(&DBEngine::Postgres),
        Ok(t("INSERT INTO \"t\" (\"a\", \"b\") VALUES (1, 2) RETURNING *"))
    );
    assert_eq!(
        row().returning_column(t("a")).build_sql(&DBEngine::Sqlite),
        Ok(t("INSERT INTO \"t\" (\"a\", \"b\") VALUES (1, 2) RETURNING \"a\""))
    );
    assert_eq!(
        row().returning_all().returning_column(t("b")).build_sql(&DBEngine::Postgres),
        Ok(t("INSERT INTO \"t\" (\"a\", \"b\") VALUES (1, 2) RETURNING \"b\""))
    );
}

#[test]
fn on_conflict_do_nothing() {
    let row = || two_columns().values(vec![PyValue::Int(1), PyValue::Int(2)]).ok().unwrap();
    let q = row().on_conflict(OnConflict::column(t("a")).do_nothing()).ok().unwrap();
    assert_eq!(
        q.build_sql(&DBEngine::Postgres),
        Ok(t("INSERT INTO \"t\" (\"a\", \"b\") VALUES (1, 2) ON CONFLICT (\"a\") DO NOTHING"))
    );
    assert_eq!(
        q.build_sql(&DBEngine::Mysql),
        Err(SqlError::UnsupportedFeature { dialect: DBEngine::Mysql, clause: Clause::OnConflict })
    );
    let q = row()
        .on_conflict(OnConflict::columns(vec![t("a"), t("b")]).do_nothing())
        .ok()
        .unwrap()
        .returning_all();
    assert_eq!(
        q.build_sql(&DBEngine::Sqlite),
        Ok(t(
            "INSERT INTO \"t\" (\"a\", \"b\") VALUES (1, 2) ON CONFLICT (\"a\", \"b\") DO NOTHING \
             RETURNING *"
        ))
    );
    let q = row().on_conflict(OnConflict::columns(vec![]).do_nothing()).ok().unwrap();
    assert_eq!(
        q.build_sql(&DBEngine::Postgres),
        Ok(t("INSERT INTO \"t\" (\"a\", \"b\") VALUES (1, 2) ON CONFLICT DO NOTHING"))
    );
}

#[test]
fn on_conflict_without_action_is_malformed() {
    let row = two_columns().values(vec![PyValue::Int(1), PyValue::Int(2)]).ok().unwrap();
    assert_eq!(
        why(row.on_conflict(OnConflict::column(t("a")))),
        Some(SqlError::MalformedExpression)
    );
}

#[test]
fn update_statement() {
    let q = Query::update()
        .table(t("t"))
        .value(t("a"), PyValue::Int(1))
        .value(t("b"), PyValue::String(t("x")))
        .and_where(Expr::column(t("id"), None).eq(PyValue::Int(7)));
    assert_eq!(
        q.build_sql(&DBEngine::Postgres),
        Ok(t("UPDATE \"t\" SET \"a\" = 1, \"b\" = 'x' WHERE \"id\" = 7"))
    );
    assert_eq!(
        q.build_sql(&DBEngine::Mysql),
        Ok(t("UPDATE `t` SET `a` = 1, `b` = 'x' WHERE `id` = 7"))
    );
    let q = q.returning_column(t("a"));
    assert_eq!(
        q.build_sql(&DBEngine::Sqlite),
        Ok(t("UPDATE \"t\" SET \"a\" = 1, \"b\" = 'x' WHERE \"id\" = 7 RETURNING \"a\""))
    );
    assert_eq!(
        q.build_sql(&DBEngine::Mysql),
        Err(SqlError::UnsupportedFeature { dialect: DBEngine::Mysql, clause: Clause::Returning })
    );
    assert_eq!(UpdateStatement::new().build_sql(&DBEngine::Mysql), Err(SqlError::InvalidState));
    assert_eq!(
        Query::update().table(t("t")).build_sql(&DBEngine::Mysql),
        Err(SqlError::InvalidState)
    );
}

#[test]
fn delete_statement() {
    let q = Query::delete()
        .from_table(t("t"))
        .and_where(Expr::column(t("id"), None).eq(PyValue::Int(7)));
    assert_eq!(q.build_sql(&DBEngine::Postgres), Ok(t("DELETE FROM \"t\" WHERE \"id\" = 7")));
    let q = q.returning_all();
    assert_eq!(
        q.build_sql(&DBEngine::Postgres),
        Ok(t("DELETE FROM \"t\" WHERE \"id\" = 7 RETURNING *"))
    );
    assert_eq!(
        q.build_sql(&DBEngine::Mysql),
        Err(SqlError::UnsupportedFeature { dialect: DBEngine::Mysql, clause: Clause::Returning })
    );
    assert_eq!(
        Query::delete().from_table(t("t")).build_sql(&DBEngine::Mysql),
        Ok(t("DELETE FROM `t`"))
    );
    assert_eq!(DeleteStatement::new().build_sql(&DBEngine::Mysql), Err(SqlError::InvalidState));
}

#[test]
fn refused_call_hands_the_statement_back() {
    let before = "INSERT INTO \"t\" (\"a\", \"b\") VALUES (1, 2)";
    let q = two_columns().values(vec![PyValue::Int(1), PyValue::Int(2)]).ok().unwrap();
    let refused = q.values(vec![PyValue::Int(3)]).err().unwrap();
    assert_eq!(refused.error, SqlError::ValueArityMismatch { expected: 2, found: 1 });
    assert_eq!(refused.statement.build_sql(&DBEngine::Postgres), Ok(t(before)));
    let refused = refused.statement.columns(vec![t("x")]).err().unwrap();
    assert_eq!(refused.error, SqlError::ValueArityMismatch { expected: 1, found: 2 });
    assert_eq!(refused.statement.build_sql(&DBEngine::Postgres), Ok(t(before)));
    let source = Query::select().all().from_table(t("u"));
    let refused = refused.statement.select_from(source).err().unwrap();
    assert_eq!(refused.error, SqlError::InvalidState);
    assert_eq!(refused.statement.build_sql(&DBEngine::Postgres), Ok(t(before)));
    let refused = refused.statement.on_conflict(OnConflict::column(t("a"))).err().unwrap();
    assert_eq!(refused.error, SqlError::MalformedExpression);
    assert_eq!(refused.statement.build_sql(&DBEngine::Postgres), Ok(t(before)));
    let grown = refused.statement.values(vec![PyValue::Int(3), PyValue::Int(4)]).ok().unwrap();
    assert_eq!(
        grown.build_sql(&DBEngine::Postgres),
        Ok(t("INSERT INTO \"t\" (\"a\", \"b\") VALUES (1, 2), (3, 4)"))
    );
}
