use sqlgen::expr::{Condition, ConditionExpression, Expr, SimpleExpr};
use sqlgen::query::{Query, SelectStatement};
use sqlgen::types::{
    Clause, DBEngine, LockBehavior, LockType, NullsOrder, OrderBy, PyValue, SqlError, UnionType,
};

fn s(text: &str) -> String {
    text.to_string()
}

fn col(name: &str) -> Expr {
    Expr::column(s(name), None)
}

fn adults() -> SelectStatement {
    Query::select()
        .from_table(s("users"))
        .column(s("id"), None)
        .and_where(col("age").gte(PyValue::Int(18)))
        .order_by(s("id"), OrderBy::Asc)
        .limit(10)
}

#[test]
fn end_to_end_postgres() {
    assert_eq!(
        adults().build_sql(&DBEngine::Postgres),
        Ok(s("SELECT \"id\" FROM \"users\" WHERE \"age\" >= 18 ORDER BY \"id\" ASC LIMIT 10"))
    );
}

#[test]
fn end_to_end_mysql_uses_backticks() {
    assert_eq!(
        adults().build_sql(&DBEngine::Mysql),
        Ok(s("SELECT `id` FROM `users` WHERE `age` >= 18 ORDER BY `id` ASC LIMIT 10"))
    );
}

#[test]
fn end_to_end_sqlite() {
    assert_eq!(
        adults().build_sql(&DBEngine::Sqlite),
        Ok(s("SELECT \"id\" FROM \"users\" WHERE \"age\" >= 18 ORDER BY \"id\" ASC LIMIT 10"))
    );
}

#[test]
fn build_sql_is_deterministic_and_leaves_the_statement() {
    let q = adults();
    let first = q.build_sql(&DBEngine::Postgres);
    let second = q.build_sql(&DBEngine::Postgres);
    assert_eq!(first, second);
    let copy = q.clone();
    assert_eq!(copy.build_sql(&DBEngine::Mysql), q.build_sql(&DBEngine::Mysql));
}

#[test]
fn clause_order_does_not_follow_call_order() {
    let shuffled = Query::select()
        .limit(10)
        .order_by(s("id"), OrderBy::Asc)
        .and_where(col("age").gte(PyValue::Int(18)))
        .column(s("id"), None)
        .from_table(s("users"));
    assert_eq!(
        shuffled.build_sql(&DBEngine::Postgres),
        adults().build_sql(&DBEngine::Postgres)
    );
}

#[test]
fn every_clause_in_its_place() {
    let q = Query::select()
        .lock(LockType::Update)
        .offset(5)
        .limit(10)
        .order_by(s("n"), OrderBy::Desc)
        .and_having(Expr(col("n").count()).gt(PyValue::Int(1)))
        .group_by(s("kind"), Some(s("t")))
        .and_where(col("a").eq(PyValue::Int(1)))
        .inner_join(
            s("u"),
            ConditionExpression::SimpleExpr(Expr::column(s("id"), Some(s("t"))).equals(s("tid"), Some(s("u")))),
        )
        .from_table(s("t"))
        .all()
        .distinct();
    assert_eq!(
        q.build_sql(&DBEngine::Postgres),
        Ok(s(
            "SELECT DISTINCT * FROM \"t\" INNER JOIN \"u\" ON \"t\".\"id\" = \"u\".\"tid\" \
             WHERE \"a\" = 1 GROUP BY \"t\".\"kind\" HAVING COUNT(\"n\") > 1 \
             ORDER BY \"n\" DESC LIMIT 10 OFFSET 5 FOR UPDATE"
        ))
    );
}

#[test]
fn empty_projection_is_invalid_state() {
    let q = Query::select().from_table(s("t"));
    assert_eq!(q.build_sql(&DBEngine::Postgres), Err(SqlError::InvalidState));
    assert_eq!(SelectStatement::new().build_sql(&DBEngine::Mysql), Err(SqlError::InvalidState));
}

#[test]
fn select_without_source() {
    let q = Query::select().expr(Expr::value(PyValue::Int(1)).0);
    assert_eq!(q.build_sql(&DBEngine::Postgres), Ok(s("SELECT 1")));
}

#[test]
fn last_source_wins() {
    let q = Query::select().all().from_table(s("a")).from_table(s("b"));
    assert_eq!(q.build_sql(&DBEngine::Postgres), Ok(s("SELECT * FROM \"b\"")));
    let inner = Query::select().all().from_table(s("a"));
    let q = Query::select().all().from_table(s("x")).from_subquery(inner, s("sub"));
    assert_eq!(
        q.build_sql(&DBEngine::Mysql),
        Ok(s("SELECT * FROM (SELECT * FROM `a`) AS `sub`"))
    );
}

#[test]
fn columns_with_and_without_table() {
    let q = Query::select()
        .columns(vec![s("a"), s("b")], None)
        .columns(vec![s("c")], Some(s("t")))
        .columns(vec![], None)
        .from_table(s("t"));
    assert_eq!(
        q.build_sql(&DBEngine::Postgres),
        Ok(s("SELECT \"a\", \"b\", \"t\".\"c\" FROM \"t\""))
    );
}

#[test]
fn expr_and_alias() {
    let q = Query::select()
        .expr(col("n").max())
        .expr_as(col("n").sum(), s("total"))
        .from_table(s("t"));
    assert_eq!(
        q.build_sql(&DBEngine::Mysql),
        Ok(s("SELECT MAX(`n`), SUM(`n`) AS `total` FROM `t`"))
    );
}

#[test]
fn cond_where_merges_with_and_where() {
    let cond = Condition::any()
        .add(ConditionExpression::SimpleExpr(col("a").eq(PyValue::Int(1))))
        .add(ConditionExpression::SimpleExpr(col("b").eq(PyValue::Int(2))));
    let q = Query::select()
        .all()
        .from_table(s("t"))
        .and_where(col("c").eq(PyValue::Int(3)))
        .cond_where(cond);
    assert_eq!(
        q.build_sql(&DBEngine::Postgres),
        Ok(s("SELECT * FROM \"t\" WHERE \"c\" = 3 AND (\"a\" = 1 OR \"b\" = 2)"))
    );
}

#[test]
fn cond_having_merges_with_and_having() {
    let cond = Condition::all().add(ConditionExpression::SimpleExpr(col("b").gt(PyValue::Int(2))));
    let q = Query::select()
        .all()
        .from_table(s("t"))
        .and_having(col("a").lt(PyValue::Int(1)))
        .cond_having(cond);
    assert_eq!(
        q.build_sql(&DBEngine::Postgres),
        Ok(s("SELECT * FROM \"t\" HAVING \"a\" < 1 AND \"b\" > 2"))
    );
}

#[test]
fn joins_of_every_kind() {
    let on = |l: &str, r: &str| -> ConditionExpression {
        ConditionExpression::SimpleExpr(Expr::column(s("id"), Some(s(l))).equals(s("id"), Some(s(r))))
    };
    let q = Query::select()
        .all()
        .from_table(s("a"))
        .left_join(s("b"), on("a", "b"))
        .right_join(s("c"), on("a", "c"))
        .inner_join(s("d"), on("a", "d"));
    assert_eq!(
        q.build_sql(&DBEngine::Mysql),
        Ok(s(
            "SELECT * FROM `a` LEFT JOIN `b` ON `a`.`id` = `b`.`id` \
             RIGHT JOIN `c` ON `a`.`id` = `c`.`id` INNER JOIN `d` ON `a`.`id` = `d`.`id`"
        ))
    );
}

#[test]
fn join_on_a_condition_tree() {
    let cond = Condition::all()
        .add(ConditionExpression::SimpleExpr(col("x").eq(PyValue::Int(1))))
        .add(ConditionExpression::SimpleExpr(col("y").eq(PyValue::Int(2))));
    let q = Query::select()
        .all()
        .from_table(s("a"))
        .left_join(s("b"), ConditionExpression::Condition(cond));
    assert_eq!(
        q.build_sql(&DBEngine::Sqlite),
        Ok(s("SELECT * FROM \"a\" LEFT JOIN \"b\" ON \"x\" = 1 AND \"y\" = 2"))
    );
}

#[test]
fn cross_join_gating() {
    let q = Query::select()
        .all()
        .from_table(s("a"))
        .cross_join(s("b"), ConditionExpression::SimpleExpr(col("x").eq(PyValue::Int(1))));
    assert_eq!(
        q.build_sql(&DBEngine::Postgres),
        Err(SqlError::UnsupportedFeature { dialect: DBEngine::Postgres, clause: Clause::CrossJoin })
    );
    assert_eq!(
        q.build_sql(&DBEngine::Mysql),
        Ok(s("SELECT * FROM `a` CROSS JOIN `b` ON `x` = 1"))
    );
    assert_eq!(
        q.build_sql(&DBEngine::Sqlite),
        Ok(s("SELECT * FROM \"a\" CROSS JOIN \"b\" ON \"x\" = 1"))
    );
}

#[test]
fn full_outer_join_gating() {
    let q = Query::select()
        .all()
        .from_table(s("a"))
        .full_outer_join(s("b"), ConditionExpression::SimpleExpr(col("x").eq(PyValue::Int(1))));
    assert_eq!(
        q.build_sql(&DBEngine::Mysql),
        Err(SqlError::UnsupportedFeature { dialect: DBEngine::Mysql, clause: Clause::FullOuterJoin })
    );
    assert_eq!(
        q.build_sql(&DBEngine::Postgres),
        Ok(s("SELECT * FROM \"a\" FULL OUTER JOIN \"b\" ON \"x\" = 1"))
    );
}

#[test]
fn lock_skip_locked_feature_gating() {
    let q = SelectStatement::new()
        .from_table(s("t"))
        .all()
        .lock_with_behavior(LockType::Update, LockBehavior::SkipLocked);
    assert_eq!(
        q.build_sql(&DBEngine::Sqlite),
        Err(SqlError::UnsupportedFeature { dialect: DBEngine::Sqlite, clause: Clause::Lock })
    );
    let text = q.build_sql(&DBEngine::Postgres).unwrap();
    assert!(text.contains("FOR UPDATE SKIP LOCKED"));
    assert_eq!(text, "SELECT * FROM \"t\" FOR UPDATE SKIP LOCKED");
    assert_eq!(
        q.build_sql(&DBEngine::Mysql),
        Ok(s("SELECT * FROM `t` FOR UPDATE SKIP LOCKED"))
    );
}

#[test]
fn mysql_locks_only_partly() {
    let base = || Query::select().all().from_table(s("t"));
    let refused = Err(SqlError::UnsupportedFeature {
        dialect: DBEngine::Mysql,
        clause: Clause::Lock,
    });
    assert_eq!(base().lock(LockType::NoKeyUpdate).build_sql(&DBEngine::Mysql), refused);
    assert_eq!(base().lock(LockType::KeyShare).build_sql(&DBEngine::Mysql), refused);
    assert_eq!(
        base().lock(LockType::Share).build_sql(&DBEngine::Mysql),
        Ok(s("SELECT * FROM `t` FOR SHARE"))
    );
    assert_eq!(
        base().lock(LockType::NoKeyUpdate).build_sql(&DBEngine::Postgres),
        Ok(s("SELECT * FROM \"t\" FOR NO KEY UPDATE"))
    );
    assert_eq!(
        base().lock(LockType::KeyShare).build_sql(&DBEngine::Postgres),
        Ok(s("SELECT * FROM \"t\" FOR KEY SHARE"))
    );
}

#[test]
fn lock_variants() {
    let base = || Query::select().all().from_table(s("t"));
    assert_eq!(
        base().lock_shared().build_sql(&DBEngine::Postgres),
        Ok(s("SELECT * FROM \"t\" FOR SHARE"))
    );
    assert_eq!(
        base().lock_exclusive().build_sql(&DBEngine::Postgres),
        Ok(s("SELECT * FROM \"t\" FOR UPDATE"))
    );
    assert_eq!(
        base()
            .lock_with_tables(LockType::Share, vec![s("t"), s("u")])
            .build_sql(&DBEngine::Postgres),
        Ok(s("SELECT * FROM \"t\" FOR SHARE OF \"t\", \"u\""))
    );
    assert_eq!(
        base()
            .lock_with_tables_behavior(LockType::Update, vec![s("t")], LockBehavior::Nowait)
            .build_sql(&DBEngine::Postgres),
        Ok(s("SELECT * FROM \"t\" FOR UPDATE OF \"t\" NOWAIT"))
    );
    assert_eq!(
        base().lock(LockType::Update).lock(LockType::Share).build_sql(&DBEngine::Postgres),
        Ok(s("SELECT * FROM \"t\" FOR SHARE"))
    );
    assert_eq!(
        base().lock_shared().build_sql(&DBEngine::Sqlite),
        Err(SqlError::UnsupportedFeature { dialect: DBEngine::Sqlite, clause: Clause::Lock })
    );
}

#[test]
fn nested_lock_is_gated_too() {
    let inner = Query::select().all().from_table(s("u")).lock_exclusive();
    let q = Query::select().all().from_table(s("t")).and_where(Expr::exists_(inner));
    assert_eq!(
        q.build_sql(&DBEngine::Sqlite),
        Err(SqlError::UnsupportedFeature { dialect: DBEngine::Sqlite, clause: Clause::Lock })
    );
    assert_eq!(
        q.build_sql(&DBEngine::Postgres),
        Ok(s("SELECT * FROM \"t\" WHERE EXISTS(SELECT * FROM \"u\" FOR UPDATE)"))
    );
}

#[test]
fn nested_statement_without_projection_is_invalid() {
    let inner = Query::select().from_table(s("u"));
    let q = Query::select().all().from_subquery(inner, s("x"));
    assert_eq!(q.build_sql(&DBEngine::Postgres), Err(SqlError::InvalidState));
}

#[test]
fn order_by_with_nulls_per_dialect() {
    let q = Query::select()
        .all()
        .from_table(s("t"))
        .order_by_with_nulls(s("a"), OrderBy::Desc, NullsOrder::First)
        .order_by_with_nulls(s("b"), OrderBy::Asc, NullsOrder::Last);
    assert_eq!(
        q.build_sql(&DBEngine::Postgres),
        Ok(s("SELECT * FROM \"t\" ORDER BY \"a\" DESC NULLS FIRST, \"b\" ASC NULLS LAST"))
    );
    assert_eq!(
        q.build_sql(&DBEngine::Sqlite),
        Ok(s("SELECT * FROM \"t\" ORDER BY \"a\" DESC NULLS FIRST, \"b\" ASC NULLS LAST"))
    );
    assert_eq!(
        q.build_sql(&DBEngine::Mysql),
        Ok(s("SELECT * FROM `t` ORDER BY `a` IS NULL DESC, `a` DESC, `b` IS NULL ASC, `b` ASC"))
    );
}

#[test]
fn offset_without_limit() {
    let q = Query::select().all().from_table(s("t")).offset(7);
    assert_eq!(q.build_sql(&DBEngine::Postgres), Ok(s("SELECT * FROM \"t\" OFFSET 7")));
    assert_eq!(
        q.build_sql(&DBEngine::Mysql),
        Ok(s("SELECT * FROM `t` LIMIT 18446744073709551615 OFFSET 7"))
    );
    assert_eq!(q.build_sql(&DBEngine::Sqlite), Ok(s("SELECT * FROM \"t\" LIMIT -1 OFFSET 7")));
}

#[test]
fn limit_edge_values() {
    let q = Query::select().all().from_table(s("t")).limit(0).offset(u64::MAX);
    assert_eq!(
        q.build_sql(&DBEngine::Postgres),
        Ok(s("SELECT * FROM \"t\" LIMIT 0 OFFSET 18446744073709551615"))
    );
    let q = Query::select().all().from_table(s("t")).limit(1).limit(2);
    assert_eq!(q.build_sql(&DBEngine::Postgres), Ok(s("SELECT * FROM \"t\" LIMIT 2")));
}

#[test]
fn unions_per_dialect() {
    let other = || Query::select().all().from_table(s("u"));
    let q = Query::select()
        .all()
        .from_table(s("t"))
        .union(other(), UnionType::All)
        .union(other(), UnionType::Distinct)
        .order_by(s("id"), OrderBy::Asc);
    assert_eq!(
        q.build_sql(&DBEngine::Postgres),
        Ok(s(
            "SELECT * FROM \"t\" UNION ALL (SELECT * FROM \"u\") UNION (SELECT * FROM \"u\") \
             ORDER BY \"id\" ASC"
        ))
    );
    assert_eq!(
        q.build_sql(&DBEngine::Sqlite),
        Ok(s(
            "SELECT * FROM \"t\" UNION ALL SELECT * FROM \"u\" UNION SELECT * FROM \"u\" \
             ORDER BY \"id\" ASC"
        ))
    );
    let q = Query::select()
        .all()
        .from_table(s("t"))
        .union(other(), UnionType::Intersect)
        .union(other(), UnionType::Except);
    assert_eq!(
        q.build_sql(&DBEngine::Mysql),
        Ok(s("SELECT * FROM `t` INTERSECT (SELECT * FROM `u`) EXCEPT (SELECT * FROM `u`)"))
    );
}

#[test]
fn identifiers_are_escaped() {
    let q = Query::select().column(s("we\"ird`"), None).from_table(s("t\"`"));
    assert_eq!(
        q.build_sql(&DBEngine::Postgres),
        Ok(s("SELECT \"we\"\"ird`\" FROM \"t\"\"`\""))
    );
    assert_eq!(q.build_sql(&DBEngine::Mysql), Ok(s("SELECT `we\"ird``` FROM `t\"```")));
}

#[test]
fn first_problem_is_reported() {
    let q = Query::select()
        .all()
        .from_table(s("a"))
        .full_outer_join(s("b"), ConditionExpression::SimpleExpr(col("x").eq(PyValue::Int(1))))
        .lock(LockType::KeyShare);
    assert_eq!(
        q.build_sql(&DBEngine::Mysql),
        Err(SqlError::UnsupportedFeature { dialect: DBEngine::Mysql, clause: Clause::FullOuterJoin })
    );
}

#[test]
fn logical_leaf_in_filter_is_parenthesized() {
    let either: SimpleExpr = col("a").eq(PyValue::Int(1)).or(&col("b").eq(PyValue::Int(2)));
    let q = Query::select()
        .all()
        .from_table(s("t"))
        .and_where(either)
        .and_where(col("c").eq(PyValue::Int(3)));
    assert_eq!(
        q.build_sql(&DBEngine::Postgres),
        Ok(s("SELECT * FROM \"t\" WHERE (\"a\" = 1 OR \"b\" = 2) AND \"c\" = 3"))
    );
}

fn call(q: SelectStatement, which: usize) -> SelectStatement {
    match which {
        0 => q.from_table(s("users")),
        1 => q.and_where(col("age").gte(PyValue::Int(18))),
        2 => q.group_by(s("city"), None),
        3 => q.and_having(col("age").lt(PyValue::Int(65))),
        4 => q.order_by(s("id"), OrderBy::Asc),
        5 => q.limit(10),
        6 => q.offset(20),
        _ => q.lock(LockType::Update),
    }
}

fn every_order(order: &mut Vec<usize>, k: usize, seen: &mut Vec<Vec<usize>>) {
    if k == order.len() {
        seen.push(order.clone());
        return;
    }
    for i in k..order.len() {
        order.swap(k, i);
        every_order(order, k + 1, seen);
        order.swap(k, i);
    }
}

#[test]
fn every_order_of_the_calls_gives_the_same_text() {
    let mut orders = Vec::new();
    every_order(&mut vec![0, 1, 2, 3, 4, 5, 6, 7], 0, &mut orders);
    assert_eq!(orders.len(), 40320);
    for d in [DBEngine::Postgres, DBEngine::Mysql] {
        let mut expected = Query::select().column(s("id"), None);
        for which in 0..8 {
            expected = call(expected, which);
        }
        let expected = expected.build_sql(&d).unwrap();
        for order in &orders {
            let mut q = Query::select().column(s("id"), None);
            for which in order {
                q = call(q, *which);
            }
            assert_eq!(q.build_sql(&d).unwrap(), expected, "{:?}", order);
        }
        let keywords = [
            "SELECT ", " FROM ", " WHERE ", " GROUP BY ", " HAVING ", " ORDER BY ", " LIMIT ",
            " OFFSET ", " FOR ",
        ];
        let mut last = None;
        for keyword in keywords {
            let at = expected.find(keyword);
            assert!(at.is_some(), "{}", keyword);
            assert!(at > last, "{}", keyword);
            last = at;
        }
    }
    let q = Query::select().all().from_table(s("t"));
    assert_eq!(
        q.clone().limit(1).offset(2).build_sql(&DBEngine::Mysql),
        q.offset(2).limit(1).build_sql(&DBEngine::Mysql)
    );
}

#[test]
fn text_of_the_eight_calls() {
    let mut q = Query::select().column(s("id"), None);
    for which in [7, 6, 5, 4, 3, 2, 1, 0] {
        q = call(q, which);
    }
    assert_eq!(
        q.build_sql(&DBEngine::Postgres),
        Ok(s(
            "SELECT \"id\" FROM \"users\" WHERE \"age\" >= 18 GROUP BY \"city\" \
             HAVING \"age\" < 65 ORDER BY \"id\" ASC LIMIT 10 OFFSET 20 FOR UPDATE"
        ))
    );
}
