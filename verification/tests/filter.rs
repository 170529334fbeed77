use sqlgen::expr::{Condition, ConditionExpression, Expr, SimpleExpr};
use sqlgen::query::{Query, SelectStatement};
use sqlgen::types::{DBEngine, PyValue};
use sqlgen::writer::write_condition;

fn f(text: &str) -> String {
    text.to_string()
}

fn cmp(name: &str, value: i64) -> SimpleExpr {
    Expr::column(f(name), None).eq(PyValue::Int(value))
}

fn lf(name: &str, value: i64) -> ConditionExpression {
    ConditionExpression::SimpleExpr(cmp(name, value))
}

fn from_t() -> SelectStatement {
    Query::select().from_table(f("t")).all()
}

#[test]
fn whole_conjunction_as_the_only_filter() {
    let c = Condition::all().add(lf("a", 1)).add(lf("b", 2)).add(lf("c", 3));
    assert_eq!(
        from_t().cond_where(c).build_sql(&DBEngine::Postgres),
        Ok(f("SELECT * FROM \"t\" WHERE \"a\" = 1 AND \"b\" = 2 AND \"c\" = 3"))
    );
}

#[test]
fn nested_disjunction_keeps_its_parentheses_in_the_only_filter() {
    let inner = Condition::any().add(lf("b", 2)).add(lf("c", 3));
    let c = Condition::all().add(lf("a", 1)).add(ConditionExpression::Condition(inner));
    assert_eq!(
        from_t().cond_where(c).build_sql(&DBEngine::Postgres),
        Ok(f("SELECT * FROM \"t\" WHERE \"a\" = 1 AND (\"b\" = 2 OR \"c\" = 3)"))
    );
}

#[test]
fn logical_expression_as_the_only_filter() {
    let a = cmp("a", 1);
    let b = cmp("b", 2);
    let c = cmp("c", 3);
    let x = a.or(&b).and(&c);
    assert_eq!(
        from_t().and_where(x).build_sql(&DBEngine::Postgres),
        Ok(f("SELECT * FROM \"t\" WHERE (\"a\" = 1 OR \"b\" = 2) AND \"c\" = 3"))
    );
    assert_eq!(
        from_t().and_where(a.or(&b)).build_sql(&DBEngine::Mysql),
        Ok(f("SELECT * FROM `t` WHERE `a` = 1 OR `b` = 2"))
    );
    assert_eq!(
        from_t().and_where(a.not()).build_sql(&DBEngine::Sqlite),
        Ok(f("SELECT * FROM \"t\" WHERE NOT (\"a\" = 1)"))
    );
}

#[test]
fn whole_disjunction_as_the_only_filter() {
    let c = Condition::any().add(lf("a", 1)).add(lf("b", 2));
    assert_eq!(
        from_t().cond_where(c).build_sql(&DBEngine::Postgres),
        Ok(f("SELECT * FROM \"t\" WHERE \"a\" = 1 OR \"b\" = 2"))
    );
    let c = Condition::any().add(lf("a", 1)).add(lf("b", 2)).not();
    assert_eq!(
        from_t().cond_where(c).build_sql(&DBEngine::Postgres),
        Ok(f("SELECT * FROM \"t\" WHERE NOT (\"a\" = 1 OR \"b\" = 2)"))
    );
}

#[test]
fn second_conjunct_brings_the_parentheses() {
    let c = Condition::any().add(lf("a", 1)).add(lf("b", 2));
    assert_eq!(
        from_t().cond_where(c).and_where(cmp("c", 3)).build_sql(&DBEngine::Postgres),
        Ok(f("SELECT * FROM \"t\" WHERE (\"a\" = 1 OR \"b\" = 2) AND \"c\" = 3"))
    );
    let x = cmp("a", 1).or(&cmp("b", 2));
    assert_eq!(
        from_t().and_where(x).and_where(cmp("c", 3)).build_sql(&DBEngine::Postgres),
        Ok(f("SELECT * FROM \"t\" WHERE (\"a\" = 1 OR \"b\" = 2) AND \"c\" = 3"))
    );
}

#[test]
fn condition_with_a_single_child_stands_as_the_child() {
    let either = ConditionExpression::SimpleExpr(cmp("a", 1).or(&cmp("b", 2)));
    let c = Condition::all().add(either);
    assert_eq!(write_condition(&c, DBEngine::Postgres), "\"a\" = 1 OR \"b\" = 2");
    assert_eq!(write_condition(&c.not(), DBEngine::Postgres), "NOT (\"a\" = 1 OR \"b\" = 2)");
    let inner = Condition::any().add(lf("a", 1)).add(lf("b", 2));
    let outer = Condition::all().add(ConditionExpression::Condition(inner));
    assert_eq!(write_condition(&outer, DBEngine::Postgres), "\"a\" = 1 OR \"b\" = 2");
    assert_eq!(
        from_t().cond_where(outer).build_sql(&DBEngine::Postgres),
        Ok(f("SELECT * FROM \"t\" WHERE \"a\" = 1 OR \"b\" = 2"))
    );
}

#[test]
fn only_filter_on_groups() {
    let c = Condition::all().add(lf("a", 1)).add(lf("b", 2));
    assert_eq!(
        from_t().cond_having(c).build_sql(&DBEngine::Postgres),
        Ok(f("SELECT * FROM \"t\" HAVING \"a\" = 1 AND \"b\" = 2"))
    );
    let x = cmp("a", 1).and(&cmp("b", 2));
    assert_eq!(
        from_t().and_having(x).build_sql(&DBEngine::Postgres),
        Ok(f("SELECT * FROM \"t\" HAVING \"a\" = 1 AND \"b\" = 2"))
    );
}

#[test]
fn only_filter_of_update_and_delete() {
    let c = || Condition::all().add(lf("a", 1)).add(lf("b", 2));
    let q = Query::update().table(f("t")).value(f("x"), PyValue::Int(0)).cond_where(c());
    assert_eq!(
        q.build_sql(&DBEngine::Postgres),
        Ok(f("UPDATE \"t\" SET \"x\" = 0 WHERE \"a\" = 1 AND \"b\" = 2"))
    );
    let q = Query::delete().from_table(f("t")).cond_where(c());
    assert_eq!(
        q.build_sql(&DBEngine::Mysql),
        Ok(f("DELETE FROM `t` WHERE `a` = 1 AND `b` = 2"))
    );
    let x = cmp("a", 1).or(&cmp("b", 2));
    let q = Query::delete().from_table(f("t")).and_where(x);
    assert_eq!(
        q.build_sql(&DBEngine::Sqlite),
        Ok(f("DELETE FROM \"t\" WHERE \"a\" = 1 OR \"b\" = 2"))
    );
}

#[test]
fn join_on_a_single_logical_child() {
    let c = Condition::all().add(ConditionExpression::SimpleExpr(cmp("a", 1).or(&cmp("b", 2))));
    let q = from_t().left_join(f("u"), ConditionExpression::Condition(c));
    assert_eq!(
        q.build_sql(&DBEngine::Postgres),
        Ok(f("SELECT * FROM \"t\" LEFT JOIN \"u\" ON \"a\" = 1 OR \"b\" = 2"))
    );
}
