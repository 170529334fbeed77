use sqlgen::expr::{Condition, ConditionExpression, Expr, SimpleExpr};
use sqlgen::query::Query;
use sqlgen::types::{DBEngine, FloatLiteral, PyValue, SqlError};
use sqlgen::writer::{write_condition, write_expr, write_value};

fn st(text: &str) -> String {
    text.to_string()
}

fn c(name: &str) -> Expr {
    Expr::column(st(name), None)
}

fn pg(e: &SimpleExpr) -> String {
    write_expr(e, DBEngine::Postgres)
}

fn leaf(e: SimpleExpr) -> ConditionExpression {
    ConditionExpression::SimpleExpr(e)
}

#[test]
fn column_references() {
    assert_eq!(pg(&c("a").0), "\"a\"");
    assert_eq!(pg(&Expr::column(st("a"), Some(st("t"))).0), "\"t\".\"a\"");
    assert_eq!(write_expr(&Expr::column(st("a"), Some(st("t"))).0, DBEngine::Mysql), "`t`.`a`");
    assert_eq!(pg(&Expr::expr(c("a")).0), "\"a\"");
}

#[test]
fn comparison_operators() {
    assert_eq!(pg(&c("a").eq(PyValue::Int(1))), "\"a\" = 1");
    assert_eq!(pg(&c("a").ne(PyValue::Int(1))), "\"a\" <> 1");
    assert_eq!(pg(&c("a").gt(PyValue::Int(1))), "\"a\" > 1");
    assert_eq!(pg(&c("a").gte(PyValue::Int(1))), "\"a\" >= 1");
    assert_eq!(pg(&c("a").lt(PyValue::Int(1))), "\"a\" < 1");
    assert_eq!(pg(&c("a").lte(PyValue::Int(1))), "\"a\" <= 1");
    assert_eq!(pg(&c("a").is_(PyValue::Bool(true))), "\"a\" IS TRUE");
    assert_eq!(pg(&c("a").is_not(PyValue::Null)), "\"a\" IS NOT NULL");
    assert_eq!(pg(&c("a").like(st("x%"))), "\"a\" LIKE 'x%'");
    assert_eq!(pg(&c("a").not_like(st("x%"))), "\"a\" NOT LIKE 'x%'");
    assert_eq!(pg(&c("a").is_null()), "\"a\" IS NULL");
    assert_eq!(pg(&c("a").is_not_null()), "\"a\" IS NOT NULL");
}

#[test]
fn column_to_column_comparison() {
    assert_eq!(pg(&c("a").equals(st("b"), None)), "\"a\" = \"b\"");
    assert_eq!(pg(&c("a").equals(st("b"), Some(st("t")))), "\"a\" = \"t\".\"b\"");
    assert_eq!(pg(&c("a").not_equals(st("b"), None)), "\"a\" <> \"b\"");
    assert_eq!(pg(&c("a").not_equals(st("b"), Some(st("t")))), "\"a\" <> \"t\".\"b\"");
}

#[test]
fn operators_leave_the_receiver_reusable() {
    let age = c("age");
    let low = age.gte(PyValue::Int(18));
    let high = age.lt(PyValue::Int(65));
    assert_eq!(pg(&low), "\"age\" >= 18");
    assert_eq!(pg(&high), "\"age\" < 65");
    assert_eq!(pg(&age.0), "\"age\"");
    let both = low.and(&high);
    assert_eq!(pg(&low), "\"age\" >= 18");
    assert_eq!(pg(&both), "\"age\" >= 18 AND \"age\" < 65");
}

#[test]
fn membership() {
    assert_eq!(
        pg(&c("a").is_in(vec![PyValue::Int(1), PyValue::Int(2)]).unwrap()),
        "\"a\" IN (1, 2)"
    );
    assert_eq!(
        pg(&c("a").is_not_in(vec![PyValue::String(st("x"))]).unwrap()),
        "\"a\" NOT IN ('x')"
    );
}

#[test]
fn membership_without_values_is_malformed() {
    assert_eq!(c("a").is_in(vec![]).err(), Some(SqlError::MalformedExpression));
    assert_eq!(c("a").is_not_in(vec![]).err(), Some(SqlError::MalformedExpression));
}

#[test]
fn ranges() {
    assert_eq!(
        pg(&c("a").between(PyValue::Int(1), PyValue::Int(9)).unwrap()),
        "\"a\" BETWEEN 1 AND 9"
    );
    assert_eq!(
        pg(&c("a").not_between(PyValue::String(st("a")), PyValue::String(st("f"))).unwrap()),
        "\"a\" NOT BETWEEN 'a' AND 'f'"
    );
    let half = PyValue::Float(FloatLiteral::new(st("0.5")).unwrap());
    assert_eq!(pg(&c("a").between(PyValue::Int(0), half).unwrap()), "\"a\" BETWEEN 0 AND 0.5");
}

#[test]
fn ranges_with_mismatched_or_absent_bounds_are_malformed() {
    assert_eq!(
        c("a").between(PyValue::Int(1), PyValue::String(st("z"))).err(),
        Some(SqlError::MalformedExpression)
    );
    assert_eq!(
        c("a").between(PyValue::Null, PyValue::Null).err(),
        Some(SqlError::MalformedExpression)
    );
    assert_eq!(
        c("a").not_between(PyValue::Int(1), PyValue::Null).err(),
        Some(SqlError::MalformedExpression)
    );
    assert_eq!(
        c("a").not_between(PyValue::Bool(true), PyValue::Int(1)).err(),
        Some(SqlError::MalformedExpression)
    );
}

#[test]
fn aggregates() {
    assert_eq!(pg(&c("a").max()), "MAX(\"a\")");
    assert_eq!(pg(&c("a").min()), "MIN(\"a\")");
    assert_eq!(pg(&c("a").sum()), "SUM(\"a\")");
    assert_eq!(pg(&c("a").count()), "COUNT(\"a\")");
    assert_eq!(pg(&c("a").count_distinct()), "COUNT(DISTINCT \"a\")");
}

#[test]
fn if_null_per_dialect() {
    let e = c("a").if_null(PyValue::Int(0));
    assert_eq!(write_expr(&e, DBEngine::Postgres), "COALESCE(\"a\", 0)");
    assert_eq!(write_expr(&e, DBEngine::Mysql), "IFNULL(`a`, 0)");
    assert_eq!(write_expr(&e, DBEngine::Sqlite), "IFNULL(\"a\", 0)");
}

#[test]
fn exists_renders_the_statement_inline() {
    let q = Query::select().all().from_table(st("t"));
    assert_eq!(pg(&Expr::exists_(q)), "EXISTS(SELECT * FROM \"t\")");
}

#[test]
fn logical_operators_and_parentheses() {
    let a = c("a").eq(PyValue::Int(1));
    let b = c("b").eq(PyValue::Int(2));
    let d = c("d").eq(PyValue::Int(3));
    assert_eq!(pg(&a.and(&b)), "\"a\" = 1 AND \"b\" = 2");
    assert_eq!(pg(&a.or(&b)), "\"a\" = 1 OR \"b\" = 2");
    assert_eq!(pg(&a.not()), "NOT (\"a\" = 1)");
    assert_eq!(pg(&a.or(&b).and(&d)), "(\"a\" = 1 OR \"b\" = 2) AND \"d\" = 3");
    assert_eq!(pg(&a.and(&b.or(&d))), "\"a\" = 1 AND (\"b\" = 2 OR \"d\" = 3)");
    assert_eq!(pg(&a.not().and(&b)), "(NOT (\"a\" = 1)) AND \"b\" = 2");
    assert_eq!(pg(&a.and(&b).not()), "NOT (\"a\" = 1 AND \"b\" = 2)");
    assert_eq!(pg(&c("f").0.not()), "NOT \"f\"");
}

#[test]
fn operand_that_is_no_atom_is_parenthesized() {
    let inner = c("a").eq(PyValue::Int(1));
    let wrapped = Expr(inner);
    assert_eq!(pg(&wrapped.is_(PyValue::Bool(true))), "(\"a\" = 1) IS TRUE");
    assert_eq!(pg(&wrapped.is_null()), "(\"a\" = 1) IS NULL");
    assert_eq!(pg(&Expr(c("n").max()).gt(PyValue::Int(5))), "MAX(\"n\") > 5");
}

#[test]
fn values_per_dialect() {
    assert_eq!(write_value(&PyValue::Bool(true), DBEngine::Postgres), "TRUE");
    assert_eq!(write_value(&PyValue::Bool(false), DBEngine::Postgres), "FALSE");
    assert_eq!(write_value(&PyValue::Bool(true), DBEngine::Mysql), "TRUE");
    assert_eq!(write_value(&PyValue::Bool(false), DBEngine::Mysql), "FALSE");
    assert_eq!(write_value(&PyValue::Bool(true), DBEngine::Sqlite), "1");
    assert_eq!(write_value(&PyValue::Bool(false), DBEngine::Sqlite), "0");
    assert_eq!(write_value(&PyValue::Null, DBEngine::Sqlite), "NULL");
    assert_eq!(write_value(&PyValue::Int(0), DBEngine::Sqlite), "0");
    assert_eq!(write_value(&PyValue::Int(-42), DBEngine::Sqlite), "-42");
    assert_eq!(write_value(&PyValue::Int(i64::MAX), DBEngine::Mysql), "9223372036854775807");
    assert_eq!(write_value(&PyValue::Int(i64::MIN), DBEngine::Mysql), "-9223372036854775808");
    let f = PyValue::Float(FloatLiteral::new(st("-12.5")).unwrap());
    assert_eq!(write_value(&f, DBEngine::Postgres), "-12.5");
}

#[test]
fn string_literals_are_escaped() {
    let v = PyValue::String(st("it's a \\ test"));
    assert_eq!(write_value(&v, DBEngine::Postgres), "'it''s a \\ test'");
    assert_eq!(write_value(&v, DBEngine::Sqlite), "'it''s a \\ test'");
    assert_eq!(write_value(&v, DBEngine::Mysql), "'it''s a \\\\ test'");
    assert_eq!(write_value(&PyValue::String(st("")), DBEngine::Mysql), "''");
    assert_eq!(write_value(&PyValue::String(st("héllo ✓")), DBEngine::Postgres), "'héllo ✓'");
}

#[test]
fn float_literals_are_validated() {
    for good in ["0", "1", "10", "0.5", "-0.5", "-3", "123456789.000001", "007"] {
        let f = FloatLiteral::new(st(good));
        assert!(f.is_ok(), "{}", good);
        assert_eq!(f.unwrap().as_str(), good);
    }
    for bad in [
        "", "-", ".", ".5", "5.", "-.5", "1..2", "1.2.3", "1e5", "NaN", "inf", "-inf", "+1", " 1",
        "1 ", "--1", "1-", "1.-2", "1; DROP TABLE t", "١",
    ] {
        assert_eq!(FloatLiteral::new(st(bad)).err(), Some(SqlError::MalformedExpression), "{}", bad);
    }
}

#[test]
fn empty_conditions() {
    assert_eq!(write_condition(&Condition::all(), DBEngine::Postgres), "1 = 1");
    assert_eq!(write_condition(&Condition::any(), DBEngine::Postgres), "1 = 0");
    assert_eq!(write_condition(&Condition::all().not(), DBEngine::Mysql), "NOT (1 = 1)");
    assert_eq!(write_condition(&Condition::any().not(), DBEngine::Sqlite), "NOT (1 = 0)");
}

#[test]
fn condition_children_render_in_insertion_order() {
    let cond = Condition::all()
        .add(leaf(c("b").eq(PyValue::Int(2))))
        .add(leaf(c("a").eq(PyValue::Int(1))))
        .add(leaf(c("c").eq(PyValue::Int(3))));
    assert_eq!(
        write_condition(&cond, DBEngine::Postgres),
        "\"b\" = 2 AND \"a\" = 1 AND \"c\" = 3"
    );
    let cond = Condition::any()
        .add(leaf(c("b").eq(PyValue::Int(2))))
        .add(leaf(c("a").eq(PyValue::Int(1))));
    assert_eq!(write_condition(&cond, DBEngine::Mysql), "`b` = 2 OR `a` = 1");
}

#[test]
fn condition_add_leaves_the_receiver() {
    let base = Condition::all().add(leaf(c("a").eq(PyValue::Int(1))));
    let more = base.add(leaf(c("b").eq(PyValue::Int(2))));
    assert_eq!(write_condition(&base, DBEngine::Postgres), "\"a\" = 1");
    assert_eq!(write_condition(&more, DBEngine::Postgres), "\"a\" = 1 AND \"b\" = 2");
    let negated = base.not();
    assert_eq!(write_condition(&base, DBEngine::Postgres), "\"a\" = 1");
    assert_eq!(write_condition(&negated, DBEngine::Postgres), "NOT (\"a\" = 1)");
}

#[test]
fn nested_conditions_are_parenthesized() {
    let a = || leaf(c("a").eq(PyValue::Int(1)));
    let b = || leaf(c("b").eq(PyValue::Int(2)));
    let d = || leaf(c("d").eq(PyValue::Int(3)));
    let nested = Condition::all()
        .add(a())
        .add(ConditionExpression::Condition(Condition::all().add(b()).add(d())));
    assert_eq!(
        write_condition(&nested, DBEngine::Postgres),
        "\"a\" = 1 AND (\"b\" = 2 AND \"d\" = 3)"
    );
    let flat = Condition::all().add(a()).add(b()).add(d());
    assert_eq!(
        write_condition(&flat, DBEngine::Postgres),
        "\"a\" = 1 AND \"b\" = 2 AND \"d\" = 3"
    );
    let mixed = Condition::any()
        .add(ConditionExpression::Condition(Condition::all().add(a()).add(b())))
        .add(d());
    assert_eq!(
        write_condition(&mixed, DBEngine::Postgres),
        "(\"a\" = 1 AND \"b\" = 2) OR \"d\" = 3"
    );
}

#[test]
fn nested_condition_with_a_single_leaf_stands_bare() {
    let single = Condition::any().add(leaf(c("b").eq(PyValue::Int(2))));
    let cond = Condition::all()
        .add(leaf(c("a").eq(PyValue::Int(1))))
        .add(ConditionExpression::Condition(single));
    assert_eq!(write_condition(&cond, DBEngine::Postgres), "\"a\" = 1 AND \"b\" = 2");
    let negated = Condition::any().add(leaf(c("b").eq(PyValue::Int(2)))).not();
    let cond = Condition::all()
        .add(leaf(c("a").eq(PyValue::Int(1))))
        .add(ConditionExpression::Condition(negated));
    assert_eq!(write_condition(&cond, DBEngine::Postgres), "\"a\" = 1 AND (NOT (\"b\" = 2))");
    let empty = Condition::all()
        .add(leaf(c("a").eq(PyValue::Int(1))))
        .add(ConditionExpression::Condition(Condition::any()));
    assert_eq!(write_condition(&empty, DBEngine::Postgres), "\"a\" = 1 AND (1 = 0)");
}

#[test]
fn negation_wraps_the_whole_condition() {
    let cond = Condition::all()
        .add(leaf(c("a").eq(PyValue::Int(1))))
        .add(leaf(c("b").eq(PyValue::Int(2))))
        .not();
    assert_eq!(write_condition(&cond, DBEngine::Postgres), "NOT (\"a\" = 1 AND \"b\" = 2)");
    assert_eq!(write_condition(&cond.not(), DBEngine::Postgres), "\"a\" = 1 AND \"b\" = 2");
}
