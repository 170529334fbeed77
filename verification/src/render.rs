//! The SQL text of expressions, conditions and `SELECT` statements.
//!
//! For each kind of node a specification function gives the text of its model in a
//! dialect, and an executable function writes that text.

use vstd::prelude::*;
use crate::model::{
    Aggregate, AssignmentModel, BinaryOp, ColumnRefModel, ConditionExpressionModel, ConditionKind,
    ConditionModel, DeleteModel, InsertModel, InsertSourceModel, JoinKind, JoinModel, LockModel,
    OnConflictModel, OrderModel, ProjectionModel, ReturningModel, SelectModel, SimpleExprModel,
    SourceModel, UnionModel, UpdateModel,
};
use crate::text::{ident_text, ident_texts, int_text, joined, nat_text, string_literal};
use crate::types::{DBEngine, LockBehavior, NullsOrder, ValueModel};

verus! {

/// A boolean literal: `TRUE` and `FALSE` for MySQL and PostgreSQL, `1` and `0` for SQLite.
pub open spec fn bool_text(b: bool, d: DBEngine) -> Seq<char> {
    match d {
        DBEngine::Sqlite => if b {
            "1"@
        } else {
            "0"@
        },
        _ => if b {
            "TRUE"@
        } else {
            "FALSE"@
        },
    }
}

/// A literal value.
pub open spec fn value_text(v: ValueModel, d: DBEngine) -> Seq<char> {
    match v {
        ValueModel::Bool(b) => bool_text(b, d),
        ValueModel::Float(t) => t,
        ValueModel::Int(i) => int_text(i),
        ValueModel::Text(t) => string_literal(t, d),
        ValueModel::Null => "NULL"@,
    }
}

/// The texts of values, in order.
pub open spec fn value_texts(v: Seq<ValueModel>, d: DBEngine) -> Seq<Seq<char>> {
    Seq::new(v.len(), |i: int| value_text(v[i], d))
}

/// A column reference: the quoted name, after the quoted table name and a dot if the
/// column is qualified.
pub open spec fn column_text(c: ColumnRefModel, d: DBEngine) -> Seq<char> {
    match c.table {
        Some(t) => ident_text(t, d) + "."@ + ident_text(c.name, d),
        None => ident_text(c.name, d),
    }
}

/// The texts of column references, in order.
pub open spec fn column_texts(v: Seq<ColumnRefModel>, d: DBEngine) -> Seq<Seq<char>> {
    Seq::new(v.len(), |i: int| column_text(v[i], d))
}

/// The text in parentheses.
pub open spec fn parens(s: Seq<char>) -> Seq<char> {
    "("@ + s + ")"@
}

/// The text, in parentheses if `needed`.
pub open spec fn wrap(s: Seq<char>, needed: bool) -> Seq<char> {
    if needed {
        parens(s)
    } else {
        s
    }
}

/// The symbol or keyword of a binary operator.
pub open spec fn op_text(op: BinaryOp) -> Seq<char> {
    match op {
        BinaryOp::Eq => "="@,
        BinaryOp::Ne => "<>"@,
        BinaryOp::Gt => ">"@,
        BinaryOp::Gte => ">="@,
        BinaryOp::Lt => "<"@,
        BinaryOp::Lte => "<="@,
        BinaryOp::Is => "IS"@,
        BinaryOp::IsNot => "IS NOT"@,
        BinaryOp::Like => "LIKE"@,
        BinaryOp::NotLike => "NOT LIKE"@,
        BinaryOp::And => "AND"@,
        BinaryOp::Or => "OR"@,
    }
}

/// The name and opening parenthesis of an aggregate call.
pub open spec fn call_open_text(f: Aggregate) -> Seq<char> {
    match f {
        Aggregate::Max => "MAX("@,
        Aggregate::Min => "MIN("@,
        Aggregate::Sum => "SUM("@,
        Aggregate::Count => "COUNT("@,
        Aggregate::CountDistinct => "COUNT(DISTINCT "@,
    }
}

/// The name and opening parenthesis of the null-fallback function: `COALESCE` for
/// PostgreSQL, `IFNULL` for MySQL and SQLite.
pub open spec fn if_null_open_text(d: DBEngine) -> Seq<char> {
    match d {
        DBEngine::Postgres => "COALESCE("@,
        _ => "IFNULL("@,
    }
}

/// An expression that reads as one token group wherever it stands: a column, a value, or
/// a call.
pub open spec fn is_atom(e: SimpleExprModel) -> bool {
    e is Column || e is Value || e is Call || e is IfNull || e is Exists
}

/// An expression whose top operator is `AND`, `OR` or `NOT`.
pub open spec fn is_logical(e: SimpleExprModel) -> bool {
    match e {
        SimpleExprModel::Not(_) => true,
        SimpleExprModel::Binary { op, .. } => op == BinaryOp::And || op == BinaryOp::Or,
        _ => false,
    }
}

/// Whether an operand of `op` is written in parentheses: under `AND` and `OR` a logical
/// operand is, under every other operator each operand that is not an atom.
pub open spec fn operand_needs_parens(e: SimpleExprModel, op: BinaryOp) -> bool {
    if op == BinaryOp::And || op == BinaryOp::Or {
        is_logical(e)
    } else {
        !is_atom(e)
    }
}

/// The null test, with the space before it.
pub open spec fn null_test_text(negated: bool) -> Seq<char> {
    if negated {
        " IS NOT NULL"@
    } else {
        " IS NULL"@
    }
}

/// The membership keyword and the opening parenthesis of the list.
pub open spec fn in_open_text(negated: bool) -> Seq<char> {
    if negated {
        " NOT IN ("@
    } else {
        " IN ("@
    }
}

/// The range keyword, with its spaces.
pub open spec fn between_text(negated: bool) -> Seq<char> {
    if negated {
        " NOT BETWEEN "@
    } else {
        " BETWEEN "@
    }
}

/// The word between the children of a condition, with its spaces.
pub open spec fn connective_text(kind: ConditionKind) -> Seq<char> {
    match kind {
        ConditionKind::All => " AND "@,
        ConditionKind::Any => " OR "@,
    }
}

/// What a condition without children is written as: a comparison that always holds for a
/// conjunction, one that never holds for a disjunction.
pub open spec fn empty_condition_text(kind: ConditionKind) -> Seq<char> {
    match kind {
        ConditionKind::All => "1 = 1"@,
        ConditionKind::Any => "1 = 0"@,
    }
}

/// The SQL text of an expression.
pub open spec fn expr_text(e: SimpleExprModel, d: DBEngine) -> Seq<char>
    decreases e,
{
    match e {
        SimpleExprModel::Column(c) => column_text(c, d),
        SimpleExprModel::Value(v) => value_text(v, d),
        SimpleExprModel::Binary { op, left, right } => wrap(
            expr_text(*left, d),
            operand_needs_parens(*left, op),
        ) + " "@ + op_text(op) + " "@ + wrap(expr_text(*right, d), operand_needs_parens(*right, op)),
        SimpleExprModel::Not(inner) => "NOT "@ + wrap(expr_text(*inner, d), !is_atom(*inner)),
        SimpleExprModel::IsNull { expr, negated } => wrap(expr_text(*expr, d), !is_atom(*expr))
            + null_test_text(negated),
        SimpleExprModel::InList { expr, list, negated } => wrap(
            expr_text(*expr, d),
            !is_atom(*expr),
        ) + in_open_text(negated) + joined(value_texts(list, d), ", "@) + ")"@,
        SimpleExprModel::Between { expr, low, high, negated } => wrap(
            expr_text(*expr, d),
            !is_atom(*expr),
        ) + between_text(negated) + value_text(low, d) + " AND "@ + value_text(high, d),
        SimpleExprModel::Call { func, arg } => call_open_text(func) + expr_text(*arg, d) + ")"@,
        SimpleExprModel::IfNull { expr, fallback } => if_null_open_text(d) + expr_text(*expr, d)
            + ", "@ + value_text(fallback, d) + ")"@,
        SimpleExprModel::Exists(query) => "EXISTS("@ + select_text(*query, d) + ")"@,
    }
}

/// What a condition says, before its negation: the constant comparison that stands for
/// no children; a single child as it stands alone, without parentheses of its own; or
/// several children joined by the connective, each as `child_text` writes it.
pub open spec fn condition_body_text(c: ConditionModel, d: DBEngine) -> Seq<char>
    decreases c, 0nat,
{
    if c.children.len() == 0 {
        empty_condition_text(c.kind)
    } else if c.children.len() == 1 {
        on_text(c.children[0], d)
    } else {
        joined(children_texts(c.children, d), connective_text(c.kind))
    }
}

/// The SQL text of a condition; a negated one is `NOT (` body `)`.
pub open spec fn condition_text(c: ConditionModel, d: DBEngine) -> Seq<char>
    decreases c, 1nat,
{
    if c.negated {
        "NOT ("@ + condition_body_text(c, d) + ")"@
    } else {
        condition_body_text(c, d)
    }
}

/// A child beside other children. A nested condition stands in parentheses, unless it is
/// not negated and has a single child, which then stands in its place. An expression
/// stands in parentheses only if its top operator is logical.
pub open spec fn child_text(c: ConditionExpressionModel, d: DBEngine) -> Seq<char>
    decreases c, 2nat,
{
    match c {
        ConditionExpressionModel::Condition(inner) => if !inner.negated && inner.children.len()
            == 1 {
            child_text(inner.children[0], d)
        } else {
            parens(condition_text(inner, d))
        },
        ConditionExpressionModel::SimpleExpr(e) => wrap(expr_text(e, d), is_logical(e)),
    }
}

/// The texts of the children of a condition, in order.
pub open spec fn children_texts(v: Seq<ConditionExpressionModel>, d: DBEngine) -> Seq<Seq<char>>
    decreases v, 3nat,
{
    Seq::new(
        v.len(),
        |i: int|
            if 0 <= i < v.len() {
                child_text(v[i], d)
            } else {
                Seq::empty()
            },
    )
}

/// A condition or expression that stands alone, as after `ON` or as the only conjunct of
/// a filter: no parentheses around it.
pub open spec fn on_text(c: ConditionExpressionModel, d: DBEngine) -> Seq<char>
    decreases c, 2nat,
{
    match c {
        ConditionExpressionModel::Condition(inner) => condition_text(inner, d),
        ConditionExpressionModel::SimpleExpr(e) => expr_text(e, d),
    }
}

/// A filter clause: nothing without conjuncts; the keyword and the conjunct as it stands
/// alone, if there is one; else the keyword and the conjuncts joined by `AND`, each as
/// `child_text` writes it.
pub open spec fn filter_text(
    keyword: Seq<char>,
    conjuncts: Seq<ConditionExpressionModel>,
    d: DBEngine,
) -> Seq<char>
    decreases conjuncts, 4nat,
{
    if conjuncts.len() == 0 {
        Seq::empty()
    } else if conjuncts.len() == 1 {
        keyword + on_text(conjuncts[0], d)
    } else {
        keyword + joined(children_texts(conjuncts, d), " AND "@)
    }
}

/// A projection item; an expression with an alias is followed by `AS` and the alias.
pub open spec fn projection_text(p: ProjectionModel, d: DBEngine) -> Seq<char>
    decreases p,
{
    match p {
        ProjectionModel::All => "*"@,
        ProjectionModel::Column(c) => column_text(c, d),
        ProjectionModel::Expr { expr, alias } => match alias {
            Some(a) => expr_text(expr, d) + " AS "@ + ident_text(a, d),
            None => expr_text(expr, d),
        },
    }
}

/// The texts of projection items, in order.
pub open spec fn projection_texts(v: Seq<ProjectionModel>, d: DBEngine) -> Seq<Seq<char>>
    decreases v,
{
    Seq::new(
        v.len(),
        |i: int|
            if 0 <= i < v.len() {
                projection_text(v[i], d)
            } else {
                Seq::empty()
            },
    )
}

/// A source: a quoted table name, or a statement in parentheses with its alias.
pub open spec fn source_text(s: SourceModel, d: DBEngine) -> Seq<char>
    decreases s,
{
    match s {
        SourceModel::Table(name) => ident_text(name, d),
        SourceModel::Subquery { query, alias } => "("@ + select_text(*query, d) + ") AS "@
            + ident_text(alias, d),
    }
}

/// The `FROM` clause: nothing without a source.
pub open spec fn from_text(o: Option<SourceModel>, d: DBEngine) -> Seq<char>
    decreases o,
{
    match o {
        Some(s) => " FROM "@ + source_text(s, d),
        None => Seq::empty(),
    }
}

/// The keywords of a join, with the space after them.
pub open spec fn join_keyword_text(kind: JoinKind) -> Seq<char> {
    match kind {
        JoinKind::Cross => "CROSS JOIN "@,
        JoinKind::Left => "LEFT JOIN "@,
        JoinKind::Right => "RIGHT JOIN "@,
        JoinKind::Inner => "INNER JOIN "@,
        JoinKind::FullOuter => "FULL OUTER JOIN "@,
    }
}

/// A join: keywords, quoted table name, `ON` and the condition.
pub open spec fn join_text(j: JoinModel, d: DBEngine) -> Seq<char>
    decreases j,
{
    join_keyword_text(j.kind) + ident_text(j.table, d) + " ON "@ + on_text(j.on, d)
}

/// The texts of joins, in order.
pub open spec fn join_texts(v: Seq<JoinModel>, d: DBEngine) -> Seq<Seq<char>>
    decreases v, 0nat,
{
    Seq::new(
        v.len(),
        |i: int|
            if 0 <= i < v.len() {
                join_text(v[i], d)
            } else {
                Seq::empty()
            },
    )
}

/// The joins in order, each after a space.
pub open spec fn joins_text(v: Seq<JoinModel>, d: DBEngine) -> Seq<char>
    decreases v, 1nat,
{
    if v.len() == 0 {
        Seq::empty()
    } else {
        " "@ + joined(join_texts(v, d), " "@)
    }
}

/// One set operation: the keyword, then the other statement, in parentheses except for
/// SQLite, which takes none there.
pub open spec fn union_text(u: UnionModel, d: DBEngine) -> Seq<char>
    decreases u,
{
    u.kind.keyword_spec() + " "@ + wrap(select_text(u.query, d), d != DBEngine::Sqlite)
}

/// The texts of set operations, in order.
pub open spec fn union_texts(v: Seq<UnionModel>, d: DBEngine) -> Seq<Seq<char>>
    decreases v, 0nat,
{
    Seq::new(
        v.len(),
        |i: int|
            if 0 <= i < v.len() {
                union_text(v[i], d)
            } else {
                Seq::empty()
            },
    )
}

/// The set operations in order, each after a space.
pub open spec fn unions_text(v: Seq<UnionModel>, d: DBEngine) -> Seq<char>
    decreases v, 1nat,
{
    if v.len() == 0 {
        Seq::empty()
    } else {
        " "@ + joined(union_texts(v, d), " "@)
    }
}

/// The `GROUP BY` clause: nothing without columns.
pub open spec fn group_by_text(v: Seq<ColumnRefModel>, d: DBEngine) -> Seq<char> {
    if v.len() == 0 {
        Seq::empty()
    } else {
        " GROUP BY "@ + joined(column_texts(v, d), ", "@)
    }
}

/// How MySQL, which has no `NULLS FIRST` and `NULLS LAST`, sorts by the null test first.
pub open spec fn null_test_order_text(nulls: NullsOrder) -> Seq<char> {
    match nulls {
        NullsOrder::First => " IS NULL DESC, "@,
        NullsOrder::Last => " IS NULL ASC, "@,
    }
}

/// One `ORDER BY` item. PostgreSQL and SQLite write the placement of NULLs after the
/// direction; for MySQL the item is preceded by an item that sorts by the null test.
pub open spec fn order_text(o: OrderModel, d: DBEngine) -> Seq<char> {
    match o.nulls {
        None => ident_text(o.column, d) + " "@ + o.order.keyword_spec(),
        Some(nulls) => if d == DBEngine::Mysql {
            ident_text(o.column, d) + null_test_order_text(nulls) + ident_text(o.column, d) + " "@
                + o.order.keyword_spec()
        } else {
            ident_text(o.column, d) + " "@ + o.order.keyword_spec() + " "@ + nulls.keyword_spec()
        },
    }
}

/// The texts of `ORDER BY` items, in order.
pub open spec fn order_texts(v: Seq<OrderModel>, d: DBEngine) -> Seq<Seq<char>> {
    Seq::new(v.len(), |i: int| order_text(v[i], d))
}

/// The `ORDER BY` clause: nothing without items.
pub open spec fn order_by_text(v: Seq<OrderModel>, d: DBEngine) -> Seq<char> {
    if v.len() == 0 {
        Seq::empty()
    } else {
        " ORDER BY "@ + joined(order_texts(v, d), ", "@)
    }
}

/// What stands for "no limit" before an `OFFSET` where the dialect wants a `LIMIT` there.
pub open spec fn no_limit_text(d: DBEngine) -> Seq<char> {
    match d {
        DBEngine::Mysql => " LIMIT 18446744073709551615"@,
        DBEngine::Postgres => Seq::empty(),
        DBEngine::Sqlite => " LIMIT -1"@,
    }
}

/// The `LIMIT` clause. Without a limit but with an offset it is what the dialect wants
/// before `OFFSET`.
pub open spec fn limit_text(limit: Option<u64>, offset: Option<u64>, d: DBEngine) -> Seq<char> {
    match limit {
        Some(n) => " LIMIT "@ + nat_text(n as nat),
        None => if offset is Some {
            no_limit_text(d)
        } else {
            Seq::empty()
        },
    }
}

/// The `OFFSET` clause: nothing without an offset.
pub open spec fn offset_text(offset: Option<u64>) -> Seq<char> {
    match offset {
        Some(n) => " OFFSET "@ + nat_text(n as nat),
        None => Seq::empty(),
    }
}

/// The tables of a locking clause after `OF`, or nothing.
pub open spec fn lock_tables_text(tables: Seq<Seq<char>>, d: DBEngine) -> Seq<char> {
    if tables.len() == 0 {
        Seq::empty()
    } else {
        " OF "@ + joined(ident_texts(tables, d), ", "@)
    }
}

/// The behaviour of a locking clause after a space, or nothing.
pub open spec fn lock_behavior_text(b: Option<LockBehavior>) -> Seq<char> {
    match b {
        Some(b) => " "@ + b.keyword_spec(),
        None => Seq::empty(),
    }
}

/// The locking clause: `FOR`, the strength, the tables, the behaviour.
pub open spec fn lock_text(o: Option<LockModel>, d: DBEngine) -> Seq<char> {
    match o {
        Some(l) => " FOR "@ + l.kind.keyword_spec() + lock_tables_text(l.tables, d)
            + lock_behavior_text(l.behavior),
        None => Seq::empty(),
    }
}

/// The keyword for distinct rows, with the space after it, or nothing.
pub open spec fn distinct_text(distinct: bool) -> Seq<char> {
    if distinct {
        "DISTINCT "@
    } else {
        Seq::empty()
    }
}

/// The SQL text of a `SELECT` statement: its clauses in the one fixed order, whatever the
/// order in which they were added.
pub open spec fn select_text(s: SelectModel, d: DBEngine) -> Seq<char>
    decreases s,
{
    "SELECT "@ + distinct_text(s.distinct) + joined(projection_texts(s.projection, d), ", "@)
        + from_text(s.from, d) + joins_text(s.joins, d) + filter_text(" WHERE "@, s.wheres, d)
        + group_by_text(s.group_by, d) + filter_text(" HAVING "@, s.having, d) + unions_text(
        s.unions,
        d,
    ) + order_by_text(s.order_by, d) + limit_text(s.limit, s.offset, d) + offset_text(s.offset)
        + lock_text(s.lock, d)
}

/// The quoted names in parentheses after a space, or nothing if there are none.
pub open spec fn name_list_text(names: Seq<Seq<char>>, d: DBEngine) -> Seq<char> {
    if names.len() == 0 {
        Seq::empty()
    } else {
        " ("@ + joined(ident_texts(names, d), ", "@) + ")"@
    }
}

/// One row of values, in parentheses.
pub open spec fn row_text(row: Seq<ValueModel>, d: DBEngine) -> Seq<char> {
    "("@ + joined(value_texts(row, d), ", "@) + ")"@
}

/// The texts of rows, in order.
pub open spec fn row_texts(rows: Seq<Seq<ValueModel>>, d: DBEngine) -> Seq<Seq<char>> {
    Seq::new(rows.len(), |i: int| row_text(rows[i], d))
}

/// The rows of an `INSERT`: `VALUES` and the rows, or the statement to read from.
pub open spec fn insert_source_text(s: InsertSourceModel, d: DBEngine) -> Seq<char> {
    match s {
        InsertSourceModel::Nothing => Seq::empty(),
        InsertSourceModel::Values(rows) => " VALUES "@ + joined(row_texts(rows, d), ", "@),
        InsertSourceModel::Select(query) => " "@ + select_text(query, d),
    }
}

/// The conflict clause: `ON CONFLICT`, the columns if any, `DO NOTHING`.
pub open spec fn on_conflict_text(o: Option<OnConflictModel>, d: DBEngine) -> Seq<char> {
    match o {
        Some(c) => " ON CONFLICT"@ + name_list_text(c.columns, d) + " DO NOTHING"@,
        None => Seq::empty(),
    }
}

/// The returning clause: `RETURNING` and `*` or the quoted columns.
pub open spec fn returning_text(o: Option<ReturningModel>, d: DBEngine) -> Seq<char> {
    match o {
        Some(ReturningModel::All) => " RETURNING *"@,
        Some(ReturningModel::Columns(names)) => " RETURNING "@ + joined(
            ident_texts(names, d),
            ", "@,
        ),
        None => Seq::empty(),
    }
}

/// The quoted name of the table, or nothing if none was given.
pub open spec fn table_name_text(o: Option<Seq<char>>, d: DBEngine) -> Seq<char> {
    match o {
        Some(name) => ident_text(name, d),
        None => Seq::empty(),
    }
}

/// The SQL text of an `INSERT` statement.
pub open spec fn insert_text(m: InsertModel, d: DBEngine) -> Seq<char> {
    "INSERT INTO "@ + table_name_text(m.table, d) + name_list_text(m.columns, d)
        + insert_source_text(m.source, d) + on_conflict_text(m.on_conflict, d) + returning_text(
        m.returning,
        d,
    )
}

/// One assignment: quoted column, `=`, value.
pub open spec fn assignment_text(a: AssignmentModel, d: DBEngine) -> Seq<char> {
    ident_text(a.column, d) + " = "@ + value_text(a.value, d)
}

/// The texts of assignments, in order.
pub open spec fn assignment_texts(v: Seq<AssignmentModel>, d: DBEngine) -> Seq<Seq<char>> {
    Seq::new(v.len(), |i: int| assignment_text(v[i], d))
}

/// The SQL text of an `UPDATE` statement.
pub open spec fn update_text(m: UpdateModel, d: DBEngine) -> Seq<char> {
    "UPDATE "@ + table_name_text(m.table, d) + " SET "@ + joined(
        assignment_texts(m.assignments, d),
        ", "@,
    ) + filter_text(" WHERE "@, m.wheres, d) + returning_text(m.returning, d)
}

/// The SQL text of a `DELETE` statement.
pub open spec fn delete_text(m: DeleteModel, d: DBEngine) -> Seq<char> {
    "DELETE FROM "@ + table_name_text(m.table, d) + filter_text(" WHERE "@, m.wheres, d)
        + returning_text(m.returning, d)
}

} // verus!
