//! The executable renderers: each writes the text that `render` specifies.

use vstd::prelude::*;
use crate::expr::{
    ColumnRef, Condition, ConditionExpression, OnConflict, SimpleExpr, children_model,
};
use crate::model::{Aggregate, BinaryOp, ConditionKind, JoinKind};
use crate::query::{
    Assignment, Join, LockClause, OrderClause, Projection, Returning, SelectStatement, Source,
    UnionClause, assignments_model, column_refs_model, joins_model, opt_on_conflict_model,
    opt_returning_model, orders_model, projections_model, rows_model, unions_model,
};
use crate::render::{
    assignment_texts, bool_text, call_open_text, child_text, children_texts, column_text,
    column_texts, condition_text, expr_text, filter_text, from_text, group_by_text,
    if_null_open_text, is_atom, is_logical, join_keyword_text, join_text, join_texts, joins_text,
    limit_text, lock_text, name_list_text, offset_text, on_conflict_text, on_text, op_text,
    operand_needs_parens, order_by_text, order_text, order_texts, projection_text, projection_texts,
    returning_text, row_text, row_texts, select_text, source_text, table_name_text, union_text,
    union_texts, unions_text, value_text, value_texts, wrap,
};
use crate::text::{
    append_part, joined, string_views, write_i64, write_ident, write_ident_list,
    write_string_literal, write_u64,
};
use crate::types::{DBEngine, NullsOrder, PyValue, value_models};

verus! {

/// Writes a boolean literal.
pub fn write_bool(b: bool, d: DBEngine) -> (r: &'static str)
    ensures
        r@ == bool_text(b, d),
{
    match d {
        DBEngine::Sqlite => if b {
            "1"
        } else {
            "0"
        },
        _ => if b {
            "TRUE"
        } else {
            "FALSE"
        },
    }
}

/// Writes a literal value.
pub fn write_value(v: &PyValue, d: DBEngine) -> (r: String)
    ensures
        r@ == value_text(v@, d),
{
    match v {
        PyValue::Bool(b) => write_bool(*b, d).to_owned(),
        PyValue::Float(f) => f.as_str().to_owned(),
        PyValue::Int(i) => write_i64(*i),
        PyValue::String(s) => write_string_literal(s.as_str(), d),
        PyValue::Null => "NULL".to_owned(),
    }
}

/// Writes values, separated by a comma and a space.
pub fn write_values(v: &Vec<PyValue>, d: DBEngine) -> (r: String)
    ensures
        r@ == joined(value_texts(value_models(v@), d), ", "@),
{
    let ghost parts = value_texts(value_models(v@), d);
    let mut out = String::new();
    let mut i: usize = 0;
    while i < v.len()
        invariant
            i <= v.len(),
            parts == value_texts(value_models(v@), d),
            out@ == joined(parts.take(i as int), ", "@),
        decreases v.len() - i,
    {
        let part = write_value(&v[i], d);
        append_part(&mut out, i, ", ", part.as_str(), Ghost(parts));
        i += 1;
    }
    assert(parts.take(v.len() as int) =~= parts);
    out
}

/// Writes a column reference.
pub fn write_column(c: &ColumnRef, d: DBEngine) -> (r: String)
    ensures
        r@ == column_text(c@, d),
{
    match &c.table {
        Some(t) => {
            let mut out = write_ident(t.as_str(), d);
            out.append(".");
            let name = write_ident(c.name.as_str(), d);
            out.append(name.as_str());
            out
        },
        None => write_ident(c.name.as_str(), d),
    }
}

/// Writes column references, separated by a comma and a space.
pub fn write_columns(v: &Vec<ColumnRef>, d: DBEngine) -> (r: String)
    ensures
        r@ == joined(column_texts(column_refs_model(v@), d), ", "@),
{
    let ghost parts = column_texts(column_refs_model(v@), d);
    let mut out = String::new();
    let mut i: usize = 0;
    while i < v.len()
        invariant
            i <= v.len(),
            parts == column_texts(column_refs_model(v@), d),
            out@ == joined(parts.take(i as int), ", "@),
        decreases v.len() - i,
    {
        let part = write_column(&v[i], d);
        append_part(&mut out, i, ", ", part.as_str(), Ghost(parts));
        i += 1;
    }
    assert(parts.take(v.len() as int) =~= parts);
    out
}

/// Puts the text in parentheses if they are needed.
pub fn write_wrapped(text: String, needed: bool) -> (r: String)
    ensures
        r@ == wrap(text@, needed),
{
    if needed {
        let mut out = "(".to_owned();
        out.append(text.as_str());
        out.append(")");
        out
    } else {
        text
    }
}

/// The symbol or keyword of a binary operator.
pub fn op_str(op: BinaryOp) -> (r: &'static str)
    ensures
        r@ == op_text(op),
{
    match op {
        BinaryOp::Eq => "=",
        BinaryOp::Ne => "<>",
        BinaryOp::Gt => ">",
        BinaryOp::Gte => ">=",
        BinaryOp::Lt => "<",
        BinaryOp::Lte => "<=",
        BinaryOp::Is => "IS",
        BinaryOp::IsNot => "IS NOT",
        BinaryOp::Like => "LIKE",
        BinaryOp::NotLike => "NOT LIKE",
        BinaryOp::And => "AND",
        BinaryOp::Or => "OR",
    }
}

/// The name and opening parenthesis of an aggregate call.
pub fn call_open_str(f: Aggregate) -> (r: &'static str)
    ensures
        r@ == call_open_text(f),
{
    match f {
        Aggregate::Max => "MAX(",
        Aggregate::Min => "MIN(",
        Aggregate::Sum => "SUM(",
        Aggregate::Count => "COUNT(",
        Aggregate::CountDistinct => "COUNT(DISTINCT ",
    }
}

/// The name and opening parenthesis of the null-fallback function.
pub fn if_null_open_str(d: DBEngine) -> (r: &'static str)
    ensures
        r@ == if_null_open_text(d),
{
    match d {
        DBEngine::Postgres => "COALESCE(",
        _ => "IFNULL(",
    }
}

/// Whether the expression is a column, a value or a call.
pub fn expr_is_atom(e: &SimpleExpr) -> (r: bool)
    ensures
        r == is_atom(e@),
{
    match e {
        SimpleExpr::Column(_) => true,
        SimpleExpr::Value(_) => true,
        SimpleExpr::Call { .. } => true,
        SimpleExpr::IfNull { .. } => true,
        SimpleExpr::Exists(_) => true,
        _ => false,
    }
}

/// Whether the top operator of the expression is `AND`, `OR` or `NOT`.
pub fn expr_is_logical(e: &SimpleExpr) -> (r: bool)
    ensures
        r == is_logical(e@),
{
    match e {
        SimpleExpr::Not(_) => true,
        SimpleExpr::Binary { op, .. } => match op {
            BinaryOp::And => true,
            BinaryOp::Or => true,
            _ => false,
        },
        _ => false,
    }
}

/// Whether an operand of the operator is written in parentheses.
pub fn operand_parens(e: &SimpleExpr, op: BinaryOp) -> (r: bool)
    ensures
        r == operand_needs_parens(e@, op),
{
    match op {
        BinaryOp::And => expr_is_logical(e),
        BinaryOp::Or => expr_is_logical(e),
        _ => !expr_is_atom(e),
    }
}

/// Writes an expression.
pub fn write_expr(e: &SimpleExpr, d: DBEngine) -> (r: String)
    ensures
        r@ == expr_text(e@, d),
    decreases e, 0nat,
{
    match e {
        SimpleExpr::Column(c) => write_column(c, d),
        SimpleExpr::Value(v) => write_value(v, d),
        SimpleExpr::Binary { op, left, right } => {
            let mut out = write_wrapped(write_expr(left, d), operand_parens(left, *op));
            out.append(" ");
            out.append(op_str(*op));
            out.append(" ");
            let rhs = write_wrapped(write_expr(right, d), operand_parens(right, *op));
            out.append(rhs.as_str());
            out
        },
        SimpleExpr::Not(inner) => {
            let mut out = "NOT ".to_owned();
            let operand = write_wrapped(write_expr(inner, d), !expr_is_atom(inner));
            out.append(operand.as_str());
            out
        },
        SimpleExpr::IsNull { expr, negated } => {
            let mut out = write_wrapped(write_expr(expr, d), !expr_is_atom(expr));
            if *negated {
                out.append(" IS NOT NULL");
            } else {
                out.append(" IS NULL");
            }
            out
        },
        SimpleExpr::InList { expr, list, negated } => {
            let mut out = write_wrapped(write_expr(expr, d), !expr_is_atom(expr));
            if *negated {
                out.append(" NOT IN (");
            } else {
                out.append(" IN (");
            }
            let items = write_values(list, d);
            out.append(items.as_str());
            out.append(")");
            out
        },
        SimpleExpr::Between { expr, low, high, negated } => {
            let mut out = write_wrapped(write_expr(expr, d), !expr_is_atom(expr));
            if *negated {
                out.append(" NOT BETWEEN ");
            } else {
                out.append(" BETWEEN ");
            }
            let low_text = write_value(low, d);
            out.append(low_text.as_str());
            out.append(" AND ");
            let high_text = write_value(high, d);
            out.append(high_text.as_str());
            out
        },
        SimpleExpr::Call { func, arg } => {
            let mut out = call_open_str(*func).to_owned();
            let inner = write_expr(arg, d);
            out.append(inner.as_str());
            out.append(")");
            out
        },
        SimpleExpr::IfNull { expr, fallback } => {
            let mut out = if_null_open_str(d).to_owned();
            let inner = write_expr(expr, d);
            out.append(inner.as_str());
            out.append(", ");
            let value = write_value(fallback, d);
            out.append(value.as_str());
            out.append(")");
            out
        },
        SimpleExpr::Exists(query) => {
            let mut out = "EXISTS(".to_owned();
            let inner = write_select(query, d);
            out.append(inner.as_str());
            out.append(")");
            out
        },
    }
}

/// Writes the children of a condition, separated by `sep`.
pub fn write_children(v: &Vec<ConditionExpression>, sep: &str, d: DBEngine) -> (r: String)
    ensures
        r@ == joined(children_texts(children_model(v@), d), sep@),
    decreases v, 0nat,
{
    let ghost parts = children_texts(children_model(v@), d);
    let mut out = String::new();
    let mut i: usize = 0;
    while i < v.len()
        invariant
            i <= v.len(),
            parts == children_texts(children_model(v@), d),
            out@ == joined(parts.take(i as int), sep@),
        decreases v.len() - i,
    {
        let part = write_child(&v[i], d);
        append_part(&mut out, i, sep, part.as_str(), Ghost(parts));
        i += 1;
    }
    assert(parts.take(v.len() as int) =~= parts);
    out
}

/// Writes a condition.
pub fn write_condition(c: &Condition, d: DBEngine) -> (r: String)
    ensures
        r@ == condition_text(c@, d),
    decreases c, 0nat,
{
    let body = if c.children.len() == 0 {
        match c.kind {
            ConditionKind::All => "1 = 1".to_owned(),
            ConditionKind::Any => "1 = 0".to_owned(),
        }
    } else if c.children.len() == 1 {
        write_on(&c.children[0], d)
    } else {
        match c.kind {
            ConditionKind::All => write_children(&c.children, " AND ", d),
            ConditionKind::Any => write_children(&c.children, " OR ", d),
        }
    };
    if c.negated {
        let mut out = "NOT (".to_owned();
        out.append(body.as_str());
        out.append(")");
        out
    } else {
        body
    }
}

/// Writes a child of a condition.
pub fn write_child(c: &ConditionExpression, d: DBEngine) -> (r: String)
    ensures
        r@ == child_text(c@, d),
    decreases c, 0nat,
{
    match c {
        ConditionExpression::Condition(inner) => if !inner.negated && inner.children.len() == 1 {
            write_child(&inner.children[0], d)
        } else {
            write_wrapped(write_condition(inner, d), true)
        },
        ConditionExpression::SimpleExpr(e) => write_wrapped(write_expr(e, d), expr_is_logical(e)),
    }
}

/// Writes a condition or expression that stands alone.
pub fn write_on(c: &ConditionExpression, d: DBEngine) -> (r: String)
    ensures
        r@ == on_text(c@, d),
    decreases c, 0nat,
{
    match c {
        ConditionExpression::Condition(inner) => write_condition(inner, d),
        ConditionExpression::SimpleExpr(e) => write_expr(e, d),
    }
}

/// Writes a filter clause: `keyword` and the conjuncts, or nothing.
pub fn write_filter(keyword: &str, v: &Vec<ConditionExpression>, d: DBEngine) -> (r: String)
    ensures
        r@ == filter_text(keyword@, children_model(v@), d),
    decreases v, 1nat,
{
    if v.len() == 0 {
        String::new()
    } else {
        let mut out = keyword.to_owned();
        let body = if v.len() == 1 {
            write_on(&v[0], d)
        } else {
            write_children(v, " AND ", d)
        };
        out.append(body.as_str());
        out
    }
}

/// Writes a projection item.
pub fn write_projection(p: &Projection, d: DBEngine) -> (r: String)
    ensures
        r@ == projection_text(p@, d),
    decreases p, 0nat,
{
    match p {
        Projection::All => "*".to_owned(),
        Projection::Column(c) => write_column(c, d),
        Projection::Expr { expr, alias } => match alias {
            Some(a) => {
                let mut out = write_expr(expr, d);
                out.append(" AS ");
                let name = write_ident(a.as_str(), d);
                out.append(name.as_str());
                out
            },
            None => write_expr(expr, d),
        },
    }
}

/// Writes projection items, separated by a comma and a space.
pub fn write_projections(v: &Vec<Projection>, d: DBEngine) -> (r: String)
    ensures
        r@ == joined(projection_texts(projections_model(v@), d), ", "@),
    decreases v, 0nat,
{
    let ghost parts = projection_texts(projections_model(v@), d);
    let mut out = String::new();
    let mut i: usize = 0;
    while i < v.len()
        invariant
            i <= v.len(),
            parts == projection_texts(projections_model(v@), d),
            out@ == joined(parts.take(i as int), ", "@),
        decreases v.len() - i,
    {
        let part = write_projection(&v[i], d);
        append_part(&mut out, i, ", ", part.as_str(), Ghost(parts));
        i += 1;
    }
    assert(parts.take(v.len() as int) =~= parts);
    out
}

/// Writes a source.
pub fn write_source(s: &Source, d: DBEngine) -> (r: String)
    ensures
        r@ == source_text(s@, d),
    decreases s, 0nat,
{
    match s {
        Source::Table(name) => write_ident(name.as_str(), d),
        Source::Subquery { query, alias } => {
            let mut out = "(".to_owned();
            let inner = write_select(query, d);
            out.append(inner.as_str());
            out.append(") AS ");
            let name = write_ident(alias.as_str(), d);
            out.append(name.as_str());
            out
        },
    }
}

/// Writes the `FROM` clause.
pub fn write_from(o: &Option<Source>, d: DBEngine) -> (r: String)
    ensures
        r@ == from_text(crate::query::opt_source_model(*o), d),
    decreases o, 0nat,
{
    match o {
        Some(s) => {
            let mut out = " FROM ".to_owned();
            let inner = write_source(s, d);
            out.append(inner.as_str());
            out
        },
        None => String::new(),
    }
}

/// The keywords of a join, with the space after them.
pub fn join_keyword_str(kind: JoinKind) -> (r: &'static str)
    ensures
        r@ == join_keyword_text(kind),
{
    match kind {
        JoinKind::Cross => "CROSS JOIN ",
        JoinKind::Left => "LEFT JOIN ",
        JoinKind::Right => "RIGHT JOIN ",
        JoinKind::Inner => "INNER JOIN ",
        JoinKind::FullOuter => "FULL OUTER JOIN ",
    }
}

/// Writes a join.
pub fn write_join(j: &Join, d: DBEngine) -> (r: String)
    ensures
        r@ == join_text(j@, d),
    decreases j, 0nat,
{
    let mut out = join_keyword_str(j.kind).to_owned();
    let table = write_ident(j.table.as_str(), d);
    out.append(table.as_str());
    out.append(" ON ");
    let on = write_on(&j.on, d);
    out.append(on.as_str());
    out
}

/// Writes the joins, each after a space.
pub fn write_joins(v: &Vec<Join>, d: DBEngine) -> (r: String)
    ensures
        r@ == joins_text(joins_model(v@), d),
    decreases v, 0nat,
{
    if v.len() == 0 {
        return String::new();
    }
    let ghost parts = join_texts(joins_model(v@), d);
    let mut body = String::new();
    let mut i: usize = 0;
    while i < v.len()
        invariant
            i <= v.len(),
            parts == join_texts(joins_model(v@), d),
            body@ == joined(parts.take(i as int), " "@),
        decreases v.len() - i,
    {
        let part = write_join(&v[i], d);
        append_part(&mut body, i, " ", part.as_str(), Ghost(parts));
        i += 1;
    }
    assert(parts.take(v.len() as int) =~= parts);
    let mut out = " ".to_owned();
    out.append(body.as_str());
    out
}

/// Writes a set operation.
pub fn write_union(u: &UnionClause, d: DBEngine) -> (r: String)
    ensures
        r@ == union_text(u@, d),
    decreases u, 0nat,
{
    let mut out = u.kind.keyword().to_owned();
    out.append(" ");
    let needed = match d {
        DBEngine::Sqlite => false,
        _ => true,
    };
    let query = write_wrapped(write_select(&u.query, d), needed);
    out.append(query.as_str());
    out
}

/// Writes the set operations, each after a space.
pub fn write_unions(v: &Vec<UnionClause>, d: DBEngine) -> (r: String)
    ensures
        r@ == unions_text(unions_model(v@), d),
    decreases v, 0nat,
{
    if v.len() == 0 {
        return String::new();
    }
    let ghost parts = union_texts(unions_model(v@), d);
    let mut body = String::new();
    let mut i: usize = 0;
    while i < v.len()
        invariant
            i <= v.len(),
            parts == union_texts(unions_model(v@), d),
            body@ == joined(parts.take(i as int), " "@),
        decreases v.len() - i,
    {
        let part = write_union(&v[i], d);
        append_part(&mut body, i, " ", part.as_str(), Ghost(parts));
        i += 1;
    }
    assert(parts.take(v.len() as int) =~= parts);
    let mut out = " ".to_owned();
    out.append(body.as_str());
    out
}

/// Writes the `GROUP BY` clause.
pub fn write_group_by(v: &Vec<ColumnRef>, d: DBEngine) -> (r: String)
    ensures
        r@ == group_by_text(column_refs_model(v@), d),
{
    if v.len() == 0 {
        String::new()
    } else {
        let mut out = " GROUP BY ".to_owned();
        let body = write_columns(v, d);
        out.append(body.as_str());
        out
    }
}

/// Writes one `ORDER BY` item.
pub fn write_order(o: &OrderClause, d: DBEngine) -> (r: String)
    ensures
        r@ == order_text(o@, d),
{
    let mut out = write_ident(o.column.as_str(), d);
    match o.nulls {
        None => {
            out.append(" ");
            out.append(o.order.keyword());
        },
        Some(nulls) => match d {
            DBEngine::Mysql => {
                match nulls {
                    NullsOrder::First => out.append(" IS NULL DESC, "),
                    NullsOrder::Last => out.append(" IS NULL ASC, "),
                }
                let again = write_ident(o.column.as_str(), d);
                out.append(again.as_str());
                out.append(" ");
                out.append(o.order.keyword());
            },
            _ => {
                out.append(" ");
                out.append(o.order.keyword());
                out.append(" ");
                out.append(nulls.keyword());
            },
        },
    }
    out
}

/// Writes the `ORDER BY` clause.
pub fn write_order_by(v: &Vec<OrderClause>, d: DBEngine) -> (r: String)
    ensures
        r@ == order_by_text(orders_model(v@), d),
{
    if v.len() == 0 {
        return String::new();
    }
    let ghost parts = order_texts(orders_model(v@), d);
    let mut body = String::new();
    let mut i: usize = 0;
    while i < v.len()
        invariant
            i <= v.len(),
            parts == order_texts(orders_model(v@), d),
            body@ == joined(parts.take(i as int), ", "@),
        decreases v.len() - i,
    {
        let part = write_order(&v[i], d);
        append_part(&mut body, i, ", ", part.as_str(), Ghost(parts));
        i += 1;
    }
    assert(parts.take(v.len() as int) =~= parts);
    let mut out = " ORDER BY ".to_owned();
    out.append(body.as_str());
    out
}

/// Writes the `LIMIT` clause.
pub fn write_limit(limit: Option<u64>, offset: Option<u64>, d: DBEngine) -> (r: String)
    ensures
        r@ == limit_text(limit, offset, d),
{
    match limit {
        Some(n) => {
            let mut out = " LIMIT ".to_owned();
            let number = write_u64(n);
            out.append(number.as_str());
            out
        },
        None => match offset {
            Some(_) => match d {
                DBEngine::Mysql => " LIMIT 18446744073709551615".to_owned(),
                DBEngine::Postgres => String::new(),
                DBEngine::Sqlite => " LIMIT -1".to_owned(),
            },
            None => String::new(),
        },
    }
}

/// Writes the `OFFSET` clause.
pub fn write_offset(offset: Option<u64>) -> (r: String)
    ensures
        r@ == offset_text(offset),
{
    match offset {
        Some(n) => {
            let mut out = " OFFSET ".to_owned();
            let number = write_u64(n);
            out.append(number.as_str());
            out
        },
        None => String::new(),
    }
}

/// Writes the locking clause.
pub fn write_lock(o: &Option<LockClause>, d: DBEngine) -> (r: String)
    ensures
        r@ == lock_text(crate::query::opt_lock_model(*o), d),
{
    match o {
        Some(l) => {
            let mut out = " FOR ".to_owned();
            out.append(l.kind.keyword());
            let tables = if l.tables.len() == 0 {
                String::new()
            } else {
                let mut t = " OF ".to_owned();
                let names = write_ident_list(&l.tables, d);
                t.append(names.as_str());
                t
            };
            out.append(tables.as_str());
            let behavior = match l.behavior {
                Some(b) => {
                    let mut t = " ".to_owned();
                    t.append(b.keyword());
                    t
                },
                None => String::new(),
            };
            out.append(behavior.as_str());
            out
        },
        None => String::new(),
    }
}

/// Writes a `SELECT` statement.
pub fn write_select(s: &SelectStatement, d: DBEngine) -> (r: String)
    ensures
        r@ == select_text(s@, d),
    decreases s, 0nat,
{
    let mut out = "SELECT ".to_owned();
    if s.distinct {
        out.append("DISTINCT ");
    }
    let projection = write_projections(&s.projection, d);
    out.append(projection.as_str());
    let from = write_from(&s.from, d);
    out.append(from.as_str());
    let joins = write_joins(&s.joins, d);
    out.append(joins.as_str());
    let wheres = write_filter(" WHERE ", &s.wheres, d);
    out.append(wheres.as_str());
    let group_by = write_group_by(&s.group_by, d);
    out.append(group_by.as_str());
    let having = write_filter(" HAVING ", &s.having, d);
    out.append(having.as_str());
    let unions = write_unions(&s.unions, d);
    out.append(unions.as_str());
    let order_by = write_order_by(&s.order_by, d);
    out.append(order_by.as_str());
    let limit = write_limit(s.limit, s.offset, d);
    out.append(limit.as_str());
    let offset = write_offset(s.offset);
    out.append(offset.as_str());
    let lock = write_lock(&s.lock, d);
    out.append(lock.as_str());
    out
}

/// Writes quoted names in parentheses after a space, or nothing.
pub fn write_name_list(names: &Vec<String>, d: DBEngine) -> (r: String)
    ensures
        r@ == name_list_text(string_views(names@), d),
{
    if names.len() == 0 {
        String::new()
    } else {
        let mut out = " (".to_owned();
        let body = write_ident_list(names, d);
        out.append(body.as_str());
        out.append(")");
        out
    }
}

/// Writes one row of values, in parentheses.
pub fn write_row(row: &Vec<PyValue>, d: DBEngine) -> (r: String)
    ensures
        r@ == row_text(value_models(row@), d),
{
    let mut out = "(".to_owned();
    let body = write_values(row, d);
    out.append(body.as_str());
    out.append(")");
    out
}

/// Writes rows, separated by a comma and a space.
pub fn write_rows(rows: &Vec<Vec<PyValue>>, d: DBEngine) -> (r: String)
    ensures
        r@ == joined(row_texts(rows_model(rows@), d), ", "@),
{
    let ghost parts = row_texts(rows_model(rows@), d);
    let mut out = String::new();
    let mut i: usize = 0;
    while i < rows.len()
        invariant
            i <= rows.len(),
            parts == row_texts(rows_model(rows@), d),
            out@ == joined(parts.take(i as int), ", "@),
        decreases rows.len() - i,
    {
        let part = write_row(&rows[i], d);
        append_part(&mut out, i, ", ", part.as_str(), Ghost(parts));
        i += 1;
    }
    assert(parts.take(rows.len() as int) =~= parts);
    out
}

/// Writes the conflict clause.
pub fn write_on_conflict(o: &Option<OnConflict>, d: DBEngine) -> (r: String)
    ensures
        r@ == on_conflict_text(opt_on_conflict_model(*o), d),
{
    match o {
        Some(c) => {
            let mut out = " ON CONFLICT".to_owned();
            let names = write_name_list(&c.columns, d);
            out.append(names.as_str());
            out.append(" DO NOTHING");
            out
        },
        None => String::new(),
    }
}

/// Writes the returning clause.
pub fn write_returning(o: &Option<Returning>, d: DBEngine) -> (r: String)
    ensures
        r@ == returning_text(opt_returning_model(*o), d),
{
    match o {
        Some(Returning::All) => " RETURNING *".to_owned(),
        Some(Returning::Columns(names)) => {
            let mut out = " RETURNING ".to_owned();
            let body = write_ident_list(names, d);
            out.append(body.as_str());
            out
        },
        None => String::new(),
    }
}

/// Writes the quoted name of the table, or nothing.
pub fn write_table_name(o: &Option<String>, d: DBEngine) -> (r: String)
    ensures
        r@ == table_name_text(crate::model::opt_text(*o), d),
{
    match o {
        Some(name) => write_ident(name.as_str(), d),
        None => String::new(),
    }
}

/// Writes assignments, separated by a comma and a space.
pub fn write_assignments(v: &Vec<Assignment>, d: DBEngine) -> (r: String)
    ensures
        r@ == joined(assignment_texts(assignments_model(v@), d), ", "@),
{
    let ghost parts = assignment_texts(assignments_model(v@), d);
    let mut out = String::new();
    let mut i: usize = 0;
    while i < v.len()
        invariant
            i <= v.len(),
            parts == assignment_texts(assignments_model(v@), d),
            out@ == joined(parts.take(i as int), ", "@),
        decreases v.len() - i,
    {
        let mut part = write_ident(v[i].column.as_str(), d);
        part.append(" = ");
        let value = write_value(&v[i].value, d);
        part.append(value.as_str());
        append_part(&mut out, i, ", ", part.as_str(), Ghost(parts));
        i += 1;
    }
    assert(parts.take(v.len() as int) =~= parts);
    out
}

} // verus!
