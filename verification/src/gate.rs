//! Feature gating: what keeps a statement from being rendered for a dialect.
//!
//! A statement either renders completely for a dialect or not at all. The functions here
//! find the first reason why it cannot: a clause the dialect does not have, or a
//! `SELECT` without a projection. Nested statements are searched too.

use vstd::prelude::*;
use crate::expr::{Condition, ConditionExpression, SimpleExpr, children_model};
use crate::model::{
    ConditionExpressionModel, DeleteModel, InsertModel, InsertSourceModel, JoinKind, JoinModel,
    LockModel, OnConflictModel, ProjectionModel, ReturningModel, SelectModel, SimpleExprModel,
    SourceModel, UnionModel, UpdateModel,
};
use crate::query::{
    Join, LockClause, Projection, SelectStatement, Source, UnionClause, joins_model, opt_lock_model,
    opt_source_model, projections_model, unions_model,
};
use crate::types::{Clause, DBEngine, LockType, SqlError};

verus! {

/// The first problem in a list, if any.
pub open spec fn first_some(s: Seq<Option<SqlError>>) -> Option<SqlError>
    decreases s.len(),
{
    if s.len() == 0 {
        None
    } else {
        match first_some(s.drop_last()) {
            Some(e) => Some(e),
            None => s.last(),
        }
    }
}

/// The first of two possible problems.
pub open spec fn or_else(a: Option<SqlError>, b: Option<SqlError>) -> Option<SqlError> {
    match a {
        Some(e) => Some(e),
        None => b,
    }
}

/// A problem found among the first items of a list is the problem of the whole list.
pub proof fn lemma_first_some_prefix(s: Seq<Option<SqlError>>, k: int)
    requires
        0 <= k <= s.len(),
        first_some(s.take(k)) is Some,
    ensures
        first_some(s) == first_some(s.take(k)),
    decreases s.len() - k,
{
    if k < s.len() {
        assert(s.take(k + 1).drop_last() =~= s.take(k));
        lemma_first_some_prefix(s, k + 1);
    } else {
        assert(s.take(k) =~= s);
    }
}

/// One more item, after a list without a problem.
pub proof fn lemma_first_some_step(s: Seq<Option<SqlError>>, i: int)
    requires
        0 <= i < s.len(),
        first_some(s.take(i)) is None,
    ensures
        first_some(s.take(i + 1)) == s[i],
{
    assert(s.take(i + 1).drop_last() =~= s.take(i));
}

/// What keeps a join of this kind from the dialect: PostgreSQL takes no condition after
/// `CROSS JOIN`, and MySQL has no `FULL OUTER JOIN`.
pub open spec fn join_kind_problem(kind: JoinKind, d: DBEngine) -> Option<SqlError> {
    if kind == JoinKind::Cross && d == DBEngine::Postgres {
        Some(SqlError::UnsupportedFeature { dialect: d, clause: Clause::CrossJoin })
    } else if kind == JoinKind::FullOuter && d == DBEngine::Mysql {
        Some(SqlError::UnsupportedFeature { dialect: d, clause: Clause::FullOuterJoin })
    } else {
        None
    }
}

/// What keeps a locking clause from the dialect: SQLite has no row locks, and MySQL
/// has only `FOR UPDATE` and `FOR SHARE`.
pub open spec fn lock_problem(o: Option<LockModel>, d: DBEngine) -> Option<SqlError> {
    match o {
        None => None,
        Some(l) => if d == DBEngine::Sqlite || (d == DBEngine::Mysql && (l.kind
            == LockType::NoKeyUpdate || l.kind == LockType::KeyShare)) {
            Some(SqlError::UnsupportedFeature { dialect: d, clause: Clause::Lock })
        } else {
            None
        },
    }
}

/// The first problem of an expression: that of the first statement inside it that has one.
pub open spec fn expr_problem(e: SimpleExprModel, d: DBEngine) -> Option<SqlError>
    decreases e, 0nat,
{
    match e {
        SimpleExprModel::Column(_) => None,
        SimpleExprModel::Value(_) => None,
        SimpleExprModel::Binary { left, right, .. } => or_else(
            expr_problem(*left, d),
            expr_problem(*right, d),
        ),
        SimpleExprModel::Not(inner) => expr_problem(*inner, d),
        SimpleExprModel::IsNull { expr, .. } => expr_problem(*expr, d),
        SimpleExprModel::InList { expr, .. } => expr_problem(*expr, d),
        SimpleExprModel::Between { expr, .. } => expr_problem(*expr, d),
        SimpleExprModel::Call { arg, .. } => expr_problem(*arg, d),
        SimpleExprModel::IfNull { expr, .. } => expr_problem(*expr, d),
        SimpleExprModel::Exists(query) => select_problem(*query, d),
    }
}

/// The first problem of a child of a condition.
pub open spec fn child_problem(c: ConditionExpressionModel, d: DBEngine) -> Option<SqlError>
    decreases c, 0nat,
{
    match c {
        ConditionExpressionModel::Condition(inner) => children_problem(inner.children, d),
        ConditionExpressionModel::SimpleExpr(e) => expr_problem(e, d),
    }
}

/// The problems of the children of a condition, in order.
pub open spec fn child_problems(v: Seq<ConditionExpressionModel>, d: DBEngine) -> Seq<
    Option<SqlError>,
>
    decreases v, 0nat,
{
    Seq::new(
        v.len(),
        |i: int|
            if 0 <= i < v.len() {
                child_problem(v[i], d)
            } else {
                None
            },
    )
}

/// The first problem among the children of a condition.
pub open spec fn children_problem(v: Seq<ConditionExpressionModel>, d: DBEngine) -> Option<
    SqlError,
>
    decreases v, 1nat,
{
    first_some(child_problems(v, d))
}

/// The first problem of a projection item.
pub open spec fn projection_problem(p: ProjectionModel, d: DBEngine) -> Option<SqlError>
    decreases p, 0nat,
{
    match p {
        ProjectionModel::Expr { expr, .. } => expr_problem(expr, d),
        _ => None,
    }
}

/// The problems of the projection items, in order.
pub open spec fn projection_problems(v: Seq<ProjectionModel>, d: DBEngine) -> Seq<
    Option<SqlError>,
>
    decreases v, 0nat,
{
    Seq::new(
        v.len(),
        |i: int|
            if 0 <= i < v.len() {
                projection_problem(v[i], d)
            } else {
                None
            },
    )
}

/// The first problem of a source: that of the statement it reads from, if it is one.
pub open spec fn source_problem(o: Option<SourceModel>, d: DBEngine) -> Option<SqlError>
    decreases o, 0nat,
{
    match o {
        Some(SourceModel::Subquery { query, .. }) => select_problem(*query, d),
        _ => None,
    }
}

/// The first problem of a join: its kind, then its condition.
pub open spec fn join_problem(j: JoinModel, d: DBEngine) -> Option<SqlError>
    decreases j, 0nat,
{
    or_else(join_kind_problem(j.kind, d), child_problem(j.on, d))
}

/// The problems of the joins, in order.
pub open spec fn join_problems(v: Seq<JoinModel>, d: DBEngine) -> Seq<Option<SqlError>>
    decreases v, 0nat,
{
    Seq::new(
        v.len(),
        |i: int|
            if 0 <= i < v.len() {
                join_problem(v[i], d)
            } else {
                None
            },
    )
}

/// The problems of the statements combined by set operations, in order.
pub open spec fn union_problems(v: Seq<UnionModel>, d: DBEngine) -> Seq<Option<SqlError>>
    decreases v, 0nat,
{
    Seq::new(
        v.len(),
        |i: int|
            if 0 <= i < v.len() {
                select_problem(v[i].query, d)
            } else {
                None
            },
    )
}

/// The first reason why a `SELECT` statement cannot be rendered for the dialect, or
/// `None` if it can. A statement without a projection is in an invalid state; after
/// that the parts are searched in the order projection, source, joins, filter, group
/// filter, set operations, lock.
pub open spec fn select_problem(s: SelectModel, d: DBEngine) -> Option<SqlError>
    decreases s, 0nat,
{
    if s.projection.len() == 0 {
        Some(SqlError::InvalidState)
    } else {
        or_else(
            first_some(projection_problems(s.projection, d)),
            or_else(
                source_problem(s.from, d),
                or_else(
                    first_some(join_problems(s.joins, d)),
                    or_else(
                        children_problem(s.wheres, d),
                        or_else(
                            children_problem(s.having, d),
                            or_else(
                                first_some(union_problems(s.unions, d)),
                                lock_problem(s.lock, d),
                            ),
                        ),
                    ),
                ),
            ),
        )
    }
}

/// What keeps the source of an `INSERT` from being rendered: none was given, literal
/// rows were given without columns, or the statement to read from has a problem.
pub open spec fn insert_source_problem(m: InsertModel, d: DBEngine) -> Option<SqlError> {
    match m.source {
        InsertSourceModel::Nothing => Some(SqlError::InvalidState),
        InsertSourceModel::Values(_) => if m.columns.len() == 0 {
            Some(SqlError::InvalidState)
        } else {
            None
        },
        InsertSourceModel::Select(query) => select_problem(query, d),
    }
}

/// MySQL has no `ON CONFLICT`.
pub open spec fn on_conflict_problem(o: Option<OnConflictModel>, d: DBEngine) -> Option<SqlError> {
    if o is Some && d == DBEngine::Mysql {
        Some(SqlError::UnsupportedFeature { dialect: d, clause: Clause::OnConflict })
    } else {
        None
    }
}

/// MySQL has no `RETURNING`.
pub open spec fn returning_problem(o: Option<ReturningModel>, d: DBEngine) -> Option<SqlError> {
    if o is Some && d == DBEngine::Mysql {
        Some(SqlError::UnsupportedFeature { dialect: d, clause: Clause::Returning })
    } else {
        None
    }
}

/// The first reason why an `INSERT` statement cannot be rendered for the dialect, or
/// `None` if it can. A statement without a table is in an invalid state; after that the
/// parts are searched in the order source, conflict clause, returning clause.
pub open spec fn insert_problem(m: InsertModel, d: DBEngine) -> Option<SqlError> {
    if m.table is None {
        Some(SqlError::InvalidState)
    } else {
        or_else(
            insert_source_problem(m, d),
            or_else(on_conflict_problem(m.on_conflict, d), returning_problem(m.returning, d)),
        )
    }
}

/// The first reason why an `UPDATE` statement cannot be rendered for the dialect, or
/// `None` if it can. A statement without a table or without an assignment is in an
/// invalid state; after that the filter and the returning clause are searched.
pub open spec fn update_problem(m: UpdateModel, d: DBEngine) -> Option<SqlError> {
    if m.table is None || m.assignments.len() == 0 {
        Some(SqlError::InvalidState)
    } else {
        or_else(children_problem(m.wheres, d), returning_problem(m.returning, d))
    }
}

/// The first reason why a `DELETE` statement cannot be rendered for the dialect, or
/// `None` if it can. A statement without a table is in an invalid state; after that the
/// filter and the returning clause are searched.
pub open spec fn delete_problem(m: DeleteModel, d: DBEngine) -> Option<SqlError> {
    if m.table is None {
        Some(SqlError::InvalidState)
    } else {
        or_else(children_problem(m.wheres, d), returning_problem(m.returning, d))
    }
}

/// The error for a clause that is present and that the dialect refuses.
pub fn check_unsupported(present: bool, refused: bool, d: DBEngine, clause: Clause) -> (r: Option<
    SqlError,
>)
    ensures
        r == if present && refused {
            Some(SqlError::UnsupportedFeature { dialect: d, clause })
        } else {
            None
        },
{
    if present && refused {
        Some(SqlError::UnsupportedFeature { dialect: d, clause })
    } else {
        None
    }
}

/// Whether the dialect is MySQL.
pub fn is_mysql(d: DBEngine) -> (r: bool)
    ensures
        r == (d == DBEngine::Mysql),
{
    match d {
        DBEngine::Mysql => true,
        _ => false,
    }
}

/// Finds what keeps a join of this kind from the dialect.
pub fn check_join_kind(kind: JoinKind, d: DBEngine) -> (r: Option<SqlError>)
    ensures
        r == join_kind_problem(kind, d),
{
    match (kind, d) {
        (JoinKind::Cross, DBEngine::Postgres) => Some(
            SqlError::UnsupportedFeature { dialect: d, clause: Clause::CrossJoin },
        ),
        (JoinKind::FullOuter, DBEngine::Mysql) => Some(
            SqlError::UnsupportedFeature { dialect: d, clause: Clause::FullOuterJoin },
        ),
        _ => None,
    }
}

/// Finds what keeps a locking clause from the dialect.
pub fn check_lock(o: &Option<LockClause>, d: DBEngine) -> (r: Option<SqlError>)
    ensures
        r == lock_problem(opt_lock_model(*o), d),
{
    match o {
        None => None,
        Some(l) => {
            let refused = match d {
                DBEngine::Sqlite => true,
                DBEngine::Mysql => match l.kind {
                    LockType::NoKeyUpdate => true,
                    LockType::KeyShare => true,
                    _ => false,
                },
                DBEngine::Postgres => false,
            };
            if refused {
                Some(SqlError::UnsupportedFeature { dialect: d, clause: Clause::Lock })
            } else {
                None
            }
        },
    }
}

/// Searches an expression.
pub fn check_expr(e: &SimpleExpr, d: DBEngine) -> (r: Option<SqlError>)
    ensures
        r == expr_problem(e@, d),
    decreases e, 0nat,
{
    match e {
        SimpleExpr::Column(_) => None,
        SimpleExpr::Value(_) => None,
        SimpleExpr::Binary { left, right, .. } => {
            match check_expr(left, d) {
                Some(p) => Some(p),
                None => check_expr(right, d),
            }
        },
        SimpleExpr::Not(inner) => check_expr(inner, d),
        SimpleExpr::IsNull { expr, .. } => check_expr(expr, d),
        SimpleExpr::InList { expr, .. } => check_expr(expr, d),
        SimpleExpr::Between { expr, .. } => check_expr(expr, d),
        SimpleExpr::Call { arg, .. } => check_expr(arg, d),
        SimpleExpr::IfNull { expr, .. } => check_expr(expr, d),
        SimpleExpr::Exists(query) => check_select(query, d),
    }
}

/// Searches a child of a condition.
pub fn check_child(c: &ConditionExpression, d: DBEngine) -> (r: Option<SqlError>)
    ensures
        r == child_problem(c@, d),
    decreases c, 0nat,
{
    match c {
        ConditionExpression::Condition(inner) => check_children(&inner.children, d),
        ConditionExpression::SimpleExpr(e) => check_expr(e, d),
    }
}

/// Searches the children of a condition, in order.
pub fn check_children(v: &Vec<ConditionExpression>, d: DBEngine) -> (r: Option<SqlError>)
    ensures
        r == children_problem(children_model(v@), d),
    decreases v, 0nat,
{
    let ghost problems = child_problems(children_model(v@), d);
    let mut i: usize = 0;
    while i < v.len()
        invariant
            i <= v.len(),
            problems == child_problems(children_model(v@), d),
            first_some(problems.take(i as int)) is None,
        decreases v.len() - i,
    {
        let found = check_child(&v[i], d);
        proof {
            lemma_first_some_step(problems, i as int);
        }
        if found.is_some() {
            proof {
                lemma_first_some_prefix(problems, i as int + 1);
            }
            return found;
        }
        i += 1;
    }
    assert(problems.take(v.len() as int) =~= problems);
    None
}

/// Searches the projection items, in order.
pub fn check_projections(v: &Vec<Projection>, d: DBEngine) -> (r: Option<SqlError>)
    ensures
        r == first_some(projection_problems(projections_model(v@), d)),
    decreases v, 0nat,
{
    let ghost problems = projection_problems(projections_model(v@), d);
    let mut i: usize = 0;
    while i < v.len()
        invariant
            i <= v.len(),
            problems == projection_problems(projections_model(v@), d),
            first_some(problems.take(i as int)) is None,
        decreases v.len() - i,
    {
        let found = match &v[i] {
            Projection::Expr { expr, .. } => check_expr(expr, d),
            _ => None,
        };
        proof {
            lemma_first_some_step(problems, i as int);
        }
        if found.is_some() {
            proof {
                lemma_first_some_prefix(problems, i as int + 1);
            }
            return found;
        }
        i += 1;
    }
    assert(problems.take(v.len() as int) =~= problems);
    None
}

/// Searches a source.
pub fn check_source(o: &Option<Source>, d: DBEngine) -> (r: Option<SqlError>)
    ensures
        r == source_problem(opt_source_model(*o), d),
    decreases o, 0nat,
{
    match o {
        Some(Source::Subquery { query, .. }) => check_select(query, d),
        _ => None,
    }
}

/// Searches the joins, in order.
pub fn check_joins(v: &Vec<Join>, d: DBEngine) -> (r: Option<SqlError>)
    ensures
        r == first_some(join_problems(joins_model(v@), d)),
    decreases v, 0nat,
{
    let ghost problems = join_problems(joins_model(v@), d);
    let mut i: usize = 0;
    while i < v.len()
        invariant
            i <= v.len(),
            problems == join_problems(joins_model(v@), d),
            first_some(problems.take(i as int)) is None,
        decreases v.len() - i,
    {
        let found = match check_join_kind(v[i].kind, d) {
            Some(p) => Some(p),
            None => check_child(&v[i].on, d),
        };
        proof {
            lemma_first_some_step(problems, i as int);
        }
        if found.is_some() {
            proof {
                lemma_first_some_prefix(problems, i as int + 1);
            }
            return found;
        }
        i += 1;
    }
    assert(problems.take(v.len() as int) =~= problems);
    None
}

/// Searches the statements combined by set operations, in order.
pub fn check_unions(v: &Vec<UnionClause>, d: DBEngine) -> (r: Option<SqlError>)
    ensures
        r == first_some(union_problems(unions_model(v@), d)),
    decreases v, 0nat,
{
    let ghost problems = union_problems(unions_model(v@), d);
    let mut i: usize = 0;
    while i < v.len()
        invariant
            i <= v.len(),
            problems == union_problems(unions_model(v@), d),
            first_some(problems.take(i as int)) is None,
        decreases v.len() - i,
    {
        let found = check_select(&v[i].query, d);
        proof {
            lemma_first_some_step(problems, i as int);
        }
        if found.is_some() {
            proof {
                lemma_first_some_prefix(problems, i as int + 1);
            }
            return found;
        }
        i += 1;
    }
    assert(problems.take(v.len() as int) =~= problems);
    None
}

/// Searches a `SELECT` statement.
pub fn check_select(s: &SelectStatement, d: DBEngine) -> (r: Option<SqlError>)
    ensures
        r == select_problem(s@, d),
    decreases s, 0nat,
{
    if s.projection.len() == 0 {
        return Some(SqlError::InvalidState);
    }
    let found = check_projections(&s.projection, d);
    if found.is_some() {
        return found;
    }
    let found = check_source(&s.from, d);
    if found.is_some() {
        return found;
    }
    let found = check_joins(&s.joins, d);
    if found.is_some() {
        return found;
    }
    let found = check_children(&s.wheres, d);
    if found.is_some() {
        return found;
    }
    let found = check_children(&s.having, d);
    if found.is_some() {
        return found;
    }
    let found = check_unions(&s.unions, d);
    if found.is_some() {
        return found;
    }
    check_lock(&s.lock, d)
}

} // verus!
