//! The mathematical models of expressions, conditions and `SELECT` statements.
//!
//! A model holds texts as sequences of characters and lists as sequences; it is what the
//! contracts of the builders and the rendering function speak of.

use vstd::prelude::*;
use crate::types::{LockBehavior, LockType, NullsOrder, OrderBy, SqlError, UnionType, ValueModel};

verus! {

/// A binary operator of an expression.
#[derive(Clone, Copy, Debug, PartialEq, Eq, Structural)]
pub enum BinaryOp {
    Eq,
    Ne,
    Gt,
    Gte,
    Lt,
    Lte,
    Is,
    IsNot,
    Like,
    NotLike,
    And,
    Or,
}

/// An aggregate function of one argument.
#[derive(Clone, Copy, Debug, PartialEq, Eq, Structural)]
pub enum Aggregate {
    Max,
    Min,
    Sum,
    Count,
    CountDistinct,
}

/// How the children of a condition are combined.
#[derive(Clone, Copy, Debug, PartialEq, Eq, Structural)]
pub enum ConditionKind {
    /// Conjunction: every child holds.
    All,
    /// Disjunction: some child holds.
    Any,
}

/// The kind of a join.
#[derive(Clone, Copy, Debug, PartialEq, Eq, Structural)]
pub enum JoinKind {
    Cross,
    Left,
    Right,
    Inner,
    FullOuter,
}

/// A column, optionally qualified by a table name.
pub struct ColumnRefModel {
    pub table: Option<Seq<char>>,
    pub name: Seq<char>,
}

/// An expression tree.
pub enum SimpleExprModel {
    Column(ColumnRefModel),
    Value(ValueModel),
    Binary { op: BinaryOp, left: Box<SimpleExprModel>, right: Box<SimpleExprModel> },
    Not(Box<SimpleExprModel>),
    IsNull { expr: Box<SimpleExprModel>, negated: bool },
    InList { expr: Box<SimpleExprModel>, list: Seq<ValueModel>, negated: bool },
    Between { expr: Box<SimpleExprModel>, low: ValueModel, high: ValueModel, negated: bool },
    Call { func: Aggregate, arg: Box<SimpleExprModel> },
    IfNull { expr: Box<SimpleExprModel>, fallback: ValueModel },
    Exists(Box<SelectModel>),
}

/// A conjunction or disjunction of children, possibly negated as a whole.
pub struct ConditionModel {
    pub kind: ConditionKind,
    pub negated: bool,
    pub children: Seq<ConditionExpressionModel>,
}

/// A child of a condition: a nested condition or an expression.
pub enum ConditionExpressionModel {
    Condition(ConditionModel),
    SimpleExpr(SimpleExprModel),
}

/// One item of a projection.
pub enum ProjectionModel {
    /// `*`
    All,
    Column(ColumnRefModel),
    Expr { expr: SimpleExprModel, alias: Option<Seq<char>> },
}

/// What a `SELECT` reads from.
pub enum SourceModel {
    Table(Seq<char>),
    Subquery { query: Box<SelectModel>, alias: Seq<char> },
}

/// A join: its kind, the table joined, and the condition.
pub struct JoinModel {
    pub kind: JoinKind,
    pub table: Seq<char>,
    pub on: ConditionExpressionModel,
}

/// A set operation with another statement.
pub struct UnionModel {
    pub kind: UnionType,
    pub query: SelectModel,
}

/// One `ORDER BY` item.
pub struct OrderModel {
    pub column: Seq<char>,
    pub order: OrderBy,
    pub nulls: Option<NullsOrder>,
}

/// A row-locking clause.
pub struct LockModel {
    pub kind: LockType,
    pub tables: Seq<Seq<char>>,
    pub behavior: Option<LockBehavior>,
}

/// The accumulated clauses of a `SELECT` statement.
pub struct SelectModel {
    pub distinct: bool,
    pub projection: Seq<ProjectionModel>,
    pub from: Option<SourceModel>,
    pub joins: Seq<JoinModel>,
    /// The conjuncts of the filter.
    pub wheres: Seq<ConditionExpressionModel>,
    pub group_by: Seq<ColumnRefModel>,
    /// The conjuncts of the filter on groups.
    pub having: Seq<ConditionExpressionModel>,
    pub unions: Seq<UnionModel>,
    pub order_by: Seq<OrderModel>,
    pub limit: Option<u64>,
    pub offset: Option<u64>,
    pub lock: Option<LockModel>,
}

/// The expression `left op right`.
pub open spec fn binary(op: BinaryOp, left: SimpleExprModel, right: SimpleExprModel) -> SimpleExprModel {
    SimpleExprModel::Binary { op, left: Box::new(left), right: Box::new(right) }
}

/// The column `name`, of `table` if one is given.
pub open spec fn column(name: Seq<char>, table: Option<Seq<char>>) -> SimpleExprModel {
    SimpleExprModel::Column(ColumnRefModel { table, name })
}

/// The condition negated as a whole: a negated one loses its negation.
pub open spec fn negation(c: ConditionModel) -> ConditionModel {
    ConditionModel { negated: !c.negated, ..c }
}

/// The kind of a literal value. Two bounds of a range must be of one kind.
#[derive(Clone, Copy, Debug, PartialEq, Eq, Structural)]
pub enum ValueKind {
    Bool,
    Number,
    Text,
    Null,
}

/// The kind of a value.
pub open spec fn value_kind(v: ValueModel) -> ValueKind {
    match v {
        ValueModel::Bool(_) => ValueKind::Bool,
        ValueModel::Float(_) => ValueKind::Number,
        ValueModel::Int(_) => ValueKind::Number,
        ValueModel::Text(_) => ValueKind::Text,
        ValueModel::Null => ValueKind::Null,
    }
}

/// Whether two values can bound a range: both are present and of one kind.
pub open spec fn valid_range(low: ValueModel, high: ValueModel) -> bool {
    value_kind(low) != ValueKind::Null && value_kind(low) == value_kind(high)
}

/// The conflict clause of an `INSERT`: the columns whose conflict is meant, and whether
/// the action, to do nothing, has been chosen.
pub struct OnConflictModel {
    pub columns: Seq<Seq<char>>,
    pub do_nothing: bool,
}

/// What a statement hands back about the rows it wrote.
pub enum ReturningModel {
    /// `RETURNING *`
    All,
    Columns(Seq<Seq<char>>),
}

/// Where the rows of an `INSERT` come from.
pub enum InsertSourceModel {
    /// Nothing was given yet.
    Nothing,
    /// Literal rows, at least one.
    Values(Seq<Seq<ValueModel>>),
    /// The rows that a statement yields.
    Select(SelectModel),
}

/// The accumulated clauses of an `INSERT` statement.
pub struct InsertModel {
    pub table: Option<Seq<char>>,
    pub columns: Seq<Seq<char>>,
    pub source: InsertSourceModel,
    pub on_conflict: Option<OnConflictModel>,
    pub returning: Option<ReturningModel>,
}

/// The `INSERT` statement that nothing was added to.
pub open spec fn empty_insert() -> InsertModel {
    InsertModel {
        table: None,
        columns: Seq::empty(),
        source: InsertSourceModel::Nothing,
        on_conflict: None,
        returning: None,
    }
}

/// Every literal row has one value per declared column.
pub open spec fn rows_fit(m: InsertModel) -> bool {
    m.source matches InsertSourceModel::Values(rows) ==> rows.len() > 0 && forall|i: int|
        0 <= i < rows.len() ==> (#[trigger] rows[i]).len() == m.columns.len()
}

/// An `INSERT` statement after its columns were declared anew. Rows that are there must
/// have as many values as there are columns now.
pub open spec fn with_columns(m: InsertModel, columns: Seq<Seq<char>>) -> Result<
    InsertModel,
    SqlError,
> {
    match m.source {
        InsertSourceModel::Values(rows) if rows.len() > 0 && rows[0].len() != columns.len() => Err(
            SqlError::ValueArityMismatch {
                expected: columns.len() as usize,
                found: rows[0].len() as usize,
            },
        ),
        _ => Ok(InsertModel { columns, ..m }),
    }
}

/// An `INSERT` statement after one more row. The statement must not read from a
/// `SELECT`, and the row must have one value per declared column.
pub open spec fn with_values(m: InsertModel, row: Seq<ValueModel>) -> Result<InsertModel, SqlError> {
    match m.source {
        InsertSourceModel::Select(_) => Err(SqlError::InvalidState),
        _ => if row.len() != m.columns.len() {
            Err(
                SqlError::ValueArityMismatch {
                    expected: m.columns.len() as usize,
                    found: row.len() as usize,
                },
            )
        } else {
            Ok(
                InsertModel {
                    source: InsertSourceModel::Values(
                        match m.source {
                            InsertSourceModel::Values(rows) => rows.push(row),
                            _ => seq![row],
                        },
                    ),
                    ..m
                },
            )
        },
    }
}

/// An `INSERT` statement after it was told to read from a `SELECT`. It must not hold
/// literal rows; a statement that it read from before is replaced.
pub open spec fn with_select(m: InsertModel, query: SelectModel) -> Result<InsertModel, SqlError> {
    match m.source {
        InsertSourceModel::Values(_) => Err(SqlError::InvalidState),
        _ => Ok(InsertModel { source: InsertSourceModel::Select(query), ..m }),
    }
}

/// An `INSERT` statement after it was given a conflict clause. A clause whose action
/// was not chosen is malformed; a clause that was there is replaced.
pub open spec fn with_on_conflict(m: InsertModel, c: OnConflictModel) -> Result<
    InsertModel,
    SqlError,
> {
    if c.do_nothing {
        Ok(InsertModel { on_conflict: Some(c), ..m })
    } else {
        Err(SqlError::MalformedExpression)
    }
}

/// One `column = value` of an `UPDATE`.
pub struct AssignmentModel {
    pub column: Seq<char>,
    pub value: ValueModel,
}

/// The accumulated clauses of an `UPDATE` statement.
pub struct UpdateModel {
    pub table: Option<Seq<char>>,
    pub assignments: Seq<AssignmentModel>,
    /// The conjuncts of the filter.
    pub wheres: Seq<ConditionExpressionModel>,
    pub returning: Option<ReturningModel>,
}

/// The accumulated clauses of a `DELETE` statement.
pub struct DeleteModel {
    pub table: Option<Seq<char>>,
    /// The conjuncts of the filter.
    pub wheres: Seq<ConditionExpressionModel>,
    pub returning: Option<ReturningModel>,
}

/// The `UPDATE` statement that nothing was added to.
pub open spec fn empty_update() -> UpdateModel {
    UpdateModel { table: None, assignments: Seq::empty(), wheres: Seq::empty(), returning: None }
}

/// The `DELETE` statement that nothing was added to.
pub open spec fn empty_delete() -> DeleteModel {
    DeleteModel { table: None, wheres: Seq::empty(), returning: None }
}

/// The statement that nothing was added to.
pub open spec fn empty_select() -> SelectModel {
    SelectModel {
        distinct: false,
        projection: Seq::empty(),
        from: None,
        joins: Seq::empty(),
        wheres: Seq::empty(),
        group_by: Seq::empty(),
        having: Seq::empty(),
        unions: Seq::empty(),
        order_by: Seq::empty(),
        limit: None,
        offset: None,
        lock: None,
    }
}

/// The clauses of a `SELECT` statement, in the order in which they are written.
#[derive(Clone, Copy, Debug, PartialEq, Eq, Structural)]
pub enum SelectPart {
    Projection,
    From,
    Joins,
    Where,
    GroupBy,
    Having,
    Unions,
    OrderBy,
    LimitOffset,
    Lock,
}

/// One call of a builder method of a `SELECT` statement, with the models of its
/// arguments.
pub enum SelectStep {
    FromTable(Seq<char>),
    FromSubquery(SelectModel, Seq<char>),
    All,
    Column(Seq<char>, Option<Seq<char>>),
    Columns(Seq<Seq<char>>, Option<Seq<char>>),
    Expr(SimpleExprModel),
    ExprAs(SimpleExprModel, Seq<char>),
    Distinct,
    AndWhere(SimpleExprModel),
    CondWhere(ConditionModel),
    GroupBy(Seq<char>, Option<Seq<char>>),
    AndHaving(SimpleExprModel),
    CondHaving(ConditionModel),
    OrderBy(Seq<char>, OrderBy, Option<NullsOrder>),
    Limit(u64),
    Offset(u64),
    Join(JoinKind, Seq<char>, ConditionExpressionModel),
    Union(UnionType, SelectModel),
    Lock(LockType, Seq<Seq<char>>, Option<LockBehavior>),
}

/// The columns of the given names as projection items, each qualified by the table if
/// one is given.
pub open spec fn qualified_columns(names: Seq<Seq<char>>, table: Option<Seq<char>>) -> Seq<
    ProjectionModel,
> {
    Seq::new(
        names.len(),
        |i: int| ProjectionModel::Column(ColumnRefModel { table, name: names[i] }),
    )
}

/// What a builder call writes to: the list or the single place of a statement that it
/// adds to or replaces.
#[derive(Clone, Copy, Debug, PartialEq, Eq, Structural)]
pub enum SelectField {
    Distinct,
    Projection,
    From,
    Joins,
    Where,
    GroupBy,
    Having,
    Unions,
    OrderBy,
    Limit,
    Offset,
    Lock,
}

/// What a builder call writes to.
pub open spec fn field_of(step: SelectStep) -> SelectField {
    match step {
        SelectStep::FromTable(..) => SelectField::From,
        SelectStep::FromSubquery(..) => SelectField::From,
        SelectStep::All => SelectField::Projection,
        SelectStep::Column(..) => SelectField::Projection,
        SelectStep::Columns(..) => SelectField::Projection,
        SelectStep::Expr(..) => SelectField::Projection,
        SelectStep::ExprAs(..) => SelectField::Projection,
        SelectStep::Distinct => SelectField::Distinct,
        SelectStep::AndWhere(..) => SelectField::Where,
        SelectStep::CondWhere(..) => SelectField::Where,
        SelectStep::GroupBy(..) => SelectField::GroupBy,
        SelectStep::AndHaving(..) => SelectField::Having,
        SelectStep::CondHaving(..) => SelectField::Having,
        SelectStep::OrderBy(..) => SelectField::OrderBy,
        SelectStep::Limit(..) => SelectField::Limit,
        SelectStep::Offset(..) => SelectField::Offset,
        SelectStep::Join(..) => SelectField::Joins,
        SelectStep::Union(..) => SelectField::Unions,
        SelectStep::Lock(..) => SelectField::Lock,
    }
}

/// The clause in which something is written. The keyword for distinct rows stands in the
/// projection, and limit and offset make one clause.
pub open spec fn part_of_field(f: SelectField) -> SelectPart {
    match f {
        SelectField::Distinct => SelectPart::Projection,
        SelectField::Projection => SelectPart::Projection,
        SelectField::From => SelectPart::From,
        SelectField::Joins => SelectPart::Joins,
        SelectField::Where => SelectPart::Where,
        SelectField::GroupBy => SelectPart::GroupBy,
        SelectField::Having => SelectPart::Having,
        SelectField::Unions => SelectPart::Unions,
        SelectField::OrderBy => SelectPart::OrderBy,
        SelectField::Limit => SelectPart::LimitOffset,
        SelectField::Offset => SelectPart::LimitOffset,
        SelectField::Lock => SelectPart::Lock,
    }
}

/// The clause that a builder call adds to or replaces.
pub open spec fn part_of(step: SelectStep) -> SelectPart {
    part_of_field(field_of(step))
}

/// The statement after one builder call.
///
/// A source, a limit, an offset and a lock replace what was there: the last call wins.
/// Everything else is appended. A filter given as a whole condition is one more conjunct
/// beside those that are there.
pub open spec fn apply_step(m: SelectModel, step: SelectStep) -> SelectModel {
    match step {
        SelectStep::FromTable(name) => SelectModel { from: Some(SourceModel::Table(name)), ..m },
        SelectStep::FromSubquery(query, alias) => SelectModel {
            from: Some(SourceModel::Subquery { query: Box::new(query), alias }),
            ..m
        },
        SelectStep::All => SelectModel { projection: m.projection.push(ProjectionModel::All), ..m },
        SelectStep::Column(name, table) => SelectModel {
            projection: m.projection.push(ProjectionModel::Column(ColumnRefModel { table, name })),
            ..m
        },
        SelectStep::Columns(names, table) => SelectModel {
            projection: m.projection + qualified_columns(names, table),
            ..m
        },
        SelectStep::Expr(expr) => SelectModel {
            projection: m.projection.push(ProjectionModel::Expr { expr, alias: None }),
            ..m
        },
        SelectStep::ExprAs(expr, alias) => SelectModel {
            projection: m.projection.push(ProjectionModel::Expr { expr, alias: Some(alias) }),
            ..m
        },
        SelectStep::Distinct => SelectModel { distinct: true, ..m },
        SelectStep::AndWhere(expr) => SelectModel {
            wheres: m.wheres.push(ConditionExpressionModel::SimpleExpr(expr)),
            ..m
        },
        SelectStep::CondWhere(cond) => SelectModel {
            wheres: m.wheres.push(ConditionExpressionModel::Condition(cond)),
            ..m
        },
        SelectStep::GroupBy(name, table) => SelectModel {
            group_by: m.group_by.push(ColumnRefModel { table, name }),
            ..m
        },
        SelectStep::AndHaving(expr) => SelectModel {
            having: m.having.push(ConditionExpressionModel::SimpleExpr(expr)),
            ..m
        },
        SelectStep::CondHaving(cond) => SelectModel {
            having: m.having.push(ConditionExpressionModel::Condition(cond)),
            ..m
        },
        SelectStep::OrderBy(column, order, nulls) => SelectModel {
            order_by: m.order_by.push(OrderModel { column, order, nulls }),
            ..m
        },
        SelectStep::Limit(n) => SelectModel { limit: Some(n), ..m },
        SelectStep::Offset(n) => SelectModel { offset: Some(n), ..m },
        SelectStep::Join(kind, table, on) => SelectModel {
            joins: m.joins.push(JoinModel { kind, table, on }),
            ..m
        },
        SelectStep::Union(kind, query) => SelectModel {
            unions: m.unions.push(UnionModel { kind, query }),
            ..m
        },
        SelectStep::Lock(kind, tables, behavior) => SelectModel {
            lock: Some(LockModel { kind, tables, behavior }),
            ..m
        },
    }
}

/// The text of an optional string.
pub open spec fn opt_text(o: Option<String>) -> Option<Seq<char>> {
    match o {
        Some(s) => Some(s@),
        None => None,
    }
}

} // verus!
