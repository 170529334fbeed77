//! Statement builders for `SELECT`, `INSERT`, `UPDATE` and `DELETE`.

use vstd::prelude::*;
use crate::expr::{
    ColumnRef, Condition, ConditionExpression, OnConflict, SimpleExpr, children_model,
    clone_children, clone_opt_string, clone_strings, condition_expression_model,
    lemma_children_model_push, simple_expr_model,
};
use crate::gate::{
    check_children, check_select, check_unsupported, delete_problem, insert_problem, is_mysql,
    select_problem, update_problem,
};
use crate::model::{
    AssignmentModel, ColumnRefModel, DeleteModel, InsertModel, InsertSourceModel, JoinKind,
    JoinModel, LockModel, OnConflictModel, OrderModel, ProjectionModel, ReturningModel, SelectModel,
    SelectStep, SourceModel, UnionModel, UpdateModel, apply_step, empty_delete, empty_insert,
    empty_select, empty_update, opt_text, qualified_columns, rows_fit, with_columns,
    with_on_conflict, with_select, with_values,
};
use crate::render::{delete_text, insert_text, select_text, update_text};
use crate::text::string_views;
use crate::types::{
    Clause, DBEngine, LockBehavior, LockType, NullsOrder, OrderBy, PyValue, SqlError, UnionType,
    ValueModel, clone_values, value_models,
};
use crate::writer::{
    write_assignments, write_filter, write_name_list, write_on_conflict, write_returning,
    write_rows, write_select, write_table_name,
};

verus! {

/// One item of a projection.
pub enum Projection {
    /// `*`
    All,
    Column(ColumnRef),
    Expr { expr: SimpleExpr, alias: Option<String> },
}

/// What a `SELECT` reads from.
pub enum Source {
    Table(String),
    Subquery { query: Box<SelectStatement>, alias: String },
}

/// A join: its kind, the table joined, and the condition.
pub struct Join {
    pub kind: JoinKind,
    pub table: String,
    pub on: ConditionExpression,
}

/// A set operation with another statement.
pub struct UnionClause {
    pub kind: UnionType,
    pub query: SelectStatement,
}

/// One `ORDER BY` item.
pub struct OrderClause {
    pub column: String,
    pub order: OrderBy,
    pub nulls: Option<NullsOrder>,
}

/// A row-locking clause.
pub struct LockClause {
    pub kind: LockType,
    pub tables: Vec<String>,
    pub behavior: Option<LockBehavior>,
}

/// A `SELECT` statement under construction.
pub struct SelectStatement {
    pub distinct: bool,
    pub projection: Vec<Projection>,
    pub from: Option<Source>,
    pub joins: Vec<Join>,
    pub wheres: Vec<ConditionExpression>,
    pub group_by: Vec<ColumnRef>,
    pub having: Vec<ConditionExpression>,
    pub unions: Vec<UnionClause>,
    pub order_by: Vec<OrderClause>,
    pub limit: Option<u64>,
    pub offset: Option<u64>,
    pub lock: Option<LockClause>,
}

impl View for OrderClause {
    type V = OrderModel;

    open spec fn view(&self) -> OrderModel {
        OrderModel { column: self.column@, order: self.order, nulls: self.nulls }
    }
}

impl View for LockClause {
    type V = LockModel;

    open spec fn view(&self) -> LockModel {
        LockModel { kind: self.kind, tables: string_views(self.tables@), behavior: self.behavior }
    }
}

/// The models of column references, in order.
pub open spec fn column_refs_model(v: Seq<ColumnRef>) -> Seq<ColumnRefModel> {
    Seq::new(v.len(), |i: int| v[i]@)
}

/// The models of `ORDER BY` items, in order.
pub open spec fn orders_model(v: Seq<OrderClause>) -> Seq<OrderModel> {
    Seq::new(v.len(), |i: int| v[i]@)
}

/// The model of an optional locking clause.
pub open spec fn opt_lock_model(o: Option<LockClause>) -> Option<LockModel> {
    match o {
        Some(l) => Some(l@),
        None => None,
    }
}

/// The model of a projection item.
pub open spec fn projection_model(p: Projection) -> ProjectionModel
    decreases p,
{
    match p {
        Projection::All => ProjectionModel::All,
        Projection::Column(c) => ProjectionModel::Column(c@),
        Projection::Expr { expr, alias } => ProjectionModel::Expr {
            expr: simple_expr_model(expr),
            alias: opt_text(alias),
        },
    }
}

/// The models of projection items, in order.
pub open spec fn projections_model(v: Seq<Projection>) -> Seq<ProjectionModel>
    decreases v,
{
    Seq::new(
        v.len(),
        |i: int|
            if 0 <= i < v.len() {
                projection_model(v[i])
            } else {
                arbitrary()
            },
    )
}

/// The model of a source.
pub open spec fn source_model(s: Source) -> SourceModel
    decreases s,
{
    match s {
        Source::Table(name) => SourceModel::Table(name@),
        Source::Subquery { query, alias } => SourceModel::Subquery {
            query: Box::new(select_model(*query)),
            alias: alias@,
        },
    }
}

/// The model of an optional source.
pub open spec fn opt_source_model(o: Option<Source>) -> Option<SourceModel>
    decreases o,
{
    match o {
        Some(s) => Some(source_model(s)),
        None => None,
    }
}

/// The model of a join.
pub open spec fn join_model(j: Join) -> JoinModel
    decreases j,
{
    JoinModel { kind: j.kind, table: j.table@, on: condition_expression_model(j.on) }
}

/// The models of joins, in order.
pub open spec fn joins_model(v: Seq<Join>) -> Seq<JoinModel>
    decreases v,
{
    Seq::new(
        v.len(),
        |i: int|
            if 0 <= i < v.len() {
                join_model(v[i])
            } else {
                arbitrary()
            },
    )
}

/// The model of a set operation.
pub open spec fn union_model(u: UnionClause) -> UnionModel
    decreases u,
{
    UnionModel { kind: u.kind, query: select_model(u.query) }
}

/// The models of set operations, in order.
pub open spec fn unions_model(v: Seq<UnionClause>) -> Seq<UnionModel>
    decreases v,
{
    Seq::new(
        v.len(),
        |i: int|
            if 0 <= i < v.len() {
                union_model(v[i])
            } else {
                arbitrary()
            },
    )
}

/// The model of a `SELECT` statement.
pub open spec fn select_model(s: SelectStatement) -> SelectModel
    decreases s,
{
    SelectModel {
        distinct: s.distinct,
        projection: projections_model(s.projection@),
        from: opt_source_model(s.from),
        joins: joins_model(s.joins@),
        wheres: children_model(s.wheres@),
        group_by: column_refs_model(s.group_by@),
        having: children_model(s.having@),
        unions: unions_model(s.unions@),
        order_by: orders_model(s.order_by@),
        limit: s.limit,
        offset: s.offset,
        lock: opt_lock_model(s.lock),
    }
}

impl View for Projection {
    type V = ProjectionModel;

    open spec fn view(&self) -> ProjectionModel {
        projection_model(*self)
    }
}

impl View for Source {
    type V = SourceModel;

    open spec fn view(&self) -> SourceModel {
        source_model(*self)
    }
}

impl View for Join {
    type V = JoinModel;

    open spec fn view(&self) -> JoinModel {
        join_model(*self)
    }
}

impl View for UnionClause {
    type V = UnionModel;

    open spec fn view(&self) -> UnionModel {
        union_model(*self)
    }
}

impl View for SelectStatement {
    type V = SelectModel;

    open spec fn view(&self) -> SelectModel {
        select_model(*self)
    }
}

impl Clone for OrderClause {
    fn clone(&self) -> (r: Self)
        ensures
            r@ == self@,
    {
        OrderClause { column: self.column.clone(), order: self.order, nulls: self.nulls }
    }
}

impl Clone for LockClause {
    fn clone(&self) -> (r: Self)
        ensures
            r@ == self@,
    {
        LockClause {
            kind: self.kind,
            tables: clone_strings(&self.tables),
            behavior: self.behavior,
        }
    }
}

/// Copies column references.
pub fn clone_column_refs(v: &Vec<ColumnRef>) -> (r: Vec<ColumnRef>)
    ensures
        column_refs_model(r@) == column_refs_model(v@),
{
    let mut out: Vec<ColumnRef> = Vec::new();
    let mut i: usize = 0;
    while i < v.len()
        invariant
            i <= v.len(),
            out.len() == i,
            column_refs_model(out@) =~= column_refs_model(v@).take(i as int),
        decreases v.len() - i,
    {
        out.push(v[i].clone());
        i += 1;
    }
    out
}

/// Copies `ORDER BY` items.
pub fn clone_orders(v: &Vec<OrderClause>) -> (r: Vec<OrderClause>)
    ensures
        orders_model(r@) == orders_model(v@),
{
    let mut out: Vec<OrderClause> = Vec::new();
    let mut i: usize = 0;
    while i < v.len()
        invariant
            i <= v.len(),
            out.len() == i,
            orders_model(out@) =~= orders_model(v@).take(i as int),
        decreases v.len() - i,
    {
        out.push(v[i].clone());
        i += 1;
    }
    out
}

impl Clone for Projection {
    fn clone(&self) -> (r: Self)
        ensures
            r@ == self@,
        decreases self,
    {
        match self {
            Projection::All => Projection::All,
            Projection::Column(c) => Projection::Column(c.clone()),
            Projection::Expr { expr, alias } => Projection::Expr {
                expr: expr.clone(),
                alias: clone_opt_string(alias),
            },
        }
    }
}

/// Copies projection items.
pub fn clone_projections(v: &Vec<Projection>) -> (r: Vec<Projection>)
    ensures
        projections_model(r@) == projections_model(v@),
    decreases v,
{
    let mut out: Vec<Projection> = Vec::new();
    let mut i: usize = 0;
    while i < v.len()
        invariant
            i <= v.len(),
            out.len() == i,
            projections_model(out@) =~= projections_model(v@).take(i as int),
        decreases v.len() - i,
    {
        out.push(v[i].clone());
        i += 1;
    }
    out
}

impl Clone for Source {
    fn clone(&self) -> (r: Self)
        ensures
            r@ == self@,
        decreases self,
    {
        match self {
            Source::Table(name) => Source::Table(name.clone()),
            Source::Subquery { query, alias } => Source::Subquery {
                query: Box::new((&**query).clone()),
                alias: alias.clone(),
            },
        }
    }
}

impl Clone for Join {
    fn clone(&self) -> (r: Self)
        ensures
            r@ == self@,
        decreases self,
    {
        Join { kind: self.kind, table: self.table.clone(), on: self.on.clone() }
    }
}

/// Copies joins.
pub fn clone_joins(v: &Vec<Join>) -> (r: Vec<Join>)
    ensures
        joins_model(r@) == joins_model(v@),
    decreases v,
{
    let mut out: Vec<Join> = Vec::new();
    let mut i: usize = 0;
    while i < v.len()
        invariant
            i <= v.len(),
            out.len() == i,
            joins_model(out@) =~= joins_model(v@).take(i as int),
        decreases v.len() - i,
    {
        out.push(v[i].clone());
        i += 1;
    }
    out
}

impl Clone for UnionClause {
    fn clone(&self) -> (r: Self)
        ensures
            r@ == self@,
        decreases self,
    {
        UnionClause { kind: self.kind, query: self.query.clone() }
    }
}

/// Copies set operations.
pub fn clone_unions(v: &Vec<UnionClause>) -> (r: Vec<UnionClause>)
    ensures
        unions_model(r@) == unions_model(v@),
    decreases v,
{
    let mut out: Vec<UnionClause> = Vec::new();
    let mut i: usize = 0;
    while i < v.len()
        invariant
            i <= v.len(),
            out.len() == i,
            unions_model(out@) =~= unions_model(v@).take(i as int),
        decreases v.len() - i,
    {
        out.push(v[i].clone());
        i += 1;
    }
    out
}

impl Clone for SelectStatement {
    fn clone(&self) -> (r: Self)
        ensures
            r@ == self@,
        decreases self,
    {
        SelectStatement {
            distinct: self.distinct,
            projection: clone_projections(&self.projection),
            from: match &self.from {
                Some(s) => Some(s.clone()),
                None => None,
            },
            joins: clone_joins(&self.joins),
            wheres: clone_children(&self.wheres),
            group_by: clone_column_refs(&self.group_by),
            having: clone_children(&self.having),
            unions: clone_unions(&self.unions),
            order_by: clone_orders(&self.order_by),
            limit: self.limit,
            offset: self.offset,
            lock: match &self.lock {
                Some(l) => Some(l.clone()),
                None => None,
            },
        }
    }
}

/// The models of the projection items after one more item.
pub proof fn lemma_projections_model_push(v: Seq<Projection>, p: Projection)
    ensures
        projections_model(v.push(p)) == projections_model(v).push(projection_model(p)),
{
}

/// The models of the joins after one more join.
pub proof fn lemma_joins_model_push(v: Seq<Join>, j: Join)
    ensures
        joins_model(v.push(j)) == joins_model(v).push(join_model(j)),
{
}

/// The models of the set operations after one more.
pub proof fn lemma_unions_model_push(v: Seq<UnionClause>, u: UnionClause)
    ensures
        unions_model(v.push(u)) == unions_model(v).push(union_model(u)),
{
}

/// The models of the column references after one more.
pub proof fn lemma_column_refs_model_push(v: Seq<ColumnRef>, c: ColumnRef)
    ensures
        column_refs_model(v.push(c)) == column_refs_model(v).push(c@),
{
}

/// The models of the `ORDER BY` items after one more item.
pub proof fn lemma_orders_model_push(v: Seq<OrderClause>, o: OrderClause)
    ensures
        orders_model(v.push(o)) == orders_model(v).push(o@),
{
}

/// What rendering a `SELECT` statement for a dialect gives: the first reason why it
/// cannot be rendered, or else its text.
pub open spec fn select_sql(m: SelectModel, d: DBEngine) -> Result<Seq<char>, SqlError> {
    match select_problem(m, d) {
        Some(e) => Err(e),
        None => Ok(select_text(m, d)),
    }
}

/// The text of a rendering result.
pub open spec fn sql_view(r: Result<String, SqlError>) -> Result<Seq<char>, SqlError> {
    match r {
        Ok(s) => Ok(s@),
        Err(e) => Err(e),
    }
}

/// The entry point to the statement builders.
pub struct Query;

impl Query {
    /// An empty `SELECT` statement.
    pub fn select() -> (r: SelectStatement)
        ensures
            r@ == empty_select(),
    {
        SelectStatement::new()
    }

    /// An empty `INSERT` statement.
    pub fn insert() -> (r: InsertStatement)
        ensures
            r@ == empty_insert(),
    {
        InsertStatement::new()
    }

    /// An empty `UPDATE` statement.
    pub fn update() -> (r: UpdateStatement)
        ensures
            r@ == empty_update(),
    {
        UpdateStatement::new()
    }

    /// An empty `DELETE` statement.
    pub fn delete() -> (r: DeleteStatement)
        ensures
            r@ == empty_delete(),
    {
        DeleteStatement::new()
    }
}

impl SelectStatement {
    /// The statement that nothing was added to.
    pub fn new() -> (r: Self)
        ensures
            r@ == empty_select(),
    {
        let r = SelectStatement {
            distinct: false,
            projection: Vec::new(),
            from: None,
            joins: Vec::new(),
            wheres: Vec::new(),
            group_by: Vec::new(),
            having: Vec::new(),
            unions: Vec::new(),
            order_by: Vec::new(),
            limit: None,
            offset: None,
            lock: None,
        };
        assert(r@.projection =~= Seq::empty());
        assert(r@.joins =~= Seq::empty());
        assert(r@.wheres =~= Seq::empty());
        assert(r@.group_by =~= Seq::empty());
        assert(r@.having =~= Seq::empty());
        assert(r@.unions =~= Seq::empty());
        assert(r@.order_by =~= Seq::empty());
        r
    }

    /// Reads from a table. A source that was set before is replaced.
    pub fn from_table(self, name: String) -> (r: Self)
        ensures
            r@ == apply_step(self@, SelectStep::FromTable(name@)),
    {
        let mut s = self;
        s.from = Some(Source::Table(name));
        s
    }

    /// Reads from a statement under an alias. A source that was set before is replaced.
    pub fn from_subquery(self, subquery: SelectStatement, alias: String) -> (r: Self)
        ensures
            r@ == apply_step(self@, SelectStep::FromSubquery(subquery@, alias@)),
    {
        let mut s = self;
        s.from = Some(Source::Subquery { query: Box::new(subquery), alias });
        s
    }

    fn project(self, item: Projection) -> (r: Self)
        ensures
            r@ == (SelectModel { projection: self@.projection.push(item@), ..self@ }),
    {
        let mut s = self;
        proof {
            lemma_projections_model_push(s.projection@, item);
        }
        s.projection.push(item);
        s
    }

    /// Adds `*` to the projection.
    pub fn all(self) -> (r: Self)
        ensures
            r@ == apply_step(self@, SelectStep::All),
    {
        self.project(Projection::All)
    }

    /// Adds a column to the projection, qualified by the table if one is given.
    pub fn column(self, name: String, table: Option<String>) -> (r: Self)
        ensures
            r@ == apply_step(self@, SelectStep::Column(name@, opt_text(table))),
    {
        self.project(Projection::Column(ColumnRef { table, name }))
    }

    /// Adds the columns to the projection in their order, each qualified by the table if
    /// one is given.
    pub fn columns(self, columns: Vec<String>, table: Option<String>) -> (r: Self)
        ensures
            r@ == apply_step(self@, SelectStep::Columns(string_views(columns@), opt_text(table))),
    {
        let ghost before = self@;
        let ghost added = qualified_columns(string_views(columns@), opt_text(table));
        let mut s = self;
        let mut i: usize = 0;
        while i < columns.len()
            invariant
                i <= columns.len(),
                added == qualified_columns(string_views(columns@), opt_text(table)),
                s@ == (SelectModel { projection: before.projection + added.take(i as int), ..before }),
            decreases columns.len() - i,
        {
            let item = Projection::Column(
                ColumnRef { table: clone_opt_string(&table), name: columns[i].clone() },
            );
            assert((before.projection + added.take(i as int)).push(added[i as int]) =~= before.projection
                + added.take(i as int + 1));
            s = s.project(item);
            i += 1;
        }
        assert(added.take(columns.len() as int) =~= added);
        s
    }

    /// Adds an expression to the projection.
    pub fn expr(self, expr: SimpleExpr) -> (r: Self)
        ensures
            r@ == apply_step(self@, SelectStep::Expr(expr@)),
    {
        self.project(Projection::Expr { expr, alias: None })
    }

    /// Adds an expression to the projection under an alias.
    pub fn expr_as(self, expr: SimpleExpr, alias: String) -> (r: Self)
        ensures
            r@ == apply_step(self@, SelectStep::ExprAs(expr@, alias@)),
    {
        self.project(Projection::Expr { expr, alias: Some(alias) })
    }

    /// Asks for distinct rows.
    pub fn distinct(self) -> (r: Self)
        ensures
            r@ == apply_step(self@, SelectStep::Distinct),
    {
        let mut s = self;
        s.distinct = true;
        s
    }

    fn filter(self, child: ConditionExpression) -> (r: Self)
        ensures
            r@ == (SelectModel { wheres: self@.wheres.push(child@), ..self@ }),
    {
        let mut s = self;
        proof {
            lemma_children_model_push(s.wheres@, child);
        }
        s.wheres.push(child);
        s
    }

    fn filter_groups(self, child: ConditionExpression) -> (r: Self)
        ensures
            r@ == (SelectModel { having: self@.having.push(child@), ..self@ }),
    {
        let mut s = self;
        proof {
            lemma_children_model_push(s.having@, child);
        }
        s.having.push(child);
        s
    }

    /// Adds a conjunct to the filter.
    pub fn and_where(self, expr: SimpleExpr) -> (r: Self)
        ensures
            r@ == apply_step(self@, SelectStep::AndWhere(expr@)),
    {
        self.filter(ConditionExpression::SimpleExpr(expr))
    }

    /// Adds a whole condition to the filter, as one more conjunct beside those that are
    /// there.
    pub fn cond_where(self, cond: Condition) -> (r: Self)
        ensures
            r@ == apply_step(self@, SelectStep::CondWhere(cond@)),
    {
        self.filter(ConditionExpression::Condition(cond))
    }

    /// Adds a column to group by, qualified by the table if one is given.
    pub fn group_by(self, column: String, table: Option<String>) -> (r: Self)
        ensures
            r@ == apply_step(self@, SelectStep::GroupBy(column@, opt_text(table))),
    {
        let mut s = self;
        let item = ColumnRef { table, name: column };
        proof {
            lemma_column_refs_model_push(s.group_by@, item);
        }
        s.group_by.push(item);
        s
    }

    /// Adds a conjunct to the filter on groups.
    pub fn and_having(self, expr: SimpleExpr) -> (r: Self)
        ensures
            r@ == apply_step(self@, SelectStep::AndHaving(expr@)),
    {
        self.filter_groups(ConditionExpression::SimpleExpr(expr))
    }

    /// Adds a whole condition to the filter on groups, as one more conjunct.
    pub fn cond_having(self, cond: Condition) -> (r: Self)
        ensures
            r@ == apply_step(self@, SelectStep::CondHaving(cond@)),
    {
        self.filter_groups(ConditionExpression::Condition(cond))
    }

    fn order(self, item: OrderClause) -> (r: Self)
        ensures
            r@ == (SelectModel { order_by: self@.order_by.push(item@), ..self@ }),
    {
        let mut s = self;
        proof {
            lemma_orders_model_push(s.order_by@, item);
        }
        s.order_by.push(item);
        s
    }

    /// Adds a column to order by.
    pub fn order_by(self, column: String, order: OrderBy) -> (r: Self)
        ensures
            r@ == apply_step(self@, SelectStep::OrderBy(column@, order, None)),
    {
        self.order(OrderClause { column, order, nulls: None })
    }

    /// Adds a column to order by, with the placement of NULLs.
    pub fn order_by_with_nulls(self, column: String, order: OrderBy, nulls: NullsOrder) -> (r: Self)
        ensures
            r@ == apply_step(self@, SelectStep::OrderBy(column@, order, Some(nulls))),
    {
        self.order(OrderClause { column, order, nulls: Some(nulls) })
    }

    /// Limits the number of rows. A limit that was set before is replaced.
    pub fn limit(self, limit: u64) -> (r: Self)
        ensures
            r@ == apply_step(self@, SelectStep::Limit(limit)),
    {
        let mut s = self;
        s.limit = Some(limit);
        s
    }

    /// Skips rows. An offset that was set before is replaced.
    pub fn offset(self, offset: u64) -> (r: Self)
        ensures
            r@ == apply_step(self@, SelectStep::Offset(offset)),
    {
        let mut s = self;
        s.offset = Some(offset);
        s
    }

    fn join(self, kind: JoinKind, table: String, condition: ConditionExpression) -> (r: Self)
        ensures
            r@ == apply_step(self@, SelectStep::Join(kind, table@, condition@)),
    {
        let mut s = self;
        let item = Join { kind, table, on: condition };
        proof {
            lemma_joins_model_push(s.joins@, item);
        }
        s.joins.push(item);
        s
    }

    /// Adds `CROSS JOIN table ON condition`.
    pub fn cross_join(self, table: String, condition: ConditionExpression) -> (r: Self)
        ensures
            r@ == apply_step(self@, SelectStep::Join(JoinKind::Cross, table@, condition@)),
    {
        self.join(JoinKind::Cross, table, condition)
    }

    /// Adds `LEFT JOIN table ON condition`.
    pub fn left_join(self, table: String, condition: ConditionExpression) -> (r: Self)
        ensures
            r@ == apply_step(self@, SelectStep::Join(JoinKind::Left, table@, condition@)),
    {
        self.join(JoinKind::Left, table, condition)
    }

    /// Adds `RIGHT JOIN table ON condition`.
    pub fn right_join(self, table: String, condition: ConditionExpression) -> (r: Self)
        ensures
            r@ == apply_step(self@, SelectStep::Join(JoinKind::Right, table@, condition@)),
    {
        self.join(JoinKind::Right, table, condition)
    }

    /// Adds `INNER JOIN table ON condition`.
    pub fn inner_join(self, table: String, condition: ConditionExpression) -> (r: Self)
        ensures
            r@ == apply_step(self@, SelectStep::Join(JoinKind::Inner, table@, condition@)),
    {
        self.join(JoinKind::Inner, table, condition)
    }

    /// Adds `FULL OUTER JOIN table ON condition`.
    pub fn full_outer_join(self, table: String, condition: ConditionExpression) -> (r: Self)
        ensures
            r@ == apply_step(self@, SelectStep::Join(JoinKind::FullOuter, table@, condition@)),
    {
        self.join(JoinKind::FullOuter, table, condition)
    }

    /// Combines the statement with another one by a set operation.
    pub fn union(self, query: SelectStatement, union_type: UnionType) -> (r: Self)
        ensures
            r@ == apply_step(self@, SelectStep::Union(union_type, query@)),
    {
        let mut s = self;
        let item = UnionClause { kind: union_type, query };
        proof {
            lemma_unions_model_push(s.unions@, item);
        }
        s.unions.push(item);
        s
    }

    fn set_lock(self, kind: LockType, tables: Vec<String>, behavior: Option<LockBehavior>) -> (r:
        Self)
        ensures
            r@ == apply_step(self@, SelectStep::Lock(kind, string_views(tables@), behavior)),
    {
        let mut s = self;
        s.lock = Some(LockClause { kind, tables, behavior });
        s
    }

    /// Locks the selected rows. A lock that was set before is replaced.
    pub fn lock(self, lock_type: LockType) -> (r: Self)
        ensures
            r@ == apply_step(self@, SelectStep::Lock(lock_type, Seq::empty(), None)),
    {
        let tables: Vec<String> = Vec::new();
        assert(string_views(tables@) =~= Seq::empty());
        self.set_lock(lock_type, tables, None)
    }

    /// Locks the selected rows of the given tables.
    pub fn lock_with_tables(self, lock_type: LockType, tables: Vec<String>) -> (r: Self)
        ensures
            r@ == apply_step(self@, SelectStep::Lock(lock_type, string_views(tables@), None)),
    {
        self.set_lock(lock_type, tables, None)
    }

    /// Locks the selected rows, with what to do about rows that are locked already.
    pub fn lock_with_behavior(self, lock_type: LockType, behavior: LockBehavior) -> (r: Self)
        ensures
            r@ == apply_step(self@, SelectStep::Lock(lock_type, Seq::empty(), Some(behavior))),
    {
        let tables: Vec<String> = Vec::new();
        assert(string_views(tables@) =~= Seq::empty());
        self.set_lock(lock_type, tables, Some(behavior))
    }

    /// Locks the selected rows of the given tables, with what to do about rows that are
    /// locked already.
    pub fn lock_with_tables_behavior(
        self,
        lock_type: LockType,
        tables: Vec<String>,
        behavior: LockBehavior,
    ) -> (r: Self)
        ensures
            r@ == apply_step(
                self@,
                SelectStep::Lock(lock_type, string_views(tables@), Some(behavior)),
            ),
    {
        self.set_lock(lock_type, tables, Some(behavior))
    }

    /// Locks the selected rows for reading: `FOR SHARE`.
    pub fn lock_shared(self) -> (r: Self)
        ensures
            r@ == apply_step(self@, SelectStep::Lock(LockType::Share, Seq::empty(), None)),
    {
        self.lock(LockType::Share)
    }

    /// Locks the selected rows for writing: `FOR UPDATE`.
    pub fn lock_exclusive(self) -> (r: Self)
        ensures
            r@ == apply_step(self@, SelectStep::Lock(LockType::Update, Seq::empty(), None)),
    {
        self.lock(LockType::Update)
    }

    /// Renders the statement for a dialect. The statement is not changed, and the result
    /// depends on nothing but the statement's model and the dialect.
    pub fn build_sql(&self, engine: &DBEngine) -> (r: Result<String, SqlError>)
        ensures
            sql_view(r) == select_sql(self@, *engine),
    {
        match check_select(self, *engine) {
            Some(e) => Err(e),
            None => Ok(write_select(self, *engine)),
        }
    }
}

/// What a statement hands back about the rows it wrote.
pub enum Returning {
    /// `RETURNING *`
    All,
    Columns(Vec<String>),
}

impl View for Returning {
    type V = ReturningModel;

    open spec fn view(&self) -> ReturningModel {
        match self {
            Returning::All => ReturningModel::All,
            Returning::Columns(names) => ReturningModel::Columns(string_views(names@)),
        }
    }
}

/// The model of an optional returning clause.
pub open spec fn opt_returning_model(o: Option<Returning>) -> Option<ReturningModel> {
    match o {
        Some(r) => Some(r@),
        None => None,
    }
}

/// The model of an optional conflict clause.
pub open spec fn opt_on_conflict_model(o: Option<OnConflict>) -> Option<OnConflictModel> {
    match o {
        Some(c) => Some(c@),
        None => None,
    }
}

/// The models of literal rows.
pub open spec fn rows_model(rows: Seq<Vec<PyValue>>) -> Seq<Seq<ValueModel>> {
    Seq::new(rows.len(), |i: int| value_models(rows[i]@))
}

/// Where the rows of an `INSERT` come from.
pub enum InsertSource {
    Nothing,
    Values(Vec<Vec<PyValue>>),
    Select(Box<SelectStatement>),
}

impl View for InsertSource {
    type V = InsertSourceModel;

    open spec fn view(&self) -> InsertSourceModel {
        match self {
            InsertSource::Nothing => InsertSourceModel::Nothing,
            InsertSource::Values(rows) => InsertSourceModel::Values(rows_model(rows@)),
            InsertSource::Select(query) => InsertSourceModel::Select(query@),
        }
    }
}

/// An `INSERT` statement under construction.
///
/// Literal rows always have one value per declared column: a call that would break this
/// fails instead, and hands the statement back as it was.
pub struct InsertStatement {
    table: Option<String>,
    columns: Vec<String>,
    source: InsertSource,
    on_conflict: Option<OnConflict>,
    returning: Option<Returning>,
}

impl View for InsertStatement {
    type V = InsertModel;

    closed spec fn view(&self) -> InsertModel {
        InsertModel {
            table: opt_text(self.table),
            columns: string_views(self.columns@),
            source: self.source@,
            on_conflict: opt_on_conflict_model(self.on_conflict),
            returning: opt_returning_model(self.returning),
        }
    }
}

impl Clone for Returning {
    fn clone(&self) -> (r: Self)
        ensures
            r@ == self@,
    {
        match self {
            Returning::All => Returning::All,
            Returning::Columns(names) => Returning::Columns(clone_strings(names)),
        }
    }
}

fn clone_opt_returning(o: &Option<Returning>) -> (r: Option<Returning>)
    ensures
        opt_returning_model(r) == opt_returning_model(*o),
{
    match o {
        Some(x) => Some(x.clone()),
        None => None,
    }
}

/// Copies literal rows.
pub fn clone_rows(v: &Vec<Vec<PyValue>>) -> (r: Vec<Vec<PyValue>>)
    ensures
        rows_model(r@) == rows_model(v@),
{
    let mut out: Vec<Vec<PyValue>> = Vec::new();
    let mut i: usize = 0;
    while i < v.len()
        invariant
            i <= v.len(),
            out.len() == i,
            rows_model(out@) =~= rows_model(v@).take(i as int),
        decreases v.len() - i,
    {
        out.push(clone_values(&v[i]));
        i += 1;
    }
    out
}

impl Clone for InsertSource {
    fn clone(&self) -> (r: Self)
        ensures
            r@ == self@,
    {
        match self {
            InsertSource::Nothing => InsertSource::Nothing,
            InsertSource::Values(rows) => InsertSource::Values(clone_rows(rows)),
            InsertSource::Select(query) => InsertSource::Select(Box::new((&**query).clone())),
        }
    }
}

impl Clone for InsertStatement {
    fn clone(&self) -> (r: Self)
        ensures
            r@ == self@,
    {
        proof {
            use_type_invariant(self);
        }
        let table = clone_opt_string(&self.table);
        let columns = clone_strings(&self.columns);
        let source = self.source.clone();
        let on_conflict = match &self.on_conflict {
            Some(c) => Some(c.clone()),
            None => None,
        };
        let returning = clone_opt_returning(&self.returning);
        InsertStatement { table, columns, source, on_conflict, returning }
    }
}

/// A builder call that was refused: the statement as it was before the call, and the
/// reason. A caller that wants to go on takes the statement from here.
pub struct Refused {
    pub statement: InsertStatement,
    pub error: SqlError,
}

/// The model of the outcome of a builder call that can fail: the new statement, or the
/// reason for the refusal.
pub open spec fn insert_view(r: Result<InsertStatement, Refused>) -> Result<InsertModel, SqlError> {
    match r {
        Ok(s) => Ok(s@),
        Err(x) => Err(x.error),
    }
}

/// A refused call hands the statement back as it was.
pub open spec fn hands_back(r: Result<InsertStatement, Refused>, before: InsertStatement) -> bool {
    r matches Err(x) ==> x.statement == before
}

/// What rendering an `INSERT` statement for a dialect gives: the first reason why it
/// cannot be rendered, or else its text.
pub open spec fn insert_sql(m: InsertModel, d: DBEngine) -> Result<Seq<char>, SqlError> {
    match insert_problem(m, d) {
        Some(e) => Err(e),
        None => Ok(insert_text(m, d)),
    }
}

impl InsertStatement {
    #[verifier::type_invariant]
    spec fn fits(self) -> bool {
        rows_fit(self@)
    }

    /// The statement that nothing was added to.
    pub fn new() -> (r: Self)
        ensures
            r@ == empty_insert(),
    {
        let r = InsertStatement {
            table: None,
            columns: Vec::new(),
            source: InsertSource::Nothing,
            on_conflict: None,
            returning: None,
        };
        assert(r@.columns =~= Seq::empty());
        r
    }

    /// Names the table to insert into. A table that was named before is replaced.
    pub fn into(self, table: String) -> (r: Self)
        ensures
            r@ == (InsertModel { table: Some(table@), ..self@ }),
    {
        proof {
            use_type_invariant(&self);
        }
        InsertStatement {
            table: Some(table),
            columns: self.columns,
            source: self.source,
            on_conflict: self.on_conflict,
            returning: self.returning,
        }
    }

    /// Declares the columns that values are given for, in place of those declared
    /// before. Fails with `ValueArityMismatch`, and only then, if rows are there that have
    /// another number of values. A refused call hands the statement back unchanged.
    pub fn columns(self, columns: Vec<String>) -> (r: Result<Self, Refused>)
        ensures
            insert_view(r) == with_columns(self@, string_views(columns@)),
            hands_back(r, self),
    {
        proof {
            use_type_invariant(&self);
        }
        let mismatch = match &self.source {
            InsertSource::Values(rows) => if rows.len() > 0 && rows[0].len() != columns.len() {
                Some(rows[0].len())
            } else {
                None
            },
            _ => None,
        };
        match mismatch {
            Some(found) => Err(
                Refused {
                    statement: self,
                    error: SqlError::ValueArityMismatch { expected: columns.len(), found },
                },
            ),
            None => Ok(
                InsertStatement {
                    table: self.table,
                    columns,
                    source: self.source,
                    on_conflict: self.on_conflict,
                    returning: self.returning,
                },
            ),
        }
    }

    /// Adds a row of literal values. Fails with `InvalidState` if the statement reads
    /// from a `SELECT`, else with `ValueArityMismatch` if the row does not have one value
    /// per declared column, and in no other case. A refused call hands the statement back
    /// unchanged.
    pub fn values(self, values: Vec<PyValue>) -> (r: Result<Self, Refused>)
        ensures
            insert_view(r) == with_values(self@, value_models(values@)),
            hands_back(r, self),
    {
        proof {
            use_type_invariant(&self);
        }
        let expected = self.columns.len();
        let found = values.len();
        let reads_select = match &self.source {
            InsertSource::Select(_) => true,
            _ => false,
        };
        if reads_select {
            return Err(Refused { statement: self, error: SqlError::InvalidState });
        }
        if found != expected {
            return Err(
                Refused {
                    statement: self,
                    error: SqlError::ValueArityMismatch { expected, found },
                },
            );
        }
        let rows = match self.source {
            InsertSource::Values(rows) => {
                let mut rows = rows;
                let ghost before = rows_model(rows@);
                rows.push(values);
                assert(rows_model(rows@) =~= before.push(value_models(values@)));
                rows
            },
            _ => {
                let mut rows: Vec<Vec<PyValue>> = Vec::new();
                rows.push(values);
                assert(rows_model(rows@) =~= seq![value_models(values@)]);
                rows
            },
        };
        Ok(
            InsertStatement {
                table: self.table,
                columns: self.columns,
                source: InsertSource::Values(rows),
                on_conflict: self.on_conflict,
                returning: self.returning,
            },
        )
    }

    /// Takes the rows from a `SELECT` statement. Fails with `InvalidState`, and only
    /// then, if the statement holds literal rows. A refused call hands the statement back
    /// unchanged.
    pub fn select_from(self, select: SelectStatement) -> (r: Result<Self, Refused>)
        ensures
            insert_view(r) == with_select(self@, select@),
            hands_back(r, self),
    {
        proof {
            use_type_invariant(&self);
        }
        let holds_rows = match &self.source {
            InsertSource::Values(_) => true,
            _ => false,
        };
        if holds_rows {
            return Err(Refused { statement: self, error: SqlError::InvalidState });
        }
        Ok(
            InsertStatement {
                table: self.table,
                columns: self.columns,
                source: InsertSource::Select(Box::new(select)),
                on_conflict: self.on_conflict,
                returning: self.returning,
            },
        )
    }

    /// Sets the conflict clause. Fails with `MalformedExpression`, and only then, if the
    /// clause has no action. A refused call hands the statement back unchanged.
    pub fn on_conflict(self, on_conflict: OnConflict) -> (r: Result<Self, Refused>)
        ensures
            insert_view(r) == with_on_conflict(self@, on_conflict@),
            hands_back(r, self),
    {
        proof {
            use_type_invariant(&self);
        }
        if on_conflict.do_nothing {
            Ok(
                InsertStatement {
                    table: self.table,
                    columns: self.columns,
                    source: self.source,
                    on_conflict: Some(on_conflict),
                    returning: self.returning,
                },
            )
        } else {
            Err(Refused { statement: self, error: SqlError::MalformedExpression })
        }
    }

    /// Asks for all columns of the inserted rows. An earlier choice is replaced.
    pub fn returning_all(self) -> (r: Self)
        ensures
            r@ == (InsertModel { returning: Some(ReturningModel::All), ..self@ }),
    {
        proof {
            use_type_invariant(&self);
        }
        InsertStatement {
            table: self.table,
            columns: self.columns,
            source: self.source,
            on_conflict: self.on_conflict,
            returning: Some(Returning::All),
        }
    }

    /// Asks for one column of the inserted rows. An earlier choice is replaced.
    pub fn returning_column(self, column: String) -> (r: Self)
        ensures
            r@ == (InsertModel { returning: Some(ReturningModel::Columns(seq![column@])), ..self@ }),
    {
        proof {
            use_type_invariant(&self);
        }
        let mut names: Vec<String> = Vec::new();
        names.push(column);
        assert(string_views(names@) =~= seq![column@]);
        InsertStatement {
            table: self.table,
            columns: self.columns,
            source: self.source,
            on_conflict: self.on_conflict,
            returning: Some(Returning::Columns(names)),
        }
    }

    /// Renders the statement for a dialect. The statement is not changed, and the result
    /// depends on nothing but the statement's model and the dialect. Every literal row
    /// of the statement has one value per declared column.
    pub fn build_sql(&self, engine: &DBEngine) -> (r: Result<String, SqlError>)
        ensures
            sql_view(r) == insert_sql(self@, *engine),
            rows_fit(self@),
    {
        proof {
            use_type_invariant(self);
        }
        let d = *engine;
        if self.table.is_none() {
            return Err(SqlError::InvalidState);
        }
        let mut out = "INSERT INTO ".to_owned();
        let table = write_table_name(&self.table, d);
        out.append(table.as_str());
        let columns = write_name_list(&self.columns, d);
        out.append(columns.as_str());
        match &self.source {
            InsertSource::Nothing => {
                return Err(SqlError::InvalidState);
            },
            InsertSource::Values(rows) => {
                if self.columns.len() == 0 {
                    return Err(SqlError::InvalidState);
                }
                out.append(" VALUES ");
                let body = write_rows(rows, d);
                out.append(body.as_str());
                assert(out@ =~= "INSERT INTO "@ + table@ + columns@ + (" VALUES "@ + body@));
            },
            InsertSource::Select(query) => {
                let found = check_select(query, d);
                if found.is_some() {
                    return Err(found.unwrap());
                }
                out.append(" ");
                let body = write_select(query, d);
                out.append(body.as_str());
                assert(out@ =~= "INSERT INTO "@ + table@ + columns@ + (" "@ + body@));
            },
        }
        let found = check_unsupported(self.on_conflict.is_some(), is_mysql(d), d, Clause::OnConflict);
        if found.is_some() {
            return Err(found.unwrap());
        }
        let found = check_unsupported(self.returning.is_some(), is_mysql(d), d, Clause::Returning);
        if found.is_some() {
            return Err(found.unwrap());
        }
        let on_conflict = write_on_conflict(&self.on_conflict, d);
        out.append(on_conflict.as_str());
        let returning = write_returning(&self.returning, d);
        out.append(returning.as_str());
        Ok(out)
    }
}

/// One `column = value` of an `UPDATE`.
pub struct Assignment {
    pub column: String,
    pub value: PyValue,
}

impl View for Assignment {
    type V = AssignmentModel;

    open spec fn view(&self) -> AssignmentModel {
        AssignmentModel { column: self.column@, value: self.value@ }
    }
}

/// The models of assignments, in order.
pub open spec fn assignments_model(v: Seq<Assignment>) -> Seq<AssignmentModel> {
    Seq::new(v.len(), |i: int| v[i]@)
}

impl Clone for Assignment {
    fn clone(&self) -> (r: Self)
        ensures
            r@ == self@,
    {
        Assignment { column: self.column.clone(), value: self.value.clone() }
    }
}

fn clone_assignments(v: &Vec<Assignment>) -> (r: Vec<Assignment>)
    ensures
        assignments_model(r@) == assignments_model(v@),
{
    let mut out: Vec<Assignment> = Vec::new();
    let mut i: usize = 0;
    while i < v.len()
        invariant
            i <= v.len(),
            out.len() == i,
            assignments_model(out@) =~= assignments_model(v@).take(i as int),
        decreases v.len() - i,
    {
        out.push(v[i].clone());
        i += 1;
    }
    out
}

fn single_column(column: String) -> (r: Returning)
    ensures
        r@ == ReturningModel::Columns(seq![column@]),
{
    let mut names: Vec<String> = Vec::new();
    names.push(column);
    assert(string_views(names@) =~= seq![column@]);
    Returning::Columns(names)
}

/// An `UPDATE` statement under construction.
pub struct UpdateStatement {
    pub table: Option<String>,
    pub assignments: Vec<Assignment>,
    pub wheres: Vec<ConditionExpression>,
    pub returning: Option<Returning>,
}

impl View for UpdateStatement {
    type V = UpdateModel;

    open spec fn view(&self) -> UpdateModel {
        UpdateModel {
            table: opt_text(self.table),
            assignments: assignments_model(self.assignments@),
            wheres: children_model(self.wheres@),
            returning: opt_returning_model(self.returning),
        }
    }
}

impl Clone for UpdateStatement {
    fn clone(&self) -> (r: Self)
        ensures
            r@ == self@,
    {
        UpdateStatement {
            table: clone_opt_string(&self.table),
            assignments: clone_assignments(&self.assignments),
            wheres: clone_children(&self.wheres),
            returning: clone_opt_returning(&self.returning),
        }
    }
}

/// What rendering an `UPDATE` statement for a dialect gives: the first reason why it
/// cannot be rendered, or else its text.
pub open spec fn update_sql(m: UpdateModel, d: DBEngine) -> Result<Seq<char>, SqlError> {
    match update_problem(m, d) {
        Some(e) => Err(e),
        None => Ok(update_text(m, d)),
    }
}

impl UpdateStatement {
    /// The statement that nothing was added to.
    pub fn new() -> (r: Self)
        ensures
            r@ == empty_update(),
    {
        let r = UpdateStatement {
            table: None,
            assignments: Vec::new(),
            wheres: Vec::new(),
            returning: None,
        };
        assert(r@.assignments =~= Seq::empty());
        assert(r@.wheres =~= Seq::empty());
        r
    }

    /// Names the table to update. A table that was named before is replaced.
    pub fn table(self, name: String) -> (r: Self)
        ensures
            r@ == (UpdateModel { table: Some(name@), ..self@ }),
    {
        let mut s = self;
        s.table = Some(name);
        s
    }

    /// Adds `column = value` to the assignments.
    pub fn value(self, column: String, value: PyValue) -> (r: Self)
        ensures
            r@ == (UpdateModel {
                assignments: self@.assignments.push(
                    AssignmentModel { column: column@, value: value@ },
                ),
                ..self@
            }),
    {
        let mut s = self;
        let ghost before = assignments_model(s.assignments@);
        s.assignments.push(Assignment { column, value });
        assert(assignments_model(s.assignments@) =~= before.push(
            AssignmentModel { column: column@, value: value@ },
        ));
        s
    }

    fn filter(self, child: ConditionExpression) -> (r: Self)
        ensures
            r@ == (UpdateModel { wheres: self@.wheres.push(child@), ..self@ }),
    {
        let mut s = self;
        proof {
            lemma_children_model_push(s.wheres@, child);
        }
        s.wheres.push(child);
        s
    }

    /// Adds a conjunct to the filter.
    pub fn and_where(self, expr: SimpleExpr) -> (r: Self)
        ensures
            r@ == (UpdateModel {
                wheres: self@.wheres.push(crate::model::ConditionExpressionModel::SimpleExpr(expr@)),
                ..self@
            }),
    {
        self.filter(ConditionExpression::SimpleExpr(expr))
    }

    /// Adds a whole condition to the filter, as one more conjunct.
    pub fn cond_where(self, cond: Condition) -> (r: Self)
        ensures
            r@ == (UpdateModel {
                wheres: self@.wheres.push(crate::model::ConditionExpressionModel::Condition(cond@)),
                ..self@
            }),
    {
        self.filter(ConditionExpression::Condition(cond))
    }

    /// Asks for all columns of the updated rows. An earlier choice is replaced.
    pub fn returning_all(self) -> (r: Self)
        ensures
            r@ == (UpdateModel { returning: Some(ReturningModel::All), ..self@ }),
    {
        let mut s = self;
        s.returning = Some(Returning::All);
        s
    }

    /// Asks for one column of the updated rows. An earlier choice is replaced.
    pub fn returning_column(self, column: String) -> (r: Self)
        ensures
            r@ == (UpdateModel { returning: Some(ReturningModel::Columns(seq![column@])), ..self@ }),
    {
        let mut s = self;
        s.returning = Some(single_column(column));
        s
    }

    /// Renders the statement for a dialect. The statement is not changed, and the result
    /// depends on nothing but the statement's model and the dialect.
    pub fn build_sql(&self, engine: &DBEngine) -> (r: Result<String, SqlError>)
        ensures
            sql_view(r) == update_sql(self@, *engine),
    {
        let d = *engine;
        if self.table.is_none() || self.assignments.len() == 0 {
            return Err(SqlError::InvalidState);
        }
        let found = check_children(&self.wheres, d);
        if found.is_some() {
            return Err(found.unwrap());
        }
        let found = check_unsupported(self.returning.is_some(), is_mysql(d), d, Clause::Returning);
        if found.is_some() {
            return Err(found.unwrap());
        }
        let mut out = "UPDATE ".to_owned();
        let table = write_table_name(&self.table, d);
        out.append(table.as_str());
        out.append(" SET ");
        let assignments = write_assignments(&self.assignments, d);
        out.append(assignments.as_str());
        let wheres = write_filter(" WHERE ", &self.wheres, d);
        out.append(wheres.as_str());
        let returning = write_returning(&self.returning, d);
        out.append(returning.as_str());
        Ok(out)
    }
}

/// A `DELETE` statement under construction.
pub struct DeleteStatement {
    pub table: Option<String>,
    pub wheres: Vec<ConditionExpression>,
    pub returning: Option<Returning>,
}

impl View for DeleteStatement {
    type V = DeleteModel;

    open spec fn view(&self) -> DeleteModel {
        DeleteModel {
            table: opt_text(self.table),
            wheres: children_model(self.wheres@),
            returning: opt_returning_model(self.returning),
        }
    }
}

impl Clone for DeleteStatement {
    fn clone(&self) -> (r: Self)
        ensures
            r@ == self@,
    {
        DeleteStatement {
            table: clone_opt_string(&self.table),
            wheres: clone_children(&self.wheres),
            returning: clone_opt_returning(&self.returning),
        }
    }
}

/// What rendering a `DELETE` statement for a dialect gives: the first reason why it
/// cannot be rendered, or else its text.
pub open spec fn delete_sql(m: DeleteModel, d: DBEngine) -> Result<Seq<char>, SqlError> {
    match delete_problem(m, d) {
        Some(e) => Err(e),
        None => Ok(delete_text(m, d)),
    }
}

impl DeleteStatement {
    /// The statement that nothing was added to.
    pub fn new() -> (r: Self)
        ensures
            r@ == empty_delete(),
    {
        let r = DeleteStatement { table: None, wheres: Vec::new(), returning: None };
        assert(r@.wheres =~= Seq::empty());
        r
    }

    /// Names the table to delete from. A table that was named before is replaced.
    pub fn from_table(self, name: String) -> (r: Self)
        ensures
            r@ == (DeleteModel { table: Some(name@), ..self@ }),
    {
        let mut s = self;
        s.table = Some(name);
        s
    }

    fn filter(self, child: ConditionExpression) -> (r: Self)
        ensures
            r@ == (DeleteModel { wheres: self@.wheres.push(child@), ..self@ }),
    {
        let mut s = self;
        proof {
            lemma_children_model_push(s.wheres@, child);
        }
        s.wheres.push(child);
        s
    }

    /// Adds a conjunct to the filter.
    pub fn and_where(self, expr: SimpleExpr) -> (r: Self)
        ensures
            r@ == (DeleteModel {
                wheres: self@.wheres.push(crate::model::ConditionExpressionModel::SimpleExpr(expr@)),
                ..self@
            }),
    {
        self.filter(ConditionExpression::SimpleExpr(expr))
    }

    /// Adds a whole condition to the filter, as one more conjunct.
    pub fn cond_where(self, cond: Condition) -> (r: Self)
        ensures
            r@ == (DeleteModel {
                wheres: self@.wheres.push(crate::model::ConditionExpressionModel::Condition(cond@)),
                ..self@
            }),
    {
        self.filter(ConditionExpression::Condition(cond))
    }

    /// Asks for all columns of the deleted rows. An earlier choice is replaced.
    pub fn returning_all(self) -> (r: Self)
        ensures
            r@ == (DeleteModel { returning: Some(ReturningModel::All), ..self@ }),
    {
        let mut s = self;
        s.returning = Some(Returning::All);
        s
    }

    /// Asks for one column of the deleted rows. An earlier choice is replaced.
    pub fn returning_column(self, column: String) -> (r: Self)
        ensures
            r@ == (DeleteModel { returning: Some(ReturningModel::Columns(seq![column@])), ..self@ }),
    {
        let mut s = self;
        s.returning = Some(single_column(column));
        s
    }

    /// Renders the statement for a dialect. The statement is not changed, and the result
    /// depends on nothing but the statement's model and the dialect.
    pub fn build_sql(&self, engine: &DBEngine) -> (r: Result<String, SqlError>)
        ensures
            sql_view(r) == delete_sql(self@, *engine),
    {
        let d = *engine;
        if self.table.is_none() {
            return Err(SqlError::InvalidState);
        }
        let found = check_children(&self.wheres, d);
        if found.is_some() {
            return Err(found.unwrap());
        }
        let found = check_unsupported(self.returning.is_some(), is_mysql(d), d, Clause::Returning);
        if found.is_some() {
            return Err(found.unwrap());
        }
        let mut out = "DELETE FROM ".to_owned();
        let table = write_table_name(&self.table, d);
        out.append(table.as_str());
        let wheres = write_filter(" WHERE ", &self.wheres, d);
        out.append(wheres.as_str());
        let returning = write_returning(&self.returning, d);
        out.append(returning.as_str());
        Ok(out)
    }
}

} // verus!
