//! Expressions, conditions and conflict clauses.

use vstd::prelude::*;
use crate::model::{
    Aggregate, BinaryOp, ColumnRefModel, ConditionExpressionModel, ConditionKind, ConditionModel,
    OnConflictModel, SimpleExprModel, ValueKind, binary, column, negation, opt_text, valid_range,
    value_kind,
};
use crate::query::{SelectStatement, select_model};
use crate::text::string_views;
use crate::types::{PyValue, SqlError, clone_values, value_models};

verus! {

/// Copies an optional string.
pub fn clone_opt_string(o: &Option<String>) -> (r: Option<String>)
    ensures
        r == *o,
{
    match o {
        Some(s) => Some(s.clone()),
        None => None,
    }
}

/// Copies a vector of strings.
pub fn clone_strings(v: &Vec<String>) -> (r: Vec<String>)
    ensures
        string_views(r@) == string_views(v@),
{
    let mut out: Vec<String> = Vec::new();
    let mut i: usize = 0;
    while i < v.len()
        invariant
            i <= v.len(),
            out.len() == i,
            string_views(out@) =~= string_views(v@).take(i as int),
        decreases v.len() - i,
    {
        out.push(v[i].clone());
        i += 1;
    }
    out
}

/// A column, optionally qualified by a table name.
pub struct ColumnRef {
    pub table: Option<String>,
    pub name: String,
}

impl View for ColumnRef {
    type V = ColumnRefModel;

    open spec fn view(&self) -> ColumnRefModel {
        ColumnRefModel { table: opt_text(self.table), name: self.name@ }
    }
}

impl Clone for ColumnRef {
    fn clone(&self) -> (r: Self)
        ensures
            r@ == self@,
    {
        ColumnRef { table: clone_opt_string(&self.table), name: self.name.clone() }
    }
}

/// An expression tree: the result of applying operators to columns and values.
///
/// Every value of this type is a complete expression; there is no partial state.
pub enum SimpleExpr {
    Column(ColumnRef),
    Value(PyValue),
    Binary { op: BinaryOp, left: Box<SimpleExpr>, right: Box<SimpleExpr> },
    Not(Box<SimpleExpr>),
    IsNull { expr: Box<SimpleExpr>, negated: bool },
    InList { expr: Box<SimpleExpr>, list: Vec<PyValue>, negated: bool },
    Between { expr: Box<SimpleExpr>, low: PyValue, high: PyValue, negated: bool },
    Call { func: Aggregate, arg: Box<SimpleExpr> },
    IfNull { expr: Box<SimpleExpr>, fallback: PyValue },
    Exists(Box<SelectStatement>),
}

/// A conjunction or disjunction of children, possibly negated as a whole.
pub struct Condition {
    pub kind: ConditionKind,
    pub negated: bool,
    pub children: Vec<ConditionExpression>,
}

/// A child of a condition.
pub enum ConditionExpression {
    Condition(Condition),
    SimpleExpr(SimpleExpr),
}

/// The model of an expression.
pub open spec fn simple_expr_model(e: SimpleExpr) -> SimpleExprModel
    decreases e,
{
    match e {
        SimpleExpr::Column(c) => SimpleExprModel::Column(c@),
        SimpleExpr::Value(v) => SimpleExprModel::Value(v@),
        SimpleExpr::Binary { op, left, right } => SimpleExprModel::Binary {
            op,
            left: Box::new(simple_expr_model(*left)),
            right: Box::new(simple_expr_model(*right)),
        },
        SimpleExpr::Not(inner) => SimpleExprModel::Not(Box::new(simple_expr_model(*inner))),
        SimpleExpr::IsNull { expr, negated } => SimpleExprModel::IsNull {
            expr: Box::new(simple_expr_model(*expr)),
            negated,
        },
        SimpleExpr::InList { expr, list, negated } => SimpleExprModel::InList {
            expr: Box::new(simple_expr_model(*expr)),
            list: value_models(list@),
            negated,
        },
        SimpleExpr::Between { expr, low, high, negated } => SimpleExprModel::Between {
            expr: Box::new(simple_expr_model(*expr)),
            low: low@,
            high: high@,
            negated,
        },
        SimpleExpr::Call { func, arg } => SimpleExprModel::Call {
            func,
            arg: Box::new(simple_expr_model(*arg)),
        },
        SimpleExpr::IfNull { expr, fallback } => SimpleExprModel::IfNull {
            expr: Box::new(simple_expr_model(*expr)),
            fallback: fallback@,
        },
        SimpleExpr::Exists(query) => SimpleExprModel::Exists(Box::new(select_model(*query))),
    }
}

/// The model of a condition.
pub open spec fn condition_model(c: Condition) -> ConditionModel
    decreases c,
{
    ConditionModel { kind: c.kind, negated: c.negated, children: children_model(c.children@) }
}

/// The model of a child of a condition.
pub open spec fn condition_expression_model(c: ConditionExpression) -> ConditionExpressionModel
    decreases c,
{
    match c {
        ConditionExpression::Condition(inner) => ConditionExpressionModel::Condition(
            condition_model(inner),
        ),
        ConditionExpression::SimpleExpr(e) => ConditionExpressionModel::SimpleExpr(
            simple_expr_model(e),
        ),
    }
}

/// The models of the children of a condition, in order.
pub open spec fn children_model(v: Seq<ConditionExpression>) -> Seq<ConditionExpressionModel>
    decreases v,
{
    Seq::new(
        v.len(),
        |i: int|
            if 0 <= i < v.len() {
                condition_expression_model(v[i])
            } else {
                arbitrary()
            },
    )
}

/// The models of the children after one more child.
pub proof fn lemma_children_model_push(v: Seq<ConditionExpression>, c: ConditionExpression)
    ensures
        children_model(v.push(c)) == children_model(v).push(condition_expression_model(c)),
{
}

impl View for SimpleExpr {
    type V = SimpleExprModel;

    open spec fn view(&self) -> SimpleExprModel {
        simple_expr_model(*self)
    }
}

impl View for Condition {
    type V = ConditionModel;

    open spec fn view(&self) -> ConditionModel {
        condition_model(*self)
    }
}

impl View for ConditionExpression {
    type V = ConditionExpressionModel;

    open spec fn view(&self) -> ConditionExpressionModel {
        condition_expression_model(*self)
    }
}

impl Clone for SimpleExpr {
    fn clone(&self) -> (r: Self)
        ensures
            r@ == self@,
        decreases self,
    {
        match self {
            SimpleExpr::Column(c) => SimpleExpr::Column(c.clone()),
            SimpleExpr::Value(v) => SimpleExpr::Value(v.clone()),
            SimpleExpr::Binary { op, left, right } => SimpleExpr::Binary {
                op: *op,
                left: Box::new((&**left).clone()),
                right: Box::new((&**right).clone()),
            },
            SimpleExpr::Not(inner) => SimpleExpr::Not(Box::new((&**inner).clone())),
            SimpleExpr::IsNull { expr, negated } => SimpleExpr::IsNull {
                expr: Box::new((&**expr).clone()),
                negated: *negated,
            },
            SimpleExpr::InList { expr, list, negated } => SimpleExpr::InList {
                expr: Box::new((&**expr).clone()),
                list: clone_values(list),
                negated: *negated,
            },
            SimpleExpr::Between { expr, low, high, negated } => SimpleExpr::Between {
                expr: Box::new((&**expr).clone()),
                low: low.clone(),
                high: high.clone(),
                negated: *negated,
            },
            SimpleExpr::Call { func, arg } => SimpleExpr::Call {
                func: *func,
                arg: Box::new((&**arg).clone()),
            },
            SimpleExpr::IfNull { expr, fallback } => SimpleExpr::IfNull {
                expr: Box::new((&**expr).clone()),
                fallback: fallback.clone(),
            },
            SimpleExpr::Exists(query) => SimpleExpr::Exists(Box::new((&**query).clone())),
        }
    }
}

/// Copies the children of a condition.
pub fn clone_children(v: &Vec<ConditionExpression>) -> (r: Vec<ConditionExpression>)
    ensures
        children_model(r@) == children_model(v@),
    decreases v,
{
    let mut out: Vec<ConditionExpression> = Vec::new();
    let mut i: usize = 0;
    while i < v.len()
        invariant
            i <= v.len(),
            out.len() == i,
            children_model(out@) =~= children_model(v@).take(i as int),
        decreases v.len() - i,
    {
        out.push(v[i].clone());
        i += 1;
    }
    out
}

impl Clone for Condition {
    fn clone(&self) -> (r: Self)
        ensures
            r@ == self@,
        decreases self,
    {
        Condition {
            kind: self.kind,
            negated: self.negated,
            children: clone_children(&self.children),
        }
    }
}

impl Clone for ConditionExpression {
    fn clone(&self) -> (r: Self)
        ensures
            r@ == self@,
        decreases self,
    {
        match self {
            ConditionExpression::Condition(c) => ConditionExpression::Condition(c.clone()),
            ConditionExpression::SimpleExpr(e) => ConditionExpression::SimpleExpr(e.clone()),
        }
    }
}

impl SimpleExpr {
    /// `self OR other`. Neither operand is changed.
    pub fn or(&self, other: &Self) -> (r: Self)
        ensures
            r@ == binary(BinaryOp::Or, self@, other@),
    {
        SimpleExpr::Binary {
            op: BinaryOp::Or,
            left: Box::new(self.clone()),
            right: Box::new(other.clone()),
        }
    }

    /// `self AND other`. Neither operand is changed.
    pub fn and(&self, other: &Self) -> (r: Self)
        ensures
            r@ == binary(BinaryOp::And, self@, other@),
    {
        SimpleExpr::Binary {
            op: BinaryOp::And,
            left: Box::new(self.clone()),
            right: Box::new(other.clone()),
        }
    }

    /// `NOT self`. The operand is not changed.
    pub fn not(&self) -> (r: Self)
        ensures
            r@ == SimpleExprModel::Not(Box::new(self@)),
    {
        SimpleExpr::Not(Box::new(self.clone()))
    }
}

/// The left operand of an operator that is still to be chosen: a column, or an
/// expression wrapped to serve as one.
///
/// The operators take the operand by reference and copy it, so that one `Expr` can be
/// the operand of many expressions.
pub struct Expr(pub SimpleExpr);

impl View for Expr {
    type V = SimpleExprModel;

    open spec fn view(&self) -> SimpleExprModel {
        self.0@
    }
}

impl Clone for Expr {
    fn clone(&self) -> (r: Self)
        ensures
            r@ == self@,
    {
        Expr(self.0.clone())
    }
}

/// The kind of a value.
pub fn value_kind_of(v: &PyValue) -> (r: ValueKind)
    ensures
        r == value_kind(v@),
{
    match v {
        PyValue::Bool(_) => ValueKind::Bool,
        PyValue::Float(_) => ValueKind::Number,
        PyValue::Int(_) => ValueKind::Number,
        PyValue::String(_) => ValueKind::Text,
        PyValue::Null => ValueKind::Null,
    }
}

impl Expr {
    /// A reference to a column, qualified by the table if one is given.
    pub fn column(name: String, table: Option<String>) -> (r: Self)
        ensures
            r@ == column(name@, opt_text(table)),
    {
        Expr(SimpleExpr::Column(ColumnRef { table, name }))
    }

    /// A literal value as an operand.
    pub fn value(value: PyValue) -> (r: Self)
        ensures
            r@ == SimpleExprModel::Value(value@),
    {
        Expr(SimpleExpr::Value(value))
    }

    /// Wraps an expression so that it can serve as an operand again; the node is the same.
    pub fn expr(expr: Expr) -> (r: Self)
        ensures
            r@ == expr@,
    {
        expr
    }

    fn compare(&self, op: BinaryOp, value: PyValue) -> (r: SimpleExpr)
        ensures
            r@ == binary(op, self@, SimpleExprModel::Value(value@)),
    {
        let right = SimpleExpr::Value(value);
        assert(right@ == SimpleExprModel::Value(value@));
        SimpleExpr::Binary { op, left: Box::new(self.0.clone()), right: Box::new(right) }
    }

    fn compare_column(&self, op: BinaryOp, name: String, table: Option<String>) -> (r: SimpleExpr)
        ensures
            r@ == binary(op, self@, column(name@, opt_text(table))),
    {
        let right = SimpleExpr::Column(ColumnRef { table, name });
        assert(right@ == column(name@, opt_text(table)));
        SimpleExpr::Binary { op, left: Box::new(self.0.clone()), right: Box::new(right) }
    }

    /// `self = column`, the column qualified by the table if one is given.
    pub fn equals(&self, column: String, table: Option<String>) -> (r: SimpleExpr)
        ensures
            r@ == binary(BinaryOp::Eq, self@, crate::model::column(column@, opt_text(table))),
    {
        self.compare_column(BinaryOp::Eq, column, table)
    }

    /// `self <> column`, the column qualified by the table if one is given.
    pub fn not_equals(&self, column: String, table: Option<String>) -> (r: SimpleExpr)
        ensures
            r@ == binary(BinaryOp::Ne, self@, crate::model::column(column@, opt_text(table))),
    {
        self.compare_column(BinaryOp::Ne, column, table)
    }

    /// `self = value`
    pub fn eq(&self, value: PyValue) -> (r: SimpleExpr)
        ensures
            r@ == binary(BinaryOp::Eq, self@, SimpleExprModel::Value(value@)),
    {
        self.compare(BinaryOp::Eq, value)
    }

    /// `self <> value`
    pub fn ne(&self, value: PyValue) -> (r: SimpleExpr)
        ensures
            r@ == binary(BinaryOp::Ne, self@, SimpleExprModel::Value(value@)),
    {
        self.compare(BinaryOp::Ne, value)
    }

    /// `self > value`
    pub fn gt(&self, value: PyValue) -> (r: SimpleExpr)
        ensures
            r@ == binary(BinaryOp::Gt, self@, SimpleExprModel::Value(value@)),
    {
        self.compare(BinaryOp::Gt, value)
    }

    /// `self >= value`
    pub fn gte(&self, value: PyValue) -> (r: SimpleExpr)
        ensures
            r@ == binary(BinaryOp::Gte, self@, SimpleExprModel::Value(value@)),
    {
        self.compare(BinaryOp::Gte, value)
    }

    /// `self < value`
    pub fn lt(&self, value: PyValue) -> (r: SimpleExpr)
        ensures
            r@ == binary(BinaryOp::Lt, self@, SimpleExprModel::Value(value@)),
    {
        self.compare(BinaryOp::Lt, value)
    }

    /// `self <= value`
    pub fn lte(&self, value: PyValue) -> (r: SimpleExpr)
        ensures
            r@ == binary(BinaryOp::Lte, self@, SimpleExprModel::Value(value@)),
    {
        self.compare(BinaryOp::Lte, value)
    }

    /// `self IS value`
    pub fn is_(&self, value: PyValue) -> (r: SimpleExpr)
        ensures
            r@ == binary(BinaryOp::Is, self@, SimpleExprModel::Value(value@)),
    {
        self.compare(BinaryOp::Is, value)
    }

    /// `self IS NOT value`
    pub fn is_not(&self, value: PyValue) -> (r: SimpleExpr)
        ensures
            r@ == binary(BinaryOp::IsNot, self@, SimpleExprModel::Value(value@)),
    {
        self.compare(BinaryOp::IsNot, value)
    }

    fn membership(&self, values: Vec<PyValue>, negated: bool) -> (r: Result<SimpleExpr, SqlError>)
        ensures
            values@.len() == 0 ==> r == Err::<SimpleExpr, SqlError>(SqlError::MalformedExpression),
            values@.len() > 0 ==> (r matches Ok(e) && e@ == SimpleExprModel::InList {
                expr: Box::new(self@),
                list: value_models(values@),
                negated,
            }),
    {
        if values.len() == 0 {
            Err(SqlError::MalformedExpression)
        } else {
            Ok(SimpleExpr::InList { expr: Box::new(self.0.clone()), list: values, negated })
        }
    }

    /// `self IN (values)`. A list without values is malformed.
    pub fn is_in(&self, values: Vec<PyValue>) -> (r: Result<SimpleExpr, SqlError>)
        ensures
            values@.len() == 0 ==> r == Err::<SimpleExpr, SqlError>(SqlError::MalformedExpression),
            values@.len() > 0 ==> (r matches Ok(e) && e@ == SimpleExprModel::InList {
                expr: Box::new(self@),
                list: value_models(values@),
                negated: false,
            }),
    {
        self.membership(values, false)
    }

    /// `self NOT IN (values)`. A list without values is malformed.
    pub fn is_not_in(&self, values: Vec<PyValue>) -> (r: Result<SimpleExpr, SqlError>)
        ensures
            values@.len() == 0 ==> r == Err::<SimpleExpr, SqlError>(SqlError::MalformedExpression),
            values@.len() > 0 ==> (r matches Ok(e) && e@ == SimpleExprModel::InList {
                expr: Box::new(self@),
                list: value_models(values@),
                negated: true,
            }),
    {
        self.membership(values, true)
    }

    fn range(&self, start: PyValue, end: PyValue, negated: bool) -> (r: Result<
        SimpleExpr,
        SqlError,
    >)
        ensures
            !valid_range(start@, end@) ==> r == Err::<SimpleExpr, SqlError>(
                SqlError::MalformedExpression,
            ),
            valid_range(start@, end@) ==> (r matches Ok(e) && e@ == SimpleExprModel::Between {
                expr: Box::new(self@),
                low: start@,
                high: end@,
                negated,
            }),
    {
        let low_kind = value_kind_of(&start);
        let high_kind = value_kind_of(&end);
        if low_kind == ValueKind::Null || low_kind != high_kind {
            Err(SqlError::MalformedExpression)
        } else {
            Ok(
                SimpleExpr::Between {
                    expr: Box::new(self.0.clone()),
                    low: start,
                    high: end,
                    negated,
                },
            )
        }
    }

    /// `self BETWEEN start AND end`. Bounds of which one is null, or which are of two
    /// kinds, are malformed.
    pub fn between(&self, start: PyValue, end: PyValue) -> (r: Result<SimpleExpr, SqlError>)
        ensures
            !valid_range(start@, end@) ==> r == Err::<SimpleExpr, SqlError>(
                SqlError::MalformedExpression,
            ),
            valid_range(start@, end@) ==> (r matches Ok(e) && e@ == SimpleExprModel::Between {
                expr: Box::new(self@),
                low: start@,
                high: end@,
                negated: false,
            }),
    {
        self.range(start, end, false)
    }

    /// `self NOT BETWEEN start AND end`. Bounds of which one is null, or which are of two
    /// kinds, are malformed.
    pub fn not_between(&self, start: PyValue, end: PyValue) -> (r: Result<SimpleExpr, SqlError>)
        ensures
            !valid_range(start@, end@) ==> r == Err::<SimpleExpr, SqlError>(
                SqlError::MalformedExpression,
            ),
            valid_range(start@, end@) ==> (r matches Ok(e) && e@ == SimpleExprModel::Between {
                expr: Box::new(self@),
                low: start@,
                high: end@,
                negated: true,
            }),
    {
        self.range(start, end, true)
    }

    /// `self LIKE value`, the value being a pattern given as a string literal.
    pub fn like(&self, value: String) -> (r: SimpleExpr)
        ensures
            r@ == binary(
                BinaryOp::Like,
                self@,
                SimpleExprModel::Value(crate::types::ValueModel::Text(value@)),
            ),
    {
        self.compare(BinaryOp::Like, PyValue::String(value))
    }

    /// `self NOT LIKE value`, the value being a pattern given as a string literal.
    pub fn not_like(&self, value: String) -> (r: SimpleExpr)
        ensures
            r@ == binary(
                BinaryOp::NotLike,
                self@,
                SimpleExprModel::Value(crate::types::ValueModel::Text(value@)),
            ),
    {
        self.compare(BinaryOp::NotLike, PyValue::String(value))
    }

    /// `self IS NULL`
    pub fn is_null(&self) -> (r: SimpleExpr)
        ensures
            r@ == (SimpleExprModel::IsNull { expr: Box::new(self@), negated: false }),
    {
        SimpleExpr::IsNull { expr: Box::new(self.0.clone()), negated: false }
    }

    /// `self IS NOT NULL`
    pub fn is_not_null(&self) -> (r: SimpleExpr)
        ensures
            r@ == (SimpleExprModel::IsNull { expr: Box::new(self@), negated: true }),
    {
        SimpleExpr::IsNull { expr: Box::new(self.0.clone()), negated: true }
    }

    fn call(&self, func: Aggregate) -> (r: SimpleExpr)
        ensures
            r@ == (SimpleExprModel::Call { func, arg: Box::new(self@) }),
    {
        SimpleExpr::Call { func, arg: Box::new(self.0.clone()) }
    }

    /// `MAX(self)`
    pub fn max(&self) -> (r: SimpleExpr)
        ensures
            r@ == (SimpleExprModel::Call { func: Aggregate::Max, arg: Box::new(self@) }),
    {
        self.call(Aggregate::Max)
    }

    /// `MIN(self)`
    pub fn min(&self) -> (r: SimpleExpr)
        ensures
            r@ == (SimpleExprModel::Call { func: Aggregate::Min, arg: Box::new(self@) }),
    {
        self.call(Aggregate::Min)
    }

    /// `SUM(self)`
    pub fn sum(&self) -> (r: SimpleExpr)
        ensures
            r@ == (SimpleExprModel::Call { func: Aggregate::Sum, arg: Box::new(self@) }),
    {
        self.call(Aggregate::Sum)
    }

    /// `COUNT(self)`
    pub fn count(&self) -> (r: SimpleExpr)
        ensures
            r@ == (SimpleExprModel::Call { func: Aggregate::Count, arg: Box::new(self@) }),
    {
        self.call(Aggregate::Count)
    }

    /// `COUNT(DISTINCT self)`
    pub fn count_distinct(&self) -> (r: SimpleExpr)
        ensures
            r@ == (SimpleExprModel::Call { func: Aggregate::CountDistinct, arg: Box::new(self@) }),
    {
        self.call(Aggregate::CountDistinct)
    }

    /// `self`, or `value` where `self` is null.
    pub fn if_null(&self, value: PyValue) -> (r: SimpleExpr)
        ensures
            r@ == (SimpleExprModel::IfNull { expr: Box::new(self@), fallback: value@ }),
    {
        SimpleExpr::IfNull { expr: Box::new(self.0.clone()), fallback: value }
    }

    /// `EXISTS(query)`: whether the statement yields a row.
    pub fn exists_(query: SelectStatement) -> (r: SimpleExpr)
        ensures
            r@ == SimpleExprModel::Exists(Box::new(query@)),
    {
        SimpleExpr::Exists(Box::new(query))
    }
}

impl Condition {
    /// The conjunction without children, which holds.
    pub fn all() -> (r: Self)
        ensures
            r@ == (ConditionModel {
                kind: ConditionKind::All,
                negated: false,
                children: Seq::empty(),
            }),
    {
        let r = Condition { kind: ConditionKind::All, negated: false, children: Vec::new() };
        assert(r@.children =~= Seq::empty());
        r
    }

    /// The disjunction without children, which does not hold.
    pub fn any() -> (r: Self)
        ensures
            r@ == (ConditionModel {
                kind: ConditionKind::Any,
                negated: false,
                children: Seq::empty(),
            }),
    {
        let r = Condition { kind: ConditionKind::Any, negated: false, children: Vec::new() };
        assert(r@.children =~= Seq::empty());
        r
    }

    /// The condition with `expr` as its new last child. The receiver is not changed.
    pub fn add(&self, expr: ConditionExpression) -> (r: Self)
        ensures
            r@ == (ConditionModel { children: self@.children.push(expr@), ..self@ }),
    {
        let mut children = clone_children(&self.children);
        proof {
            lemma_children_model_push(children@, expr);
        }
        children.push(expr);
        Condition { kind: self.kind, negated: self.negated, children }
    }

    /// The negation of the whole condition. The receiver is not changed.
    pub fn not(&self) -> (r: Self)
        ensures
            r@ == negation(self@),
    {
        Condition {
            kind: self.kind,
            negated: !self.negated,
            children: clone_children(&self.children),
        }
    }
}

/// The conflict clause of an `INSERT`.
pub struct OnConflict {
    pub columns: Vec<String>,
    pub do_nothing: bool,
}

impl View for OnConflict {
    type V = OnConflictModel;

    open spec fn view(&self) -> OnConflictModel {
        OnConflictModel { columns: string_views(self.columns@), do_nothing: self.do_nothing }
    }
}

impl Clone for OnConflict {
    fn clone(&self) -> (r: Self)
        ensures
            r@ == self@,
    {
        OnConflict { columns: clone_strings(&self.columns), do_nothing: self.do_nothing }
    }
}

impl OnConflict {
    /// A conflict on one column, with no action chosen yet.
    pub fn column(name: String) -> (r: Self)
        ensures
            r@ == (OnConflictModel { columns: seq![name@], do_nothing: false }),
    {
        let mut columns: Vec<String> = Vec::new();
        columns.push(name);
        let r = OnConflict { columns, do_nothing: false };
        assert(r@.columns =~= seq![name@]);
        r
    }

    /// A conflict on the given columns, with no action chosen yet.
    pub fn columns(columns: Vec<String>) -> (r: Self)
        ensures
            r@ == (OnConflictModel { columns: string_views(columns@), do_nothing: false }),
    {
        OnConflict { columns, do_nothing: false }
    }

    /// Chooses the action: on a conflict the row is not inserted.
    pub fn do_nothing(self) -> (r: Self)
        ensures
            r@ == (OnConflictModel { do_nothing: true, ..self@ }),
    {
        OnConflict { columns: self.columns, do_nothing: true }
    }
}

} // verus!
