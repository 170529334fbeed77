//! The truth value of conditions under SQL's three-valued logic, and the laws that the
//! condition tree obeys.
//!
//! What an expression that is no `AND`, `OR` or `NOT` evaluates to depends on the rows it
//! is asked about; an interpretation stands for that. Everything above such expressions
//! is fixed by the logic.

use vstd::prelude::*;
use crate::model::{
    BinaryOp, ConditionExpressionModel, ConditionKind, ConditionModel, SimpleExprModel, negation,
};

verus! {

/// A truth value of SQL: a comparison with NULL is neither true nor false.
#[derive(Clone, Copy, Debug, PartialEq, Eq, Structural)]
pub enum Truth {
    True,
    False,
    Unknown,
}

/// Negation: unknown stays unknown.
pub open spec fn truth_not(a: Truth) -> Truth {
    match a {
        Truth::True => Truth::False,
        Truth::False => Truth::True,
        Truth::Unknown => Truth::Unknown,
    }
}

/// Conjunction: false if one side is false, true if both are true, else unknown.
pub open spec fn truth_and(a: Truth, b: Truth) -> Truth {
    if a == Truth::False || b == Truth::False {
        Truth::False
    } else if a == Truth::True && b == Truth::True {
        Truth::True
    } else {
        Truth::Unknown
    }
}

/// Disjunction: true if one side is true, false if both are false, else unknown.
pub open spec fn truth_or(a: Truth, b: Truth) -> Truth {
    if a == Truth::True || b == Truth::True {
        Truth::True
    } else if a == Truth::False && b == Truth::False {
        Truth::False
    } else {
        Truth::Unknown
    }
}

/// The truth value of the combination of no children: true for a conjunction, false for
/// a disjunction.
pub open spec fn truth_unit(kind: ConditionKind) -> Truth {
    match kind {
        ConditionKind::All => Truth::True,
        ConditionKind::Any => Truth::False,
    }
}

/// The conjunction or disjunction of two truth values, by the kind.
pub open spec fn truth_combine(kind: ConditionKind, a: Truth, b: Truth) -> Truth {
    match kind {
        ConditionKind::All => truth_and(a, b),
        ConditionKind::Any => truth_or(a, b),
    }
}

/// The truth value of an expression: `AND`, `OR` and `NOT` by the logic, every other
/// expression by the interpretation.
pub open spec fn expr_truth(e: SimpleExprModel, atoms: spec_fn(SimpleExprModel) -> Truth) -> Truth
    decreases e,
{
    match e {
        SimpleExprModel::Not(inner) => truth_not(expr_truth(*inner, atoms)),
        SimpleExprModel::Binary { op, left, right } => if op == BinaryOp::And {
            truth_and(expr_truth(*left, atoms), expr_truth(*right, atoms))
        } else if op == BinaryOp::Or {
            truth_or(expr_truth(*left, atoms), expr_truth(*right, atoms))
        } else {
            atoms(e)
        },
        _ => atoms(e),
    }
}

/// The truth value of the first `n` children, combined.
pub open spec fn children_truth(
    kind: ConditionKind,
    children: Seq<ConditionExpressionModel>,
    n: nat,
    atoms: spec_fn(SimpleExprModel) -> Truth,
) -> Truth
    decreases children, n,
{
    if n == 0 || n > children.len() {
        truth_unit(kind)
    } else {
        truth_combine(
            kind,
            children_truth(kind, children, (n - 1) as nat, atoms),
            child_truth(children[n - 1], atoms),
        )
    }
}

/// The truth value of a condition.
pub open spec fn condition_truth(c: ConditionModel, atoms: spec_fn(SimpleExprModel) -> Truth) -> Truth
    decreases c,
{
    let body = children_truth(c.kind, c.children, c.children.len(), atoms);
    if c.negated {
        truth_not(body)
    } else {
        body
    }
}

/// The truth value of a child of a condition.
pub open spec fn child_truth(
    c: ConditionExpressionModel,
    atoms: spec_fn(SimpleExprModel) -> Truth,
) -> Truth
    decreases c,
{
    match c {
        ConditionExpressionModel::Condition(inner) => condition_truth(inner, atoms),
        ConditionExpressionModel::SimpleExpr(e) => expr_truth(e, atoms),
    }
}

/// The condition of the given kind with these children, not negated.
pub open spec fn combination(kind: ConditionKind, children: Seq<ConditionExpressionModel>) -> ConditionModel {
    ConditionModel { kind, negated: false, children }
}

/// The negation of a child: of a nested condition its negation, of an expression its
/// `NOT`.
pub open spec fn negated_child(c: ConditionExpressionModel) -> ConditionExpressionModel {
    match c {
        ConditionExpressionModel::Condition(inner) => ConditionExpressionModel::Condition(
            negation(inner),
        ),
        ConditionExpressionModel::SimpleExpr(e) => ConditionExpressionModel::SimpleExpr(
            SimpleExprModel::Not(Box::new(e)),
        ),
    }
}

/// The children, each negated.
pub open spec fn negated_children(v: Seq<ConditionExpressionModel>) -> Seq<ConditionExpressionModel> {
    Seq::new(v.len(), |i: int| negated_child(v[i]))
}

/// The other kind.
pub open spec fn opposite(kind: ConditionKind) -> ConditionKind {
    match kind {
        ConditionKind::All => ConditionKind::Any,
        ConditionKind::Any => ConditionKind::All,
    }
}

/// What the children before and after a place evaluate to does not depend on children
/// beyond those that are counted.
proof fn lemma_children_truth_prefix(
    kind: ConditionKind,
    a: Seq<ConditionExpressionModel>,
    b: Seq<ConditionExpressionModel>,
    n: nat,
    atoms: spec_fn(SimpleExprModel) -> Truth,
)
    requires
        n <= a.len(),
        n <= b.len(),
        forall|i: int| 0 <= i < n ==> a[i] == b[i],
    ensures
        children_truth(kind, a, n, atoms) == children_truth(kind, b, n, atoms),
    decreases n,
{
    if n > 0 {
        lemma_children_truth_prefix(kind, a, b, (n - 1) as nat, atoms);
    }
}

/// The children of a concatenation evaluate to the combination of what the two parts
/// evaluate to.
proof fn lemma_children_truth_concat(
    kind: ConditionKind,
    a: Seq<ConditionExpressionModel>,
    b: Seq<ConditionExpressionModel>,
    n: nat,
    atoms: spec_fn(SimpleExprModel) -> Truth,
)
    requires
        n <= b.len(),
    ensures
        children_truth(kind, a + b, a.len() + n, atoms) == truth_combine(
            kind,
            children_truth(kind, a, a.len(), atoms),
            children_truth(kind, b, n, atoms),
        ),
    decreases n,
{
    if n == 0 {
        lemma_children_truth_prefix(kind, a + b, a, a.len(), atoms);
    } else {
        lemma_children_truth_concat(kind, a, b, (n - 1) as nat, atoms);
    }
}

/// Negating a condition negates its truth value.
pub proof fn lemma_negation_negates(c: ConditionModel, atoms: spec_fn(SimpleExprModel) -> Truth)
    ensures
        condition_truth(negation(c), atoms) == truth_not(condition_truth(c, atoms)),
{
}

/// Negating a child negates its truth value.
pub proof fn lemma_negated_child_truth(
    c: ConditionExpressionModel,
    atoms: spec_fn(SimpleExprModel) -> Truth,
)
    ensures
        child_truth(negated_child(c), atoms) == truth_not(child_truth(c, atoms)),
{
    match c {
        ConditionExpressionModel::Condition(inner) => {
            lemma_negation_negates(inner, atoms);
        },
        ConditionExpressionModel::SimpleExpr(e) => {
        },
    }
}

proof fn lemma_de_morgan_children(
    kind: ConditionKind,
    children: Seq<ConditionExpressionModel>,
    n: nat,
    atoms: spec_fn(SimpleExprModel) -> Truth,
)
    requires
        n <= children.len(),
    ensures
        truth_not(children_truth(kind, children, n, atoms)) == children_truth(
            opposite(kind),
            negated_children(children),
            n,
            atoms,
        ),
    decreases n,
{
    if n > 0 {
        lemma_de_morgan_children(kind, children, (n - 1) as nat, atoms);
        lemma_negated_child_truth(children[n - 1], atoms);
    }
}

/// Associativity: a conjunction nested in a conjunction, or a disjunction in a
/// disjunction, evaluates as the flattened condition does. The children `before` are
/// followed either by one nested, not negated condition of the same kind with the
/// children `inner`, or by the children `inner` themselves.
pub proof fn lemma_nesting_is_flattening(
    kind: ConditionKind,
    before: Seq<ConditionExpressionModel>,
    inner: Seq<ConditionExpressionModel>,
    atoms: spec_fn(SimpleExprModel) -> Truth,
)
    ensures
        condition_truth(
            combination(
                kind,
                before.push(ConditionExpressionModel::Condition(combination(kind, inner))),
            ),
            atoms,
        ) == condition_truth(combination(kind, before + inner), atoms),
{
    let nested = ConditionExpressionModel::Condition(combination(kind, inner));
    let wrapped = before.push(nested);
    lemma_children_truth_prefix(kind, wrapped, before, before.len(), atoms);
    lemma_children_truth_concat(kind, before, inner, inner.len(), atoms);
    assert(child_truth(nested, atoms) == children_truth(kind, inner, inner.len(), atoms));
}

/// De Morgan: the negation of a conjunction evaluates as the disjunction of the negated
/// children does, and the negation of a disjunction as the conjunction of the negated
/// children.
pub proof fn lemma_de_morgan(
    kind: ConditionKind,
    children: Seq<ConditionExpressionModel>,
    atoms: spec_fn(SimpleExprModel) -> Truth,
)
    ensures
        condition_truth(negation(combination(kind, children)), atoms) == condition_truth(
            combination(opposite(kind), negated_children(children)),
            atoms,
        ),
{
    lemma_de_morgan_children(kind, children, children.len(), atoms);
}

/// `A AND (B AND C)` evaluates as `A AND B AND C` does, whatever `A`, `B` and `C` are, and
/// so it is for `OR`.
pub proof fn lemma_nested_triple(
    kind: ConditionKind,
    a: ConditionExpressionModel,
    b: ConditionExpressionModel,
    c: ConditionExpressionModel,
    atoms: spec_fn(SimpleExprModel) -> Truth,
)
    ensures
        condition_truth(
            combination(
                kind,
                seq![a, ConditionExpressionModel::Condition(combination(kind, seq![b, c]))],
            ),
            atoms,
        ) == condition_truth(combination(kind, seq![a, b, c]), atoms),
{
    lemma_nesting_is_flattening(kind, seq![a], seq![b, c], atoms);
    assert(seq![a].push(ConditionExpressionModel::Condition(combination(kind, seq![b, c])))
        =~= seq![a, ConditionExpressionModel::Condition(combination(kind, seq![b, c]))]);
    assert(seq![a] + seq![b, c] =~= seq![a, b, c]);
}

/// `NOT (A AND B)` evaluates as `(NOT A) OR (NOT B)` does, whatever `A` and `B` are.
pub proof fn lemma_not_and_is_or_of_nots(
    a: ConditionExpressionModel,
    b: ConditionExpressionModel,
    atoms: spec_fn(SimpleExprModel) -> Truth,
)
    ensures
        condition_truth(negation(combination(ConditionKind::All, seq![a, b])), atoms)
            == condition_truth(
            combination(ConditionKind::Any, seq![negated_child(a), negated_child(b)]),
            atoms,
        ),
{
    lemma_de_morgan(ConditionKind::All, seq![a, b], atoms);
    assert(negated_children(seq![a, b]) =~= seq![negated_child(a), negated_child(b)]);
}

/// Negating a condition twice gives the condition back.
pub proof fn lemma_double_negation(c: ConditionModel)
    ensures
        negation(negation(c)) == c,
{
}

} // verus!
