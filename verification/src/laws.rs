//! Laws of the `SELECT` builder: the text is a function of the accumulated clauses, the
//! clauses stand in one fixed order at growing offsets, and the order of the calls
//! matters only among calls that write to the same place.

use vstd::prelude::*;
use crate::gate::select_problem;
use crate::model::{
    SelectField, SelectModel, SelectPart, SelectStep, apply_step, field_of, part_of,
};
use crate::query::{SelectStatement, select_sql, sql_view};
use crate::render::{
    column_texts, distinct_text, filter_text, from_text, group_by_text, join_texts, joins_text,
    limit_text, lock_behavior_text, lock_tables_text, lock_text, offset_text, order_by_text,
    order_texts, projection_texts, select_text, source_text, union_texts, unions_text,
};
use crate::text::{joined, nat_text};
use crate::types::{Clause, DBEngine, SqlError};

verus! {

/// The text of one clause of a statement. It reads only what belongs to the clause.
pub open spec fn part_text(m: SelectModel, p: SelectPart, d: DBEngine) -> Seq<char> {
    match p {
        SelectPart::Projection => "SELECT "@ + distinct_text(m.distinct) + joined(
            projection_texts(m.projection, d),
            ", "@,
        ),
        SelectPart::From => from_text(m.from, d),
        SelectPart::Joins => joins_text(m.joins, d),
        SelectPart::Where => filter_text(" WHERE "@, m.wheres, d),
        SelectPart::GroupBy => group_by_text(m.group_by, d),
        SelectPart::Having => filter_text(" HAVING "@, m.having, d),
        SelectPart::Unions => unions_text(m.unions, d),
        SelectPart::OrderBy => order_by_text(m.order_by, d),
        SelectPart::LimitOffset => limit_text(m.limit, m.offset, d) + offset_text(m.offset),
        SelectPart::Lock => lock_text(m.lock, d),
    }
}

/// The statement after a sequence of builder calls.
pub open spec fn apply_steps(m: SelectModel, steps: Seq<SelectStep>) -> SelectModel
    decreases steps.len(),
{
    if steps.len() == 0 {
        m
    } else {
        apply_step(apply_steps(m, steps.drop_last()), steps.last())
    }
}

/// The steps with those at `i` and `i + 1` exchanged.
pub open spec fn swapped(steps: Seq<SelectStep>, i: int) -> Seq<SelectStep> {
    steps.update(i, steps[i + 1]).update(i + 1, steps[i])
}

/// Rendering is deterministic: two statements with the same model give the same result
/// for the same dialect, text for text and error for error.
pub proof fn lemma_rendering_is_deterministic(
    a: SelectStatement,
    b: SelectStatement,
    d: DBEngine,
    first: Result<String, SqlError>,
    second: Result<String, SqlError>,
)
    requires
        a@ == b@,
        sql_view(first) == select_sql(a@, d),
        sql_view(second) == select_sql(b@, d),
    ensures
        sql_view(first) == sql_view(second),
{
}

/// The text of a statement is the text of its clauses in the order projection, source,
/// joins, filter, grouping, group filter, set operations, ordering, limit and offset,
/// lock.
pub proof fn lemma_clauses_stand_in_order(m: SelectModel, d: DBEngine)
    ensures
        select_text(m, d) == part_text(m, SelectPart::Projection, d) + part_text(
            m,
            SelectPart::From,
            d,
        ) + part_text(m, SelectPart::Joins, d) + part_text(m, SelectPart::Where, d) + part_text(
            m,
            SelectPart::GroupBy,
            d,
        ) + part_text(m, SelectPart::Having, d) + part_text(m, SelectPart::Unions, d) + part_text(
            m,
            SelectPart::OrderBy,
            d,
        ) + part_text(m, SelectPart::LimitOffset, d) + part_text(m, SelectPart::Lock, d),
{
}

/// The clauses in the order in which they are written, counted from 0.
pub open spec fn part_at(k: int) -> SelectPart {
    if k <= 0 {
        SelectPart::Projection
    } else if k == 1 {
        SelectPart::From
    } else if k == 2 {
        SelectPart::Joins
    } else if k == 3 {
        SelectPart::Where
    } else if k == 4 {
        SelectPart::GroupBy
    } else if k == 5 {
        SelectPart::Having
    } else if k == 6 {
        SelectPart::Unions
    } else if k == 7 {
        SelectPart::OrderBy
    } else if k == 8 {
        SelectPart::LimitOffset
    } else {
        SelectPart::Lock
    }
}

/// The place of a clause in the order in which the clauses are written.
pub open spec fn part_index(p: SelectPart) -> int {
    match p {
        SelectPart::Projection => 0,
        SelectPart::From => 1,
        SelectPart::Joins => 2,
        SelectPart::Where => 3,
        SelectPart::GroupBy => 4,
        SelectPart::Having => 5,
        SelectPart::Unions => 6,
        SelectPart::OrderBy => 7,
        SelectPart::LimitOffset => 8,
        SelectPart::Lock => 9,
    }
}

/// The text of the first `k` clauses.
pub open spec fn text_before(m: SelectModel, k: int, d: DBEngine) -> Seq<char>
    decreases k,
{
    if k <= 0 {
        Seq::empty()
    } else {
        text_before(m, k - 1, d) + part_text(m, part_at(k - 1), d)
    }
}

/// The offset in the text of a statement at which a clause begins.
pub open spec fn part_start(m: SelectModel, p: SelectPart, d: DBEngine) -> int {
    text_before(m, part_index(p), d).len() as int
}

/// Whether a text begins with another.
pub open spec fn begins_with(text: Seq<char>, prefix: Seq<char>) -> bool {
    prefix.len() <= text.len() && text.subrange(0, prefix.len() as int) == prefix
}

proof fn lemma_text_before_grows(m: SelectModel, k: int, j: int, d: DBEngine)
    requires
        0 <= k <= j,
    ensures
        text_before(m, k, d).len() <= text_before(m, j, d).len(),
        text_before(m, j, d).subrange(0, text_before(m, k, d).len() as int) == text_before(m, k, d),
    decreases j - k,
{
    if k < j {
        lemma_text_before_grows(m, k, j - 1, d);
        let shorter = text_before(m, j - 1, d);
        let n = text_before(m, k, d).len() as int;
        assert(text_before(m, j, d).subrange(0, n) =~= shorter.subrange(0, n));
    } else {
        assert(text_before(m, k, d).subrange(0, text_before(m, k, d).len() as int) =~= text_before(
            m,
            k,
            d,
        ));
    }
}

proof fn lemma_text_is_all_clauses(m: SelectModel, d: DBEngine)
    ensures
        select_text(m, d) == text_before(m, 10, d),
{
    lemma_clauses_stand_in_order(m, d);
    assert(text_before(m, 0, d) =~= Seq::<char>::empty());
    assert(text_before(m, 1, d) =~= part_text(m, SelectPart::Projection, d));
    assert(text_before(m, 2, d) == text_before(m, 1, d) + part_text(m, SelectPart::From, d));
    assert(text_before(m, 3, d) == text_before(m, 2, d) + part_text(m, SelectPart::Joins, d));
    assert(text_before(m, 4, d) == text_before(m, 3, d) + part_text(m, SelectPart::Where, d));
    assert(text_before(m, 5, d) == text_before(m, 4, d) + part_text(m, SelectPart::GroupBy, d));
    assert(text_before(m, 6, d) == text_before(m, 5, d) + part_text(m, SelectPart::Having, d));
    assert(text_before(m, 7, d) == text_before(m, 6, d) + part_text(m, SelectPart::Unions, d));
    assert(text_before(m, 8, d) == text_before(m, 7, d) + part_text(m, SelectPart::OrderBy, d));
    assert(text_before(m, 9, d) == text_before(m, 8, d) + part_text(
        m,
        SelectPart::LimitOffset,
        d,
    ));
    assert(text_before(m, 10, d) == text_before(m, 9, d) + part_text(m, SelectPart::Lock, d));
}

proof fn lemma_clause_within(m: SelectModel, k: int, j: int, d: DBEngine)
    requires
        0 <= k < j,
    ensures
        text_before(m, k, d).len() + part_text(m, part_at(k), d).len() <= text_before(m, j, d).len(),
        text_before(m, j, d).subrange(
            text_before(m, k, d).len() as int,
            (text_before(m, k, d).len() + part_text(m, part_at(k), d).len()) as int,
        ) == part_text(m, part_at(k), d),
{
    let start = text_before(m, k, d).len() as int;
    let end = start + part_text(m, part_at(k), d).len();
    let upto = text_before(m, k + 1, d);
    assert(upto == text_before(m, k, d) + part_text(m, part_at(k), d));
    lemma_text_before_grows(m, k + 1, j, d);
    assert(upto.subrange(start, end) =~= part_text(m, part_at(k), d));
    assert(text_before(m, j, d).subrange(start, end) =~= text_before(m, j, d).subrange(
        0,
        end,
    ).subrange(start, end));
}

/// Every clause stands in the text of the statement, at its offset: the text is the
/// clauses one after the other, and the part of the text from the offset of a clause on
/// is the text of that clause.
pub proof fn lemma_clause_stands_at_its_offset(m: SelectModel, p: SelectPart, d: DBEngine)
    ensures
        select_text(m, d) == text_before(m, 10, d),
        0 <= part_start(m, p, d),
        part_start(m, p, d) + part_text(m, p, d).len() <= select_text(m, d).len(),
        select_text(m, d).subrange(
            part_start(m, p, d),
            part_start(m, p, d) + part_text(m, p, d).len(),
        ) == part_text(m, p, d),
{
    lemma_text_is_all_clauses(m, d);
    assert(part_at(part_index(p)) == p);
    lemma_clause_within(m, part_index(p), 10, d);
}

/// The clauses stand at growing offsets: a clause ends before a later clause begins,
/// whatever the order in which they were added.
pub proof fn lemma_clauses_stand_at_growing_offsets(
    m: SelectModel,
    p: SelectPart,
    q: SelectPart,
    d: DBEngine,
)
    requires
        part_index(p) < part_index(q),
    ensures
        part_start(m, p, d) + part_text(m, p, d).len() <= part_start(m, q, d),
{
    let k = part_index(p);
    assert(part_at(k) == p);
    assert(text_before(m, k + 1, d).len() == text_before(m, k, d).len() + part_text(m, p, d).len());
    lemma_text_before_grows(m, k + 1, part_index(q), d);
}

/// A clause that is there begins with its keyword, and a clause that nothing was added
/// to is empty.
pub proof fn lemma_clause_begins_with_its_keyword(m: SelectModel, d: DBEngine)
    ensures
        begins_with(part_text(m, SelectPart::Projection, d), "SELECT "@),
        match m.from {
            Some(_) => begins_with(part_text(m, SelectPart::From, d), " FROM "@),
            None => part_text(m, SelectPart::From, d).len() == 0,
        },
        if m.joins.len() > 0 {
            begins_with(part_text(m, SelectPart::Joins, d), " "@)
        } else {
            part_text(m, SelectPart::Joins, d).len() == 0
        },
        if m.wheres.len() > 0 {
            begins_with(part_text(m, SelectPart::Where, d), " WHERE "@)
        } else {
            part_text(m, SelectPart::Where, d).len() == 0
        },
        if m.group_by.len() > 0 {
            begins_with(part_text(m, SelectPart::GroupBy, d), " GROUP BY "@)
        } else {
            part_text(m, SelectPart::GroupBy, d).len() == 0
        },
        if m.having.len() > 0 {
            begins_with(part_text(m, SelectPart::Having, d), " HAVING "@)
        } else {
            part_text(m, SelectPart::Having, d).len() == 0
        },
        if m.unions.len() > 0 {
            begins_with(part_text(m, SelectPart::Unions, d), " "@)
        } else {
            part_text(m, SelectPart::Unions, d).len() == 0
        },
        if m.order_by.len() > 0 {
            begins_with(part_text(m, SelectPart::OrderBy, d), " ORDER BY "@)
        } else {
            part_text(m, SelectPart::OrderBy, d).len() == 0
        },
        part_text(m, SelectPart::LimitOffset, d) == limit_text(m.limit, m.offset, d) + offset_text(
            m.offset,
        ),
        match m.limit {
            Some(_) => begins_with(limit_text(m.limit, m.offset, d), " LIMIT "@),
            None => m.offset is None ==> limit_text(m.limit, m.offset, d).len() == 0,
        },
        match m.offset {
            Some(_) => begins_with(offset_text(m.offset), " OFFSET "@),
            None => offset_text(m.offset).len() == 0,
        },
        match m.lock {
            Some(_) => begins_with(part_text(m, SelectPart::Lock, d), " FOR "@),
            None => part_text(m, SelectPart::Lock, d).len() == 0,
        },
{
    lemma_begins_with_its_head("SELECT "@, distinct_text(m.distinct), joined(
        projection_texts(m.projection, d),
        ", "@,
    ));
    match m.from {
        Some(s) => {
            lemma_begins_with_its_head(" FROM "@, source_text(s, d), Seq::empty());
        },
        None => {},
    }
    if m.joins.len() > 0 {
        lemma_begins_with_its_head(
            " "@,
            joined(join_texts(m.joins, d), " "@),
            Seq::empty(),
        );
    }
    if m.wheres.len() > 0 {
        let rest = part_text(m, SelectPart::Where, d).subrange(
            " WHERE "@.len() as int,
            part_text(m, SelectPart::Where, d).len() as int,
        );
        assert(part_text(m, SelectPart::Where, d) =~= " WHERE "@ + rest);
        lemma_begins_with_its_head(" WHERE "@, rest, Seq::empty());
    }
    if m.group_by.len() > 0 {
        lemma_begins_with_its_head(
            " GROUP BY "@,
            joined(column_texts(m.group_by, d), ", "@),
            Seq::empty(),
        );
    }
    if m.having.len() > 0 {
        let rest = part_text(m, SelectPart::Having, d).subrange(
            " HAVING "@.len() as int,
            part_text(m, SelectPart::Having, d).len() as int,
        );
        assert(part_text(m, SelectPart::Having, d) =~= " HAVING "@ + rest);
        lemma_begins_with_its_head(" HAVING "@, rest, Seq::empty());
    }
    if m.unions.len() > 0 {
        lemma_begins_with_its_head(
            " "@,
            joined(union_texts(m.unions, d), " "@),
            Seq::empty(),
        );
    }
    if m.order_by.len() > 0 {
        lemma_begins_with_its_head(
            " ORDER BY "@,
            joined(order_texts(m.order_by, d), ", "@),
            Seq::empty(),
        );
    }
    match m.limit {
        Some(n) => {
            lemma_begins_with_its_head(
                " LIMIT "@,
                nat_text(n as nat),
                Seq::empty(),
            );
        },
        None => {},
    }
    match m.offset {
        Some(n) => {
            lemma_begins_with_its_head(
                " OFFSET "@,
                nat_text(n as nat),
                Seq::empty(),
            );
        },
        None => {},
    }
    match m.lock {
        Some(l) => {
            lemma_begins_with_its_head(
                " FOR "@,
                l.kind.keyword_spec(),
                lock_tables_text(l.tables, d) + lock_behavior_text(
                    l.behavior,
                ),
            );
            assert(lock_text(m.lock, d) =~= " FOR "@ + l.kind.keyword_spec() + (
            lock_tables_text(l.tables, d) + lock_behavior_text(
                l.behavior,
            )));
        },
        None => {},
    }
}

proof fn lemma_begins_with_its_head(head: Seq<char>, middle: Seq<char>, tail: Seq<char>)
    ensures
        begins_with(head + middle + tail, head),
        begins_with(head + middle, head),
{
    assert((head + middle + tail).subrange(0, head.len() as int) =~= head);
    assert((head + middle).subrange(0, head.len() as int) =~= head);
}

/// A statement with a row lock is never rendered for SQLite. If nothing else keeps it
/// from SQLite, the error names the lock.
pub proof fn lemma_locked_statement_fails_on_sqlite(m: SelectModel)
    requires
        m.lock is Some,
    ensures
        select_sql(m, DBEngine::Sqlite) is Err,
        select_problem(SelectModel { lock: None, ..m }, DBEngine::Sqlite) is None ==> select_sql(
            m,
            DBEngine::Sqlite,
        ) == Err::<Seq<char>, SqlError>(
            SqlError::UnsupportedFeature { dialect: DBEngine::Sqlite, clause: Clause::Lock },
        ),
{
}

/// A builder call changes the text of no clause but its own.
pub proof fn lemma_step_keeps_other_clauses(
    m: SelectModel,
    step: SelectStep,
    p: SelectPart,
    d: DBEngine,
)
    requires
        part_of(step) != p,
    ensures
        part_text(apply_step(m, step), p, d) == part_text(m, p, d),
{
}

/// Two builder calls that write to different places give the same statement in either
/// order. A limit and an offset are such calls, though they stand in one clause.
pub proof fn lemma_steps_commute(m: SelectModel, a: SelectStep, b: SelectStep)
    requires
        field_of(a) != field_of(b),
    ensures
        apply_step(apply_step(m, a), b) == apply_step(apply_step(m, b), a),
{
}

/// In a sequence of builder calls, two neighbours that write to different places can be
/// exchanged: the statement, and with it the rendered text, stays the same.
pub proof fn lemma_call_order_is_irrelevant(
    m: SelectModel,
    steps: Seq<SelectStep>,
    i: int,
    d: DBEngine,
)
    requires
        0 <= i,
        i + 1 < steps.len(),
        field_of(steps[i]) != field_of(steps[i + 1]),
    ensures
        apply_steps(m, swapped(steps, i)) == apply_steps(m, steps),
        select_sql(apply_steps(m, swapped(steps, i)), d) == select_sql(apply_steps(m, steps), d),
    decreases steps.len(),
{
    let other = swapped(steps, i);
    if i + 2 == steps.len() {
        let front = steps.drop_last().drop_last();
        assert(other.drop_last().drop_last() =~= front);
        let base = apply_steps(m, front);
        assert(apply_steps(m, other.drop_last()) == apply_step(base, steps[i + 1]));
        lemma_steps_commute(base, steps[i], steps[i + 1]);
    } else {
        assert(other.drop_last() =~= swapped(steps.drop_last(), i));
        lemma_call_order_is_irrelevant(m, steps.drop_last(), i, d);
    }
}

/// Whether two statements hold the same in one place.
pub open spec fn same_field(x: SelectModel, y: SelectModel, f: SelectField) -> bool {
    match f {
        SelectField::Distinct => x.distinct == y.distinct,
        SelectField::Projection => x.projection == y.projection,
        SelectField::From => x.from == y.from,
        SelectField::Joins => x.joins == y.joins,
        SelectField::Where => x.wheres == y.wheres,
        SelectField::GroupBy => x.group_by == y.group_by,
        SelectField::Having => x.having == y.having,
        SelectField::Unions => x.unions == y.unions,
        SelectField::OrderBy => x.order_by == y.order_by,
        SelectField::Limit => x.limit == y.limit,
        SelectField::Offset => x.offset == y.offset,
        SelectField::Lock => x.lock == y.lock,
    }
}

/// The calls of a sequence that write to one place, in their order.
pub open spec fn calls_on(steps: Seq<SelectStep>, f: SelectField) -> Seq<SelectStep>
    decreases steps.len(),
{
    if steps.len() == 0 {
        Seq::empty()
    } else if field_of(steps.last()) == f {
        calls_on(steps.drop_last(), f).push(steps.last())
    } else {
        calls_on(steps.drop_last(), f)
    }
}

/// What a call leaves in the place it writes to depends on what was there and on
/// nothing else; every other place it leaves as it was.
pub proof fn lemma_step_writes_to_its_field(
    x: SelectModel,
    y: SelectModel,
    step: SelectStep,
    f: SelectField,
)
    ensures
        field_of(step) != f ==> same_field(apply_step(x, step), x, f),
        same_field(x, y, field_of(step)) ==> same_field(
            apply_step(x, step),
            apply_step(y, step),
            field_of(step),
        ),
{
}

/// What a sequence of calls leaves in one place is what the calls on that place alone
/// would have left there.
pub proof fn lemma_field_depends_on_its_calls(m: SelectModel, steps: Seq<SelectStep>, f: SelectField)
    ensures
        same_field(apply_steps(m, steps), apply_steps(m, calls_on(steps, f)), f),
    decreases steps.len(),
{
    if steps.len() > 0 {
        let front = steps.drop_last();
        let last = steps.last();
        lemma_field_depends_on_its_calls(m, front, f);
        lemma_step_writes_to_its_field(
            apply_steps(m, front),
            apply_steps(m, calls_on(front, f)),
            last,
            f,
        );
        if field_of(last) == f {
            assert(calls_on(front, f).push(last).drop_last() =~= calls_on(front, f));
        }
    }
}

/// Two statements that hold the same in every place are the same.
pub proof fn lemma_same_in_every_field(x: SelectModel, y: SelectModel)
    requires
        forall|f: SelectField| same_field(x, y, f),
    ensures
        x == y,
{
    assert(same_field(x, y, SelectField::Distinct));
    assert(same_field(x, y, SelectField::Projection));
    assert(same_field(x, y, SelectField::From));
    assert(same_field(x, y, SelectField::Joins));
    assert(same_field(x, y, SelectField::Where));
    assert(same_field(x, y, SelectField::GroupBy));
    assert(same_field(x, y, SelectField::Having));
    assert(same_field(x, y, SelectField::Unions));
    assert(same_field(x, y, SelectField::OrderBy));
    assert(same_field(x, y, SelectField::Limit));
    assert(same_field(x, y, SelectField::Offset));
    assert(same_field(x, y, SelectField::Lock));
}

/// The statement, and with it the rendered text, depends on the calls only through what
/// was called on each place, in the order of those calls: two sequences of calls that
/// agree on that give the same statement, however the calls on different places are
/// interleaved.
pub proof fn lemma_only_the_calls_on_each_place_matter(
    m: SelectModel,
    a: Seq<SelectStep>,
    b: Seq<SelectStep>,
    d: DBEngine,
)
    requires
        forall|f: SelectField| #[trigger] calls_on(a, f) == calls_on(b, f),
    ensures
        apply_steps(m, a) == apply_steps(m, b),
        select_sql(apply_steps(m, a), d) == select_sql(apply_steps(m, b), d),
{
    assert forall|f: SelectField| same_field(apply_steps(m, a), apply_steps(m, b), f) by {
        lemma_field_depends_on_its_calls(m, a, f);
        lemma_field_depends_on_its_calls(m, b, f);
        assert(calls_on(a, f) == calls_on(b, f));
    }
    lemma_same_in_every_field(apply_steps(m, a), apply_steps(m, b));
}

/// No two calls of the sequence write to the same place.
pub open spec fn once_per_field(steps: Seq<SelectStep>) -> bool {
    forall|i: int, j: int|
        0 <= i < j < steps.len() ==> field_of(#[trigger] steps[i]) != field_of(#[trigger] steps[j])
}

/// The two sequences hold the same calls.
pub open spec fn same_calls(a: Seq<SelectStep>, b: Seq<SelectStep>) -> bool {
    forall|s: SelectStep| a.contains(s) <==> b.contains(s)
}

proof fn lemma_calls_on_absent(steps: Seq<SelectStep>, f: SelectField)
    requires
        forall|i: int| 0 <= i < steps.len() ==> field_of(#[trigger] steps[i]) != f,
    ensures
        calls_on(steps, f) == Seq::<SelectStep>::empty(),
    decreases steps.len(),
{
    if steps.len() > 0 {
        let front = steps.drop_last();
        assert forall|i: int| 0 <= i < front.len() implies field_of(#[trigger] front[i]) != f by {
            assert(front[i] == steps[i]);
        }
        lemma_calls_on_absent(front, f);
        assert(steps.last() == steps[steps.len() - 1]);
    }
}

proof fn lemma_calls_on_single(steps: Seq<SelectStep>, i: int)
    requires
        once_per_field(steps),
        0 <= i < steps.len(),
    ensures
        calls_on(steps, field_of(steps[i])) == seq![steps[i]],
    decreases steps.len(),
{
    let f = field_of(steps[i]);
    let front = steps.drop_last();
    let n = steps.len() - 1;
    assert(steps.last() == steps[n]);
    assert forall|j: int, k: int| 0 <= j < k < front.len() implies field_of(
        #[trigger] front[j],
    ) != field_of(#[trigger] front[k]) by {
        assert(front[j] == steps[j]);
        assert(front[k] == steps[k]);
    }
    if i == n {
        assert forall|j: int| 0 <= j < front.len() implies field_of(#[trigger] front[j]) != f by {
            assert(front[j] == steps[j]);
        }
        lemma_calls_on_absent(front, f);
        assert(Seq::<SelectStep>::empty().push(steps[i]) =~= seq![steps[i]]);
    } else {
        assert(front[i] == steps[i]);
        lemma_calls_on_single(front, i);
    }
}

/// Every order of the same calls gives the same statement and the same rendered text,
/// where no two of the calls write to the same place: a source, a filter, a grouping, a
/// group filter, an ordering, a limit, an offset and a lock, say, each given once.
pub proof fn lemma_every_order_gives_the_same_statement(
    m: SelectModel,
    a: Seq<SelectStep>,
    b: Seq<SelectStep>,
    d: DBEngine,
)
    requires
        once_per_field(a),
        once_per_field(b),
        same_calls(a, b),
    ensures
        apply_steps(m, a) == apply_steps(m, b),
        select_sql(apply_steps(m, a), d) == select_sql(apply_steps(m, b), d),
{
    assert forall|f: SelectField| #[trigger] calls_on(a, f) == calls_on(b, f) by {
        if exists|i: int| 0 <= i < a.len() && field_of(#[trigger] a[i]) == f {
            let i = choose|i: int| 0 <= i < a.len() && field_of(#[trigger] a[i]) == f;
            lemma_calls_on_single(a, i);
            assert(a.contains(a[i]));
            assert(b.contains(a[i]));
            let j = choose|j: int| 0 <= j < b.len() && b[j] == a[i];
            lemma_calls_on_single(b, j);
        } else {
            lemma_calls_on_absent(a, f);
            assert forall|j: int| 0 <= j < b.len() implies field_of(#[trigger] b[j]) != f by {
                assert(b.contains(b[j]));
                assert(a.contains(b[j]));
                let i = choose|i: int| 0 <= i < a.len() && a[i] == b[j];
                assert(field_of(a[i]) == field_of(b[j]));
            }
            lemma_calls_on_absent(b, f);
        }
    }
    lemma_only_the_calls_on_each_place_matter(m, a, b, d);
}

} // verus!
