//! Closed configuration enumerations, literal values and the error taxonomy.

use vstd::prelude::*;
use crate::text::{check_decimal_literal, is_decimal_literal};

verus! {

/// The SQL dialect family a statement is rendered for.
#[derive(Clone, Copy, Debug, PartialEq, Eq, Structural)]
pub enum DBEngine {
    Mysql,
    Postgres,
    Sqlite,
}

/// Sort direction of an `ORDER BY` item.
#[derive(Clone, Copy, Debug, PartialEq, Eq, Structural)]
pub enum OrderBy {
    Asc,
    Desc,
}

/// Placement of NULLs inside an ordered result.
#[derive(Clone, Copy, Debug, PartialEq, Eq, Structural)]
pub enum NullsOrder {
    First,
    Last,
}

/// Set operation that combines two `SELECT` statements.
#[derive(Clone, Copy, Debug, PartialEq, Eq, Structural)]
pub enum UnionType {
    Intersect,
    Distinct,
    Except,
    All,
}

/// Strength of a row lock.
#[derive(Clone, Copy, Debug, PartialEq, Eq, Structural)]
pub enum LockType {
    Update,
    NoKeyUpdate,
    Share,
    KeyShare,
}

/// What a locking read does when a row is already locked.
#[derive(Clone, Copy, Debug, PartialEq, Eq, Structural)]
pub enum LockBehavior {
    Nowait,
    SkipLocked,
}

/// Access method of an index.
#[derive(Clone, Copy, Debug, PartialEq, Eq, Structural)]
pub enum IndexType {
    BTree,
    FullText,
    Hash,
}

/// The clause a dialect cannot express, as named by `SqlError::UnsupportedFeature`.
#[derive(Clone, Copy, Debug, PartialEq, Eq, Structural)]
pub enum Clause {
    /// A row-locking clause (`FOR UPDATE` and its relatives).
    Lock,
    /// `CROSS JOIN` with a join condition.
    CrossJoin,
    /// `FULL OUTER JOIN`.
    FullOuterJoin,
    /// `RETURNING`.
    Returning,
    /// `ON CONFLICT`.
    OnConflict,
    /// An auto-increment column the dialect has no syntax for.
    AutoIncrement,
    /// A column without a type.
    UntypedColumn,
    /// A `COMMENT` on a column or a table.
    Comment,
    /// `TRUNCATE TABLE`.
    Truncate,
    /// An alteration of a table that the dialect cannot make in one statement.
    AlterTable,
}

/// Why a builder call or a rendering failed.
#[derive(Clone, Copy, Debug, PartialEq, Eq, Structural)]
pub enum SqlError {
    /// An operator was given operands it cannot be built from.
    MalformedExpression,
    /// An `INSERT` row does not have one value per declared column.
    ValueArityMismatch { expected: usize, found: usize },
    /// The dialect cannot express a clause that the statement holds.
    UnsupportedFeature { dialect: DBEngine, clause: Clause },
    /// The statement is in a state no SQL text exists for: two mutually exclusive
    /// parts were both requested, or a mandatory part is missing.
    InvalidState,
}

/// The decimal numeral of a floating-point number, kept as text.
///
/// A value of this type always holds a decimal numeral: an optional minus sign, digits,
/// and optionally a point followed by digits.
pub struct FloatLiteral {
    text: String,
}

impl View for FloatLiteral {
    type V = Seq<char>;

    closed spec fn view(&self) -> Seq<char> {
        self.text@
    }
}

impl FloatLiteral {
    #[verifier::type_invariant]
    spec fn is_numeral(self) -> bool {
        is_decimal_literal(self.text@)
    }

    /// Accepts the text if and only if it is a decimal numeral.
    pub fn new(text: String) -> (r: Result<FloatLiteral, SqlError>)
        ensures
            is_decimal_literal(text@) ==> (r matches Ok(f) && f@ == text@),
            !is_decimal_literal(text@) ==> r == Err::<FloatLiteral, SqlError>(
                SqlError::MalformedExpression,
            ),
    {
        if check_decimal_literal(text.as_str()) {
            Ok(FloatLiteral { text })
        } else {
            Err(SqlError::MalformedExpression)
        }
    }

    /// The numeral.
    pub fn as_str(&self) -> (r: &str)
        ensures
            r@ == self@,
            is_decimal_literal(r@),
    {
        proof {
            use_type_invariant(self);
        }
        self.text.as_str()
    }
}

impl Clone for FloatLiteral {
    fn clone(&self) -> (r: Self)
        ensures
            r@ == self@,
    {
        proof {
            use_type_invariant(self);
        }
        FloatLiteral { text: self.text.clone() }
    }
}

/// A literal value: the leaf of an expression.
pub enum PyValue {
    Bool(bool),
    Float(FloatLiteral),
    Int(i64),
    String(String),
    Null,
}

/// The model of a literal value.
pub enum ValueModel {
    Bool(bool),
    Float(Seq<char>),
    Int(int),
    Text(Seq<char>),
    Null,
}

impl View for PyValue {
    type V = ValueModel;

    open spec fn view(&self) -> ValueModel {
        match self {
            PyValue::Bool(b) => ValueModel::Bool(*b),
            PyValue::Float(f) => ValueModel::Float(f@),
            PyValue::Int(i) => ValueModel::Int(*i as int),
            PyValue::String(s) => ValueModel::Text(s@),
            PyValue::Null => ValueModel::Null,
        }
    }
}

impl Clone for PyValue {
    fn clone(&self) -> (r: Self)
        ensures
            r@ == self@,
    {
        match self {
            PyValue::Bool(b) => PyValue::Bool(*b),
            PyValue::Float(f) => PyValue::Float(f.clone()),
            PyValue::Int(i) => PyValue::Int(*i),
            PyValue::String(s) => PyValue::String(s.clone()),
            PyValue::Null => PyValue::Null,
        }
    }
}

/// The models of the values of a vector.
pub open spec fn value_models(v: Seq<PyValue>) -> Seq<ValueModel> {
    Seq::new(v.len(), |i: int| v[i]@)
}

/// Copies a vector of values.
pub fn clone_values(v: &Vec<PyValue>) -> (r: Vec<PyValue>)
    ensures
        value_models(r@) == value_models(v@),
{
    let mut out: Vec<PyValue> = Vec::new();
    let mut i: usize = 0;
    while i < v.len()
        invariant
            i <= v.len(),
            out.len() == i,
            value_models(out@) =~= value_models(v@).take(i as int),
        decreases v.len() - i,
    {
        out.push(v[i].clone());
        i += 1;
    }
    out
}

impl DBEngine {
    /// The dialect's name, as used in messages.
    pub open spec fn name_spec(self) -> Seq<char> {
        match self {
            DBEngine::Mysql => "MySQL"@,
            DBEngine::Postgres => "PostgreSQL"@,
            DBEngine::Sqlite => "SQLite"@,
        }
    }

    /// The dialect's name, as used in messages.
    pub fn name(&self) -> (r: &'static str)
        ensures
            r@ == self.name_spec(),
    {
        match self {
            DBEngine::Mysql => "MySQL",
            DBEngine::Postgres => "PostgreSQL",
            DBEngine::Sqlite => "SQLite",
        }
    }
}

impl OrderBy {
    /// The keyword or keywords of the value.
    pub open spec fn keyword_spec(self) -> Seq<char> {
        match self {
            OrderBy::Asc => "ASC"@,
            OrderBy::Desc => "DESC"@,
        }
    }

    /// The SQL keyword of the direction.
    pub fn keyword(&self) -> (r: &'static str)
        ensures
            r@ == self.keyword_spec(),
    {
        match self {
            OrderBy::Asc => "ASC",
            OrderBy::Desc => "DESC",
        }
    }
}

impl NullsOrder {
    /// The keyword or keywords of the value.
    pub open spec fn keyword_spec(self) -> Seq<char> {
        match self {
            NullsOrder::First => "NULLS FIRST"@,
            NullsOrder::Last => "NULLS LAST"@,
        }
    }

    /// The SQL keywords of the placement, as PostgreSQL and SQLite write them.
    pub fn keyword(&self) -> (r: &'static str)
        ensures
            r@ == self.keyword_spec(),
    {
        match self {
            NullsOrder::First => "NULLS FIRST",
            NullsOrder::Last => "NULLS LAST",
        }
    }
}

impl UnionType {
    /// The keyword or keywords of the value.
    pub open spec fn keyword_spec(self) -> Seq<char> {
        match self {
            UnionType::Intersect => "INTERSECT"@,
            UnionType::Distinct => "UNION"@,
            UnionType::Except => "EXCEPT"@,
            UnionType::All => "UNION ALL"@,
        }
    }

    /// The SQL keywords of the set operation.
    pub fn keyword(&self) -> (r: &'static str)
        ensures
            r@ == self.keyword_spec(),
    {
        match self {
            UnionType::Intersect => "INTERSECT",
            UnionType::Distinct => "UNION",
            UnionType::Except => "EXCEPT",
            UnionType::All => "UNION ALL",
        }
    }
}

impl LockType {
    /// The keyword or keywords of the value.
    pub open spec fn keyword_spec(self) -> Seq<char> {
        match self {
            LockType::Update => "UPDATE"@,
            LockType::NoKeyUpdate => "NO KEY UPDATE"@,
            LockType::Share => "SHARE"@,
            LockType::KeyShare => "KEY SHARE"@,
        }
    }

    /// The SQL keywords that follow `FOR` in a locking clause.
    pub fn keyword(&self) -> (r: &'static str)
        ensures
            r@ == self.keyword_spec(),
    {
        match self {
            LockType::Update => "UPDATE",
            LockType::NoKeyUpdate => "NO KEY UPDATE",
            LockType::Share => "SHARE",
            LockType::KeyShare => "KEY SHARE",
        }
    }
}

impl LockBehavior {
    /// The keyword or keywords of the value.
    pub open spec fn keyword_spec(self) -> Seq<char> {
        match self {
            LockBehavior::Nowait => "NOWAIT"@,
            LockBehavior::SkipLocked => "SKIP LOCKED"@,
        }
    }

    /// The SQL keywords of the behaviour.
    pub fn keyword(&self) -> (r: &'static str)
        ensures
            r@ == self.keyword_spec(),
    {
        match self {
            LockBehavior::Nowait => "NOWAIT",
            LockBehavior::SkipLocked => "SKIP LOCKED",
        }
    }
}

impl IndexType {
    /// The keyword or keywords of the value.
    pub open spec fn keyword_spec(self) -> Seq<char> {
        match self {
            IndexType::BTree => "BTREE"@,
            IndexType::FullText => "FULLTEXT"@,
            IndexType::Hash => "HASH"@,
        }
    }

    /// The SQL keyword of the access method.
    pub fn keyword(&self) -> (r: &'static str)
        ensures
            r@ == self.keyword_spec(),
    {
        match self {
            IndexType::BTree => "BTREE",
            IndexType::FullText => "FULLTEXT",
            IndexType::Hash => "HASH",
        }
    }
}

impl Clause {
    /// The clause's name, as used in messages.
    pub open spec fn name_spec(self) -> Seq<char> {
        match self {
            Clause::Lock => "row locking"@,
            Clause::CrossJoin => "CROSS JOIN with a condition"@,
            Clause::FullOuterJoin => "FULL OUTER JOIN"@,
            Clause::Returning => "RETURNING"@,
            Clause::OnConflict => "ON CONFLICT"@,
            Clause::AutoIncrement => "auto-increment"@,
            Clause::UntypedColumn => "a column without a type"@,
            Clause::Comment => "COMMENT"@,
            Clause::Truncate => "TRUNCATE TABLE"@,
            Clause::AlterTable => "this alteration of a table"@,
        }
    }

    /// The clause's name, as used in messages.
    pub fn name(&self) -> (r: &'static str)
        ensures
            r@ == self.name_spec(),
    {
        match self {
            Clause::Lock => "row locking",
            Clause::CrossJoin => "CROSS JOIN with a condition",
            Clause::FullOuterJoin => "FULL OUTER JOIN",
            Clause::Returning => "RETURNING",
            Clause::OnConflict => "ON CONFLICT",
            Clause::AutoIncrement => "auto-increment",
            Clause::UntypedColumn => "a column without a type",
            Clause::Comment => "COMMENT",
            Clause::Truncate => "TRUNCATE TABLE",
            Clause::AlterTable => "this alteration of a table",
        }
    }
}

impl SqlError {
    /// The message of the error.
    pub open spec fn message_spec(self) -> Seq<char> {
        match self {
            SqlError::MalformedExpression => "malformed expression"@,
            SqlError::ValueArityMismatch { .. } => "value count differs from column count"@,
            SqlError::UnsupportedFeature { dialect, clause } => dialect.name_spec()
                + " does not support "@ + clause.name_spec(),
            SqlError::InvalidState => "invalid statement state"@,
        }
    }

    /// A human-readable message; for an unsupported feature it names the dialect and the
    /// clause.
    pub fn message(&self) -> (r: String)
        ensures
            r@ == self.message_spec(),
    {
        match self {
            SqlError::MalformedExpression => "malformed expression".to_owned(),
            SqlError::ValueArityMismatch { .. } => "value count differs from column count".to_owned(),
            SqlError::UnsupportedFeature { dialect, clause } => {
                let mut out = dialect.name().to_owned();
                out.append(" does not support ");
                out.append(clause.name());
                out
            },
            SqlError::InvalidState => "invalid statement state".to_owned(),
        }
    }
}

} // verus!
