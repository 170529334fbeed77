//! The models of table definitions, their SQL text and what keeps them from a dialect.

use vstd::prelude::*;
use crate::gate::{expr_problem, first_some, or_else};
use crate::model::SimpleExprModel;
use crate::render::{expr_text, wrap};
use crate::text::{ident_text, joined, nat_text, string_literal};
use crate::types::{Clause, DBEngine, SqlError};

verus! {

/// The type of a column, from a fixed catalogue.
#[derive(Clone, Copy, Debug)]
pub enum ColumnType {
    /// Fixed-length text, with an optional length.
    Char(Option<u32>),
    /// Variable-length text, with an optional maximal length.
    String(Option<u32>),
    Text,
    TinyInteger,
    SmallInteger,
    Integer,
    BigInteger,
    TinyUnsigned,
    SmallUnsigned,
    Unsigned,
    BigUnsigned,
    Float,
    Double,
    /// An exact number, with optional precision and scale.
    Decimal(Option<(u32, u32)>),
    DateTime,
    Timestamp,
    TimestampWithTimeZone,
    Date,
    Time,
    Blob,
    Boolean,
    Json,
    JsonBinary,
    Uuid,
}

/// The definition of one column.
pub struct ColumnModel {
    pub name: Seq<char>,
    pub column_type: Option<ColumnType>,
    /// `Some(true)` for `NULL`, `Some(false)` for `NOT NULL`, `None` if nothing was said.
    pub nullable: Option<bool>,
    pub default: Option<SimpleExprModel>,
    pub auto_increment: bool,
    pub unique: bool,
    pub primary_key: bool,
    pub check: Option<SimpleExprModel>,
    pub comment: Option<Seq<char>>,
}

/// The accumulated parts of a `CREATE TABLE` statement.
pub struct TableCreateModel {
    pub name: Option<Seq<char>>,
    pub if_not_exists: bool,
    pub columns: Seq<ColumnModel>,
    pub comment: Option<Seq<char>>,
}

/// The old and the new name of a table.
pub struct TableRenameModel {
    pub from: Option<Seq<char>>,
    pub to: Option<Seq<char>>,
}

/// The table to empty.
pub struct TableTruncateModel {
    pub table: Option<Seq<char>>,
}

/// The table to drop, and whether its absence is tolerated.
pub struct TableDropModel {
    pub table: Option<Seq<char>>,
    pub if_exists: bool,
}

/// One change to a table.
pub enum AlterationModel {
    AddColumn(ColumnModel),
    DropColumn(Seq<char>),
    RenameColumn { from: Seq<char>, to: Seq<char> },
}

/// The table to alter and the changes, in order.
pub struct TableAlterModel {
    pub table: Option<Seq<char>>,
    pub alterations: Seq<AlterationModel>,
}

/// The column of this name that nothing was said about.
pub open spec fn new_column(name: Seq<char>) -> ColumnModel {
    ColumnModel {
        name,
        column_type: None,
        nullable: None,
        default: None,
        auto_increment: false,
        unique: false,
        primary_key: false,
        check: None,
        comment: None,
    }
}

/// The column with its type set; a type that was set before is replaced.
pub open spec fn with_type(c: ColumnModel, t: ColumnType) -> ColumnModel {
    ColumnModel { column_type: Some(t), ..c }
}

/// The `CREATE TABLE` statement that nothing was added to.
pub open spec fn empty_table_create() -> TableCreateModel {
    TableCreateModel { name: None, if_not_exists: false, columns: Seq::empty(), comment: None }
}

/// A type name with an optional length in parentheses.
pub open spec fn sized_type_text(name: Seq<char>, length: Option<u32>) -> Seq<char> {
    match length {
        Some(n) => name + "("@ + nat_text(n as nat) + ")"@,
        None => name,
    }
}

/// `decimal`, with precision and scale in parentheses if they are given.
pub open spec fn decimal_type_text(size: Option<(u32, u32)>) -> Seq<char> {
    match size {
        Some((precision, scale)) => "decimal("@ + nat_text(precision as nat) + ", "@ + nat_text(
            scale as nat,
        ) + ")"@,
        None => "decimal"@,
    }
}

/// Whether the type is one of the eight integer types.
pub open spec fn is_integer_type(t: ColumnType) -> bool {
    t is TinyInteger || t is SmallInteger || t is Integer || t is BigInteger || t is TinyUnsigned
        || t is SmallUnsigned || t is Unsigned || t is BigUnsigned
}

/// The name of a column type in MySQL.
pub open spec fn mysql_type_text(t: ColumnType) -> Seq<char> {
    match t {
        ColumnType::Char(length) => sized_type_text("char"@, length),
        ColumnType::String(length) => match length {
            Some(_) => sized_type_text("varchar"@, length),
            None => "varchar(255)"@,
        },
        ColumnType::Text => "text"@,
        ColumnType::TinyInteger => "tinyint"@,
        ColumnType::SmallInteger => "smallint"@,
        ColumnType::Integer => "int"@,
        ColumnType::BigInteger => "bigint"@,
        ColumnType::TinyUnsigned => "tinyint unsigned"@,
        ColumnType::SmallUnsigned => "smallint unsigned"@,
        ColumnType::Unsigned => "int unsigned"@,
        ColumnType::BigUnsigned => "bigint unsigned"@,
        ColumnType::Float => "float"@,
        ColumnType::Double => "double"@,
        ColumnType::Decimal(size) => decimal_type_text(size),
        ColumnType::DateTime => "datetime"@,
        ColumnType::Timestamp => "timestamp"@,
        ColumnType::TimestampWithTimeZone => "timestamp"@,
        ColumnType::Date => "date"@,
        ColumnType::Time => "time"@,
        ColumnType::Blob => "blob"@,
        ColumnType::Boolean => "bool"@,
        ColumnType::Json => "json"@,
        ColumnType::JsonBinary => "json"@,
        ColumnType::Uuid => "binary(16)"@,
    }
}

/// The name of a column type in PostgreSQL. An unsigned integer becomes the signed type
/// of its width, and an auto-increment column one of the serial types.
pub open spec fn postgres_type_text(t: ColumnType, auto_increment: bool) -> Seq<char> {
    match t {
        ColumnType::Char(length) => sized_type_text("char"@, length),
        ColumnType::String(length) => sized_type_text("varchar"@, length),
        ColumnType::Text => "text"@,
        ColumnType::TinyInteger => "smallint"@,
        ColumnType::SmallInteger => if auto_increment {
            "smallserial"@
        } else {
            "smallint"@
        },
        ColumnType::Integer => if auto_increment {
            "serial"@
        } else {
            "integer"@
        },
        ColumnType::BigInteger => if auto_increment {
            "bigserial"@
        } else {
            "bigint"@
        },
        ColumnType::TinyUnsigned => "smallint"@,
        ColumnType::SmallUnsigned => "smallint"@,
        ColumnType::Unsigned => "integer"@,
        ColumnType::BigUnsigned => "bigint"@,
        ColumnType::Float => "real"@,
        ColumnType::Double => "double precision"@,
        ColumnType::Decimal(size) => decimal_type_text(size),
        ColumnType::DateTime => "timestamp without time zone"@,
        ColumnType::Timestamp => "timestamp"@,
        ColumnType::TimestampWithTimeZone => "timestamp with time zone"@,
        ColumnType::Date => "date"@,
        ColumnType::Time => "time"@,
        ColumnType::Blob => "bytea"@,
        ColumnType::Boolean => "bool"@,
        ColumnType::Json => "json"@,
        ColumnType::JsonBinary => "jsonb"@,
        ColumnType::Uuid => "uuid"@,
    }
}

/// The name of a column type in SQLite. Every integer type is `integer`; JSON and UUID
/// values, for which SQLite has no type, are kept as text, binary JSON as a blob.
pub open spec fn sqlite_type_text(t: ColumnType) -> Seq<char> {
    match t {
        ColumnType::Char(length) => sized_type_text("char"@, length),
        ColumnType::String(length) => sized_type_text("varchar"@, length),
        ColumnType::Text => "text"@,
        ColumnType::TinyInteger => "integer"@,
        ColumnType::SmallInteger => "integer"@,
        ColumnType::Integer => "integer"@,
        ColumnType::BigInteger => "integer"@,
        ColumnType::TinyUnsigned => "integer"@,
        ColumnType::SmallUnsigned => "integer"@,
        ColumnType::Unsigned => "integer"@,
        ColumnType::BigUnsigned => "integer"@,
        ColumnType::Float => "real"@,
        ColumnType::Double => "real"@,
        ColumnType::Decimal(size) => decimal_type_text(size),
        ColumnType::DateTime => "datetime"@,
        ColumnType::Timestamp => "timestamp"@,
        ColumnType::TimestampWithTimeZone => "timestamp"@,
        ColumnType::Date => "date"@,
        ColumnType::Time => "time"@,
        ColumnType::Blob => "blob"@,
        ColumnType::Boolean => "boolean"@,
        ColumnType::Json => "text"@,
        ColumnType::JsonBinary => "blob"@,
        ColumnType::Uuid => "text"@,
    }
}

/// The name of a column type in a dialect. Every type has a name in every dialect.
pub open spec fn type_text(t: ColumnType, d: DBEngine, auto_increment: bool) -> Seq<char> {
    match d {
        DBEngine::Mysql => mysql_type_text(t),
        DBEngine::Postgres => postgres_type_text(t, auto_increment),
        DBEngine::Sqlite => sqlite_type_text(t),
    }
}

/// The type of a column after a space, or nothing for a column without one.
pub open spec fn column_type_text(o: Option<ColumnType>, d: DBEngine, auto_increment: bool) -> Seq<
    char,
> {
    match o {
        Some(t) => " "@ + type_text(t, d, auto_increment),
        None => Seq::empty(),
    }
}

/// What was said about NULL, or nothing.
pub open spec fn nullable_text(o: Option<bool>) -> Seq<char> {
    match o {
        Some(true) => " NULL"@,
        Some(false) => " NOT NULL"@,
        None => Seq::empty(),
    }
}

/// The default of a column: a literal value as it is, any other expression in
/// parentheses.
pub open spec fn default_text(o: Option<SimpleExprModel>, d: DBEngine) -> Seq<char> {
    match o {
        Some(e) => " DEFAULT "@ + wrap(expr_text(e, d), !(e is Value)),
        None => Seq::empty(),
    }
}

/// The text if the flag is set, else nothing.
pub open spec fn flag_text(on: bool, text: Seq<char>) -> Seq<char> {
    if on {
        text
    } else {
        Seq::empty()
    }
}

/// The keyword of an auto-increment column. PostgreSQL has none: there the column's
/// type says it.
pub open spec fn auto_increment_text(on: bool, d: DBEngine) -> Seq<char> {
    if on {
        match d {
            DBEngine::Mysql => " AUTO_INCREMENT"@,
            DBEngine::Postgres => Seq::empty(),
            DBEngine::Sqlite => " AUTOINCREMENT"@,
        }
    } else {
        Seq::empty()
    }
}

/// The check constraint: `CHECK` and the expression in parentheses, or nothing.
pub open spec fn check_text(o: Option<SimpleExprModel>, d: DBEngine) -> Seq<char> {
    match o {
        Some(e) => " CHECK ("@ + expr_text(e, d) + ")"@,
        None => Seq::empty(),
    }
}

/// The comment: `COMMENT` and a string literal, or nothing.
pub open spec fn comment_text(o: Option<Seq<char>>, d: DBEngine) -> Seq<char> {
    match o {
        Some(text) => " COMMENT "@ + string_literal(text, d),
        None => Seq::empty(),
    }
}

/// The definition of one column: name, type, nullability, default, primary key,
/// auto-increment, uniqueness, check and comment, in this order.
pub open spec fn column_def_text(c: ColumnModel, d: DBEngine) -> Seq<char> {
    ident_text(c.name, d) + column_type_text(c.column_type, d, c.auto_increment) + nullable_text(
        c.nullable,
    ) + default_text(c.default, d) + flag_text(c.primary_key, " PRIMARY KEY"@)
        + auto_increment_text(c.auto_increment, d) + flag_text(c.unique, " UNIQUE"@) + check_text(
        c.check,
        d,
    ) + comment_text(c.comment, d)
}

/// The definitions of columns, in order.
pub open spec fn column_def_texts(v: Seq<ColumnModel>, d: DBEngine) -> Seq<Seq<char>> {
    Seq::new(v.len(), |i: int| column_def_text(v[i], d))
}

/// The quoted name, or nothing if none was given.
pub open spec fn opt_ident_text(o: Option<Seq<char>>, d: DBEngine) -> Seq<char> {
    match o {
        Some(name) => ident_text(name, d),
        None => Seq::empty(),
    }
}

/// The SQL text of a `CREATE TABLE` statement.
pub open spec fn table_create_text(m: TableCreateModel, d: DBEngine) -> Seq<char> {
    "CREATE TABLE "@ + flag_text(m.if_not_exists, "IF NOT EXISTS "@) + opt_ident_text(m.name, d)
        + " ("@ + joined(column_def_texts(m.columns, d), ", "@) + ")"@ + comment_text(m.comment, d)
}

/// The SQL text of a statement that renames a table: `RENAME TABLE` in MySQL, `ALTER
/// TABLE` with `RENAME TO` in PostgreSQL and SQLite.
pub open spec fn table_rename_text(m: TableRenameModel, d: DBEngine) -> Seq<char> {
    match d {
        DBEngine::Mysql => "RENAME TABLE "@ + opt_ident_text(m.from, d) + " TO "@ + opt_ident_text(
            m.to,
            d,
        ),
        _ => "ALTER TABLE "@ + opt_ident_text(m.from, d) + " RENAME TO "@ + opt_ident_text(m.to, d),
    }
}

/// The SQL text of a `TRUNCATE TABLE` statement.
pub open spec fn table_truncate_text(m: TableTruncateModel, d: DBEngine) -> Seq<char> {
    "TRUNCATE TABLE "@ + opt_ident_text(m.table, d)
}

/// The error for a clause that the dialect cannot express.
pub open spec fn unsupported(d: DBEngine, clause: Clause) -> Option<SqlError> {
    Some(SqlError::UnsupportedFeature { dialect: d, clause })
}

/// MySQL and PostgreSQL want a type for every column.
pub open spec fn untyped_problem(c: ColumnModel, d: DBEngine) -> Option<SqlError> {
    if c.column_type is None && d != DBEngine::Sqlite {
        unsupported(d, Clause::UntypedColumn)
    } else {
        None
    }
}

/// Whether the dialect can make the column count by itself: MySQL any column,
/// PostgreSQL one of the three signed integer types that have a serial type, SQLite an
/// integer column that is the primary key.
pub open spec fn auto_increment_allowed(c: ColumnModel, d: DBEngine) -> bool {
    match d {
        DBEngine::Mysql => true,
        DBEngine::Postgres => c.column_type matches Some(t) && (t is SmallInteger || t is Integer
            || t is BigInteger),
        DBEngine::Sqlite => c.primary_key && (c.column_type matches Some(t) && is_integer_type(t)),
    }
}

/// An auto-increment column where the dialect allows none.
pub open spec fn auto_increment_problem(c: ColumnModel, d: DBEngine) -> Option<SqlError> {
    if c.auto_increment && !auto_increment_allowed(c, d) {
        unsupported(d, Clause::AutoIncrement)
    } else {
        None
    }
}

/// The first problem of an optional expression.
pub open spec fn opt_expr_problem(o: Option<SimpleExprModel>, d: DBEngine) -> Option<SqlError> {
    match o {
        Some(e) => expr_problem(e, d),
        None => None,
    }
}

/// Only MySQL writes a comment into the definition.
pub open spec fn comment_problem(o: Option<Seq<char>>, d: DBEngine) -> Option<SqlError> {
    if o is Some && d != DBEngine::Mysql {
        unsupported(d, Clause::Comment)
    } else {
        None
    }
}

/// The first reason why a column cannot be defined in the dialect, searched in the
/// order type, auto-increment, default, check, comment.
pub open spec fn column_problem(c: ColumnModel, d: DBEngine) -> Option<SqlError> {
    or_else(
        untyped_problem(c, d),
        or_else(
            auto_increment_problem(c, d),
            or_else(
                opt_expr_problem(c.default, d),
                or_else(opt_expr_problem(c.check, d), comment_problem(c.comment, d)),
            ),
        ),
    )
}

/// The problems of columns, in order.
pub open spec fn column_problems(v: Seq<ColumnModel>, d: DBEngine) -> Seq<Option<SqlError>> {
    Seq::new(v.len(), |i: int| column_problem(v[i], d))
}

/// The first reason why a `CREATE TABLE` statement cannot be rendered for the dialect,
/// or `None` if it can. A statement without a name or without a column is in an invalid
/// state; after that the columns are searched in order, then the table's comment.
pub open spec fn table_create_problem(m: TableCreateModel, d: DBEngine) -> Option<SqlError> {
    if m.name is None || m.columns.len() == 0 {
        Some(SqlError::InvalidState)
    } else {
        or_else(first_some(column_problems(m.columns, d)), comment_problem(m.comment, d))
    }
}

/// A rename needs both names.
pub open spec fn table_rename_problem(m: TableRenameModel, d: DBEngine) -> Option<SqlError> {
    if m.from is None || m.to is None {
        Some(SqlError::InvalidState)
    } else {
        None
    }
}

/// A truncation needs the table's name, and SQLite has no `TRUNCATE TABLE`.
pub open spec fn table_truncate_problem(m: TableTruncateModel, d: DBEngine) -> Option<SqlError> {
    if m.table is None {
        Some(SqlError::InvalidState)
    } else if d == DBEngine::Sqlite {
        unsupported(d, Clause::Truncate)
    } else {
        None
    }
}

/// The SQL text of a `DROP TABLE` statement.
pub open spec fn table_drop_text(m: TableDropModel, d: DBEngine) -> Seq<char> {
    "DROP TABLE "@ + flag_text(m.if_exists, "IF EXISTS "@) + opt_ident_text(m.table, d)
}

/// A drop needs the table's name.
pub open spec fn table_drop_problem(m: TableDropModel, d: DBEngine) -> Option<SqlError> {
    if m.table is None {
        Some(SqlError::InvalidState)
    } else {
        None
    }
}

/// One change: `ADD COLUMN` with a definition, `DROP COLUMN`, or `RENAME COLUMN`.
pub open spec fn alteration_text(a: AlterationModel, d: DBEngine) -> Seq<char> {
    match a {
        AlterationModel::AddColumn(c) => "ADD COLUMN "@ + column_def_text(c, d),
        AlterationModel::DropColumn(name) => "DROP COLUMN "@ + ident_text(name, d),
        AlterationModel::RenameColumn { from, to } => "RENAME COLUMN "@ + ident_text(from, d)
            + " TO "@ + ident_text(to, d),
    }
}

/// The texts of changes, in order.
pub open spec fn alteration_texts(v: Seq<AlterationModel>, d: DBEngine) -> Seq<Seq<char>> {
    Seq::new(v.len(), |i: int| alteration_text(v[i], d))
}

/// The SQL text of an `ALTER TABLE` statement: the changes in order, separated by commas.
pub open spec fn table_alter_text(m: TableAlterModel, d: DBEngine) -> Seq<char> {
    "ALTER TABLE "@ + opt_ident_text(m.table, d) + " "@ + joined(
        alteration_texts(m.alterations, d),
        ", "@,
    )
}

/// What keeps one change from the dialect: a column that cannot be defined in it, or,
/// in SQLite, a new column that is a primary key or unique.
pub open spec fn alteration_problem(a: AlterationModel, d: DBEngine) -> Option<SqlError> {
    match a {
        AlterationModel::AddColumn(c) => if d == DBEngine::Sqlite && (c.primary_key || c.unique) {
            unsupported(d, Clause::AlterTable)
        } else {
            column_problem(c, d)
        },
        _ => None,
    }
}

/// The problems of changes, in order.
pub open spec fn alteration_problems(v: Seq<AlterationModel>, d: DBEngine) -> Seq<
    Option<SqlError>,
> {
    Seq::new(v.len(), |i: int| alteration_problem(v[i], d))
}

/// The first reason why an `ALTER TABLE` statement cannot be rendered for the dialect,
/// or `None` if it can. A statement without a name or without a change is in an invalid
/// state; SQLite makes one change per statement; after that the changes are searched in
/// order.
pub open spec fn table_alter_problem(m: TableAlterModel, d: DBEngine) -> Option<SqlError> {
    if m.table is None || m.alterations.len() == 0 {
        Some(SqlError::InvalidState)
    } else if d == DBEngine::Sqlite && m.alterations.len() > 1 {
        unsupported(d, Clause::AlterTable)
    } else {
        first_some(alteration_problems(m.alterations, d))
    }
}

/// The result of rendering: the problem if there is one, else the text.
pub open spec fn sql_outcome(problem: Option<SqlError>, text: Seq<char>) -> Result<
    Seq<char>,
    SqlError,
> {
    match problem {
        Some(e) => Err(e),
        None => Ok(text),
    }
}

} // verus!
