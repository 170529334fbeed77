//! Builders for table definitions: creating, altering, dropping, renaming and truncating
//! tables.

use vstd::prelude::*;
use crate::expr::{Expr, SimpleExpr, clone_opt_string};
use crate::gate::{check_expr, first_some, lemma_first_some_prefix, lemma_first_some_step};
use crate::model::{SimpleExprModel, opt_text};
use crate::query::sql_view;
use crate::schema::{
    AlterationModel, ColumnModel, ColumnType, TableAlterModel, TableCreateModel, TableDropModel,
    TableRenameModel, TableTruncateModel, alteration_problem, alteration_problems, alteration_text,
    alteration_texts, auto_increment_allowed, auto_increment_text, check_text, column_def_text,
    column_def_texts, column_problem, column_problems, column_type_text, comment_problem,
    comment_text, decimal_type_text, default_text, empty_table_create, flag_text, is_integer_type,
    mysql_type_text, new_column, nullable_text, opt_ident_text, postgres_type_text, sized_type_text,
    sql_outcome, sqlite_type_text, table_alter_problem, table_alter_text, table_create_problem,
    table_create_text, table_drop_problem, table_drop_text, table_rename_problem, table_rename_text,
    table_truncate_problem, table_truncate_text, type_text, with_type,
};
use crate::text::{append_part, joined, write_ident, write_string_literal, write_u64};
use crate::types::{Clause, DBEngine, SqlError};
use crate::writer::{write_expr, write_wrapped};

verus! {

/// The definition of one column of a table.
pub struct Column {
    pub name: String,
    pub column_type: Option<ColumnType>,
    pub nullable: Option<bool>,
    pub default: Option<Expr>,
    pub auto_increment: bool,
    pub unique: bool,
    pub primary_key: bool,
    pub check: Option<SimpleExpr>,
    pub comment: Option<String>,
}

/// The model of an optional operand.
pub open spec fn opt_expr_model(o: Option<Expr>) -> Option<SimpleExprModel> {
    match o {
        Some(e) => Some(e@),
        None => None,
    }
}

/// The model of an optional expression.
pub open spec fn opt_simple_expr_model(o: Option<SimpleExpr>) -> Option<SimpleExprModel> {
    match o {
        Some(e) => Some(e@),
        None => None,
    }
}

impl View for Column {
    type V = ColumnModel;

    open spec fn view(&self) -> ColumnModel {
        ColumnModel {
            name: self.name@,
            column_type: self.column_type,
            nullable: self.nullable,
            default: opt_expr_model(self.default),
            auto_increment: self.auto_increment,
            unique: self.unique,
            primary_key: self.primary_key,
            check: opt_simple_expr_model(self.check),
            comment: opt_text(self.comment),
        }
    }
}

impl Clone for Column {
    fn clone(&self) -> (r: Self)
        ensures
            r@ == self@,
    {
        Column {
            name: self.name.clone(),
            column_type: self.column_type,
            nullable: self.nullable,
            default: match &self.default {
                Some(e) => Some(e.clone()),
                None => None,
            },
            auto_increment: self.auto_increment,
            unique: self.unique,
            primary_key: self.primary_key,
            check: match &self.check {
                Some(e) => Some(e.clone()),
                None => None,
            },
            comment: clone_opt_string(&self.comment),
        }
    }
}

impl Column {
    /// The column of this name that nothing was said about.
    pub fn new(name: &str) -> (r: Self)
        ensures
            r@ == new_column(name@),
    {
        Column {
            name: name.to_owned(),
            column_type: None,
            nullable: None,
            default: None,
            auto_increment: false,
            unique: false,
            primary_key: false,
            check: None,
            comment: None,
        }
    }

    /// The column takes no NULL.
    pub fn not_null(self) -> (r: Self)
        ensures
            r@ == (ColumnModel { nullable: Some(false), ..self@ }),
    {
        let mut c = self;
        c.nullable = Some(false);
        c
    }

    /// The column takes NULL.
    pub fn null(self) -> (r: Self)
        ensures
            r@ == (ColumnModel { nullable: Some(true), ..self@ }),
    {
        let mut c = self;
        c.nullable = Some(true);
        c
    }

    /// Sets the default of the column.
    pub fn default(self, expr: Expr) -> (r: Self)
        ensures
            r@ == (ColumnModel { default: Some(expr@), ..self@ }),
    {
        let mut c = self;
        c.default = Some(expr);
        c
    }

    /// The column counts by itself.
    pub fn auto_increment(self) -> (r: Self)
        ensures
            r@ == (ColumnModel { auto_increment: true, ..self@ }),
    {
        let mut c = self;
        c.auto_increment = true;
        c
    }

    /// The column's values are unique.
    pub fn unique(self) -> (r: Self)
        ensures
            r@ == (ColumnModel { unique: true, ..self@ }),
    {
        let mut c = self;
        c.unique = true;
        c
    }

    /// The column is the primary key.
    pub fn primary_key(self) -> (r: Self)
        ensures
            r@ == (ColumnModel { primary_key: true, ..self@ }),
    {
        let mut c = self;
        c.primary_key = true;
        c
    }

    fn typed(self, t: ColumnType) -> (r: Self)
        ensures
            r@ == with_type(self@, t),
    {
        let mut c = self;
        c.column_type = Some(t);
        c
    }

    /// Fixed-length text.
    pub fn char(self) -> (r: Self)
        ensures
            r@ == with_type(self@, ColumnType::Char(None)),
    {
        self.typed(ColumnType::Char(None))
    }

    /// Fixed-length text of the given length.
    pub fn char_len(self, length: u32) -> (r: Self)
        ensures
            r@ == with_type(self@, ColumnType::Char(Some(length))),
    {
        self.typed(ColumnType::Char(Some(length)))
    }

    /// Variable-length text.
    pub fn string(self) -> (r: Self)
        ensures
            r@ == with_type(self@, ColumnType::String(None)),
    {
        self.typed(ColumnType::String(None))
    }

    /// Variable-length text of at most the given length.
    pub fn string_len(self, length: u32) -> (r: Self)
        ensures
            r@ == with_type(self@, ColumnType::String(Some(length))),
    {
        self.typed(ColumnType::String(Some(length)))
    }

    /// Text of any length.
    pub fn text(self) -> (r: Self)
        ensures
            r@ == with_type(self@, ColumnType::Text),
    {
        self.typed(ColumnType::Text)
    }

    /// A signed integer of 8 bits.
    pub fn tiny_integer(self) -> (r: Self)
        ensures
            r@ == with_type(self@, ColumnType::TinyInteger),
    {
        self.typed(ColumnType::TinyInteger)
    }

    /// A signed integer of 16 bits.
    pub fn small_integer(self) -> (r: Self)
        ensures
            r@ == with_type(self@, ColumnType::SmallInteger),
    {
        self.typed(ColumnType::SmallInteger)
    }

    /// A signed integer of 32 bits.
    pub fn integer(self) -> (r: Self)
        ensures
            r@ == with_type(self@, ColumnType::Integer),
    {
        self.typed(ColumnType::Integer)
    }

    /// A signed integer of 64 bits.
    pub fn big_integer(self) -> (r: Self)
        ensures
            r@ == with_type(self@, ColumnType::BigInteger),
    {
        self.typed(ColumnType::BigInteger)
    }

    /// An unsigned integer of 8 bits.
    pub fn tiny_unsigned(self) -> (r: Self)
        ensures
            r@ == with_type(self@, ColumnType::TinyUnsigned),
    {
        self.typed(ColumnType::TinyUnsigned)
    }

    /// An unsigned integer of 16 bits.
    pub fn small_unsigned(self) -> (r: Self)
        ensures
            r@ == with_type(self@, ColumnType::SmallUnsigned),
    {
        self.typed(ColumnType::SmallUnsigned)
    }

    /// An unsigned integer of 32 bits.
    pub fn unsigned(self) -> (r: Self)
        ensures
            r@ == with_type(self@, ColumnType::Unsigned),
    {
        self.typed(ColumnType::Unsigned)
    }

    /// An unsigned integer of 64 bits.
    pub fn big_unsigned(self) -> (r: Self)
        ensures
            r@ == with_type(self@, ColumnType::BigUnsigned),
    {
        self.typed(ColumnType::BigUnsigned)
    }

    /// A binary number of single precision.
    pub fn float(self) -> (r: Self)
        ensures
            r@ == with_type(self@, ColumnType::Float),
    {
        self.typed(ColumnType::Float)
    }

    /// A binary number of double precision.
    pub fn double(self) -> (r: Self)
        ensures
            r@ == with_type(self@, ColumnType::Double),
    {
        self.typed(ColumnType::Double)
    }

    /// An exact number.
    pub fn decimal(self) -> (r: Self)
        ensures
            r@ == with_type(self@, ColumnType::Decimal(None)),
    {
        self.typed(ColumnType::Decimal(None))
    }

    /// An exact number of the given precision and scale.
    pub fn decimal_len(self, precision: u32, scale: u32) -> (r: Self)
        ensures
            r@ == with_type(self@, ColumnType::Decimal(Some((precision, scale)))),
    {
        self.typed(ColumnType::Decimal(Some((precision, scale))))
    }

    /// A date with a time of day.
    pub fn datetime(self) -> (r: Self)
        ensures
            r@ == with_type(self@, ColumnType::DateTime),
    {
        self.typed(ColumnType::DateTime)
    }

    /// A point in time.
    pub fn timestamp(self) -> (r: Self)
        ensures
            r@ == with_type(self@, ColumnType::Timestamp),
    {
        self.typed(ColumnType::Timestamp)
    }

    /// A point in time with its time zone.
    pub fn timestamp_with_tz(self) -> (r: Self)
        ensures
            r@ == with_type(self@, ColumnType::TimestampWithTimeZone),
    {
        self.typed(ColumnType::TimestampWithTimeZone)
    }

    /// A date.
    pub fn date(self) -> (r: Self)
        ensures
            r@ == with_type(self@, ColumnType::Date),
    {
        self.typed(ColumnType::Date)
    }

    /// A time of day.
    pub fn time(self) -> (r: Self)
        ensures
            r@ == with_type(self@, ColumnType::Time),
    {
        self.typed(ColumnType::Time)
    }

    /// Bytes.
    pub fn blob(self) -> (r: Self)
        ensures
            r@ == with_type(self@, ColumnType::Blob),
    {
        self.typed(ColumnType::Blob)
    }

    /// A truth value.
    pub fn boolean(self) -> (r: Self)
        ensures
            r@ == with_type(self@, ColumnType::Boolean),
    {
        self.typed(ColumnType::Boolean)
    }

    /// A JSON value.
    pub fn json(self) -> (r: Self)
        ensures
            r@ == with_type(self@, ColumnType::Json),
    {
        self.typed(ColumnType::Json)
    }

    /// A JSON value in binary form.
    pub fn jsonb(self) -> (r: Self)
        ensures
            r@ == with_type(self@, ColumnType::JsonBinary),
    {
        self.typed(ColumnType::JsonBinary)
    }

    /// A UUID.
    pub fn uuid(self) -> (r: Self)
        ensures
            r@ == with_type(self@, ColumnType::Uuid),
    {
        self.typed(ColumnType::Uuid)
    }

    /// Sets the check constraint of the column.
    pub fn check(self, expr: SimpleExpr) -> (r: Self)
        ensures
            r@ == (ColumnModel { check: Some(expr@), ..self@ }),
    {
        let mut c = self;
        c.check = Some(expr);
        c
    }

    /// Sets the comment of the column.
    pub fn comment(self, comment: String) -> (r: Self)
        ensures
            r@ == (ColumnModel { comment: Some(comment@), ..self@ }),
    {
        let mut c = self;
        c.comment = Some(comment);
        c
    }
}

fn write_sized_type(name: &str, length: Option<u32>) -> (r: String)
    ensures
        r@ == sized_type_text(name@, length),
{
    let mut out = name.to_owned();
    match length {
        Some(n) => {
            out.append("(");
            let number = write_u64(n as u64);
            out.append(number.as_str());
            out.append(")");
        },
        None => {},
    }
    out
}

fn write_decimal_type(size: Option<(u32, u32)>) -> (r: String)
    ensures
        r@ == decimal_type_text(size),
{
    match size {
        Some((precision, scale)) => {
            let mut out = "decimal(".to_owned();
            let number = write_u64(precision as u64);
            out.append(number.as_str());
            out.append(", ");
            let number = write_u64(scale as u64);
            out.append(number.as_str());
            out.append(")");
            out
        },
        None => "decimal".to_owned(),
    }
}

fn write_mysql_type(t: ColumnType) -> (r: String)
    ensures
        r@ == mysql_type_text(t),
{
    match t {
        ColumnType::Char(length) => write_sized_type("char", length),
        ColumnType::String(length) => match length {
            Some(_) => write_sized_type("varchar", length),
            None => "varchar(255)".to_owned(),
        },
        ColumnType::Text => "text".to_owned(),
        ColumnType::TinyInteger => "tinyint".to_owned(),
        ColumnType::SmallInteger => "smallint".to_owned(),
        ColumnType::Integer => "int".to_owned(),
        ColumnType::BigInteger => "bigint".to_owned(),
        ColumnType::TinyUnsigned => "tinyint unsigned".to_owned(),
        ColumnType::SmallUnsigned => "smallint unsigned".to_owned(),
        ColumnType::Unsigned => "int unsigned".to_owned(),
        ColumnType::BigUnsigned => "bigint unsigned".to_owned(),
        ColumnType::Float => "float".to_owned(),
        ColumnType::Double => "double".to_owned(),
        ColumnType::Decimal(size) => write_decimal_type(size),
        ColumnType::DateTime => "datetime".to_owned(),
        ColumnType::Timestamp => "timestamp".to_owned(),
        ColumnType::TimestampWithTimeZone => "timestamp".to_owned(),
        ColumnType::Date => "date".to_owned(),
        ColumnType::Time => "time".to_owned(),
        ColumnType::Blob => "blob".to_owned(),
        ColumnType::Boolean => "bool".to_owned(),
        ColumnType::Json => "json".to_owned(),
        ColumnType::JsonBinary => "json".to_owned(),
        ColumnType::Uuid => "binary(16)".to_owned(),
    }
}

fn write_postgres_type(t: ColumnType, auto_increment: bool) -> (r: String)
    ensures
        r@ == postgres_type_text(t, auto_increment),
{
    match t {
        ColumnType::Char(length) => write_sized_type("char", length),
        ColumnType::String(length) => write_sized_type("varchar", length),
        ColumnType::Text => "text".to_owned(),
        ColumnType::TinyInteger => "smallint".to_owned(),
        ColumnType::SmallInteger => if auto_increment {
            "smallserial".to_owned()
        } else {
            "smallint".to_owned()
        },
        ColumnType::Integer => if auto_increment {
            "serial".to_owned()
        } else {
            "integer".to_owned()
        },
        ColumnType::BigInteger => if auto_increment {
            "bigserial".to_owned()
        } else {
            "bigint".to_owned()
        },
        ColumnType::TinyUnsigned => "smallint".to_owned(),
        ColumnType::SmallUnsigned => "smallint".to_owned(),
        ColumnType::Unsigned => "integer".to_owned(),
        ColumnType::BigUnsigned => "bigint".to_owned(),
        ColumnType::Float => "real".to_owned(),
        ColumnType::Double => "double precision".to_owned(),
        ColumnType::Decimal(size) => write_decimal_type(size),
        ColumnType::DateTime => "timestamp without time zone".to_owned(),
        ColumnType::Timestamp => "timestamp".to_owned(),
        ColumnType::TimestampWithTimeZone => "timestamp with time zone".to_owned(),
        ColumnType::Date => "date".to_owned(),
        ColumnType::Time => "time".to_owned(),
        ColumnType::Blob => "bytea".to_owned(),
        ColumnType::Boolean => "bool".to_owned(),
        ColumnType::Json => "json".to_owned(),
        ColumnType::JsonBinary => "jsonb".to_owned(),
        ColumnType::Uuid => "uuid".to_owned(),
    }
}

fn write_sqlite_type(t: ColumnType) -> (r: String)
    ensures
        r@ == sqlite_type_text(t),
{
    match t {
        ColumnType::Char(length) => write_sized_type("char", length),
        ColumnType::String(length) => write_sized_type("varchar", length),
        ColumnType::Text => "text".to_owned(),
        ColumnType::TinyInteger => "integer".to_owned(),
        ColumnType::SmallInteger => "integer".to_owned(),
        ColumnType::Integer => "integer".to_owned(),
        ColumnType::BigInteger => "integer".to_owned(),
        ColumnType::TinyUnsigned => "integer".to_owned(),
        ColumnType::SmallUnsigned => "integer".to_owned(),
        ColumnType::Unsigned => "integer".to_owned(),
        ColumnType::BigUnsigned => "integer".to_owned(),
        ColumnType::Float => "real".to_owned(),
        ColumnType::Double => "real".to_owned(),
        ColumnType::Decimal(size) => write_decimal_type(size),
        ColumnType::DateTime => "datetime".to_owned(),
        ColumnType::Timestamp => "timestamp".to_owned(),
        ColumnType::TimestampWithTimeZone => "timestamp".to_owned(),
        ColumnType::Date => "date".to_owned(),
        ColumnType::Time => "time".to_owned(),
        ColumnType::Blob => "blob".to_owned(),
        ColumnType::Boolean => "boolean".to_owned(),
        ColumnType::Json => "text".to_owned(),
        ColumnType::JsonBinary => "blob".to_owned(),
        ColumnType::Uuid => "text".to_owned(),
    }
}

/// Writes the name of a column type in a dialect.
pub fn write_type(t: ColumnType, d: DBEngine, auto_increment: bool) -> (r: String)
    ensures
        r@ == type_text(t, d, auto_increment),
{
    match d {
        DBEngine::Mysql => write_mysql_type(t),
        DBEngine::Postgres => write_postgres_type(t, auto_increment),
        DBEngine::Sqlite => write_sqlite_type(t),
    }
}

fn write_comment(o: &Option<String>, d: DBEngine) -> (r: String)
    ensures
        r@ == comment_text(opt_text(*o), d),
{
    match o {
        Some(text) => {
            let mut out = " COMMENT ".to_owned();
            let literal = write_string_literal(text.as_str(), d);
            out.append(literal.as_str());
            out
        },
        None => String::new(),
    }
}

fn write_opt_ident(o: &Option<String>, d: DBEngine) -> (r: String)
    ensures
        r@ == opt_ident_text(opt_text(*o), d),
{
    match o {
        Some(name) => write_ident(name.as_str(), d),
        None => String::new(),
    }
}

fn write_column_type(o: Option<ColumnType>, d: DBEngine, auto_increment: bool) -> (r: String)
    ensures
        r@ == column_type_text(o, d, auto_increment),
{
    match o {
        Some(t) => {
            let mut out = " ".to_owned();
            let name = write_type(t, d, auto_increment);
            out.append(name.as_str());
            out
        },
        None => String::new(),
    }
}

fn write_nullable(o: Option<bool>) -> (r: String)
    ensures
        r@ == nullable_text(o),
{
    match o {
        Some(true) => " NULL".to_owned(),
        Some(false) => " NOT NULL".to_owned(),
        None => String::new(),
    }
}

fn write_default(o: &Option<Expr>, d: DBEngine) -> (r: String)
    ensures
        r@ == default_text(opt_expr_model(*o), d),
{
    match o {
        Some(e) => {
            let mut out = " DEFAULT ".to_owned();
            let literal = match &e.0 {
                SimpleExpr::Value(_) => true,
                _ => false,
            };
            let value = write_wrapped(write_expr(&e.0, d), !literal);
            out.append(value.as_str());
            out
        },
        None => String::new(),
    }
}

fn write_flag(on: bool, text: &str) -> (r: String)
    ensures
        r@ == flag_text(on, text@),
{
    if on {
        text.to_owned()
    } else {
        String::new()
    }
}

fn write_auto_increment(on: bool, d: DBEngine) -> (r: String)
    ensures
        r@ == auto_increment_text(on, d),
{
    if on {
        match d {
            DBEngine::Mysql => " AUTO_INCREMENT".to_owned(),
            DBEngine::Postgres => String::new(),
            DBEngine::Sqlite => " AUTOINCREMENT".to_owned(),
        }
    } else {
        String::new()
    }
}

fn write_check(o: &Option<SimpleExpr>, d: DBEngine) -> (r: String)
    ensures
        r@ == check_text(opt_simple_expr_model(*o), d),
{
    match o {
        Some(e) => {
            let mut out = " CHECK (".to_owned();
            let inner = write_expr(e, d);
            out.append(inner.as_str());
            out.append(")");
            out
        },
        None => String::new(),
    }
}

/// Writes the definition of a column.
pub fn write_column_def(c: &Column, d: DBEngine) -> (r: String)
    ensures
        r@ == column_def_text(c@, d),
{
    let mut out = write_ident(c.name.as_str(), d);
    let column_type = write_column_type(c.column_type, d, c.auto_increment);
    out.append(column_type.as_str());
    let nullable = write_nullable(c.nullable);
    out.append(nullable.as_str());
    let default = write_default(&c.default, d);
    out.append(default.as_str());
    let primary_key = write_flag(c.primary_key, " PRIMARY KEY");
    out.append(primary_key.as_str());
    let auto_increment = write_auto_increment(c.auto_increment, d);
    out.append(auto_increment.as_str());
    let unique = write_flag(c.unique, " UNIQUE");
    out.append(unique.as_str());
    let check = write_check(&c.check, d);
    out.append(check.as_str());
    let comment = write_comment(&c.comment, d);
    out.append(comment.as_str());
    out
}

fn is_sqlite(d: DBEngine) -> (r: bool)
    ensures
        r == (d == DBEngine::Sqlite),
{
    match d {
        DBEngine::Sqlite => true,
        _ => false,
    }
}

fn check_comment(o: &Option<String>, d: DBEngine) -> (r: Option<SqlError>)
    ensures
        r == comment_problem(opt_text(*o), d),
{
    let mysql = match d {
        DBEngine::Mysql => true,
        _ => false,
    };
    if o.is_some() && !mysql {
        Some(SqlError::UnsupportedFeature { dialect: d, clause: Clause::Comment })
    } else {
        None
    }
}

fn integer_type(t: ColumnType) -> (r: bool)
    ensures
        r == is_integer_type(t),
{
    match t {
        ColumnType::TinyInteger => true,
        ColumnType::SmallInteger => true,
        ColumnType::Integer => true,
        ColumnType::BigInteger => true,
        ColumnType::TinyUnsigned => true,
        ColumnType::SmallUnsigned => true,
        ColumnType::Unsigned => true,
        ColumnType::BigUnsigned => true,
        _ => false,
    }
}

fn can_auto_increment(c: &Column, d: DBEngine) -> (r: bool)
    ensures
        r == auto_increment_allowed(c@, d),
{
    match d {
        DBEngine::Mysql => true,
        DBEngine::Postgres => match c.column_type {
            Some(ColumnType::SmallInteger) => true,
            Some(ColumnType::Integer) => true,
            Some(ColumnType::BigInteger) => true,
            _ => false,
        },
        DBEngine::Sqlite => c.primary_key && match c.column_type {
            Some(t) => integer_type(t),
            None => false,
        },
    }
}

/// Finds the first reason why a column cannot be defined in the dialect.
pub fn check_column(c: &Column, d: DBEngine) -> (r: Option<SqlError>)
    ensures
        r == column_problem(c@, d),
{
    if c.column_type.is_none() && !is_sqlite(d) {
        return Some(SqlError::UnsupportedFeature { dialect: d, clause: Clause::UntypedColumn });
    }
    if c.auto_increment && !can_auto_increment(c, d) {
        return Some(SqlError::UnsupportedFeature { dialect: d, clause: Clause::AutoIncrement });
    }
    let found = match &c.default {
        Some(e) => check_expr(&e.0, d),
        None => None,
    };
    if found.is_some() {
        return found;
    }
    let found = match &c.check {
        Some(e) => check_expr(e, d),
        None => None,
    };
    if found.is_some() {
        return found;
    }
    check_comment(&c.comment, d)
}

/// The models of columns, in order.
pub open spec fn columns_model(v: Seq<Column>) -> Seq<ColumnModel> {
    Seq::new(v.len(), |i: int| v[i]@)
}

fn check_columns(v: &Vec<Column>, d: DBEngine) -> (r: Option<SqlError>)
    ensures
        r == first_some(column_problems(columns_model(v@), d)),
{
    let ghost problems = column_problems(columns_model(v@), d);
    let mut i: usize = 0;
    while i < v.len()
        invariant
            i <= v.len(),
            problems == column_problems(columns_model(v@), d),
            first_some(problems.take(i as int)) is None,
        decreases v.len() - i,
    {
        let found = check_column(&v[i], d);
        proof {
            lemma_first_some_step(problems, i as int);
        }
        if found.is_some() {
            proof {
                lemma_first_some_prefix(problems, i as int + 1);
            }
            return found;
        }
        i += 1;
    }
    assert(problems.take(v.len() as int) =~= problems);
    None
}

fn write_column_defs(v: &Vec<Column>, d: DBEngine) -> (r: String)
    ensures
        r@ == joined(column_def_texts(columns_model(v@), d), ", "@),
{
    let ghost parts = column_def_texts(columns_model(v@), d);
    let mut out = String::new();
    let mut i: usize = 0;
    while i < v.len()
        invariant
            i <= v.len(),
            parts == column_def_texts(columns_model(v@), d),
            out@ == joined(parts.take(i as int), ", "@),
        decreases v.len() - i,
    {
        let part = write_column_def(&v[i], d);
        append_part(&mut out, i, ", ", part.as_str(), Ghost(parts));
        i += 1;
    }
    assert(parts.take(v.len() as int) =~= parts);
    out
}

/// A `CREATE TABLE` statement under construction.
pub struct TableCreateStatement {
    pub name: Option<String>,
    pub if_not_exists: bool,
    pub columns: Vec<Column>,
    pub comment: Option<String>,
}

impl View for TableCreateStatement {
    type V = TableCreateModel;

    open spec fn view(&self) -> TableCreateModel {
        TableCreateModel {
            name: opt_text(self.name),
            if_not_exists: self.if_not_exists,
            columns: columns_model(self.columns@),
            comment: opt_text(self.comment),
        }
    }
}

fn clone_columns(v: &Vec<Column>) -> (r: Vec<Column>)
    ensures
        columns_model(r@) == columns_model(v@),
{
    let mut out: Vec<Column> = Vec::new();
    let mut i: usize = 0;
    while i < v.len()
        invariant
            i <= v.len(),
            out.len() == i,
            columns_model(out@) =~= columns_model(v@).take(i as int),
        decreases v.len() - i,
    {
        out.push(v[i].clone());
        i += 1;
    }
    out
}

impl Clone for TableCreateStatement {
    fn clone(&self) -> (r: Self)
        ensures
            r@ == self@,
    {
        TableCreateStatement {
            name: clone_opt_string(&self.name),
            if_not_exists: self.if_not_exists,
            columns: clone_columns(&self.columns),
            comment: clone_opt_string(&self.comment),
        }
    }
}

impl TableCreateStatement {
    /// The statement that nothing was added to.
    pub fn new() -> (r: Self)
        ensures
            r@ == empty_table_create(),
    {
        let r = TableCreateStatement {
            name: None,
            if_not_exists: false,
            columns: Vec::new(),
            comment: None,
        };
        assert(r@.columns =~= Seq::empty());
        r
    }

    /// Names the table. A name that was set before is replaced.
    pub fn name(self, name: String) -> (r: Self)
        ensures
            r@ == (TableCreateModel { name: Some(name@), ..self@ }),
    {
        let mut s = self;
        s.name = Some(name);
        s
    }

    /// Creates the table only if there is none of its name.
    pub fn if_not_exists(self) -> (r: Self)
        ensures
            r@ == (TableCreateModel { if_not_exists: true, ..self@ }),
    {
        let mut s = self;
        s.if_not_exists = true;
        s
    }

    /// Adds a column after those that are there.
    pub fn column(self, column: Column) -> (r: Self)
        ensures
            r@ == (TableCreateModel { columns: self@.columns.push(column@), ..self@ }),
    {
        let mut s = self;
        let ghost before = columns_model(s.columns@);
        s.columns.push(column);
        assert(columns_model(s.columns@) =~= before.push(column@));
        s
    }

    /// Sets the comment of the table.
    pub fn comment(self, comment: String) -> (r: Self)
        ensures
            r@ == (TableCreateModel { comment: Some(comment@), ..self@ }),
    {
        let mut s = self;
        s.comment = Some(comment);
        s
    }

    /// Renders the statement for a dialect. The statement is not changed, and the result
    /// depends on nothing but the statement's model and the dialect.
    pub fn build_sql(&self, builder: &DBEngine) -> (r: Result<String, SqlError>)
        ensures
            sql_view(r) == sql_outcome(
                table_create_problem(self@, *builder),
                table_create_text(self@, *builder),
            ),
    {
        let d = *builder;
        if self.name.is_none() || self.columns.len() == 0 {
            return Err(SqlError::InvalidState);
        }
        let found = check_columns(&self.columns, d);
        if found.is_some() {
            return Err(found.unwrap());
        }
        let found = check_comment(&self.comment, d);
        if found.is_some() {
            return Err(found.unwrap());
        }
        let mut out = "CREATE TABLE ".to_owned();
        let guard = write_flag(self.if_not_exists, "IF NOT EXISTS ");
        out.append(guard.as_str());
        let name = write_opt_ident(&self.name, d);
        out.append(name.as_str());
        out.append(" (");
        let columns = write_column_defs(&self.columns, d);
        out.append(columns.as_str());
        out.append(")");
        let comment = write_comment(&self.comment, d);
        out.append(comment.as_str());
        Ok(out)
    }
}

/// A statement that renames a table, under construction.
pub struct TableRenameStatement {
    pub from: Option<String>,
    pub to: Option<String>,
}

impl View for TableRenameStatement {
    type V = TableRenameModel;

    open spec fn view(&self) -> TableRenameModel {
        TableRenameModel { from: opt_text(self.from), to: opt_text(self.to) }
    }
}

impl Clone for TableRenameStatement {
    fn clone(&self) -> (r: Self)
        ensures
            r@ == self@,
    {
        TableRenameStatement { from: clone_opt_string(&self.from), to: clone_opt_string(&self.to) }
    }
}

impl TableRenameStatement {
    /// The statement without names.
    pub fn new() -> (r: Self)
        ensures
            r@ == (TableRenameModel { from: None, to: None }),
    {
        TableRenameStatement { from: None, to: None }
    }

    /// Sets the old and the new name of the table.
    pub fn table(self, from_name: String, to_name: String) -> (r: Self)
        ensures
            r@ == (TableRenameModel { from: Some(from_name@), to: Some(to_name@) }),
    {
        TableRenameStatement { from: Some(from_name), to: Some(to_name) }
    }

    /// Renders the statement for a dialect. The statement is not changed, and the result
    /// depends on nothing but the statement's model and the dialect.
    pub fn build_sql(&self, builder: &DBEngine) -> (r: Result<String, SqlError>)
        ensures
            sql_view(r) == sql_outcome(
                table_rename_problem(self@, *builder),
                table_rename_text(self@, *builder),
            ),
    {
        let d = *builder;
        if self.from.is_none() || self.to.is_none() {
            return Err(SqlError::InvalidState);
        }
        let from = write_opt_ident(&self.from, d);
        let to = write_opt_ident(&self.to, d);
        let mut out = match d {
            DBEngine::Mysql => "RENAME TABLE ".to_owned(),
            _ => "ALTER TABLE ".to_owned(),
        };
        out.append(from.as_str());
        match d {
            DBEngine::Mysql => out.append(" TO "),
            _ => out.append(" RENAME TO "),
        }
        out.append(to.as_str());
        Ok(out)
    }
}

/// A `TRUNCATE TABLE` statement under construction.
pub struct TableTruncateStatement {
    pub table: Option<String>,
}

impl View for TableTruncateStatement {
    type V = TableTruncateModel;

    open spec fn view(&self) -> TableTruncateModel {
        TableTruncateModel { table: opt_text(self.table) }
    }
}

impl Clone for TableTruncateStatement {
    fn clone(&self) -> (r: Self)
        ensures
            r@ == self@,
    {
        TableTruncateStatement { table: clone_opt_string(&self.table) }
    }
}

impl TableTruncateStatement {
    /// The statement without a table.
    pub fn new() -> (r: Self)
        ensures
            r@ == (TableTruncateModel { table: None }),
    {
        TableTruncateStatement { table: None }
    }

    /// Names the table to empty.
    pub fn table(self, name: String) -> (r: Self)
        ensures
            r@ == (TableTruncateModel { table: Some(name@) }),
    {
        TableTruncateStatement { table: Some(name) }
    }

    /// Renders the statement for a dialect. The statement is not changed, and the result
    /// depends on nothing but the statement's model and the dialect.
    pub fn build_sql(&self, builder: &DBEngine) -> (r: Result<String, SqlError>)
        ensures
            sql_view(r) == sql_outcome(
                table_truncate_problem(self@, *builder),
                table_truncate_text(self@, *builder),
            ),
    {
        let d = *builder;
        if self.table.is_none() {
            return Err(SqlError::InvalidState);
        }
        if is_sqlite(d) {
            return Err(SqlError::UnsupportedFeature { dialect: d, clause: Clause::Truncate });
        }
        let mut out = "TRUNCATE TABLE ".to_owned();
        let name = write_opt_ident(&self.table, d);
        out.append(name.as_str());
        Ok(out)
    }
}

/// A `DROP TABLE` statement under construction.
pub struct TableDropStatement {
    pub table: Option<String>,
    pub if_exists: bool,
}

impl View for TableDropStatement {
    type V = TableDropModel;

    open spec fn view(&self) -> TableDropModel {
        TableDropModel { table: opt_text(self.table), if_exists: self.if_exists }
    }
}

impl Clone for TableDropStatement {
    fn clone(&self) -> (r: Self)
        ensures
            r@ == self@,
    {
        TableDropStatement { table: clone_opt_string(&self.table), if_exists: self.if_exists }
    }
}

impl TableDropStatement {
    /// The statement without a table.
    pub fn new() -> (r: Self)
        ensures
            r@ == (TableDropModel { table: None, if_exists: false }),
    {
        TableDropStatement { table: None, if_exists: false }
    }

    /// Names the table to drop. A table that was named before is replaced.
    pub fn table(self, name: String) -> (r: Self)
        ensures
            r@ == (TableDropModel { table: Some(name@), ..self@ }),
    {
        let mut s = self;
        s.table = Some(name);
        s
    }

    /// Drops the table only if there is one.
    pub fn if_exists(self) -> (r: Self)
        ensures
            r@ == (TableDropModel { if_exists: true, ..self@ }),
    {
        let mut s = self;
        s.if_exists = true;
        s
    }

    /// Renders the statement for a dialect. The statement is not changed, and the result
    /// depends on nothing but the statement's model and the dialect.
    pub fn build_sql(&self, builder: &DBEngine) -> (r: Result<String, SqlError>)
        ensures
            sql_view(r) == sql_outcome(
                table_drop_problem(self@, *builder),
                table_drop_text(self@, *builder),
            ),
    {
        let d = *builder;
        if self.table.is_none() {
            return Err(SqlError::InvalidState);
        }
        let mut out = "DROP TABLE ".to_owned();
        let guard = write_flag(self.if_exists, "IF EXISTS ");
        out.append(guard.as_str());
        let name = write_opt_ident(&self.table, d);
        out.append(name.as_str());
        Ok(out)
    }
}

/// One change to a table.
pub enum Alteration {
    AddColumn(Column),
    DropColumn(String),
    RenameColumn { from: String, to: String },
}

impl View for Alteration {
    type V = AlterationModel;

    open spec fn view(&self) -> AlterationModel {
        match self {
            Alteration::AddColumn(c) => AlterationModel::AddColumn(c@),
            Alteration::DropColumn(name) => AlterationModel::DropColumn(name@),
            Alteration::RenameColumn { from, to } => AlterationModel::RenameColumn {
                from: from@,
                to: to@,
            },
        }
    }
}

impl Clone for Alteration {
    fn clone(&self) -> (r: Self)
        ensures
            r@ == self@,
    {
        match self {
            Alteration::AddColumn(c) => Alteration::AddColumn(c.clone()),
            Alteration::DropColumn(name) => Alteration::DropColumn(name.clone()),
            Alteration::RenameColumn { from, to } => Alteration::RenameColumn {
                from: from.clone(),
                to: to.clone(),
            },
        }
    }
}

/// The models of changes, in order.
pub open spec fn alterations_model(v: Seq<Alteration>) -> Seq<AlterationModel> {
    Seq::new(v.len(), |i: int| v[i]@)
}

fn clone_alterations(v: &Vec<Alteration>) -> (r: Vec<Alteration>)
    ensures
        alterations_model(r@) == alterations_model(v@),
{
    let mut out: Vec<Alteration> = Vec::new();
    let mut i: usize = 0;
    while i < v.len()
        invariant
            i <= v.len(),
            out.len() == i,
            alterations_model(out@) =~= alterations_model(v@).take(i as int),
        decreases v.len() - i,
    {
        out.push(v[i].clone());
        i += 1;
    }
    out
}

fn write_alteration(a: &Alteration, d: DBEngine) -> (r: String)
    ensures
        r@ == alteration_text(a@, d),
{
    match a {
        Alteration::AddColumn(c) => {
            let mut out = "ADD COLUMN ".to_owned();
            let def = write_column_def(c, d);
            out.append(def.as_str());
            out
        },
        Alteration::DropColumn(name) => {
            let mut out = "DROP COLUMN ".to_owned();
            let ident = write_ident(name.as_str(), d);
            out.append(ident.as_str());
            out
        },
        Alteration::RenameColumn { from, to } => {
            let mut out = "RENAME COLUMN ".to_owned();
            let ident = write_ident(from.as_str(), d);
            out.append(ident.as_str());
            out.append(" TO ");
            let ident = write_ident(to.as_str(), d);
            out.append(ident.as_str());
            out
        },
    }
}

fn write_alterations(v: &Vec<Alteration>, d: DBEngine) -> (r: String)
    ensures
        r@ == joined(alteration_texts(alterations_model(v@), d), ", "@),
{
    let ghost parts = alteration_texts(alterations_model(v@), d);
    let mut out = String::new();
    let mut i: usize = 0;
    while i < v.len()
        invariant
            i <= v.len(),
            parts == alteration_texts(alterations_model(v@), d),
            out@ == joined(parts.take(i as int), ", "@),
        decreases v.len() - i,
    {
        let part = write_alteration(&v[i], d);
        append_part(&mut out, i, ", ", part.as_str(), Ghost(parts));
        i += 1;
    }
    assert(parts.take(v.len() as int) =~= parts);
    out
}

fn check_alteration(a: &Alteration, d: DBEngine) -> (r: Option<SqlError>)
    ensures
        r == alteration_problem(a@, d),
{
    match a {
        Alteration::AddColumn(c) => if is_sqlite(d) && (c.primary_key || c.unique) {
            Some(SqlError::UnsupportedFeature { dialect: d, clause: Clause::AlterTable })
        } else {
            check_column(c, d)
        },
        _ => None,
    }
}

fn check_alterations(v: &Vec<Alteration>, d: DBEngine) -> (r: Option<SqlError>)
    ensures
        r == first_some(alteration_problems(alterations_model(v@), d)),
{
    let ghost problems = alteration_problems(alterations_model(v@), d);
    let mut i: usize = 0;
    while i < v.len()
        invariant
            i <= v.len(),
            problems == alteration_problems(alterations_model(v@), d),
            first_some(problems.take(i as int)) is None,
        decreases v.len() - i,
    {
        let found = check_alteration(&v[i], d);
        proof {
            lemma_first_some_step(problems, i as int);
        }
        if found.is_some() {
            proof {
                lemma_first_some_prefix(problems, i as int + 1);
            }
            return found;
        }
        i += 1;
    }
    assert(problems.take(v.len() as int) =~= problems);
    None
}

/// An `ALTER TABLE` statement under construction.
pub struct TableAlterStatement {
    pub table: Option<String>,
    pub alterations: Vec<Alteration>,
}

impl View for TableAlterStatement {
    type V = TableAlterModel;

    open spec fn view(&self) -> TableAlterModel {
        TableAlterModel {
            table: opt_text(self.table),
            alterations: alterations_model(self.alterations@),
        }
    }
}

impl Clone for TableAlterStatement {
    fn clone(&self) -> (r: Self)
        ensures
            r@ == self@,
    {
        TableAlterStatement {
            table: clone_opt_string(&self.table),
            alterations: clone_alterations(&self.alterations),
        }
    }
}

impl TableAlterStatement {
    /// The statement that nothing was added to.
    pub fn new() -> (r: Self)
        ensures
            r@ == (TableAlterModel { table: None, alterations: Seq::empty() }),
    {
        let r = TableAlterStatement { table: None, alterations: Vec::new() };
        assert(r@.alterations =~= Seq::empty());
        r
    }

    /// Names the table to alter. A table that was named before is replaced.
    pub fn table(self, name: String) -> (r: Self)
        ensures
            r@ == (TableAlterModel { table: Some(name@), ..self@ }),
    {
        let mut s = self;
        s.table = Some(name);
        s
    }

    fn alter(self, item: Alteration) -> (r: Self)
        ensures
            r@ == (TableAlterModel { alterations: self@.alterations.push(item@), ..self@ }),
    {
        let mut s = self;
        let ghost before = alterations_model(s.alterations@);
        s.alterations.push(item);
        assert(alterations_model(s.alterations@) =~= before.push(item@));
        s
    }

    /// Adds a column to the table.
    pub fn add_column(self, column: Column) -> (r: Self)
        ensures
            r@ == (TableAlterModel {
                alterations: self@.alterations.push(AlterationModel::AddColumn(column@)),
                ..self@
            }),
    {
        self.alter(Alteration::AddColumn(column))
    }

    /// Drops a column of the table.
    pub fn drop_column(self, name: String) -> (r: Self)
        ensures
            r@ == (TableAlterModel {
                alterations: self@.alterations.push(AlterationModel::DropColumn(name@)),
                ..self@
            }),
    {
        self.alter(Alteration::DropColumn(name))
    }

    /// Renames a column of the table.
    pub fn rename_column(self, from_name: String, to_name: String) -> (r: Self)
        ensures
            r@ == (TableAlterModel {
                alterations: self@.alterations.push(
                    AlterationModel::RenameColumn { from: from_name@, to: to_name@ },
                ),
                ..self@
            }),
    {
        self.alter(Alteration::RenameColumn { from: from_name, to: to_name })
    }

    /// Renders the statement for a dialect. The statement is not changed, and the result
    /// depends on nothing but the statement's model and the dialect.
    pub fn build_sql(&self, builder: &DBEngine) -> (r: Result<String, SqlError>)
        ensures
            sql_view(r) == sql_outcome(
                table_alter_problem(self@, *builder),
                table_alter_text(self@, *builder),
            ),
    {
        let d = *builder;
        if self.table.is_none() || self.alterations.len() == 0 {
            return Err(SqlError::InvalidState);
        }
        if is_sqlite(d) && self.alterations.len() > 1 {
            return Err(SqlError::UnsupportedFeature { dialect: d, clause: Clause::AlterTable });
        }
        let found = check_alterations(&self.alterations, d);
        if found.is_some() {
            return Err(found.unwrap());
        }
        let mut out = "ALTER TABLE ".to_owned();
        let name = write_opt_ident(&self.table, d);
        out.append(name.as_str());
        out.append(" ");
        let body = write_alterations(&self.alterations, d);
        out.append(body.as_str());
        Ok(out)
    }
}

/// The entry point to the table builders.
pub struct Table;

impl Table {
    /// An empty `CREATE TABLE` statement.
    pub fn create() -> (r: TableCreateStatement)
        ensures
            r@ == empty_table_create(),
    {
        TableCreateStatement::new()
    }

    /// An empty `ALTER TABLE` statement.
    pub fn alter() -> (r: TableAlterStatement)
        ensures
            r@ == (TableAlterModel { table: None, alterations: Seq::empty() }),
    {
        TableAlterStatement::new()
    }

    /// An empty `DROP TABLE` statement.
    pub fn drop() -> (r: TableDropStatement)
        ensures
            r@ == (TableDropModel { table: None, if_exists: false }),
    {
        TableDropStatement::new()
    }

    /// An empty rename statement.
    pub fn rename() -> (r: TableRenameStatement)
        ensures
            r@ == (TableRenameModel { from: None, to: None }),
    {
        TableRenameStatement::new()
    }

    /// An empty `TRUNCATE TABLE` statement.
    pub fn truncate() -> (r: TableTruncateStatement)
        ensures
            r@ == (TableTruncateModel { table: None }),
    {
        TableTruncateStatement::new()
    }
}

} // verus!
