//! Statement compilation and execution.
//!
//! A statement arrives as ASCII SQL text; it is tokenized and parsed into
//! a typed statement, its positional `?` placeholders are bound to the
//! caller's arguments (a mismatched argument count is rejected before any
//! row is touched), and the typed statement is evaluated against the
//! schema catalog and the object store. A compile error always surfaces
//! before any row is touched.
//!
//! The grammar covers the DDL, DML and query statements the engine
//! executes: `CREATE TABLE`, `INSERT`, `SELECT` (with `WHERE` equality and
//! `ORDER BY`), `UPDATE` and `DELETE`.

use vstd::prelude::*;
use vstd::string::StringSliceAdditionalSpecFns;

use crate::dict::{dict_eq, DictField, DictStruct, Dictionary};
use crate::index::OrderedIndex;
use crate::sql::data_source::DataSource;
use crate::sql::value::{copy_row, copy_value, parse_i64_spec, ValShape, Value, Type};
use crate::sql::{SqlCode, SqlError};
use crate::store::{free_pages, lemma_free_pages_update, lemma_free_pages_zero, store_eq, Column, Store};
use crate::{CoreCode, CoreError, Error};

verus! {

/// One token of SQL text.
pub enum Token {
    /// An identifier or keyword.
    Ident(Vec<u8>),
    /// An unsigned number literal.
    Num(u64),
    /// A string literal (the bytes between the quotes).
    StrLit(Vec<u8>),
    /// `(`
    LParen,
    /// `)`
    RParen,
    /// `,`
    Comma,
    /// `;`
    Semi,
    /// `*`
    Star,
    /// `=`
    EqSym,
    /// `?`
    Param,
    /// `-`
    Minus,
}

/// The mathematical shape of a token.
pub enum TokShape {
    /// An identifier or keyword.
    Ident(Seq<u8>),
    /// An unsigned number literal.
    Num(u64),
    /// A string literal.
    StrLit(Seq<u8>),
    /// `(`
    LParen,
    /// `)`
    RParen,
    /// `,`
    Comma,
    /// `;`
    Semi,
    /// `*`
    Star,
    /// `=`
    EqSym,
    /// `?`
    Param,
    /// `-`
    Minus,
}

impl DeepView for Token {
    type V = TokShape;

    open spec fn deep_view(&self) -> TokShape {
        match self {
            Token::Ident(b) => TokShape::Ident(b@),
            Token::Num(n) => TokShape::Num(*n),
            Token::StrLit(b) => TokShape::StrLit(b@),
            Token::LParen => TokShape::LParen,
            Token::RParen => TokShape::RParen,
            Token::Comma => TokShape::Comma,
            Token::Semi => TokShape::Semi,
            Token::Star => TokShape::Star,
            Token::EqSym => TokShape::EqSym,
            Token::Param => TokShape::Param,
            Token::Minus => TokShape::Minus,
        }
    }
}

impl View for Token {
    type V = TokShape;

    open spec fn view(&self) -> TokShape {
        self.deep_view()
    }
}

/// True of ASCII space, tab, carriage return and newline.
pub open spec fn is_space(b: u8) -> bool {
    b == 32 || b == 9 || b == 13 || b == 10
}

/// True of ASCII decimal digits.
pub open spec fn is_digit(b: u8) -> bool {
    48 <= b <= 57
}

/// True of ASCII letters and the underscore.
pub open spec fn is_alpha(b: u8) -> bool {
    (65 <= b <= 90) || (97 <= b <= 122) || b == 95
}

/// True of identifier continuation bytes: letters, digits, underscore.
pub open spec fn is_ident_char(b: u8) -> bool {
    is_alpha(b) || is_digit(b)
}

/// The end of the identifier starting at `i`: the first position at or
/// after `i` that is not an identifier byte.
pub open spec fn scan_ident(s: Seq<u8>, i: int) -> int
    decreases s.len() - i,
{
    if i < 0 || i >= s.len() || !is_ident_char(s[i]) {
        i
    } else {
        scan_ident(s, i + 1)
    }
}

/// The end of the digit run starting at `i`.
pub open spec fn scan_digits(s: Seq<u8>, i: int) -> int
    decreases s.len() - i,
{
    if i < 0 || i >= s.len() || !is_digit(s[i]) {
        i
    } else {
        scan_digits(s, i + 1)
    }
}

/// The value of the digit run `s[i..j]`.
pub open spec fn digits_val(s: Seq<u8>, i: int, j: int) -> int
    decreases j - i,
{
    if j <= i {
        0
    } else {
        digits_val(s, i, j - 1) * 10 + (if is_digit(s[j - 1]) {
            (s[j - 1] - 48) as int
        } else {
            0
        })
    }
}

/// The position of the first quote byte at or after `i`, if any.
pub open spec fn find_quote(s: Seq<u8>, i: int) -> Option<int>
    decreases s.len() - i,
{
    if i < 0 || i >= s.len() {
        None
    } else if s[i] == 39 {
        Some(i)
    } else {
        find_quote(s, i + 1)
    }
}

/// Prepends a token to a tokenization outcome.
pub open spec fn tok_cons(t: TokShape, rest: Option<Seq<TokShape>>) -> Option<Seq<TokShape>> {
    match rest {
        Option::None => None,
        Option::Some(ts) => Some(seq![t] + ts),
    }
}

/// The tokens of `s` from position `i` on, or `None` on a byte no token
/// starts with, an unterminated string, or a number literal beyond 64
/// bits.
pub open spec fn tokenize_from(s: Seq<u8>, i: int) -> Option<Seq<TokShape>>
    decreases s.len() - i, 1int,
{
    if i < 0 || i >= s.len() {
        Some(Seq::empty())
    } else if is_space(s[i]) {
        tokenize_from(s, i + 1)
    } else if is_alpha(s[i]) {
        let j = scan_ident(s, i);
        tok_cons(TokShape::Ident(s.subrange(i, j)), tokenize_next(s, i, j))
    } else if is_digit(s[i]) {
        let j = scan_digits(s, i);
        if digits_val(s, i, j) > u64::MAX {
            None
        } else {
            tok_cons(TokShape::Num(digits_val(s, i, j) as u64), tokenize_next(s, i, j))
        }
    } else if s[i] == 39 {
        match find_quote(s, i + 1) {
            Option::None => None,
            Option::Some(j) => tok_cons(
                TokShape::StrLit(s.subrange(i + 1, j)),
                tokenize_next(s, i, j + 1),
            ),
        }
    } else if s[i] == 40 {
        tok_cons(TokShape::LParen, tokenize_from(s, i + 1))
    } else if s[i] == 41 {
        tok_cons(TokShape::RParen, tokenize_from(s, i + 1))
    } else if s[i] == 44 {
        tok_cons(TokShape::Comma, tokenize_from(s, i + 1))
    } else if s[i] == 59 {
        tok_cons(TokShape::Semi, tokenize_from(s, i + 1))
    } else if s[i] == 42 {
        tok_cons(TokShape::Star, tokenize_from(s, i + 1))
    } else if s[i] == 61 {
        tok_cons(TokShape::EqSym, tokenize_from(s, i + 1))
    } else if s[i] == 63 {
        tok_cons(TokShape::Param, tokenize_from(s, i + 1))
    } else if s[i] == 45 {
        tok_cons(TokShape::Minus, tokenize_from(s, i + 1))
    } else {
        None
    }
}

/// Continues tokenizing after a token that ran from `i` to `j` with
/// `j > i`; split out so the recursion visibly descends.
pub open spec fn tokenize_next(s: Seq<u8>, i: int, j: int) -> Option<Seq<TokShape>>
    decreases s.len() - i, 0int,
{
    if i < j <= s.len() {
        tokenize_from(s, j)
    } else {
        None
    }
}

/// A scan never moves backwards and never runs past the end.
proof fn lemma_scan_ident_bounds(s: Seq<u8>, i: int)
    requires
        0 <= i <= s.len(),
    ensures
        i <= scan_ident(s, i) <= s.len(),
    decreases s.len() - i,
{
    if i < s.len() && is_ident_char(s[i]) {
        lemma_scan_ident_bounds(s, i + 1);
    }
}

/// A digit scan never moves backwards and never runs past the end.
proof fn lemma_scan_digits_bounds(s: Seq<u8>, i: int)
    requires
        0 <= i <= s.len(),
    ensures
        i <= scan_digits(s, i) <= s.len(),
    decreases s.len() - i,
{
    if i < s.len() && is_digit(s[i]) {
        lemma_scan_digits_bounds(s, i + 1);
    }
}

/// A found quote lies at or after the start and within the text.
proof fn lemma_find_quote_bounds(s: Seq<u8>, i: int)
    requires
        0 <= i <= s.len(),
    ensures
        (find_quote(s, i) matches Some(j) ==> i <= j < s.len() && s[j] == 39),
    decreases s.len() - i,
{
    if i < s.len() && s[i] != 39 {
        lemma_find_quote_bounds(s, i + 1);
    }
}

/// Finds the end of the identifier starting at `i`.
fn scan_ident_exec(s: &Vec<u8>, i: usize) -> (r: usize)
    requires
        i <= s@.len(),
    ensures
        r == scan_ident(s@, i as int),
        i <= r <= s@.len(),
    decreases s@.len() - i,
{
    proof {
        lemma_scan_ident_bounds(s@, i as int);
    }
    if i < s.len() {
        let b = s[i];
        if (65 <= b && b <= 90) || (97 <= b && b <= 122) || b == 95 || (48 <= b && b <= 57) {
            return scan_ident_exec(s, i + 1);
        }
    }
    i
}

/// Finds the end of the digit run starting at `i`.
fn scan_digits_exec(s: &Vec<u8>, i: usize) -> (r: usize)
    requires
        i <= s@.len(),
    ensures
        r == scan_digits(s@, i as int),
        i <= r <= s@.len(),
    decreases s@.len() - i,
{
    proof {
        lemma_scan_digits_bounds(s@, i as int);
    }
    if i < s.len() {
        let b = s[i];
        if 48 <= b && b <= 57 {
            return scan_digits_exec(s, i + 1);
        }
    }
    i
}

/// Finds the first quote byte at or after `i`.
fn find_quote_exec(s: &Vec<u8>, i: usize) -> (r: Option<usize>)
    requires
        i <= s@.len(),
    ensures
        (r matches Some(j) ==> find_quote(s@, i as int) == Some(j as int) && i <= j < s@.len()),
        (r is None ==> find_quote(s@, i as int) is None),
    decreases s@.len() - i,
{
    if i < s.len() {
        if s[i] == 39 {
            Some(i)
        } else {
            find_quote_exec(s, i + 1)
        }
    } else {
        None
    }
}

/// Computes the value of the digit run `s[i..j]`, or `None` when it does
/// not fit 64 bits.
fn digits_val_exec(s: &Vec<u8>, i: usize, j: usize) -> (r: Option<u64>)
    requires
        i <= j <= s@.len(),
    ensures
        (r matches Some(v) ==> digits_val(s@, i as int, j as int) == v),
        (r is None ==> digits_val(s@, i as int, j as int) > u64::MAX),
        digits_val(s@, i as int, j as int) >= 0,
    decreases j - i,
{
    if j <= i {
        Some(0)
    } else {
        match digits_val_exec(s, i, j - 1) {
            Option::None => None,
            Option::Some(prev) => {
                let b = s[j - 1];
                let d: u64 = if 48 <= b && b <= 57 {
                    (b - 48) as u64
                } else {
                    // Non-digit bytes cannot arise from a digit scan;
                    // they count as zero to keep the function total.
                    0
                };
                proof {
                    lemma_digits_val_nonneg(s@, i as int, j - 1);
                }
                if prev > (u64::MAX - d) / 10 {
                    None
                } else {
                    Some(prev * 10 + d)
                }
            },
        }
    }
}

/// A digit-run value is never negative.
proof fn lemma_digits_val_nonneg(s: Seq<u8>, i: int, j: int)
    ensures
        digits_val(s, i, j) >= 0,
    decreases j - i,
{
    if j > i {
        lemma_digits_val_nonneg(s, i, j - 1);
    }
}

/// Tokenizes `s` from position `i` on.
pub fn tokenize_exec(s: &Vec<u8>, i: usize) -> (r: Option<Vec<Token>>)
    requires
        i <= s@.len(),
    ensures
        (r matches Some(v) ==> tokenize_from(s@, i as int) == Some(v.deep_view())),
        (r is None ==> tokenize_from(s@, i as int) is None),
    decreases s@.len() - i,
{
    if i >= s.len() {
        let out: Vec<Token> = Vec::new();
        proof {
            assert(out.deep_view() =~= Seq::<TokShape>::empty());
        }
        return Some(out);
    }
    let b = s[i];
    if b == 32 || b == 9 || b == 13 || b == 10 {
        return tokenize_exec(s, i + 1);
    }
    if (65 <= b && b <= 90) || (97 <= b && b <= 122) || b == 95 {
        let j = scan_ident_exec(s, i);
        proof {
            assert(j > i) by {
                assert(is_ident_char(s@[i as int]));
                lemma_scan_ident_bounds(s@, i + 1);
                assert(scan_ident(s@, i as int) == scan_ident(s@, i + 1));
            }
        }
        let word = copy_byte_range(s, i, j);
        proof {
            assert(tokenize_next(s@, i as int, j as int) == tokenize_from(s@, j as int));
        }
        match tokenize_exec(s, j) {
            Option::None => {
                return None;
            },
            Option::Some(mut rest) => {
                rest.insert(0, Token::Ident(word));
                proof {
                    lemma_token_views(rest);
                }
                return Some(rest);
            },
        }
    }
    if 48 <= b && b <= 57 {
        let j = scan_digits_exec(s, i);
        proof {
            assert(j > i) by {
                assert(is_digit(s@[i as int]));
                lemma_scan_digits_bounds(s@, i + 1);
                assert(scan_digits(s@, i as int) == scan_digits(s@, i + 1));
            }
        }
        match digits_val_exec(s, i, j) {
            Option::None => {
                return None;
            },
            Option::Some(v) => {
                proof {
                    assert(tokenize_next(s@, i as int, j as int) == tokenize_from(s@, j as int));
                }
                match tokenize_exec(s, j) {
                    Option::None => {
                        return None;
                    },
                    Option::Some(mut rest) => {
                        rest.insert(0, Token::Num(v));
                        proof {
                            lemma_token_views(rest);
                        }
                        return Some(rest);
                    },
                }
            },
        }
    }
    if b == 39 {
        match find_quote_exec(s, i + 1) {
            Option::None => {
                return None;
            },
            Option::Some(j) => {
                proof {
                    lemma_find_quote_bounds(s@, i + 1);
                }
                let text = copy_byte_range(s, i + 1, j);
                proof {
                    assert(tokenize_next(s@, i as int, j + 1) == tokenize_from(s@, j + 1));
                }
                match tokenize_exec(s, j + 1) {
                    Option::None => {
                        return None;
                    },
                    Option::Some(mut rest) => {
                        rest.insert(0, Token::StrLit(text));
                        proof {
                            lemma_token_views(rest);
                        }
                        return Some(rest);
                    },
                }
            },
        }
    }
    let tok: Option<Token> = if b == 40 {
        Some(Token::LParen)
    } else if b == 41 {
        Some(Token::RParen)
    } else if b == 44 {
        Some(Token::Comma)
    } else if b == 59 {
        Some(Token::Semi)
    } else if b == 42 {
        Some(Token::Star)
    } else if b == 61 {
        Some(Token::EqSym)
    } else if b == 63 {
        Some(Token::Param)
    } else if b == 45 {
        Some(Token::Minus)
    } else {
        None
    };
    match tok {
        Option::None => None,
        Option::Some(t) => {
            match tokenize_exec(s, i + 1) {
                Option::None => None,
                Option::Some(mut rest) => {
                    rest.insert(0, t);
                    proof {
                        lemma_token_views(rest);
                    }
                    Some(rest)
                },
            }
        },
    }
}

/// Copies the byte range `s[i..j]`.
fn copy_byte_range(s: &Vec<u8>, i: usize, j: usize) -> (r: Vec<u8>)
    requires
        i <= j <= s@.len(),
    ensures
        r@ == s@.subrange(i as int, j as int),
{
    let mut out: Vec<u8> = Vec::new();
    let mut k = i;
    while k < j
        invariant
            i <= k <= j <= s@.len(),
            out@ == s@.subrange(i as int, k as int),
        decreases j - k,
    {
        out.push(s[k]);
        proof {
            assert(s@.subrange(i as int, k + 1) =~= s@.subrange(i as int, k as int).push(
                s@[k as int],
            ));
        }
        k = k + 1;
    }
    out
}

/// The shapes of a token list are its tokens' shapes, position by
/// position.
proof fn lemma_token_views(v: Vec<Token>)
    ensures
        v.deep_view() == Seq::new(v@.len(), |k: int| v@[k].deep_view()),
{
    assert(v.deep_view() =~= Seq::new(v@.len(), |k: int| v@[k].deep_view()));
}


/// A column definition of a `CREATE TABLE` statement.
pub struct ColDef {
    /// The column name.
    pub name: Vec<u8>,
    /// The declared column type.
    pub ty: Type,
}

/// The mathematical shape of a column definition.
pub struct ColDefShape {
    /// The column name.
    pub name: Seq<u8>,
    /// The declared column type.
    pub ty: Type,
}

impl DeepView for ColDef {
    type V = ColDefShape;

    open spec fn deep_view(&self) -> ColDefShape {
        ColDefShape { name: self.name@, ty: self.ty }
    }
}

impl View for ColDef {
    type V = ColDefShape;

    open spec fn view(&self) -> ColDefShape {
        self.deep_view()
    }
}

/// A literal or placeholder in a statement.
pub enum Lit {
    /// The SQL `null` literal.
    NullL,
    /// An integer literal.
    IntL(i64),
    /// A string literal.
    StrL(Vec<u8>),
    /// A boolean literal.
    BoolL(bool),
    /// The positional placeholder `?`, numbered in order of appearance.
    ParamL(usize),
}

/// The mathematical shape of a literal.
pub enum LitShape {
    /// The SQL `null` literal.
    NullL,
    /// An integer literal.
    IntL(i64),
    /// A string literal.
    StrL(Seq<u8>),
    /// A boolean literal.
    BoolL(bool),
    /// A positional placeholder.
    ParamL(usize),
}

impl DeepView for Lit {
    type V = LitShape;

    open spec fn deep_view(&self) -> LitShape {
        match self {
            Lit::NullL => LitShape::NullL,
            Lit::IntL(i) => LitShape::IntL(*i),
            Lit::StrL(b) => LitShape::StrL(b@),
            Lit::BoolL(b) => LitShape::BoolL(*b),
            Lit::ParamL(p) => LitShape::ParamL(*p),
        }
    }
}

impl View for Lit {
    type V = LitShape;

    open spec fn view(&self) -> LitShape {
        self.deep_view()
    }
}

/// The projected columns of a query.
pub enum SelCols {
    /// Every column, in declaration order.
    Star,
    /// The named columns, in the given order.
    List(Vec<Vec<u8>>),
}

/// The mathematical shape of a projection.
pub enum SelColsShape {
    /// Every column.
    Star,
    /// The named columns.
    List(Seq<Seq<u8>>),
}

impl DeepView for SelCols {
    type V = SelColsShape;

    open spec fn deep_view(&self) -> SelColsShape {
        match self {
            SelCols::Star => SelColsShape::Star,
            SelCols::List(ns) => SelColsShape::List(ns.deep_view()),
        }
    }
}

impl View for SelCols {
    type V = SelColsShape;

    open spec fn view(&self) -> SelColsShape {
        self.deep_view()
    }
}

/// A compiled statement.
pub enum Stmt {
    /// `CREATE TABLE table(col ty, ...)`
    CreateTable {
        /// The table name.
        table: Vec<u8>,
        /// The column definitions.
        cols: Vec<ColDef>,
    },
    /// `INSERT INTO table [(col, ...)] VALUES (lit, ...), ...`
    Insert {
        /// The table name.
        table: Vec<u8>,
        /// The named columns, or `None` for the declaration order.
        cols: Option<Vec<Vec<u8>>>,
        /// The value rows.
        rows: Vec<Vec<Lit>>,
    },
    /// `SELECT cols FROM table [WHERE col = lit] [ORDER BY col [DESC]]`
    Query {
        /// The projection.
        cols: SelCols,
        /// The table name.
        table: Vec<u8>,
        /// The equality filter, if any.
        where_eq: Option<(Vec<u8>, Lit)>,
        /// The ordering column and descending flag, if any.
        order_by: Option<(Vec<u8>, bool)>,
    },
    /// `DELETE FROM table [WHERE col = lit]`
    Delete {
        /// The table name.
        table: Vec<u8>,
        /// The equality filter, if any.
        where_eq: Option<(Vec<u8>, Lit)>,
    },
    /// `UPDATE table SET col = lit, ... [WHERE col = lit]`
    Update {
        /// The table name.
        table: Vec<u8>,
        /// The column assignments, in statement order.
        sets: Vec<(Vec<u8>, Lit)>,
        /// The equality filter, if any.
        where_eq: Option<(Vec<u8>, Lit)>,
    },
}

/// The mathematical shape of a compiled statement.
pub enum StmtShape {
    /// A table creation.
    CreateTable {
        /// The table name.
        table: Seq<u8>,
        /// The column definitions.
        cols: Seq<ColDefShape>,
    },
    /// An insertion.
    Insert {
        /// The table name.
        table: Seq<u8>,
        /// The named columns, if any.
        cols: Option<Seq<Seq<u8>>>,
        /// The value rows.
        rows: Seq<Seq<LitShape>>,
    },
    /// A query.
    Query {
        /// The projection.
        cols: SelColsShape,
        /// The table name.
        table: Seq<u8>,
        /// The equality filter, if any.
        where_eq: Option<(Seq<u8>, LitShape)>,
        /// The ordering column and descending flag, if any.
        order_by: Option<(Seq<u8>, bool)>,
    },
    /// A deletion.
    Delete {
        /// The table name.
        table: Seq<u8>,
        /// The equality filter, if any.
        where_eq: Option<(Seq<u8>, LitShape)>,
    },
    /// An update.
    Update {
        /// The table name.
        table: Seq<u8>,
        /// The column assignments, in statement order.
        sets: Seq<(Seq<u8>, LitShape)>,
        /// The equality filter, if any.
        where_eq: Option<(Seq<u8>, LitShape)>,
    },
}

impl DeepView for Stmt {
    type V = StmtShape;

    open spec fn deep_view(&self) -> StmtShape {
        match self {
            Stmt::CreateTable { table, cols } => StmtShape::CreateTable {
                table: table@,
                cols: cols.deep_view(),
            },
            Stmt::Insert { table, cols, rows } => StmtShape::Insert {
                table: table@,
                cols: match cols {
                    Option::Some(cs) => Some(cs.deep_view()),
                    Option::None => None,
                },
                rows: rows.deep_view(),
            },
            Stmt::Query { cols, table, where_eq, order_by } => StmtShape::Query {
                cols: cols.deep_view(),
                table: table@,
                where_eq: match where_eq {
                    Option::Some(w) => Some((w.0@, w.1.deep_view())),
                    Option::None => None,
                },
                order_by: match order_by {
                    Option::Some(o) => Some((o.0@, o.1)),
                    Option::None => None,
                },
            },
            Stmt::Delete { table, where_eq } => StmtShape::Delete {
                table: table@,
                where_eq: match where_eq {
                    Option::Some(w) => Some((w.0@, w.1.deep_view())),
                    Option::None => None,
                },
            },
            Stmt::Update { table, sets, where_eq } => StmtShape::Update {
                table: table@,
                sets: crate::sql::stmt::sets_shape(sets@),
                where_eq: match where_eq {
                    Option::Some(w) => Some((w.0@, w.1.deep_view())),
                    Option::None => None,
                },
            },
        }
    }
}

impl View for Stmt {
    type V = StmtShape;

    open spec fn view(&self) -> StmtShape {
        self.deep_view()
    }
}

/// The ASCII uppercase folding of a byte.
pub open spec fn upper_b(b: u8) -> u8 {
    if 97 <= b <= 122 {
        (b - 32) as u8
    } else {
        b
    }
}

/// The ASCII uppercase folding of a byte run.
pub open spec fn upper(s: Seq<u8>) -> Seq<u8> {
    s.map_values(|b: u8| upper_b(b))
}

/// True if the token is the keyword `w` (compared case-insensitively).
pub open spec fn is_kw(t: TokShape, w: Seq<u8>) -> bool {
    t matches TokShape::Ident(b) && upper(b) == w
}

/// The keyword `UPDATE`.
pub open spec fn kw_update() -> Seq<u8> {
    seq![85u8, 80u8, 68u8, 65u8, 84u8, 69u8]
}

/// The keyword `SET`.
pub open spec fn kw_set_word() -> Seq<u8> {
    seq![83u8, 69u8, 84u8]
}

/// The keyword `CREATE`.
pub open spec fn kw_create() -> Seq<u8> {
    seq![67u8, 82u8, 69u8, 65u8, 84u8, 69u8]
}

/// The keyword `TABLE`.
pub open spec fn kw_table() -> Seq<u8> {
    seq![84u8, 65u8, 66u8, 76u8, 69u8]
}

/// The keyword `INSERT`.
pub open spec fn kw_insert() -> Seq<u8> {
    seq![73u8, 78u8, 83u8, 69u8, 82u8, 84u8]
}

/// The keyword `INTO`.
pub open spec fn kw_into() -> Seq<u8> {
    seq![73u8, 78u8, 84u8, 79u8]
}

/// The keyword `VALUES`.
pub open spec fn kw_values() -> Seq<u8> {
    seq![86u8, 65u8, 76u8, 85u8, 69u8, 83u8]
}

/// The keyword `SELECT`.
pub open spec fn kw_select() -> Seq<u8> {
    seq![83u8, 69u8, 76u8, 69u8, 67u8, 84u8]
}

/// The keyword `FROM`.
pub open spec fn kw_from() -> Seq<u8> {
    seq![70u8, 82u8, 79u8, 77u8]
}

/// The keyword `WHERE`.
pub open spec fn kw_where() -> Seq<u8> {
    seq![87u8, 72u8, 69u8, 82u8, 69u8]
}

/// The keyword `ORDER`.
pub open spec fn kw_order() -> Seq<u8> {
    seq![79u8, 82u8, 68u8, 69u8, 82u8]
}

/// The keyword `BY`.
pub open spec fn kw_by() -> Seq<u8> {
    seq![66u8, 89u8]
}

/// The keyword `DESC`.
pub open spec fn kw_desc() -> Seq<u8> {
    seq![68u8, 69u8, 83u8, 67u8]
}

/// The keyword `ASC`.
pub open spec fn kw_asc() -> Seq<u8> {
    seq![65u8, 83u8, 67u8]
}

/// The keyword `DELETE`.
pub open spec fn kw_delete() -> Seq<u8> {
    seq![68u8, 69u8, 76u8, 69u8, 84u8, 69u8]
}

/// The keyword `NULL`.
pub open spec fn kw_null() -> Seq<u8> {
    seq![78u8, 85u8, 76u8, 76u8]
}

/// The keyword `TRUE`.
pub open spec fn kw_true() -> Seq<u8> {
    seq![84u8, 82u8, 85u8, 69u8]
}

/// The keyword `FALSE`.
pub open spec fn kw_false() -> Seq<u8> {
    seq![70u8, 65u8, 76u8, 83u8, 69u8]
}

/// The keyword `INTEGER`.
pub open spec fn kw_integer() -> Seq<u8> {
    seq![73u8, 78u8, 84u8, 69u8, 71u8, 69u8, 82u8]
}

/// The keyword `INT`.
pub open spec fn kw_int() -> Seq<u8> {
    seq![73u8, 78u8, 84u8]
}

/// The keyword `BIGINT`.
pub open spec fn kw_bigint() -> Seq<u8> {
    seq![66u8, 73u8, 71u8, 73u8, 78u8, 84u8]
}

/// The keyword `SMALLINT`.
pub open spec fn kw_smallint() -> Seq<u8> {
    seq![83u8, 77u8, 65u8, 76u8, 76u8, 73u8, 78u8, 84u8]
}

/// The keyword `TINYINT`.
pub open spec fn kw_tinyint() -> Seq<u8> {
    seq![84u8, 73u8, 78u8, 89u8, 73u8, 78u8, 84u8]
}

/// The keyword `STRING`.
pub open spec fn kw_string() -> Seq<u8> {
    seq![83u8, 84u8, 82u8, 73u8, 78u8, 71u8]
}

/// The keyword `VARCHAR`.
pub open spec fn kw_varchar() -> Seq<u8> {
    seq![86u8, 65u8, 82u8, 67u8, 72u8, 65u8, 82u8]
}

/// The keyword `CHAR`.
pub open spec fn kw_char() -> Seq<u8> {
    seq![67u8, 72u8, 65u8, 82u8]
}

/// The keyword `TEXT`.
pub open spec fn kw_text() -> Seq<u8> {
    seq![84u8, 69u8, 88u8, 84u8]
}

/// The keyword `BOOLEAN`.
pub open spec fn kw_boolean() -> Seq<u8> {
    seq![66u8, 79u8, 79u8, 76u8, 69u8, 65u8, 78u8]
}

/// The keyword `BOOL`.
pub open spec fn kw_bool() -> Seq<u8> {
    seq![66u8, 79u8, 79u8, 76u8]
}

/// The keyword `REAL`.
pub open spec fn kw_real() -> Seq<u8> {
    seq![82u8, 69u8, 65u8, 76u8]
}

/// The keyword `FLOAT`.
pub open spec fn kw_float() -> Seq<u8> {
    seq![70u8, 76u8, 79u8, 65u8, 84u8]
}

/// The keyword `DOUBLE`.
pub open spec fn kw_double() -> Seq<u8> {
    seq![68u8, 79u8, 85u8, 66u8, 76u8, 69u8]
}

/// The keyword `TIMESTAMP`.
pub open spec fn kw_timestamp() -> Seq<u8> {
    seq![84u8, 73u8, 77u8, 69u8, 83u8, 84u8, 65u8, 77u8, 80u8]
}

/// The keyword `DATETIME`.
pub open spec fn kw_datetime() -> Seq<u8> {
    seq![68u8, 65u8, 84u8, 69u8, 84u8, 73u8, 77u8, 69u8]
}

/// Folds a byte to ASCII uppercase.
fn upper_b_exec(b: u8) -> (r: u8)
    ensures
        r == upper_b(b),
{
    if 97 <= b && b <= 122 {
        b - 32
    } else {
        b
    }
}

/// True if the token is the identifier whose uppercase folding is `w`.
fn is_kw_exec(t: &Token, w: &Vec<u8>) -> (r: bool)
    ensures
        r == is_kw(t.deep_view(), w@),
{
    match t {
        Token::Ident(b) => {
            if b.len() != w.len() {
                proof {
                    assert(upper(b@).len() == b@.len());
                    assert(upper(b@) != w@);
                }
                return false;
            }
            let n = b.len();
            let mut i: usize = 0;
            while i < n
                invariant
                    i <= n,
                    n == b@.len(),
                    n == w@.len(),
                    t.deep_view() == TokShape::Ident(b@),
                    forall|k: int| 0 <= k < i ==> upper_b(b@[k]) == w@[k],
                decreases n - i,
            {
                if upper_b_exec(b[i]) != w[i] {
                    proof {
                        assert(upper(b@)[i as int] == upper_b(b@[i as int]));
                        assert(upper(b@) != w@);
                    }
                    return false;
                }
                i = i + 1;
            }
            proof {
                assert(upper(b@) =~= w@);
            }
            true
        },
        _ => false,
    }
}

/// Builds the keyword `UPDATE` as bytes.
fn kw_update_v() -> (r: Vec<u8>)
    ensures
        r@ == kw_update(),
{
    let mut v: Vec<u8> = Vec::new();
    v.push(85);
    v.push(80);
    v.push(68);
    v.push(65);
    v.push(84);
    v.push(69);
    proof {
        assert(v@ =~= kw_update());
    }
    v
}

/// Builds the keyword `SET` as bytes.
fn kw_set_word_v() -> (r: Vec<u8>)
    ensures
        r@ == kw_set_word(),
{
    let mut v: Vec<u8> = Vec::new();
    v.push(83);
    v.push(69);
    v.push(84);
    proof {
        assert(v@ =~= kw_set_word());
    }
    v
}

/// Builds the keyword `CREATE` as bytes.
fn kw_create_v() -> (r: Vec<u8>)
    ensures
        r@ == kw_create(),
{
    let mut v: Vec<u8> = Vec::new();
    v.push(67);
    v.push(82);
    v.push(69);
    v.push(65);
    v.push(84);
    v.push(69);
    proof {
        assert(v@ =~= kw_create());
    }
    v
}

/// Builds the keyword `TABLE` as bytes.
fn kw_table_v() -> (r: Vec<u8>)
    ensures
        r@ == kw_table(),
{
    let mut v: Vec<u8> = Vec::new();
    v.push(84);
    v.push(65);
    v.push(66);
    v.push(76);
    v.push(69);
    proof {
        assert(v@ =~= kw_table());
    }
    v
}

/// Builds the keyword `INSERT` as bytes.
fn kw_insert_v() -> (r: Vec<u8>)
    ensures
        r@ == kw_insert(),
{
    let mut v: Vec<u8> = Vec::new();
    v.push(73);
    v.push(78);
    v.push(83);
    v.push(69);
    v.push(82);
    v.push(84);
    proof {
        assert(v@ =~= kw_insert());
    }
    v
}

/// Builds the keyword `INTO` as bytes.
fn kw_into_v() -> (r: Vec<u8>)
    ensures
        r@ == kw_into(),
{
    let mut v: Vec<u8> = Vec::new();
    v.push(73);
    v.push(78);
    v.push(84);
    v.push(79);
    proof {
        assert(v@ =~= kw_into());
    }
    v
}

/// Builds the keyword `VALUES` as bytes.
fn kw_values_v() -> (r: Vec<u8>)
    ensures
        r@ == kw_values(),
{
    let mut v: Vec<u8> = Vec::new();
    v.push(86);
    v.push(65);
    v.push(76);
    v.push(85);
    v.push(69);
    v.push(83);
    proof {
        assert(v@ =~= kw_values());
    }
    v
}

/// Builds the keyword `SELECT` as bytes.
fn kw_select_v() -> (r: Vec<u8>)
    ensures
        r@ == kw_select(),
{
    let mut v: Vec<u8> = Vec::new();
    v.push(83);
    v.push(69);
    v.push(76);
    v.push(69);
    v.push(67);
    v.push(84);
    proof {
        assert(v@ =~= kw_select());
    }
    v
}

/// Builds the keyword `FROM` as bytes.
fn kw_from_v() -> (r: Vec<u8>)
    ensures
        r@ == kw_from(),
{
    let mut v: Vec<u8> = Vec::new();
    v.push(70);
    v.push(82);
    v.push(79);
    v.push(77);
    proof {
        assert(v@ =~= kw_from());
    }
    v
}

/// Builds the keyword `WHERE` as bytes.
fn kw_where_v() -> (r: Vec<u8>)
    ensures
        r@ == kw_where(),
{
    let mut v: Vec<u8> = Vec::new();
    v.push(87);
    v.push(72);
    v.push(69);
    v.push(82);
    v.push(69);
    proof {
        assert(v@ =~= kw_where());
    }
    v
}

/// Builds the keyword `ORDER` as bytes.
fn kw_order_v() -> (r: Vec<u8>)
    ensures
        r@ == kw_order(),
{
    let mut v: Vec<u8> = Vec::new();
    v.push(79);
    v.push(82);
    v.push(68);
    v.push(69);
    v.push(82);
    proof {
        assert(v@ =~= kw_order());
    }
    v
}

/// Builds the keyword `BY` as bytes.
fn kw_by_v() -> (r: Vec<u8>)
    ensures
        r@ == kw_by(),
{
    let mut v: Vec<u8> = Vec::new();
    v.push(66);
    v.push(89);
    proof {
        assert(v@ =~= kw_by());
    }
    v
}

/// Builds the keyword `DESC` as bytes.
fn kw_desc_v() -> (r: Vec<u8>)
    ensures
        r@ == kw_desc(),
{
    let mut v: Vec<u8> = Vec::new();
    v.push(68);
    v.push(69);
    v.push(83);
    v.push(67);
    proof {
        assert(v@ =~= kw_desc());
    }
    v
}

/// Builds the keyword `ASC` as bytes.
fn kw_asc_v() -> (r: Vec<u8>)
    ensures
        r@ == kw_asc(),
{
    let mut v: Vec<u8> = Vec::new();
    v.push(65);
    v.push(83);
    v.push(67);
    proof {
        assert(v@ =~= kw_asc());
    }
    v
}

/// Builds the keyword `DELETE` as bytes.
fn kw_delete_v() -> (r: Vec<u8>)
    ensures
        r@ == kw_delete(),
{
    let mut v: Vec<u8> = Vec::new();
    v.push(68);
    v.push(69);
    v.push(76);
    v.push(69);
    v.push(84);
    v.push(69);
    proof {
        assert(v@ =~= kw_delete());
    }
    v
}

/// Builds the keyword `NULL` as bytes.
fn kw_null_v() -> (r: Vec<u8>)
    ensures
        r@ == kw_null(),
{
    let mut v: Vec<u8> = Vec::new();
    v.push(78);
    v.push(85);
    v.push(76);
    v.push(76);
    proof {
        assert(v@ =~= kw_null());
    }
    v
}

/// Builds the keyword `TRUE` as bytes.
fn kw_true_v() -> (r: Vec<u8>)
    ensures
        r@ == kw_true(),
{
    let mut v: Vec<u8> = Vec::new();
    v.push(84);
    v.push(82);
    v.push(85);
    v.push(69);
    proof {
        assert(v@ =~= kw_true());
    }
    v
}

/// Builds the keyword `FALSE` as bytes.
fn kw_false_v() -> (r: Vec<u8>)
    ensures
        r@ == kw_false(),
{
    let mut v: Vec<u8> = Vec::new();
    v.push(70);
    v.push(65);
    v.push(76);
    v.push(83);
    v.push(69);
    proof {
        assert(v@ =~= kw_false());
    }
    v
}

/// Builds the keyword `INTEGER` as bytes.
fn kw_integer_v() -> (r: Vec<u8>)
    ensures
        r@ == kw_integer(),
{
    let mut v: Vec<u8> = Vec::new();
    v.push(73);
    v.push(78);
    v.push(84);
    v.push(69);
    v.push(71);
    v.push(69);
    v.push(82);
    proof {
        assert(v@ =~= kw_integer());
    }
    v
}

/// Builds the keyword `INT` as bytes.
fn kw_int_v() -> (r: Vec<u8>)
    ensures
        r@ == kw_int(),
{
    let mut v: Vec<u8> = Vec::new();
    v.push(73);
    v.push(78);
    v.push(84);
    proof {
        assert(v@ =~= kw_int());
    }
    v
}

/// Builds the keyword `BIGINT` as bytes.
fn kw_bigint_v() -> (r: Vec<u8>)
    ensures
        r@ == kw_bigint(),
{
    let mut v: Vec<u8> = Vec::new();
    v.push(66);
    v.push(73);
    v.push(71);
    v.push(73);
    v.push(78);
    v.push(84);
    proof {
        assert(v@ =~= kw_bigint());
    }
    v
}

/// Builds the keyword `SMALLINT` as bytes.
fn kw_smallint_v() -> (r: Vec<u8>)
    ensures
        r@ == kw_smallint(),
{
    let mut v: Vec<u8> = Vec::new();
    v.push(83);
    v.push(77);
    v.push(65);
    v.push(76);
    v.push(76);
    v.push(73);
    v.push(78);
    v.push(84);
    proof {
        assert(v@ =~= kw_smallint());
    }
    v
}

/// Builds the keyword `TINYINT` as bytes.
fn kw_tinyint_v() -> (r: Vec<u8>)
    ensures
        r@ == kw_tinyint(),
{
    let mut v: Vec<u8> = Vec::new();
    v.push(84);
    v.push(73);
    v.push(78);
    v.push(89);
    v.push(73);
    v.push(78);
    v.push(84);
    proof {
        assert(v@ =~= kw_tinyint());
    }
    v
}

/// Builds the keyword `STRING` as bytes.
fn kw_string_v() -> (r: Vec<u8>)
    ensures
        r@ == kw_string(),
{
    let mut v: Vec<u8> = Vec::new();
    v.push(83);
    v.push(84);
    v.push(82);
    v.push(73);
    v.push(78);
    v.push(71);
    proof {
        assert(v@ =~= kw_string());
    }
    v
}

/// Builds the keyword `VARCHAR` as bytes.
fn kw_varchar_v() -> (r: Vec<u8>)
    ensures
        r@ == kw_varchar(),
{
    let mut v: Vec<u8> = Vec::new();
    v.push(86);
    v.push(65);
    v.push(82);
    v.push(67);
    v.push(72);
    v.push(65);
    v.push(82);
    proof {
        assert(v@ =~= kw_varchar());
    }
    v
}

/// Builds the keyword `CHAR` as bytes.
fn kw_char_v() -> (r: Vec<u8>)
    ensures
        r@ == kw_char(),
{
    let mut v: Vec<u8> = Vec::new();
    v.push(67);
    v.push(72);
    v.push(65);
    v.push(82);
    proof {
        assert(v@ =~= kw_char());
    }
    v
}

/// Builds the keyword `TEXT` as bytes.
fn kw_text_v() -> (r: Vec<u8>)
    ensures
        r@ == kw_text(),
{
    let mut v: Vec<u8> = Vec::new();
    v.push(84);
    v.push(69);
    v.push(88);
    v.push(84);
    proof {
        assert(v@ =~= kw_text());
    }
    v
}

/// Builds the keyword `BOOLEAN` as bytes.
fn kw_boolean_v() -> (r: Vec<u8>)
    ensures
        r@ == kw_boolean(),
{
    let mut v: Vec<u8> = Vec::new();
    v.push(66);
    v.push(79);
    v.push(79);
    v.push(76);
    v.push(69);
    v.push(65);
    v.push(78);
    proof {
        assert(v@ =~= kw_boolean());
    }
    v
}

/// Builds the keyword `BOOL` as bytes.
fn kw_bool_v() -> (r: Vec<u8>)
    ensures
        r@ == kw_bool(),
{
    let mut v: Vec<u8> = Vec::new();
    v.push(66);
    v.push(79);
    v.push(79);
    v.push(76);
    proof {
        assert(v@ =~= kw_bool());
    }
    v
}

/// Builds the keyword `REAL` as bytes.
fn kw_real_v() -> (r: Vec<u8>)
    ensures
        r@ == kw_real(),
{
    let mut v: Vec<u8> = Vec::new();
    v.push(82);
    v.push(69);
    v.push(65);
    v.push(76);
    proof {
        assert(v@ =~= kw_real());
    }
    v
}

/// Builds the keyword `FLOAT` as bytes.
fn kw_float_v() -> (r: Vec<u8>)
    ensures
        r@ == kw_float(),
{
    let mut v: Vec<u8> = Vec::new();
    v.push(70);
    v.push(76);
    v.push(79);
    v.push(65);
    v.push(84);
    proof {
        assert(v@ =~= kw_float());
    }
    v
}

/// Builds the keyword `DOUBLE` as bytes.
fn kw_double_v() -> (r: Vec<u8>)
    ensures
        r@ == kw_double(),
{
    let mut v: Vec<u8> = Vec::new();
    v.push(68);
    v.push(79);
    v.push(85);
    v.push(66);
    v.push(76);
    v.push(69);
    proof {
        assert(v@ =~= kw_double());
    }
    v
}

/// Builds the keyword `TIMESTAMP` as bytes.
fn kw_timestamp_v() -> (r: Vec<u8>)
    ensures
        r@ == kw_timestamp(),
{
    let mut v: Vec<u8> = Vec::new();
    v.push(84);
    v.push(73);
    v.push(77);
    v.push(69);
    v.push(83);
    v.push(84);
    v.push(65);
    v.push(77);
    v.push(80);
    proof {
        assert(v@ =~= kw_timestamp());
    }
    v
}

/// Builds the keyword `DATETIME` as bytes.
fn kw_datetime_v() -> (r: Vec<u8>)
    ensures
        r@ == kw_datetime(),
{
    let mut v: Vec<u8> = Vec::new();
    v.push(68);
    v.push(65);
    v.push(84);
    v.push(69);
    v.push(84);
    v.push(73);
    v.push(77);
    v.push(69);
    proof {
        assert(v@ =~= kw_datetime());
    }
    v
}

/// True if position `i` is the end of the statement: nothing left, or a
/// single trailing semicolon.
pub open spec fn at_end(ts: Seq<TokShape>, i: int) -> bool {
    i == ts.len() || (i + 1 == ts.len() && ts[i] == TokShape::Semi)
}

/// The declared column type named by an identifier, if it names one.
/// Every integer width is carried as a 64-bit integer.
pub open spec fn ty_of_name(b: Seq<u8>) -> Option<Type> {
    let u = upper(b);
    if u == kw_integer() || u == kw_int() || u == kw_bigint() || u == kw_smallint() || u
        == kw_tinyint() {
        Some(Type::Int8)
    } else if u == kw_string() || u == kw_varchar() || u == kw_char() || u == kw_text() {
        Some(Type::String)
    } else if u == kw_boolean() || u == kw_bool() {
        Some(Type::Bool)
    } else if u == kw_real() || u == kw_float() || u == kw_double() {
        Some(Type::Real8)
    } else if u == kw_timestamp() || u == kw_datetime() {
        Some(Type::Time)
    } else {
        None
    }
}

/// Parses `name type` column definitions separated by commas, up to the
/// closing parenthesis; yields the definitions and the position after it.
pub open spec fn parse_coldefs(ts: Seq<TokShape>, i: int) -> Option<(Seq<ColDefShape>, int)>
    decreases ts.len() - i,
{
    if !(0 <= i && i + 2 < ts.len()) {
        None
    } else {
        match (ts[i], ts[i + 1]) {
            (TokShape::Ident(name), TokShape::Ident(tyname)) => match ty_of_name(tyname) {
                Option::None => None,
                Option::Some(ty) => {
                    let col = ColDefShape { name, ty };
                    if ts[i + 2] == TokShape::RParen {
                        Some((seq![col], i + 3))
                    } else if ts[i + 2] == TokShape::Comma {
                        match parse_coldefs(ts, i + 3) {
                            Option::None => None,
                            Option::Some((rest, j)) => Some((seq![col] + rest, j)),
                        }
                    } else {
                        None
                    }
                },
            },
            _ => None,
        }
    }
}

/// Parses `CREATE TABLE` after the two keywords: the table name, the
/// parenthesized column definitions, the end of the statement.
pub open spec fn parse_create(ts: Seq<TokShape>, i: int) -> Option<StmtShape> {
    if !(0 <= i && i + 1 < ts.len()) {
        None
    } else {
        match ts[i] {
            TokShape::Ident(table) => if ts[i + 1] == TokShape::LParen {
                match parse_coldefs(ts, i + 2) {
                    Option::None => None,
                    Option::Some((cols, j)) => if at_end(ts, j) {
                        Some(StmtShape::CreateTable { table, cols })
                    } else {
                        None
                    },
                }
            } else {
                None
            },
            _ => None,
        }
    }
}

/// Parses one literal or placeholder at `i` with the next placeholder
/// number `p`; yields the literal, the next position, and the next
/// placeholder number.
pub open spec fn parse_lit(ts: Seq<TokShape>, i: int, p: int) -> Option<(LitShape, int, int)> {
    if !(0 <= i && i < ts.len()) {
        None
    } else {
        match ts[i] {
            TokShape::Num(n) => if n <= i64::MAX {
                Some((LitShape::IntL(n as i64), i + 1, p))
            } else {
                None
            },
            TokShape::Minus => if i + 1 < ts.len() {
                match ts[i + 1] {
                    TokShape::Num(n) => if n <= 0x8000_0000_0000_0000u64 {
                        Some((LitShape::IntL((-(n as int)) as i64), i + 2, p))
                    } else {
                        None
                    },
                    _ => None,
                }
            } else {
                None
            },
            TokShape::StrLit(b) => Some((LitShape::StrL(b), i + 1, p)),
            TokShape::Param => Some((LitShape::ParamL(p as usize), i + 1, p + 1)),
            TokShape::Ident(b) => if upper(b) == kw_null() {
                Some((LitShape::NullL, i + 1, p))
            } else if upper(b) == kw_true() {
                Some((LitShape::BoolL(true), i + 1, p))
            } else if upper(b) == kw_false() {
                Some((LitShape::BoolL(false), i + 1, p))
            } else {
                None
            },
            _ => None,
        }
    }
}

/// Parses literals separated by commas up to a closing parenthesis.
pub open spec fn parse_lit_list(ts: Seq<TokShape>, i: int, p: int) -> Option<
    (Seq<LitShape>, int, int),
>
    decreases ts.len() - i,
{
    match parse_lit(ts, i, p) {
        Option::None => None,
        Option::Some((l, i2, p2)) => if i2 <= i || i2 >= ts.len() {
            None
        } else if ts[i2] == TokShape::RParen {
            Some((seq![l], i2 + 1, p2))
        } else if ts[i2] == TokShape::Comma {
            match parse_lit_list(ts, i2 + 1, p2) {
                Option::None => None,
                Option::Some((rest, j, p3)) => Some((seq![l] + rest, j, p3)),
            }
        } else {
            None
        },
    }
}

/// Parses parenthesized value rows separated by commas.
pub open spec fn parse_rows(ts: Seq<TokShape>, i: int, p: int) -> Option<
    (Seq<Seq<LitShape>>, int, int),
>
    decreases ts.len() - i,
{
    if !(0 <= i && i < ts.len() && ts[i] == TokShape::LParen) {
        None
    } else {
        match parse_lit_list(ts, i + 1, p) {
            Option::None => None,
            Option::Some((row, i2, p2)) => if i2 <= i {
                None
            } else if 0 <= i2 && i2 < ts.len() && ts[i2] == TokShape::Comma {
                match parse_rows(ts, i2 + 1, p2) {
                    Option::None => None,
                    Option::Some((rest, j, p3)) => Some((seq![row] + rest, j, p3)),
                }
            } else {
                Some((seq![row], i2, p2))
            },
        }
    }
}

/// Parses identifiers separated by commas up to a closing parenthesis.
pub open spec fn parse_name_list(ts: Seq<TokShape>, i: int) -> Option<(Seq<Seq<u8>>, int)>
    decreases ts.len() - i,
{
    if !(0 <= i && i + 1 < ts.len()) {
        None
    } else {
        match ts[i] {
            TokShape::Ident(n) => if ts[i + 1] == TokShape::RParen {
                Some((seq![n], i + 2))
            } else if ts[i + 1] == TokShape::Comma {
                match parse_name_list(ts, i + 2) {
                    Option::None => None,
                    Option::Some((rest, j)) => Some((seq![n] + rest, j)),
                }
            } else {
                None
            },
            _ => None,
        }
    }
}

/// Parses `INSERT INTO` after the two keywords: the table name, an
/// optional column list, `VALUES`, and the value rows.
pub open spec fn parse_insert(ts: Seq<TokShape>, i: int) -> Option<(StmtShape, int)> {
    if !(0 <= i && i + 1 < ts.len()) {
        None
    } else {
        match ts[i] {
            TokShape::Ident(table) => if ts[i + 1] == TokShape::LParen {
            match parse_name_list(ts, i + 2) {
                Option::None => None,
                Option::Some((names, j)) => if j < ts.len() && is_kw(ts[j], kw_values()) {
                    match parse_rows(ts, j + 1, 0) {
                        Option::None => None,
                        Option::Some((rows, k, np)) => if at_end(ts, k) {
                            Some(
                                (
                                    StmtShape::Insert { table, cols: Some(names), rows },
                                    np,
                                ),
                            )
                        } else {
                            None
                        },
                    }
                } else {
                    None
                },
            }
            } else if is_kw(ts[i + 1], kw_values()) {
                match parse_rows(ts, i + 2, 0) {
                    Option::None => None,
                    Option::Some((rows, k, np)) => if at_end(ts, k) {
                        Some((StmtShape::Insert { table, cols: None, rows }, np))
                    } else {
                        None
                    },
                }
            } else {
                None
            },
            _ => None,
        }
    }
}

/// Parses the projected column names of a query, separated by commas, up
/// to the `FROM` keyword (which is not consumed).
pub open spec fn parse_sel_list(ts: Seq<TokShape>, i: int) -> Option<(Seq<Seq<u8>>, int)>
    decreases ts.len() - i,
{
    if !(0 <= i && i + 1 < ts.len()) {
        None
    } else {
        match ts[i] {
            TokShape::Ident(n) => if upper(n) == kw_from() {
                None
            } else if ts[i + 1] == TokShape::Comma {
                match parse_sel_list(ts, i + 2) {
                    Option::None => None,
                    Option::Some((rest, j)) => Some((seq![n] + rest, j)),
                }
            } else {
                Some((seq![n], i + 1))
            },
            _ => None,
        }
    }
}

/// Parses the optional `WHERE col = lit` clause; yields the clause (or
/// none), the next position and the next placeholder number.
pub open spec fn parse_where(ts: Seq<TokShape>, i: int, p: int) -> Option<
    (Option<(Seq<u8>, LitShape)>, int, int),
> {
    if 0 <= i && i < ts.len() && is_kw(ts[i], kw_where()) {
        if i + 2 < ts.len() {
            match ts[i + 1] {
                TokShape::Ident(col) => if ts[i + 2] == TokShape::EqSym {
                    match parse_lit(ts, i + 3, p) {
                        Option::None => None,
                        Option::Some((l, j, p2)) => Some((Some((col, l)), j, p2)),
                    }
                } else {
                    None
                },
                _ => None,
            }
        } else {
            None
        }
    } else {
        Some((None, i, p))
    }
}

/// Parses the optional `ORDER BY col [ASC | DESC]` clause; yields the
/// ordering (or none) and the next position.
pub open spec fn parse_order(ts: Seq<TokShape>, i: int) -> Option<
    (Option<(Seq<u8>, bool)>, int),
> {
    if 0 <= i && i < ts.len() && is_kw(ts[i], kw_order()) {
        if i + 2 < ts.len() && is_kw(ts[i + 1], kw_by()) {
            match ts[i + 2] {
                TokShape::Ident(col) => if upper(col) == kw_asc() || upper(col) == kw_desc() {
                    None
                } else if i + 3 < ts.len() && is_kw(ts[i + 3], kw_desc()) {
                    Some((Some((col, true)), i + 4))
                } else if i + 3 < ts.len() && is_kw(ts[i + 3], kw_asc()) {
                    Some((Some((col, false)), i + 4))
                } else {
                    Some((Some((col, false)), i + 3))
                },
                _ => None,
            }
        } else {
            None
        }
    } else {
        Some((None, i))
    }
}

/// Parses `SELECT` after the keyword: the projection, `FROM`, the table
/// name, the optional filter and ordering, the end of the statement.
pub open spec fn parse_select(ts: Seq<TokShape>, i: int) -> Option<(StmtShape, int)> {
    let proj = if 0 <= i && i < ts.len() && ts[i] == TokShape::Star {
        Some((SelColsShape::Star, i + 1))
    } else {
        match parse_sel_list(ts, i) {
            Option::None => None,
            Option::Some((names, j)) => Some((SelColsShape::List(names), j)),
        }
    };
    match proj {
        Option::None => None,
        Option::Some((cols, j)) => if j + 1 < ts.len() && is_kw(ts[j], kw_from()) {
            match ts[j + 1] {
                TokShape::Ident(table) => match parse_where(ts, j + 2, 0) {
                    Option::None => None,
                    Option::Some((w, k, np)) => match parse_order(ts, k) {
                        Option::None => None,
                        Option::Some((o, m)) => if at_end(ts, m) {
                            Some(
                                (
                                    StmtShape::Query {
                                        cols,
                                        table,
                                        where_eq: w,
                                        order_by: o,
                                    },
                                    np,
                                ),
                            )
                        } else {
                            None
                        },
                    },
                },
                _ => None,
            }
        } else {
            None
        },
    }
}

/// Parses `DELETE FROM` after the two keywords: the table name and the
/// optional filter, then the end of the statement.
pub open spec fn parse_delete(ts: Seq<TokShape>, i: int) -> Option<(StmtShape, int)> {
    if !(0 <= i && i < ts.len()) {
        None
    } else {
        match ts[i] {
            TokShape::Ident(table) => if upper(table) == kw_where() {
                None
            } else {
                match parse_where(ts, i + 1, 0) {
                    Option::None => None,
                    Option::Some((w, k, np)) => if at_end(ts, k) {
                        Some((StmtShape::Delete { table, where_eq: w }, np))
                    } else {
                        None
                    },
                }
            },
            _ => None,
        }
    }
}


/// Parses `col = lit` assignments separated by commas; the list ends at
/// the first token that does not continue it.
pub open spec fn parse_set_list(ts: Seq<TokShape>, i: int, p: int) -> Option<
    (Seq<(Seq<u8>, LitShape)>, int, int),
>
    decreases ts.len() - i,
{
    if !(0 <= i && i + 1 < ts.len()) {
        None
    } else {
        match ts[i] {
            TokShape::Ident(col) => if ts[i + 1] == TokShape::EqSym {
                match parse_lit(ts, i + 2, p) {
                    Option::None => None,
                    Option::Some((l, i2, p2)) => if i2 <= i {
                        None
                    } else if 0 <= i2 && i2 < ts.len() && ts[i2] == TokShape::Comma {
                        match parse_set_list(ts, i2 + 1, p2) {
                            Option::None => None,
                            Option::Some((rest, j, p3)) => Some((seq![(col, l)] + rest, j, p3)),
                        }
                    } else {
                        Some((seq![(col, l)], i2, p2))
                    },
                }
            } else {
                None
            },
            _ => None,
        }
    }
}

/// Parses `UPDATE` after the keyword: the table name, `SET`, the
/// assignments, the optional filter, the end of the statement.
pub open spec fn parse_update(ts: Seq<TokShape>, i: int) -> Option<(StmtShape, int)> {
    if !(0 <= i && i + 1 < ts.len()) {
        None
    } else {
        match ts[i] {
            TokShape::Ident(table) => if is_kw(ts[i + 1], kw_set_word()) {
                match parse_set_list(ts, i + 2, 0) {
                    Option::None => None,
                    Option::Some((sets, j, p)) => match parse_where(ts, j, p) {
                        Option::None => None,
                        Option::Some((w, k, np)) => if at_end(ts, k) {
                            Some((StmtShape::Update { table, sets, where_eq: w }, np))
                        } else {
                            None
                        },
                    },
                }
            } else {
                None
            },
            _ => None,
        }
    }
}

/// Parses a whole statement from its tokens; yields the compiled
/// statement and its placeholder count.
pub open spec fn parse_sql(ts: Seq<TokShape>) -> Option<(StmtShape, int)> {
    if ts.len() >= 2 && is_kw(ts[0], kw_create()) && is_kw(ts[1], kw_table()) {
        match parse_create(ts, 2) {
            Option::None => None,
            Option::Some(st) => Some((st, 0)),
        }
    } else if ts.len() >= 2 && is_kw(ts[0], kw_insert()) && is_kw(ts[1], kw_into()) {
        parse_insert(ts, 2)
    } else if ts.len() >= 1 && is_kw(ts[0], kw_select()) {
        parse_select(ts, 1)
    } else if ts.len() >= 2 && is_kw(ts[0], kw_delete()) && is_kw(ts[1], kw_from()) {
        parse_delete(ts, 2)
    } else if ts.len() >= 2 && is_kw(ts[0], kw_update()) {
        parse_update(ts, 1)
    } else {
        None
    }
}

/// The declared column type named by an identifier token, if any.
fn ty_of_name_exec(b: &Vec<u8>) -> (r: Option<Type>)
    ensures
        r == ty_of_name(b@),
{
    let t = Token::Ident(copy_byte_range(b, 0, b.len()));
    proof {
        assert(b@.subrange(0, b@.len() as int) =~= b@);
    }
    if is_kw_exec(&t, &kw_integer_v()) || is_kw_exec(&t, &kw_int_v()) || is_kw_exec(
        &t,
        &kw_bigint_v(),
    ) || is_kw_exec(&t, &kw_smallint_v()) || is_kw_exec(&t, &kw_tinyint_v()) {
        Some(Type::Int8)
    } else if is_kw_exec(&t, &kw_string_v()) || is_kw_exec(&t, &kw_varchar_v()) || is_kw_exec(
        &t,
        &kw_char_v(),
    ) || is_kw_exec(&t, &kw_text_v()) {
        Some(Type::String)
    } else if is_kw_exec(&t, &kw_boolean_v()) || is_kw_exec(&t, &kw_bool_v()) {
        Some(Type::Bool)
    } else if is_kw_exec(&t, &kw_real_v()) || is_kw_exec(&t, &kw_float_v()) || is_kw_exec(
        &t,
        &kw_double_v(),
    ) {
        Some(Type::Real8)
    } else if is_kw_exec(&t, &kw_timestamp_v()) || is_kw_exec(&t, &kw_datetime_v()) {
        Some(Type::Time)
    } else {
        None
    }
}

/// Copies a whole byte vector.
fn copy_bytes(b: &Vec<u8>) -> (r: Vec<u8>)
    ensures
        r@ == b@,
{
    let r = copy_byte_range(b, 0, b.len());
    proof {
        assert(b@.subrange(0, b@.len() as int) =~= b@);
    }
    r
}

/// True if position `i` is the end of the statement.
fn at_end_exec(ts: &Vec<Token>, i: usize) -> (r: bool)
    ensures
        r == at_end(ts.deep_view(), i as int),
{
    i == ts.len() || (i < ts.len() && i + 1 == ts.len() && matches!(ts[i], Token::Semi))
}

/// Parses `name type` column definitions up to the closing parenthesis.
fn parse_coldefs_exec(ts: &Vec<Token>, i: usize) -> (r: Option<(Vec<ColDef>, usize)>)
    ensures
        (r matches Some(out) ==> parse_coldefs(ts.deep_view(), i as int) == Some(
            (out.0.deep_view(), out.1 as int),
        )),
        (r is None ==> parse_coldefs(ts.deep_view(), i as int) is None),
    decreases ts@.len() - i,
{
    let n = ts.len();
    if !(i < n && n - i > 2) {
        return None;
    }
    let name = match &ts[i] {
        Token::Ident(b) => copy_bytes(b),
        _ => {
            return None;
        },
    };
    let ty = match &ts[i + 1] {
        Token::Ident(b) => match ty_of_name_exec(b) {
            Option::Some(t) => t,
            Option::None => {
                return None;
            },
        },
        _ => {
            return None;
        },
    };
    let col = ColDef { name, ty };
    match &ts[i + 2] {
        Token::RParen => {
            let mut out: Vec<ColDef> = Vec::new();
            out.push(col);
            proof {
                assert(out.deep_view() =~= seq![col.deep_view()]);
            }
            Some((out, i + 3))
        },
        Token::Comma => {
            match parse_coldefs_exec(ts, i + 3) {
                Option::None => None,
                Option::Some((mut rest, j)) => {
                    let ghost pre = rest.deep_view();
                    rest.insert(0, col);
                    proof {
                        assert(rest.deep_view() =~= seq![col.deep_view()] + pre);
                    }
                    Some((rest, j))
                },
            }
        },
        _ => None,
    }
}

/// Parses one literal or placeholder.
fn parse_lit_exec(ts: &Vec<Token>, i: usize, p: usize) -> (r: Option<(Lit, usize, usize)>)
    requires
        p <= i,
    ensures
        (r matches Some(out) ==> parse_lit(ts.deep_view(), i as int, p as int) == Some(
            (out.0.deep_view(), out.1 as int, out.2 as int),
        )),
        (r is None ==> parse_lit(ts.deep_view(), i as int, p as int) is None),
        (r matches Some(out) ==> i < out.1 <= i + 2 && p <= out.2 <= p + 1 && out.2 <= out.1),
{
    if i >= ts.len() {
        return None;
    }
    match &ts[i] {
        Token::Num(n) => {
            if *n <= 0x7fff_ffff_ffff_ffffu64 {
                Some((Lit::IntL(*n as i64), i + 1, p))
            } else {
                None
            }
        },
        Token::Minus => {
            if i + 1 < ts.len() {
                match &ts[i + 1] {
                    Token::Num(n) => {
                        if *n <= 0x8000_0000_0000_0000u64 {
                            let v: i64 = if *n == 0x8000_0000_0000_0000u64 {
                                i64::MIN
                            } else {
                                -(*n as i64)
                            };
                            Some((Lit::IntL(v), i + 2, p))
                        } else {
                            None
                        }
                    },
                    _ => None,
                }
            } else {
                None
            }
        },
        Token::StrLit(b) => Some((Lit::StrL(copy_bytes(b)), i + 1, p)),
        Token::Param => Some((Lit::ParamL(p), i + 1, p + 1)),
        Token::Ident(b) => {
            let t = Token::Ident(copy_bytes(b));
            if is_kw_exec(&t, &kw_null_v()) {
                Some((Lit::NullL, i + 1, p))
            } else if is_kw_exec(&t, &kw_true_v()) {
                Some((Lit::BoolL(true), i + 1, p))
            } else if is_kw_exec(&t, &kw_false_v()) {
                Some((Lit::BoolL(false), i + 1, p))
            } else {
                None
            }
        },
        _ => None,
    }
}

/// Parses literals separated by commas up to a closing parenthesis.
fn parse_lit_list_exec(ts: &Vec<Token>, i: usize, p: usize) -> (r: Option<
    (Vec<Lit>, usize, usize),
>)
    requires
        p <= i,
    ensures
        (r matches Some(out) ==> parse_lit_list(ts.deep_view(), i as int, p as int) == Some(
            (out.0.deep_view(), out.1 as int, out.2 as int),
        ) && out.2 >= p && out.2 <= out.1 && out.1 > i),
        (r is None ==> parse_lit_list(ts.deep_view(), i as int, p as int) is None),
    decreases ts@.len() - i,
{
    match parse_lit_exec(ts, i, p) {
        Option::None => None,
        Option::Some((l, i2, p2)) => {
            if i2 >= ts.len() {
                return None;
            }
            match &ts[i2] {
                Token::RParen => {
                    let mut out: Vec<Lit> = Vec::new();
                    out.push(l);
                    proof {
                        assert(out.deep_view() =~= seq![l.deep_view()]);
                    }
                    Some((out, i2 + 1, p2))
                },
                Token::Comma => {
                    match parse_lit_list_exec(ts, i2 + 1, p2) {
                        Option::None => None,
                        Option::Some((mut rest, j, p3)) => {
                            let ghost pre = rest.deep_view();
                            rest.insert(0, l);
                            proof {
                                assert(rest.deep_view() =~= seq![l.deep_view()] + pre);
                            }
                            Some((rest, j, p3))
                        },
                    }
                },
                _ => None,
            }
        },
    }
}

/// Parses parenthesized value rows separated by commas.
fn parse_rows_exec(ts: &Vec<Token>, i: usize, p: usize) -> (r: Option<
    (Vec<Vec<Lit>>, usize, usize),
>)
    requires
        p <= i,
    ensures
        (r matches Some(out) ==> parse_rows(ts.deep_view(), i as int, p as int) == Some(
            (out.0.deep_view(), out.1 as int, out.2 as int),
        ) && out.2 <= out.1),
        (r is None ==> parse_rows(ts.deep_view(), i as int, p as int) is None),
    decreases ts@.len() - i,
{
    if !(i < ts.len() && matches!(ts[i], Token::LParen)) {
        return None;
    }
    match parse_lit_list_exec(ts, i + 1, p) {
        Option::None => None,
        Option::Some((row, i2, p2)) => {
            if i2 < ts.len() && matches!(ts[i2], Token::Comma) {
                match parse_rows_exec(ts, i2 + 1, p2) {
                    Option::None => None,
                    Option::Some((mut rest, j, p3)) => {
                        let ghost pre = rest.deep_view();
                        rest.insert(0, row);
                        proof {
                            assert(rest.deep_view() =~= seq![row.deep_view()] + pre);
                        }
                        Some((rest, j, p3))
                    },
                }
            } else {
                let mut out: Vec<Vec<Lit>> = Vec::new();
                out.push(row);
                proof {
                    assert(out.deep_view() =~= seq![row.deep_view()]);
                }
                Some((out, i2, p2))
            }
        },
    }
}

/// Parses identifiers separated by commas up to a closing parenthesis.
fn parse_name_list_exec(ts: &Vec<Token>, i: usize) -> (r: Option<(Vec<Vec<u8>>, usize)>)
    ensures
        (r matches Some(out) ==> parse_name_list(ts.deep_view(), i as int) == Some(
            (out.0.deep_view(), out.1 as int),
        )),
        (r is None ==> parse_name_list(ts.deep_view(), i as int) is None),
    decreases ts@.len() - i,
{
    let len = ts.len();
    if !(i < len && len - i > 1) {
        return None;
    }
    let n = match &ts[i] {
        Token::Ident(b) => copy_bytes(b),
        _ => {
            return None;
        },
    };
    match &ts[i + 1] {
        Token::RParen => {
            let mut out: Vec<Vec<u8>> = Vec::new();
            out.push(n);
            proof {
                assert(out.deep_view() =~~= seq![n@]);
            }
            Some((out, i + 2))
        },
        Token::Comma => {
            match parse_name_list_exec(ts, i + 2) {
                Option::None => None,
                Option::Some((mut rest, j)) => {
                    let ghost pre = rest.deep_view();
                    rest.insert(0, n);
                    proof {
                        assert(rest.deep_view() =~~= seq![n@] + pre);
                    }
                    Some((rest, j))
                },
            }
        },
        _ => None,
    }
}

/// Parses the projected column names up to `FROM`.
fn parse_sel_list_exec(ts: &Vec<Token>, i: usize) -> (r: Option<(Vec<Vec<u8>>, usize)>)
    ensures
        (r matches Some(out) ==> parse_sel_list(ts.deep_view(), i as int) == Some(
            (out.0.deep_view(), out.1 as int),
        )),
        (r is None ==> parse_sel_list(ts.deep_view(), i as int) is None),
    decreases ts@.len() - i,
{
    let len = ts.len();
    if !(i < len && len - i > 1) {
        return None;
    }
    let n = match &ts[i] {
        Token::Ident(b) => copy_bytes(b),
        _ => {
            return None;
        },
    };
    let t = Token::Ident(copy_bytes(&n));
    if is_kw_exec(&t, &kw_from_v()) {
        return None;
    }
    match &ts[i + 1] {
        Token::Comma => {
            match parse_sel_list_exec(ts, i + 2) {
                Option::None => None,
                Option::Some((mut rest, j)) => {
                    let ghost pre = rest.deep_view();
                    rest.insert(0, n);
                    proof {
                        assert(rest.deep_view() =~~= seq![n@] + pre);
                    }
                    Some((rest, j))
                },
            }
        },
        _ => {
            let mut out: Vec<Vec<u8>> = Vec::new();
            out.push(n);
            proof {
                assert(out.deep_view() =~~= seq![n@]);
            }
            Some((out, i + 1))
        },
    }
}

/// Parses the optional `WHERE col = lit` clause.
fn parse_where_exec(ts: &Vec<Token>, i: usize, p: usize) -> (r: Option<
    (Option<(Vec<u8>, Lit)>, usize, usize),
>)
    requires
        p <= i,
    ensures
        (r matches Some(out) ==> parse_where(ts.deep_view(), i as int, p as int) == Some(
            (
                match out.0 {
                    Option::Some(w) => Some((w.0@, w.1.deep_view())),
                    Option::None => None,
                },
                out.1 as int,
                out.2 as int,
            ),
        ) && out.2 <= out.1),
        (r is None ==> parse_where(ts.deep_view(), i as int, p as int) is None),
{
    let len = ts.len();
    if i < len && is_kw_exec(&ts[i], &kw_where_v()) {
        if len - i > 2 {
            let col = match &ts[i + 1] {
                Token::Ident(b) => copy_bytes(b),
                _ => {
                    return None;
                },
            };
            if matches!(ts[i + 2], Token::EqSym) {
                match parse_lit_exec(ts, i + 3, p) {
                    Option::None => None,
                    Option::Some((l, j, p2)) => Some((Some((col, l)), j, p2)),
                }
            } else {
                None
            }
        } else {
            None
        }
    } else {
        Some((None, i, p))
    }
}

/// Parses the optional `ORDER BY col [ASC | DESC]` clause.
fn parse_order_exec(ts: &Vec<Token>, i: usize) -> (r: Option<(Option<(Vec<u8>, bool)>, usize)>)
    ensures
        (r matches Some(out) ==> parse_order(ts.deep_view(), i as int) == Some(
            (
                match out.0 {
                    Option::Some(o) => Some((o.0@, o.1)),
                    Option::None => None,
                },
                out.1 as int,
            ),
        ) && out.1 >= i),
        (r is None ==> parse_order(ts.deep_view(), i as int) is None),
{
    let len = ts.len();
    if i < len && is_kw_exec(&ts[i], &kw_order_v()) {
        if len - i > 2 && is_kw_exec(&ts[i + 1], &kw_by_v()) {
            let col = match &ts[i + 2] {
                Token::Ident(b) => copy_bytes(b),
                _ => {
                    return None;
                },
            };
            let t = Token::Ident(copy_bytes(&col));
            if is_kw_exec(&t, &kw_asc_v()) || is_kw_exec(&t, &kw_desc_v()) {
                return None;
            }
            if i + 3 < ts.len() && is_kw_exec(&ts[i + 3], &kw_desc_v()) {
                Some((Some((col, true)), i + 4))
            } else if i + 3 < ts.len() && is_kw_exec(&ts[i + 3], &kw_asc_v()) {
                Some((Some((col, false)), i + 4))
            } else {
                Some((Some((col, false)), i + 3))
            }
        } else {
            None
        }
    } else {
        Some((None, i))
    }
}


/// Parses `col = lit` assignments separated by commas.
fn parse_set_list_exec(ts: &Vec<Token>, i: usize, p: usize) -> (r: Option<
    (Vec<(Vec<u8>, Lit)>, usize, usize),
>)
    requires
        p <= i,
    ensures
        (r matches Some(out) ==> parse_set_list(ts.deep_view(), i as int, p as int) == Some(
            (
                Seq::new(out.0@.len() as nat, |k: int| (out.0@[k].0@, out.0@[k].1.deep_view())),
                out.1 as int,
                out.2 as int,
            ),
        ) && out.2 <= out.1),
        (r is None ==> parse_set_list(ts.deep_view(), i as int, p as int) is None),
    decreases ts@.len() - i,
{
    let len = ts.len();
    if !(i < len && len - i > 1) {
        return None;
    }
    let col = match &ts[i] {
        Token::Ident(b) => copy_bytes(b),
        _ => {
            return None;
        },
    };
    if !matches!(ts[i + 1], Token::EqSym) {
        return None;
    }
    match parse_lit_exec(ts, i + 2, p) {
        Option::None => None,
        Option::Some((l, i2, p2)) => {
            if i2 < len && matches!(ts[i2], Token::Comma) {
                match parse_set_list_exec(ts, i2 + 1, p2) {
                    Option::None => None,
                    Option::Some((mut rest, j, p3)) => {
                        let ghost pre = Seq::new(
                            rest@.len() as nat,
                            |k: int| (rest@[k].0@, rest@[k].1.deep_view()),
                        );
                        rest.insert(0, (col, l));
                        proof {
                            assert(Seq::new(
                                rest@.len() as nat,
                                |k: int| (rest@[k].0@, rest@[k].1.deep_view()),
                            ) =~= seq![(rest@[0].0@, rest@[0].1.deep_view())] + pre);
                        }
                        Some((rest, j, p3))
                    },
                }
            } else {
                let mut out: Vec<(Vec<u8>, Lit)> = Vec::new();
                out.push((col, l));
                proof {
                    assert(Seq::new(
                        out@.len() as nat,
                        |k: int| (out@[k].0@, out@[k].1.deep_view()),
                    ) =~= seq![(out@[0].0@, out@[0].1.deep_view())]);
                }
                Some((out, i2, p2))
            }
        },
    }
}

/// Parses a whole statement from its tokens; yields the compiled
/// statement and its placeholder count.
pub fn parse_sql_exec(ts: &Vec<Token>) -> (r: Option<(Stmt, usize)>)
    ensures
        (r matches Some(out) ==> parse_sql(ts.deep_view()) == Some(
            (out.0.deep_view(), out.1 as int),
        )),
        (r is None ==> parse_sql(ts.deep_view()) is None),
{
    let n = ts.len();
    if n >= 2 && is_kw_exec(&ts[0], &kw_create_v()) && is_kw_exec(&ts[1], &kw_table_v()) {
        // CREATE TABLE name(col ty, ...)
        if !(3 < n) {
            return None;
        }
        let table = match &ts[2] {
            Token::Ident(b) => copy_bytes(b),
            _ => {
                return None;
            },
        };
        if !matches!(ts[3], Token::LParen) {
            return None;
        }
        match parse_coldefs_exec(ts, 4) {
            Option::None => None,
            Option::Some((cols, j)) => {
                if at_end_exec(ts, j) {
                    Some((Stmt::CreateTable { table, cols }, 0))
                } else {
                    None
                }
            },
        }
    } else if n >= 2 && is_kw_exec(&ts[0], &kw_insert_v()) && is_kw_exec(&ts[1], &kw_into_v()) {
        // INSERT INTO name [(col, ...)] VALUES (lit, ...), ...
        if !(3 < n) {
            return None;
        }
        let table = match &ts[2] {
            Token::Ident(b) => copy_bytes(b),
            _ => {
                return None;
            },
        };
        if matches!(ts[3], Token::LParen) {
            match parse_name_list_exec(ts, 4) {
                Option::None => None,
                Option::Some((names, j)) => {
                    if j < n && is_kw_exec(&ts[j], &kw_values_v()) {
                        match parse_rows_exec(ts, j + 1, 0) {
                            Option::None => None,
                            Option::Some((rows, k, np)) => {
                                if at_end_exec(ts, k) {
                                    Some(
                                        (
                                            Stmt::Insert { table, cols: Some(names), rows },
                                            np,
                                        ),
                                    )
                                } else {
                                    None
                                }
                            },
                        }
                    } else {
                        None
                    }
                },
            }
        } else if is_kw_exec(&ts[3], &kw_values_v()) {
            match parse_rows_exec(ts, 4, 0) {
                Option::None => None,
                Option::Some((rows, k, np)) => {
                    if at_end_exec(ts, k) {
                        Some((Stmt::Insert { table, cols: None, rows }, np))
                    } else {
                        None
                    }
                },
            }
        } else {
            None
        }
    } else if n >= 1 && is_kw_exec(&ts[0], &kw_select_v()) {
        // SELECT cols FROM name [WHERE col = lit] [ORDER BY col [DESC]]
        let proj: Option<(SelCols, usize)> = if 1 < n && matches!(ts[1], Token::Star) {
            Some((SelCols::Star, 2))
        } else {
            match parse_sel_list_exec(ts, 1) {
                Option::None => None,
                Option::Some((names, j)) => Some((SelCols::List(names), j)),
            }
        };
        match proj {
            Option::None => None,
            Option::Some((cols, j)) => {
                if j < n && n - j > 1 && is_kw_exec(&ts[j], &kw_from_v()) {
                    let table = match &ts[j + 1] {
                        Token::Ident(b) => copy_bytes(b),
                        _ => {
                            return None;
                        },
                    };
                    match parse_where_exec(ts, j + 2, 0) {
                        Option::None => None,
                        Option::Some((w, k, np)) => {
                            match parse_order_exec(ts, k) {
                                Option::None => None,
                                Option::Some((o, m)) => {
                                    if at_end_exec(ts, m) {
                                        Some(
                                            (
                                                Stmt::Query {
                                                    cols,
                                                    table,
                                                    where_eq: w,
                                                    order_by: o,
                                                },
                                                np,
                                            ),
                                        )
                                    } else {
                                        None
                                    }
                                },
                            }
                        },
                    }
                } else {
                    None
                }
            },
        }
    } else if n >= 2 && is_kw_exec(&ts[0], &kw_delete_v()) && is_kw_exec(&ts[1], &kw_from_v()) {
        // DELETE FROM name [WHERE col = lit]
        if !(2 < n) {
            return None;
        }
        let table = match &ts[2] {
            Token::Ident(b) => copy_bytes(b),
            _ => {
                return None;
            },
        };
        let t = Token::Ident(copy_bytes(&table));
        if is_kw_exec(&t, &kw_where_v()) {
            return None;
        }
        match parse_where_exec(ts, 3, 0) {
            Option::None => None,
            Option::Some((w, k, np)) => {
                if at_end_exec(ts, k) {
                    Some((Stmt::Delete { table, where_eq: w }, np))
                } else {
                    None
                }
            },
        }
    } else if n >= 2 && is_kw_exec(&ts[0], &kw_update_v()) {
        // UPDATE name SET col = lit, ... [WHERE col = lit]
        if !(2 < n) {
            return None;
        }
        let table = match &ts[1] {
            Token::Ident(b) => copy_bytes(b),
            _ => {
                return None;
            },
        };
        if !is_kw_exec(&ts[2], &kw_set_word_v()) {
            return None;
        }
        match parse_set_list_exec(ts, 3, 0) {
            Option::None => None,
            Option::Some((sets, j, p)) => {
                match parse_where_exec(ts, j, p) {
                    Option::None => None,
                    Option::Some((w, k, np)) => {
                        if at_end_exec(ts, k) {
                            Some((Stmt::Update { table, sets, where_eq: w }, np))
                        } else {
                            None
                        }
                    },
                }
            },
        }
    } else {
        None
    }
}



/// The characters of an ASCII byte run, byte for byte.
pub open spec fn decode_ascii(b: Seq<u8>) -> Seq<char> {
    b.map_values(|x: u8| x as char)
}

/// True if every byte of the run is ASCII.
pub open spec fn ascii_bytes(b: Seq<u8>) -> bool {
    forall|i: int| 0 <= i < b.len() ==> #[trigger] b[i] < 128
}

/// True if every byte of the run is ASCII.
fn ascii_bytes_exec(b: &Vec<u8>) -> (r: bool)
    ensures
        r == ascii_bytes(b@),
{
    let n = b.len();
    let mut i: usize = 0;
    while i < n
        invariant
            i <= n,
            n == b@.len(),
            forall|k: int| 0 <= k < i ==> #[trigger] b@[k] < 128,
        decreases n - i,
    {
        if b[i] >= 128 {
            return false;
        }
        i = i + 1;
    }
    true
}

/// Relies on `String::from_utf8` of the standard library: a run of ASCII
/// bytes is valid UTF-8 and decodes to the characters with the same code
/// points, byte for byte.
#[verifier::external_body]
fn ascii_to_string(b: &Vec<u8>) -> (r: String)
    requires
        ascii_bytes(b@),
    ensures
        r@ == decode_ascii(b@),
{
    match String::from_utf8(b.clone()) {
        Ok(s) => s,
        Err(_) => String::new(),
    }
}

/// True if two byte runs hold the same bytes.
fn bytes_eq(a: &Vec<u8>, b: &Vec<u8>) -> (r: bool)
    ensures
        r == (a@ == b@),
{
    if a.len() != b.len() {
        return false;
    }
    let n = a.len();
    let mut i: usize = 0;
    while i < n
        invariant
            i <= n,
            n == a@.len(),
            n == b@.len(),
            forall|k: int| 0 <= k < i ==> a@[k] == b@[k],
        decreases n - i,
    {
        if a[i] != b[i] {
            return false;
        }
        i = i + 1;
    }
    proof {
        assert(a@ =~= b@);
    }
    true
}

/// True if the byte run names the class: the bytes are the UTF-8
/// encoding of the class name.
pub open spec fn names_class(b: Seq<u8>, cls: DictStruct) -> bool {
    vstd::utf8::encode_utf8(cls.name@) == b
}

/// Resolves a byte run to the first class it names, if any.
fn find_class_bytes(dict: &Dictionary, name: &Vec<u8>) -> (r: Option<usize>)
    ensures
        (r matches Some(c) ==> c < dict.classes@.len() && names_class(name@, dict.classes@[
            c as int]) && (forall|d: int|
            0 <= d < c ==> !names_class(name@, #[trigger] dict.classes@[d]))),
        (r is None ==> forall|d: int|
            0 <= d < dict.classes@.len() ==> !names_class(name@, #[trigger] dict.classes@[d])),
{
    let n = dict.classes.len();
    let mut c: usize = 0;
    while c < n
        invariant
            c <= n,
            n == dict.classes@.len(),
            forall|d: int| 0 <= d < c ==> !names_class(name@, #[trigger] dict.classes@[d]),
        decreases n - c,
    {
        let cb = dict.classes[c].name.as_str().as_bytes_vec();
        if bytes_eq(&cb, name) {
            return Some(c);
        }
        c = c + 1;
    }
    None
}

/// True if the byte run names the field: the bytes are the UTF-8
/// encoding of the field name.
pub open spec fn names_field(b: Seq<u8>, f: DictField) -> bool {
    vstd::utf8::encode_utf8(f.name@) == b
}

/// Resolves a byte run to the first field of the class it names, if any.
fn find_field(cls: &DictStruct, name: &Vec<u8>) -> (r: Option<usize>)
    ensures
        (r matches Some(f) ==> f < cls.fields@.len() && names_field(name@, cls.fields@[f as int])
            && (forall|g: int|
            0 <= g < f ==> !names_field(name@, #[trigger] cls.fields@[g]))),
        (r is None ==> forall|g: int|
            0 <= g < cls.fields@.len() ==> !names_field(name@, #[trigger] cls.fields@[g])),
{
    let n = cls.fields.len();
    let mut f: usize = 0;
    while f < n
        invariant
            f <= n,
            n == cls.fields@.len(),
            forall|g: int| 0 <= g < f ==> !names_field(name@, #[trigger] cls.fields@[g]),
        decreases n - f,
    {
        let fb = cls.fields[f].name.as_str().as_bytes_vec();
        if bytes_eq(&fb, name) {
            return Some(f);
        }
        f = f + 1;
    }
    None
}

/// True if the column definitions carry pairwise distinct names.
pub open spec fn distinct_names(cols: Seq<ColDefShape>) -> bool {
    forall|i: int, j: int|
        0 <= i < j < cols.len() ==> (#[trigger] cols[i]).name != (#[trigger] cols[j]).name
}

/// True if the whole `CREATE TABLE` request is ASCII: the table name and
/// every column name.
pub open spec fn create_ascii(table: Seq<u8>, cols: Seq<ColDefShape>) -> bool {
    ascii_bytes(table) && (forall|i: int|
        0 <= i < cols.len() ==> ascii_bytes((#[trigger] cols[i]).name))
}

/// Executes `CREATE TABLE`: registers the class in the catalog and adds
/// its (empty) storage.
///
/// Fails with `COMPILE_ERROR` on an empty table name, duplicate or
/// non-ASCII names or an empty column list, and with the catalog's own
/// error when the name is taken (`IllegalParam`) or a reservation is
/// spent (`DictCapacityExceeded`); the database is unchanged on failure.
/// On success the catalog gains exactly the described class, the store
/// gains its empty row storage, and nothing else changes.
pub fn exec_create_table(
    dict: &mut Dictionary,
    store: &mut Store,
    table: &Vec<u8>,
    cols: &Vec<ColDef>,
) -> (r: Result<i64, Error>)
    requires
        old(dict).wf(),
        old(store).wf(),
        crate::database::schema_ok(*old(dict), *old(store)),
    ensures
        final(dict).wf(),
        final(store).wf(),
        crate::database::schema_ok(*final(dict), *final(store)),
        (r is Err ==> *final(dict) == *old(dict) && *final(store) == *old(store)),
        (!(create_ascii(table@, cols.deep_view()) && distinct_names(cols.deep_view())
            && cols@.len() > 0 && table@.len() > 0) ==> r == Err::<i64, Error>(
            Error::Sql(SqlError(SqlCode::CompileError)),
        )),
        ((create_ascii(table@, cols.deep_view()) && distinct_names(cols.deep_view())
            && cols@.len() > 0 && table@.len() > 0) ==> ({
            let taken = old(dict).class_name_taken(decode_ascii(table@));
            let fits = old(dict).class_fits(cols@.len() as nat);
            &&& (taken ==> r == Err::<i64, Error>(Error::Core(CoreError(CoreCode::IllegalParam))))
            &&& (!taken && !fits ==> r == Err::<i64, Error>(
                Error::Core(CoreError(CoreCode::DictCapacityExceeded)),
            ))
            &&& (!taken && fits ==> r == Ok::<i64, Error>(0))
        })),
        (r matches Ok(n) ==> n == 0 && final(dict).classes@.len() == old(dict).classes@.len() + 1
            && final(store).data@.len() == old(store).data@.len() + 1 && final(dict).classes@.last().name@ == decode_ascii(table@) && final(dict).classes@.last().fields@.len() == cols@.len() && (forall|i: int|
            0 <= i < cols@.len() ==> (#[trigger] final(dict).classes@.last().fields@[i]).name@
                == decode_ascii(cols.deep_view()[i].name) && final(dict).classes@.last().fields@[i].field_el_type == cols.deep_view()[i].ty) && (forall|
            d: int,
        |
            0 <= d < old(dict).classes@.len() ==> #[trigger] final(dict).classes@[d] == old(dict).classes@[d]) && final(store).data@[old(store).data@.len() as int].rows@.len() == 0),
        (r is Ok ==> final(dict).indexes@ == old(dict).indexes@),
{
    // Compile checks come first: no row or catalog entry is touched
    // before the statement is known well-formed.
    if cols.len() == 0 {
        return Err(Error::Sql(SqlError(SqlCode::CompileError)));
    }
    if table.len() == 0 {
        return Err(Error::Sql(SqlError(SqlCode::CompileError)));
    }
    if !ascii_bytes_exec(table) {
        return Err(Error::Sql(SqlError(SqlCode::CompileError)));
    }
    let nc = cols.len();
    let mut i: usize = 0;
    while i < nc
        invariant
            i <= nc,
            nc == cols@.len(),
            *dict == *old(dict),
            *store == *old(store),
            old(dict).wf(),
            old(store).wf(),
            crate::database::schema_ok(*old(dict), *old(store)),
            forall|k: int| 0 <= k < i ==> ascii_bytes(#[trigger] cols.deep_view()[k].name),
            forall|k1: int, k2: int|
                0 <= k1 < k2 < i ==> (#[trigger] cols.deep_view()[k1]).name
                    != (#[trigger] cols.deep_view()[k2]).name,
        decreases nc - i,
    {
        if !ascii_bytes_exec(&cols[i].name) {
            return Err(Error::Sql(SqlError(SqlCode::CompileError)));
        }
        let mut j: usize = 0;
        while j < i
            invariant
                j <= i < nc,
                nc == cols@.len(),
                *dict == *old(dict),
                *store == *old(store),
                old(dict).wf(),
                old(store).wf(),
                crate::database::schema_ok(*old(dict), *old(store)),
                forall|k: int|
                    0 <= k < j ==> (#[trigger] cols.deep_view()[k]).name != cols.deep_view()[
                        i as int].name,
            decreases i - j,
        {
            if bytes_eq(&cols[j].name, &cols[i].name) {
                proof {
                    assert(cols.deep_view()[j as int].name == cols.deep_view()[i as int].name);
                    assert(!distinct_names(cols.deep_view()));
                }
                return Err(Error::Sql(SqlError(SqlCode::CompileError)));
            }
            j = j + 1;
        }
        i = i + 1;
    }
    // Build the class descriptor.
    let mut fields: Vec<DictField> = Vec::new();
    let mut f: usize = 0;
    while f < nc
        invariant
            f <= nc,
            nc == cols@.len(),
            fields@.len() == f,
            forall|k: int| 0 <= k < nc ==> ascii_bytes(#[trigger] cols.deep_view()[k].name),
            forall|k: int|
                0 <= k < f ==> (#[trigger] fields@[k]).name@ == decode_ascii(
                    cols.deep_view()[k].name,
                ) && fields@[k].field_el_type == cols.deep_view()[k].ty,
        decreases nc - f,
    {
        proof {
            assert(ascii_bytes(cols.deep_view()[f as int].name));
        }
        let mut df = DictField::new();
        df.name = ascii_to_string(&cols[f].name);
        df.field_el_type = cols[f].ty;
        if f <= 65535 {
            df.no = f as u16;
        }
        fields.push(df);
        f = f + 1;
    }
    let cls = DictStruct { name: ascii_to_string(table), flags: 0, fields, events: Vec::new() };
    proof {
        assert(cls.name@ == decode_ascii(table@));
        assert(decode_ascii(table@).len() == table@.len());
    }
    match dict.add_class(cls) {
        Ok(_) => {
            store.add_class();
            Ok(0)
        },
        Err(e) => Err(e),
    }
}


/// The value a literal binds to, given the statement arguments: literals
/// bind to themselves (string literals as their ASCII text), placeholders
/// to the argument with their number.
pub open spec fn bind_lit_spec(l: LitShape, args: Seq<ValShape>) -> ValShape {
    match l {
        LitShape::NullL => ValShape::Null,
        LitShape::IntL(i) => ValShape::Int(i),
        LitShape::StrL(b) => ValShape::Str(decode_ascii(b)),
        LitShape::BoolL(b) => ValShape::Bool(b),
        LitShape::ParamL(p) => args[p as int],
    }
}

/// True if the literal can be bound at all: placeholders are within the
/// argument count, and string literals are ASCII.
pub open spec fn lit_ok(l: LitShape, args: Seq<ValShape>) -> bool {
    match l {
        LitShape::ParamL(p) => p < args.len(),
        LitShape::StrL(b) => ascii_bytes(b),
        _ => true,
    }
}

/// The value stored into a column of declared type `ty` for a bound value
/// `v`, if the types agree: `null` is accepted everywhere, integers into
/// integer columns, text into string columns, booleans, floating point
/// bit patterns, numerics; a non-negative integer is accepted into a
/// timestamp column as its tick count.
pub open spec fn coerce(ty: Type, v: ValShape) -> Option<ValShape> {
    if v is Null {
        Some(ValShape::Null)
    } else {
        match ty {
            Type::Int8 => if v is Int {
                Some(v)
            } else {
                None
            },
            Type::String => if v is Str {
                Some(v)
            } else {
                None
            },
            Type::Bool => if v is Bool {
                Some(v)
            } else {
                None
            },
            Type::Real8 => if v is Real {
                Some(v)
            } else {
                None
            },
            Type::Time => match v {
                ValShape::Time(t) => Some(v),
                ValShape::Int(i) => if i >= 0 {
                    Some(ValShape::Time(i as u64))
                } else {
                    None
                },
                _ => None,
            },
            Type::Numeric => if v is Numeric {
                Some(v)
            } else {
                None
            },
            _ => None,
        }
    }
}

/// The first `k` values of a row bound and coerced against the first `k`
/// fields, or `None` on any binding or type failure.
pub open spec fn bound_prefix(
    fields: Seq<DictField>,
    lits: Seq<LitShape>,
    args: Seq<ValShape>,
    k: int,
) -> Option<Seq<ValShape>>
    decreases k,
{
    if k <= 0 {
        Some(Seq::empty())
    } else if k > fields.len() || k > lits.len() {
        None
    } else {
        match bound_prefix(fields, lits, args, k - 1) {
            Option::None => None,
            Option::Some(pre) => if lit_ok(lits[k - 1], args) {
                match coerce(fields[k - 1].field_el_type, bind_lit_spec(lits[k - 1], args)) {
                    Option::None => None,
                    Option::Some(v) => Some(pre.push(v)),
                }
            } else {
                None
            },
        }
    }
}

/// A whole row bound and coerced against the fields, or `None` when the
/// arity differs or any value fails.
pub open spec fn bound_row(
    fields: Seq<DictField>,
    lits: Seq<LitShape>,
    args: Seq<ValShape>,
) -> Option<Seq<ValShape>> {
    if lits.len() == fields.len() {
        bound_prefix(fields, lits, args, fields.len() as int)
    } else {
        None
    }
}

/// All rows bound and coerced, or `None` when any row fails.
pub open spec fn bound_rows(
    fields: Seq<DictField>,
    rows: Seq<Seq<LitShape>>,
    args: Seq<ValShape>,
) -> Option<Seq<Seq<ValShape>>>
    decreases rows.len(),
{
    if rows.len() == 0 {
        Some(Seq::empty())
    } else {
        match bound_rows(fields, rows.drop_last(), args) {
            Option::None => None,
            Option::Some(pre) => match bound_row(fields, rows.last(), args) {
                Option::None => None,
                Option::Some(row) => Some(pre.push(row)),
            },
        }
    }
}

/// True if the column names name every field of the class in declaration
/// order. This engine accepts an `INSERT` column list only in that form.
pub open spec fn names_in_order(fields: Seq<DictField>, names: Seq<Seq<u8>>) -> bool {
    names.len() == fields.len() && (forall|k: int|
        0 <= k < names.len() ==> names_field(#[trigger] names[k], fields[k]))
}

/// Binds one literal into a value.
fn bind_lit_exec(l: &Lit, args: &Vec<Value>) -> (r: Option<Value>)
    ensures
        (r matches Some(v) ==> lit_ok(l.deep_view(), args.deep_view()) && v@ == bind_lit_spec(
            l.deep_view(),
            args.deep_view(),
        )),
        (r is None ==> !lit_ok(l.deep_view(), args.deep_view())),
{
    match l {
        Lit::NullL => Some(Value::Null),
        Lit::IntL(i) => Some(Value::Int(*i)),
        Lit::StrL(b) => {
            if ascii_bytes_exec(b) {
                Some(Value::Str(ascii_to_string(b)))
            } else {
                None
            }
        },
        Lit::BoolL(b) => Some(Value::Bool(*b)),
        Lit::ParamL(p) => {
            if *p < args.len() {
                Some(copy_value(&args[*p]))
            } else {
                None
            }
        },
    }
}

/// Coerces a bound value into a column of declared type `ty`.
fn coerce_exec(ty: Type, v: Value) -> (r: Option<Value>)
    ensures
        (r matches Some(out) ==> coerce(ty, v@) == Some(out@)),
        (r is None ==> coerce(ty, v@) is None),
{
    match &v {
        Value::Null => Some(Value::Null),
        Value::Int(i) => {
            match ty {
                Type::Int8 => Some(v),
                Type::Time => {
                    if *i >= 0 {
                        Some(Value::Time(*i as u64))
                    } else {
                        None
                    }
                },
                _ => None,
            }
        },
        Value::Str(_) => {
            if matches!(ty, Type::String) {
                Some(v)
            } else {
                None
            }
        },
        Value::Bool(_) => {
            if matches!(ty, Type::Bool) {
                Some(v)
            } else {
                None
            }
        },
        Value::Real(_) => {
            if matches!(ty, Type::Real8) {
                Some(v)
            } else {
                None
            }
        },
        Value::Time(_) => {
            if matches!(ty, Type::Time) {
                Some(v)
            } else {
                None
            }
        },
        Value::Numeric { .. } => {
            if matches!(ty, Type::Numeric) {
                Some(v)
            } else {
                None
            }
        },
        _ => None,
    }
}

/// Binds and coerces one whole row against the class fields.
fn bound_row_exec(cls: &DictStruct, lits: &Vec<Lit>, args: &Vec<Value>) -> (r: Option<Vec<Value>>)
    ensures
        (r matches Some(row) ==> bound_row(cls.fields@, lits.deep_view(), args.deep_view())
            == Some(row.deep_view())),
        (r is None ==> bound_row(cls.fields@, lits.deep_view(), args.deep_view()) is None),
{
    let n = cls.fields.len();
    if lits.len() != n {
        return None;
    }
    let mut out: Vec<Value> = Vec::new();
    let mut k: usize = 0;
    while k < n
        invariant
            k <= n,
            n == cls.fields@.len(),
            n == lits@.len(),
            bound_prefix(cls.fields@, lits.deep_view(), args.deep_view(), k as int) == Some(
                out.deep_view(),
            ),
            out@.len() == k,
        decreases n - k,
    {
        let bv = match bind_lit_exec(&lits[k], args) {
            Option::Some(v) => v,
            Option::None => {
                proof {
                    lemma_bound_prefix_fail(
                        cls.fields@,
                        lits.deep_view(),
                        args.deep_view(),
                        k + 1,
                        n as int,
                    );
                }
                return None;
            },
        };
        let cv = match coerce_exec(cls.fields[k].field_el_type, bv) {
            Option::Some(v) => v,
            Option::None => {
                proof {
                    lemma_bound_prefix_fail(
                        cls.fields@,
                        lits.deep_view(),
                        args.deep_view(),
                        k + 1,
                        n as int,
                    );
                }
                return None;
            },
        };
        let ghost pre = out.deep_view();
        out.push(cv);
        proof {
            assert(out.deep_view() =~= pre.push(cv.deep_view()));
        }
        k = k + 1;
    }
    Some(out)
}

/// Once a prefix fails to bind, every longer prefix fails too.
proof fn lemma_bound_prefix_fail(
    fields: Seq<DictField>,
    lits: Seq<LitShape>,
    args: Seq<ValShape>,
    k: int,
    n: int,
)
    requires
        bound_prefix(fields, lits, args, k) is None,
        k <= n,
    ensures
        bound_prefix(fields, lits, args, n) is None,
    decreases n - k,
{
    if k < n {
        lemma_bound_prefix_fail(fields, lits, args, k + 1, n);
    }
}

/// Executes `INSERT`: binds and type-checks every value row against the
/// class, then stores the rows, drawing one page per row from the heap.
///
/// The statement is all-or-nothing: every check runs before any row is
/// stored. It fails with `COMPILE_ERROR` when the table does not resolve
/// or a column list is not the declaration order or a placeholder is out
/// of range, with `INVALID_TYPE_CAST` when a value does not fit its
/// column type, and with `NoMem` exactly when the heap has fewer free
/// pages than rows or the class's identifier space is spent. On failure
/// the store is observably unchanged.
pub fn exec_insert(
    dict: &Dictionary,
    store: &mut Store,
    table: &Vec<u8>,
    colnames: &Option<Vec<Vec<u8>>>,
    rows: &Vec<Vec<Lit>>,
    args: &Vec<Value>,
) -> (r: Result<i64, Error>)
    requires
        dict.wf(),
        old(store).wf(),
        crate::database::schema_ok(*dict, *old(store)),
        rows@.len() <= i64::MAX,
    ensures
        final(store).wf(),
        crate::database::schema_ok(*dict, *final(store)),
        (r is Err ==> store_eq(*old(store), *final(store))),
        ((forall|d: int|
            0 <= d < dict.classes@.len() ==> !names_class(table@, #[trigger] dict.classes@[d]))
            ==> r == Err::<i64, Error>(Error::Sql(SqlError(SqlCode::CompileError)))),
        (forall|c: int|
            {
                &&& 0 <= c < dict.classes@.len()
                &&& names_class(table@, #[trigger] dict.classes@[c])
                &&& (forall|d: int| 0 <= d < c ==> !names_class(table@, #[trigger] dict.classes@[d]))
            } ==> {
                let fields = dict.classes@[c].fields@;
                let named_ok = match colnames.deep_view() {
                    Option::Some(ns) => names_in_order(fields, ns),
                    Option::None => true,
                };
                &&& (!named_ok ==> r == Err::<i64, Error>(
                    Error::Sql(SqlError(SqlCode::CompileError)),
                ))
                &&& (named_ok && bound_rows(fields, rows.deep_view(), args.deep_view()) is None
                    ==> r is Err)
                &&& (forall|brs: Seq<Seq<ValShape>>|
                    named_ok && bound_rows(fields, rows.deep_view(), args.deep_view())
                        == Some::<Seq<Seq<ValShape>>>(brs) ==> {
                        let enough = free_pages(old(store).pages.bitmap@) >= rows@.len() && old(store).data@[c].next_id + rows@.len() <= u64::MAX;
                        &&& (!enough ==> r == Err::<i64, Error>(
                            Error::Core(CoreError(CoreCode::NoMem)),
                        ))
                        &&& (enough ==> r == Ok::<i64, Error>(rows@.len() as i64) && final(store).class_rows(c) == old(store).class_rows(c) + brs && (forall|d: int|
                            0 <= d < dict.classes@.len() && d != c
                                ==> #[trigger] final(store).data@[d] == old(store).data@[d]))
                    })
            }),
{
    let c = match find_class_bytes(dict, table) {
        Option::Some(c) => c,
        Option::None => {
            proof {
                lemma_store_eq_refl_local(*store);
            }
            return Err(Error::Sql(SqlError(SqlCode::CompileError)));
        },
    };
    let cls = &dict.classes[c];
    // An optional column list must name every field in declaration order.
    match colnames {
        Option::Some(ns) => {
            if ns.len() != cls.fields.len() {
                proof {
                    lemma_store_eq_refl_local(*store);
                    assert(!names_in_order(cls.fields@, ns.deep_view()));
                    lemma_first_class_unique(*dict, table@, c as int);
                }
                return Err(Error::Sql(SqlError(SqlCode::CompileError)));
            }
            let n = ns.len();
            let mut k: usize = 0;
            while k < n
                invariant
                    k <= n,
                    n == ns@.len(),
                    n == cls.fields@.len(),
                    colnames.deep_view() == Some(ns.deep_view()),
                    c < dict.classes@.len(),
                    cls == &dict.classes[c as int],
                    names_class(table@, dict.classes@[c as int]),
                    forall|d: int| 0 <= d < c ==> !names_class(table@, #[trigger] dict.classes@[d]),
                    *store == *old(store),
                    old(store).wf(),
                    dict.wf(),
                    crate::database::schema_ok(*dict, *old(store)),
                    forall|g: int|
                        0 <= g < k ==> names_field(
                            #[trigger] ns.deep_view()[g],
                            cls.fields@[g],
                        ),
                decreases n - k,
            {
                let fb = cls.fields[k].name.as_str().as_bytes_vec();
                proof {
                    assert(ns.deep_view()[k as int] =~= ns@[k as int]@);
                }
                if !bytes_eq(&ns[k], &fb) {
                    proof {
                        lemma_store_eq_refl_local(*store);
                        assert(!names_field(ns.deep_view()[k as int], cls.fields@[k as int]));
                        assert(!names_in_order(cls.fields@, ns.deep_view()));
                        lemma_first_class_unique(*dict, table@, c as int);
                    }
                    return Err(Error::Sql(SqlError(SqlCode::CompileError)));
                }
                k = k + 1;
            }
            proof {
                assert forall|g: int| 0 <= g < n implies names_field(
                    #[trigger] ns.deep_view()[g],
                    cls.fields@[g],
                ) by {}
                assert(names_in_order(cls.fields@, ns.deep_view()));
            }
        },
        Option::None => {},
    }
    // Bind and type-check every row before touching storage.
    let nr = rows.len();
    let mut bound: Vec<Vec<Value>> = Vec::new();
    let mut i: usize = 0;
    while i < nr
        invariant
            i <= nr,
            nr == rows@.len(),
            c < dict.classes@.len(),
            cls == &dict.classes[c as int],
            names_class(table@, dict.classes@[c as int]),
            forall|d: int| 0 <= d < c ==> !names_class(table@, #[trigger] dict.classes@[d]),
            (colnames.deep_view() matches Some(ns) ==> names_in_order(
                dict.classes@[c as int].fields@,
                ns,
            )),
            *store == *old(store),
            old(store).wf(),
            dict.wf(),
            crate::database::schema_ok(*dict, *old(store)),
            bound@.len() == i,
            bound_rows(cls.fields@, rows.deep_view().subrange(0, i as int), args.deep_view())
                == Some(bound.deep_view()),
            forall|x: int| 0 <= x < i ==> (#[trigger] bound@[x]).len() == cls.fields@.len(),
        decreases nr - i,
    {
        proof {
            assert(rows.deep_view().subrange(0, i + 1).drop_last() =~= rows.deep_view().subrange(
                0,
                i as int,
            ));
            assert(rows.deep_view().subrange(0, i + 1).last() == rows.deep_view()[i as int]);
        }
        match bound_row_exec(cls, &rows[i], args) {
            Option::Some(row) => {
                let ghost pre = bound.deep_view();
                proof {
                    assert(row.deep_view().len() == cls.fields@.len()) by {
                        lemma_bound_prefix_len(
                            cls.fields@,
                            rows.deep_view()[i as int],
                            args.deep_view(),
                            cls.fields@.len() as int,
                        );
                    }
                }
                bound.push(row);
                proof {
                    assert(bound.deep_view() =~= pre.push(bound@.last().deep_view()));
                }
                i = i + 1;
            },
            Option::None => {
                proof {
                    lemma_store_eq_refl_local(*store);
                    lemma_bound_rows_fail(
                        cls.fields@,
                        rows.deep_view(),
                        args.deep_view(),
                        i as int,
                    );
                    lemma_first_class_unique(*dict, table@, c as int);
                }
                return Err(Error::Sql(SqlError(SqlCode::InvalidTypeCast)));
            },
        }
    }
    proof {
        assert(rows.deep_view().subrange(0, nr as int) =~= rows.deep_view());
    }
    // Make sure the statement can be applied in full before any row is
    // stored: one free page per row, and identifier space for every row.
    let free = store.count_free();
    if free < nr {
        proof {
            lemma_store_eq_refl_local(*store);
        }
        return Err(Error::Core(CoreError(CoreCode::NoMem)));
    }
    let next_id = store.data[c].next_id;
    if nr as u64 > u64::MAX - next_id {
        proof {
            lemma_store_eq_refl_local(*store);
        }
        return Err(Error::Core(CoreError(CoreCode::NoMem)));
    }
    // Apply: the checks above make every step succeed.
    let ghost brs = bound.deep_view();
    let ghost pre_store = *store;
    let mut j: usize = 0;
    while j < nr
        invariant
            j <= nr,
            nr == rows@.len(),
            nr == brs.len(),
            c < dict.classes@.len(),
            names_class(table@, dict.classes@[c as int]),
            forall|d: int| 0 <= d < c ==> !names_class(table@, #[trigger] dict.classes@[d]),
            dict.wf(),
            store.wf(),
            crate::database::schema_ok(*dict, *store),
            store.data@.len() == pre_store.data@.len(),
            free_pages(store.pages.bitmap@) + j >= nr,
            store.data@[c as int].next_id == pre_store.data@[c as int].next_id + j,
            pre_store.data@[c as int].next_id + nr <= u64::MAX,
            store.class_rows(c as int) == pre_store.class_rows(c as int) + brs.subrange(
                0,
                j as int,
            ),
            forall|d: int|
                0 <= d < store.data@.len() && d != c ==> #[trigger] store.data@[d]
                    == pre_store.data@[d],
            bound@.len() == nr,
            forall|x: int| 0 <= x < nr ==> (#[trigger] bound@[x]).len() == dict.classes@[
                c as int].fields@.len(),
            forall|x: int| j <= x < nr ==> #[trigger] bound@[x].deep_view() == brs[x],
        decreases nr - j,
    {
        let ghost before = *store;
        let row = copy_row(&bound[j]);
        proof {
            assert(!store.pages.is_full()) by {
                lemma_free_pages_zero(store.pages.bitmap@);
                assert(free_pages(store.pages.bitmap@) > 0);
            }
        }
        let res = store.insert_row(c, row);
        proof {
            assert(res is Ok);
            let p = choose|p: int|
                0 <= p < before.pages.n_pages() && !before.pages.bitmap@[p] && store.pages.bitmap@
                    == #[trigger] before.pages.bitmap@.update(p, true);
            lemma_free_pages_update(before.pages.bitmap@, p);
            assert(store.class_rows(c as int) =~= pre_store.class_rows(c as int) + brs.subrange(
                0,
                j + 1,
            )) by {
                assert(brs.subrange(0, j + 1).drop_last() =~= brs.subrange(0, j as int));
                assert(store.class_rows(c as int) == before.class_rows(c as int).push(
                    row.deep_view(),
                ));
            }
            assert(crate::database::schema_ok(*dict, *store)) by {
                assert forall|c1: int, i1: int|
                    0 <= c1 < store.data@.len() && 0 <= i1 < store.data@[c1].rows@.len() implies (
                #[trigger] store.data@[c1].rows@[i1]).vals@.len() == dict.classes@[
                    c1].fields@.len() by {
                    if c1 == c {
                        assert(store.class_rows(c1)[i1] == store.data@[c1].rows@[i1].vals.deep_view());
                        if i1 < before.data@[c1].rows@.len() {
                            assert(store.class_rows(c1)[i1] == before.class_rows(c1)[i1]);
                            assert(before.class_rows(c1)[i1]
                                == before.data@[c1].rows@[i1].vals.deep_view());
                            assert(before.data@[c1].rows@[i1].vals@.len() == dict.classes@[
                                c1].fields@.len());
                        } else {
                            assert(store.class_rows(c1)[i1] == row.deep_view());
                        }
                    } else {
                        assert(store.data@[c1] == before.data@[c1]);
                    }
                }
            }
        }
        j = j + 1;
    }
    proof {
        assert(brs.subrange(0, nr as int) =~= brs);
    }
    Ok(nr as i64)
}

/// A successfully bound prefix has exactly its length.
proof fn lemma_bound_prefix_len(
    fields: Seq<DictField>,
    lits: Seq<LitShape>,
    args: Seq<ValShape>,
    k: int,
)
    requires
        bound_prefix(fields, lits, args, k) is Some,
        k >= 0,
    ensures
        bound_prefix(fields, lits, args, k).unwrap().len() == k,
    decreases k,
{
    if k > 0 {
        lemma_bound_prefix_len(fields, lits, args, k - 1);
    }
}

/// Once some row fails to bind, the whole row list fails.
proof fn lemma_bound_rows_fail(
    fields: Seq<DictField>,
    rows: Seq<Seq<LitShape>>,
    args: Seq<ValShape>,
    i: int,
)
    requires
        0 <= i < rows.len(),
        bound_row(fields, rows[i], args) is None,
    ensures
        bound_rows(fields, rows, args) is None,
    decreases rows.len(),
{
    if rows.len() > 0 {
        if i == rows.len() - 1 {
        } else {
            lemma_bound_rows_fail(fields, rows.drop_last(), args, i);
        }
    }
}

/// Observable store equality is reflexive.
proof fn lemma_store_eq_refl_local(a: Store)
    ensures
        store_eq(a, a),
{
}


/// The first class a byte run names is unique.
proof fn lemma_first_class_unique(dict: Dictionary, b: Seq<u8>, c: int)
    requires
        0 <= c < dict.classes@.len(),
        names_class(b, dict.classes@[c]),
        forall|d: int| 0 <= d < c ==> !names_class(b, #[trigger] dict.classes@[d]),
    ensures
        forall|c2: int|
            (0 <= c2 < dict.classes@.len() && names_class(b, #[trigger] dict.classes@[c2]) && (
            forall|d: int| 0 <= d < c2 ==> !names_class(b, #[trigger] dict.classes@[d]))) ==> c2
                == c,
{
    assert forall|c2: int|
        (0 <= c2 < dict.classes@.len() && names_class(b, #[trigger] dict.classes@[c2]) && (forall|
            d: int,
        | 0 <= d < c2 ==> !names_class(b, #[trigger] dict.classes@[d]))) implies c2 == c by {
        if c2 < c {
            assert(!names_class(b, dict.classes@[c2]));
        }
        if c2 > c {
            assert(!names_class(b, dict.classes@[c]));
        }
    }
}


/// Equality of stored scalar values as the `WHERE` clause compares them:
/// two values are equal when they carry the same tag and payload; a
/// `null` never equals anything (not even `null`), and arrays do not
/// compare.
pub open spec fn val_eq_spec(a: ValShape, b: ValShape) -> bool {
    match (a, b) {
        (ValShape::Bool(x), ValShape::Bool(y)) => x == y,
        (ValShape::Int(x), ValShape::Int(y)) => x == y,
        (ValShape::Real(x), ValShape::Real(y)) => x == y,
        (ValShape::Time(x), ValShape::Time(y)) => x == y,
        (
            ValShape::Numeric { scaled: x, prec: p },
            ValShape::Numeric { scaled: y, prec: q },
        ) => x == y && p == q,
        (ValShape::Str(x), ValShape::Str(y)) => x == y,
        (ValShape::Bin(x), ValShape::Bin(y)) => x == y,
        _ => false,
    }
}

/// The rows whose value in column `col` equals `v`, in their original
/// order.
pub open spec fn filter_rows(rows: Seq<Seq<ValShape>>, col: int, v: ValShape) -> Seq<
    Seq<ValShape>,
>
    decreases rows.len(),
{
    if rows.len() == 0 {
        Seq::empty()
    } else if val_eq_spec(rows.last()[col], v) {
        filter_rows(rows.drop_last(), col, v).push(rows.last())
    } else {
        filter_rows(rows.drop_last(), col, v)
    }
}

/// The rows that remain when the rows whose value in column `col` equals
/// `v` are deleted, in their original order.
pub open spec fn keep_rows(rows: Seq<Seq<ValShape>>, col: int, v: ValShape) -> Seq<Seq<ValShape>>
    decreases rows.len(),
{
    if rows.len() == 0 {
        Seq::empty()
    } else if val_eq_spec(rows.last()[col], v) {
        keep_rows(rows.drop_last(), col, v)
    } else {
        keep_rows(rows.drop_last(), col, v).push(rows.last())
    }
}

/// A row narrowed to the projected columns, in projection order.
pub open spec fn project_row(row: Seq<ValShape>, idxs: Seq<int>) -> Seq<ValShape> {
    Seq::new(idxs.len(), |j: int| row[idxs[j]])
}

/// All rows narrowed to the projected columns.
pub open spec fn project_rows(rows: Seq<Seq<ValShape>>, idxs: Seq<int>) -> Seq<Seq<ValShape>> {
    Seq::new(rows.len(), |i: int| project_row(rows[i], idxs))
}

/// The ordering key of a stored value: integers and booleans and
/// representable timestamps order by their numeric value; other tags have
/// no ordering key.
pub open spec fn sort_key(v: ValShape) -> Option<i64> {
    match v {
        ValShape::Int(i) => Some(i),
        ValShape::Bool(b) => Some(if b { 1i64 } else { 0i64 }),
        ValShape::Time(t) => if t <= i64::MAX {
            Some(t as i64)
        } else {
            None
        },
        _ => None,
    }
}

/// The ordinal of the first class the byte run names, scanning from `k`.
pub open spec fn class_idx_from(dict: Dictionary, b: Seq<u8>, k: int) -> Option<int>
    decreases dict.classes@.len() - k,
{
    if k < 0 || k >= dict.classes@.len() {
        None
    } else if names_class(b, dict.classes@[k]) {
        Some(k)
    } else {
        class_idx_from(dict, b, k + 1)
    }
}

/// The ordinal of the first field the byte run names, scanning from `k`.
pub open spec fn field_idx_from(fields: Seq<DictField>, b: Seq<u8>, k: int) -> Option<int>
    decreases fields.len() - k,
{
    if k < 0 || k >= fields.len() {
        None
    } else if names_field(b, fields[k]) {
        Some(k)
    } else {
        field_idx_from(fields, b, k + 1)
    }
}

/// The resolved projection: every field in declaration order for `*`, or
/// the first-match ordinal of each named column.
pub open spec fn proj_idxs(fields: Seq<DictField>, cols: SelColsShape) -> Option<Seq<int>>
    decreases (match cols {
        SelColsShape::Star => 0int,
        SelColsShape::List(ns) => ns.len() as int,
    }),
{
    match cols {
        SelColsShape::Star => Some(Seq::new(fields.len(), |f: int| f)),
        SelColsShape::List(ns) => if ns.len() == 0 {
            Some(Seq::empty())
        } else {
            match proj_idxs(fields, SelColsShape::List(ns.drop_last())) {
                Option::None => None,
                Option::Some(pre) => match field_idx_from(fields, ns.last(), 0) {
                    Option::None => None,
                    Option::Some(f) => Some(pre.push(f)),
                },
            }
        },
    }
}

/// The resolved and bound filter: the filtered column's ordinal and the
/// comparison value, or none when no filter was written.
pub open spec fn where_spec(
    fields: Seq<DictField>,
    w: Option<(Seq<u8>, LitShape)>,
    args: Seq<ValShape>,
) -> Option<Option<(int, ValShape)>> {
    match w {
        Option::None => Some(None),
        Option::Some((b, l)) => match field_idx_from(fields, b, 0) {
            Option::None => None,
            Option::Some(f) => if lit_ok(l, args) {
                Some(Some((f, bind_lit_spec(l, args))))
            } else {
                None
            },
        },
    }
}

/// The resolved ordering: the ordering column's ordinal and the
/// descending flag, or none when no ordering was written.
pub open spec fn order_spec(fields: Seq<DictField>, o: Option<(Seq<u8>, bool)>) -> Option<
    Option<(int, bool)>,
> {
    match o {
        Option::None => Some(None),
        Option::Some((b, d)) => match field_idx_from(fields, b, 0) {
            Option::None => None,
            Option::Some(f) => Some(Some((f, d))),
        },
    }
}

/// True if every row's value in the ordering column has an ordering key.
pub open spec fn keys_ok(rows: Seq<Seq<ValShape>>, oi: int) -> bool {
    forall|i: int| 0 <= i < rows.len() ==> sort_key(#[trigger] rows[i][oi]) is Some
}

/// The result rows stand in sorted order of their ordering keys: `ps`
/// names, position by position, which filtered row each result row came
/// from; the positions are pairwise distinct and the keys along them are
/// sorted, ascending or descending as requested.
pub open spec fn sorted_permutation(
    filtered: Seq<Seq<ValShape>>,
    idxs: Seq<int>,
    oi: int,
    desc: bool,
    ps: Seq<int>,
    out: Seq<Seq<ValShape>>,
) -> bool {
    &&& ps.len() == filtered.len()
    &&& out.len() == filtered.len()
    &&& (forall|j: int| 0 <= j < ps.len() ==> 0 <= #[trigger] ps[j] < filtered.len())
    &&& (forall|j1: int, j2: int| 0 <= j1 < j2 < ps.len() ==> #[trigger] ps[j1] != #[trigger] ps[j2])
    &&& (forall|j: int|
        0 <= j < ps.len() ==> #[trigger] out[j] == project_row(filtered[ps[j]], idxs))
    &&& (forall|j1: int, j2: int|
        0 <= j1 < j2 < ps.len() ==> (if desc {
            sort_key(filtered[#[trigger] ps[j1]][oi]).unwrap() >= sort_key(
                filtered[#[trigger] ps[j2]][oi],
            ).unwrap()
        } else {
            sort_key(filtered[ps[j1]][oi]).unwrap() <= sort_key(filtered[ps[j2]][oi]).unwrap()
        }))
}

/// A first-match scan that stopped at `c` is the first-match scan.
proof fn lemma_class_idx_at(dict: Dictionary, b: Seq<u8>, c: int)
    requires
        0 <= c < dict.classes@.len(),
        names_class(b, dict.classes@[c]),
        forall|d: int| 0 <= d < c ==> !names_class(b, #[trigger] dict.classes@[d]),
    ensures
        class_idx_from(dict, b, 0) == Some(c),
{
    lemma_class_idx_scan(dict, b, 0, c);
}

proof fn lemma_class_idx_scan(dict: Dictionary, b: Seq<u8>, k: int, c: int)
    requires
        0 <= k <= c < dict.classes@.len(),
        names_class(b, dict.classes@[c]),
        forall|d: int| 0 <= d < c ==> !names_class(b, #[trigger] dict.classes@[d]),
    ensures
        class_idx_from(dict, b, k) == Some(c),
    decreases c - k,
{
    if k < c {
        lemma_class_idx_scan(dict, b, k + 1, c);
    }
}

/// A first-match scan that found nothing finds nothing from anywhere.
proof fn lemma_class_idx_none(dict: Dictionary, b: Seq<u8>, k: int)
    requires
        k >= 0,
        forall|d: int| 0 <= d < dict.classes@.len() ==> !names_class(b, #[trigger] dict.classes@[d]),
    ensures
        class_idx_from(dict, b, k) is None,
    decreases dict.classes@.len() - k,
{
    if k < dict.classes@.len() {
        lemma_class_idx_none(dict, b, k + 1);
    }
}

/// A field first-match scan that stopped at `f` is the first-match scan.
proof fn lemma_field_idx_at(fields: Seq<DictField>, b: Seq<u8>, f: int)
    requires
        0 <= f < fields.len(),
        names_field(b, fields[f]),
        forall|g: int| 0 <= g < f ==> !names_field(b, #[trigger] fields[g]),
    ensures
        field_idx_from(fields, b, 0) == Some(f),
{
    lemma_field_idx_scan(fields, b, 0, f);
}

proof fn lemma_field_idx_scan(fields: Seq<DictField>, b: Seq<u8>, k: int, f: int)
    requires
        0 <= k <= f < fields.len(),
        names_field(b, fields[f]),
        forall|g: int| 0 <= g < f ==> !names_field(b, #[trigger] fields[g]),
    ensures
        field_idx_from(fields, b, k) == Some(f),
    decreases f - k,
{
    if k < f {
        lemma_field_idx_scan(fields, b, k + 1, f);
    }
}

/// A field first-match scan that found nothing finds nothing from
/// anywhere.
proof fn lemma_field_idx_none(fields: Seq<DictField>, b: Seq<u8>, k: int)
    requires
        k >= 0,
        forall|g: int| 0 <= g < fields.len() ==> !names_field(b, #[trigger] fields[g]),
    ensures
        field_idx_from(fields, b, k) is None,
    decreases fields.len() - k,
{
    if k < fields.len() {
        lemma_field_idx_none(fields, b, k + 1);
    }
}

/// Compares two stored values as the `WHERE` clause does.
fn val_eq_exec(a: &Value, b: &Value) -> (r: bool)
    ensures
        r == val_eq_spec(a@, b@),
{
    match (a, b) {
        (Value::Bool(x), Value::Bool(y)) => *x == *y,
        (Value::Int(x), Value::Int(y)) => *x == *y,
        (Value::Real(x), Value::Real(y)) => *x == *y,
        (Value::Time(x), Value::Time(y)) => *x == *y,
        (Value::Numeric { scaled: x, prec: p }, Value::Numeric { scaled: y, prec: q }) => *x == *y
            && *p == *q,
        (Value::Str(x), Value::Str(y)) => x.eq(y),
        (Value::Bin(x), Value::Bin(y)) => bytes_eq(x, y),
        _ => false,
    }
}

/// The ordering key of a stored value.
fn sort_key_exec(v: &Value) -> (r: Option<i64>)
    ensures
        r == sort_key(v@),
{
    match v {
        Value::Int(i) => Some(*i),
        Value::Bool(b) => Some(if *b { 1 } else { 0 }),
        Value::Time(t) => {
            if *t <= 0x7fff_ffff_ffff_ffffu64 {
                Some(*t as i64)
            } else {
                None
            }
        },
        _ => None,
    }
}

/// Resolves the projection of a query against the class.
fn proj_idxs_exec(cls: &DictStruct, cols: &SelCols) -> (r: Option<Vec<usize>>)
    ensures
        (r matches Some(v) ==> proj_idxs(cls.fields@, cols.deep_view()) == Some(v.deep_view().map_values(|x: usize| x as int))
            && (forall|j: int| 0 <= j < v@.len() ==> #[trigger] v@[j] < cls.fields@.len())),
        (r is None ==> proj_idxs(cls.fields@, cols.deep_view()) is None),
{
    match cols {
        SelCols::Star => {
            let n = cls.fields.len();
            let mut out: Vec<usize> = Vec::new();
            let mut f: usize = 0;
            while f < n
                invariant
                    f <= n,
                    out@.len() == f,
                    forall|j: int| 0 <= j < f ==> #[trigger] out@[j] == j,
                decreases n - f,
            {
                out.push(f);
                f = f + 1;
            }
            proof {
                assert(out.deep_view().map_values(|x: usize| x as int) =~= Seq::new(
                    cls.fields@.len(),
                    |g: int| g,
                ));
            }
            Some(out)
        },
        SelCols::List(ns) => {
            let n = ns.len();
            let mut out: Vec<usize> = Vec::new();
            let mut k: usize = 0;
            while k < n
                invariant
                    k <= n,
                    n == ns@.len(),
                    out@.len() == k,
                    cols.deep_view() == SelColsShape::List(ns.deep_view()),
                    proj_idxs(
                        cls.fields@,
                        SelColsShape::List(ns.deep_view().subrange(0, k as int)),
                    ) == Some(out.deep_view().map_values(|x: usize| x as int)),
                    forall|j: int| 0 <= j < k ==> #[trigger] out@[j] < cls.fields@.len(),
                decreases n - k,
            {
                proof {
                    assert(ns.deep_view().subrange(0, k + 1).drop_last() =~= ns.deep_view().subrange(
                        0,
                        k as int,
                    ));
                    assert(ns.deep_view().subrange(0, k + 1).last() == ns.deep_view()[k as int]);
                }
                proof {
                    assert(ns.deep_view()[k as int] =~= ns@[k as int]@);
                }
                match find_field(cls, &ns[k]) {
                    Option::Some(f) => {
                        proof {
                            lemma_field_idx_at(cls.fields@, ns.deep_view()[k as int], f as int);
                        }
                        let ghost pre = out.deep_view().map_values(|x: usize| x as int);
                        out.push(f);
                        proof {
                            assert(out.deep_view().map_values(|x: usize| x as int) =~= pre.push(
                                f as int,
                            ));
                        }
                        k = k + 1;
                    },
                    Option::None => {
                        proof {
                            lemma_field_idx_none(cls.fields@, ns.deep_view()[k as int], 0);
                            lemma_proj_idxs_fail(
                                cls.fields@,
                                ns.deep_view(),
                                k as int,
                            );
                        }
                        return None;
                    },
                }
            }
            proof {
                assert(ns.deep_view().subrange(0, n as int) =~= ns.deep_view());
            }
            Some(out)
        },
    }
}

/// Once a projected name fails to resolve, the whole projection fails.
proof fn lemma_proj_idxs_fail(fields: Seq<DictField>, ns: Seq<Seq<u8>>, k: int)
    requires
        0 <= k < ns.len(),
        field_idx_from(fields, ns[k], 0) is None,
    ensures
        proj_idxs(fields, SelColsShape::List(ns)) is None,
    decreases ns.len(),
{
    if ns.len() > 0 {
        if k == ns.len() - 1 {
        } else {
            lemma_proj_idxs_fail(fields, ns.drop_last(), k);
        }
    }
}


/// The shape of an optional `WHERE` clause.
pub open spec fn where_shape(w: Option<(Vec<u8>, Lit)>) -> Option<(Seq<u8>, LitShape)> {
    match w {
        Option::Some(p) => Some((p.0@, p.1.deep_view())),
        Option::None => None,
    }
}

/// The shape of an optional `ORDER BY` clause.
pub open spec fn order_shape(o: Option<(Vec<u8>, bool)>) -> Option<(Seq<u8>, bool)> {
    match o {
        Option::Some(p) => Some((p.0@, p.1)),
        Option::None => None,
    }
}

/// Computes the emission order of the rows under `ORDER BY`: a
/// permutation of the row positions along which the ordering keys of
/// column `oi` are sorted, ascending or descending as requested.
///
/// Fails with `SQL_INVALID_OPERAND` exactly when some row's value in the
/// ordering column has no ordering key.
fn order_positions(filtered: &Vec<Vec<Value>>, oi: usize, desc: bool) -> (r: Result<
    Vec<usize>,
    Error,
>)
    requires
        forall|x: int| 0 <= x < filtered@.len() ==> oi < (#[trigger] filtered@[x])@.len(),
    ensures
        (r is Err ==> r == Err::<Vec<usize>, Error>(
            Error::Sql(SqlError(SqlCode::InvalidOperand)),
        ) && !keys_ok(filtered.deep_view(), oi as int)),
        (r matches Ok(ord) ==> {
            let filt = filtered.deep_view();
            &&& keys_ok(filt, oi as int)
            &&& ord@.len() == filt.len()
            &&& (forall|j: int| 0 <= j < ord@.len() ==> (#[trigger] ord@[j]) < filt.len())
            &&& (forall|j1: int, j2: int|
                0 <= j1 < j2 < ord@.len() ==> (#[trigger] ord@[j1]) != (#[trigger] ord@[j2]))
            &&& (forall|j1: int, j2: int|
                0 <= j1 < j2 < ord@.len() ==> (if desc {
                    sort_key(filt[ord@[j1] as int][oi as int]).unwrap() >= sort_key(
                        filt[ord@[j2] as int][oi as int],
                    ).unwrap()
                } else {
                    sort_key(filt[ord@[j1] as int][oi as int]).unwrap() <= sort_key(
                        filt[ord@[j2] as int][oi as int],
                    ).unwrap()
                }))
        }),
{
    let ghost filt = filtered.deep_view();
    let nf = filtered.len();
    let mut tree = OrderedIndex::new(false);
    let mut t: usize = 0;
    while t < nf
        invariant
            t <= nf,
            nf == filt.len(),
            filtered.deep_view() == filt,
            filtered@.len() == nf,
            forall|x: int| 0 <= x < nf ==> oi < (#[trigger] filtered@[x])@.len(),
            tree.wf(),
            !tree.unique,
            tree@.len() == t,
            forall|k2: i64, r2: u64|
                #[trigger] tree.contains_pair(k2, r2) ==> r2 < t && Some(k2) == sort_key(
                    filt[r2 as int][oi as int],
                ),
            forall|x: int| 0 <= x < t ==> sort_key(#[trigger] filt[x][oi as int]) is Some,
        decreases nf - t,
    {
        proof {
            assert(filtered@[t as int].deep_view() == filt[t as int]);
            assert(filtered@[t as int].deep_view().len() == filtered@[t as int]@.len());
        }
        let key = match sort_key_exec(&filtered[t][oi]) {
            Option::Some(k) => k,
            Option::None => {
                proof {
                    assert(sort_key(filt[t as int][oi as int]) is None);
                    assert(!keys_ok(filt, oi as int));
                }
                return Err(Error::Sql(SqlError(SqlCode::InvalidOperand)));
            },
        };
        proof {
            assert(Some(key) == sort_key(filt[t as int][oi as int]));
            assert(!tree.contains_pair(key, t as u64));
        }
        let res = tree.insert(key, t as u64);
        proof {
            assert(res is Ok);
        }
        t = t + 1;
    }
    proof {
        assert(keys_ok(filt, oi as int));
        crate::index::lemma_range_rows_full(tree@);
        // Every entry names a distinct row below `nf`, and its key is the
        // row's ordering key.
        assert forall|a: int| 0 <= a < tree@.len() implies ((#[trigger] tree@[a]).1 as int) < nf
            && Some(tree@[a].0) == sort_key(filt[tree@[a].1 as int][oi as int]) by {
            assert(tree.contains_pair(tree@[a].0, tree@[a].1));
        }
        assert forall|a: int, b: int| 0 <= a < b < tree@.len() implies (#[trigger] tree@[a]).1
            != (#[trigger] tree@[b]).1 by {
            if tree@[a].1 == tree@[b].1 {
                assert(Some(tree@[a].0) == sort_key(filt[tree@[a].1 as int][oi as int]));
                assert(Some(tree@[b].0) == sort_key(filt[tree@[b].1 as int][oi as int]));
                assert(tree@[a].0 == tree@[b].0);
                assert(crate::index::entry_lt(tree@[a], tree@[b]));
            }
        }
    }
    let ps = tree.scan_range(i64::MIN, i64::MAX, desc);
    let np = ps.len();
    proof {
        if desc {
            assert(ps@ == crate::index::range_rows(tree@, i64::MIN, i64::MAX).reverse());
        }
        assert(np == nf);
    }
    let mut ord: Vec<usize> = Vec::new();
    let mut t2: usize = 0;
    while t2 < np
        invariant
            t2 <= np,
            np == ps@.len(),
            np == nf,
            nf == filt.len(),
            tree.wf(),
            tree@.len() == nf,
            forall|a: int|
                0 <= a < tree@.len() ==> ((#[trigger] tree@[a]).1 as int) < nf && Some(
                    tree@[a].0,
                ) == sort_key(filt[tree@[a].1 as int][oi as int]),
            forall|j2: int|
                0 <= j2 < np ==> #[trigger] ps@[j2] == (if desc {
                    tree@[np - 1 - j2].1
                } else {
                    tree@[j2].1
                }),
            ord@.len() == t2,
            forall|x: int| 0 <= x < t2 ==> (#[trigger] ord@[x]) as u64 == ps@[x] && ord@[x] < nf,
        decreases np - t2,
    {
        let p = ps[t2];
        proof {
            let e = if desc {
                tree@[np - 1 - t2]
            } else {
                tree@[t2 as int]
            };
            assert(p == e.1);
            assert((e.1 as int) < nf);
        }
        ord.push(p as usize);
        t2 = t2 + 1;
    }
    proof {
        assert forall|j1: int, j2: int| 0 <= j1 < j2 < ord@.len() implies (#[trigger] ord@[j1])
            != (#[trigger] ord@[j2]) by {
            let a = if desc {
                np - 1 - j1
            } else {
                j1
            };
            let b = if desc {
                np - 1 - j2
            } else {
                j2
            };
            assert(ord@[j1] as u64 == tree@[a].1);
            assert(ord@[j2] as u64 == tree@[b].1);
        }
        assert forall|j1: int, j2: int| 0 <= j1 < j2 < ord@.len() implies (if desc {
            sort_key(filt[ord@[j1] as int][oi as int]).unwrap() >= sort_key(
                filt[ord@[j2] as int][oi as int],
            ).unwrap()
        } else {
            sort_key(filt[ord@[j1] as int][oi as int]).unwrap() <= sort_key(
                filt[ord@[j2] as int][oi as int],
            ).unwrap()
        }) by {
            let a = if desc {
                np - 1 - j1
            } else {
                j1
            };
            let b = if desc {
                np - 1 - j2
            } else {
                j2
            };
            assert(ord@[j1] as u64 == tree@[a].1);
            assert(ord@[j2] as u64 == tree@[b].1);
            assert(Some(tree@[a].0) == sort_key(filt[tree@[a].1 as int][oi as int]));
            assert(Some(tree@[b].0) == sort_key(filt[tree@[b].1 as int][oi as int]));
            if desc {
                assert(crate::index::entry_lt(tree@[b], tree@[a]));
            } else {
                assert(crate::index::entry_lt(tree@[a], tree@[b]));
            }
        }
    }
    Ok(ord)
}



/// The ordering-related half of a query's contract, for a resolved
/// ordering clause.
pub open spec fn select_order_clause(
    filtered: Seq<Seq<ValShape>>,
    idxs: Seq<int>,
    oopt: Option<(int, bool)>,
    r: Result<DataSource, Error>,
) -> bool {
    forall|oi: int, desc: bool|
        oopt == Some::<(int, bool)>((oi, desc)) ==> {
            &&& (!keys_ok(filtered, oi) ==> r == Err::<DataSource, Error>(
                Error::Sql(SqlError(SqlCode::InvalidOperand)),
            ))
            &&& (keys_ok(filtered, oi) ==> (r is Ok && (exists|ps: Seq<int>|
                sorted_permutation(filtered, idxs, oi, desc, ps, (r->Ok_0).rows_view()))))
        }
}

/// The result half of a query's contract, for one resolved plan.
pub open spec fn select_inner(
    store: Store,
    fields: Seq<DictField>,
    c: int,
    idxs: Seq<int>,
    wopt: Option<(int, ValShape)>,
    oopt: Option<(int, bool)>,
    r: Result<DataSource, Error>,
) -> bool {
    let base = store.class_rows(c);
    let filtered = match wopt {
        Option::Some((ci, wv)) => filter_rows(base, ci, wv),
        Option::None => base,
    };
    &&& (r is Ok ==> (r->Ok_0).cols@.len() == idxs.len() && (forall|j: int|
        0 <= j < idxs.len() ==> (#[trigger] (r->Ok_0).cols@[j]).name@ == fields[idxs[j]].name@
            && (r->Ok_0).cols@[j].ty == fields[idxs[j]].field_el_type))
    &&& (oopt is None ==> (r is Ok && (r->Ok_0).rows_view() == project_rows(filtered, idxs)))
    &&& select_order_clause(filtered, idxs, oopt, r)
}

/// The whole contract of a query against the class at ordinal `c`.
pub open spec fn select_clause(
    dict: Dictionary,
    store: Store,
    colsv: SelColsShape,
    wsh: Option<(Seq<u8>, LitShape)>,
    osh: Option<(Seq<u8>, bool)>,
    argsv: Seq<ValShape>,
    c: int,
    r: Result<DataSource, Error>,
) -> bool {
    let fields = dict.classes@[c].fields@;
    &&& (proj_idxs(fields, colsv) is None ==> r == Err::<DataSource, Error>(
        Error::Sql(SqlError(SqlCode::CompileError)),
    ))
    &&& (where_spec(fields, wsh, argsv) is None ==> r is Err)
    &&& (order_spec(fields, osh) is None ==> r == Err::<DataSource, Error>(
        Error::Sql(SqlError(SqlCode::CompileError)),
    ))
    &&& (forall|idxs: Seq<int>, wopt: Option<(int, ValShape)>, oopt: Option<(int, bool)>|
        {
            &&& proj_idxs(fields, colsv) == Some::<Seq<int>>(idxs)
            &&& where_spec(fields, wsh, argsv) == Some::<Option<(int, ValShape)>>(wopt)
            &&& order_spec(fields, osh) == Some::<Option<(int, bool)>>(oopt)
        } ==> select_inner(store, fields, c, idxs, wopt, oopt, r))
}

/// Executes `SELECT`: resolves the projection, filter and ordering
/// against the class, evaluates them over the stored rows, and returns
/// the result set with its column metadata.
///
/// Fails with `COMPILE_ERROR` when the table or any named column does
/// not resolve or the filter's placeholder is out of range, and with
/// `SQL_INVALID_OPERAND` when an `ORDER BY` value has no ordering key.
/// Without `ORDER BY`, the result is exactly the projected filtered rows
/// in storage order; with it, the result is a permutation of those rows
/// whose ordering keys are sorted as requested.
#[verifier::rlimit(60)]
pub fn exec_select(
    dict: &Dictionary,
    store: &Store,
    cols: &SelCols,
    table: &Vec<u8>,
    where_eq: &Option<(Vec<u8>, Lit)>,
    order_by: &Option<(Vec<u8>, bool)>,
    args: &Vec<Value>,
) -> (r: Result<DataSource, Error>)
    requires
        dict.wf(),
        store.wf(),
        crate::database::schema_ok(*dict, *store),
    ensures
        (class_idx_from(*dict, table@, 0) is None ==> r == Err::<DataSource, Error>(
            Error::Sql(SqlError(SqlCode::CompileError)),
        )),
        (forall|c: int|
            class_idx_from(*dict, table@, 0) == Some(c) ==> select_clause(
                *dict,
                *store,
                cols.deep_view(),
                where_shape(*where_eq),
                order_shape(*order_by),
                args.deep_view(),
                c,
                r,
            )),
{
    // Compile: resolve the table, the projection, the filter and the
    // ordering before touching any row.
    let c = match find_class_bytes(dict, table) {
        Option::Some(c) => {
            proof {
                lemma_class_idx_at(*dict, table@, c as int);
            }
            c
        },
        Option::None => {
            proof {
                lemma_class_idx_none(*dict, table@, 0);
            }
            return Err(Error::Sql(SqlError(SqlCode::CompileError)));
        },
    };
    let cls = &dict.classes[c];
    let idxs = match proj_idxs_exec(cls, cols) {
        Option::Some(v) => v,
        Option::None => {
            return Err(Error::Sql(SqlError(SqlCode::CompileError)));
        },
    };
    let ghost idxs_spec = idxs.deep_view().map_values(|x: usize| x as int);
    proof {
        assert(idxs.deep_view() =~= idxs@);
        assert(idxs_spec =~= Seq::new(idxs@.len() as nat, |j: int| idxs@[j] as int));
    }
    let wres: Option<(usize, Value)> = match where_eq {
        Option::Some(w) => {
            let f = match find_field(cls, &w.0) {
                Option::Some(f) => {
                    proof {
                        lemma_field_idx_at(cls.fields@, w.0@, f as int);
                    }
                    f
                },
                Option::None => {
                    proof {
                        lemma_field_idx_none(cls.fields@, w.0@, 0);
                    }
                    return Err(Error::Sql(SqlError(SqlCode::CompileError)));
                },
            };
            let v = match bind_lit_exec(&w.1, args) {
                Option::Some(v) => v,
                Option::None => {
                    return Err(Error::Sql(SqlError(SqlCode::CompileError)));
                },
            };
            Some((f, v))
        },
        Option::None => None,
    };
    let ores: Option<(usize, bool)> = match order_by {
        Option::Some(o) => {
            let f = match find_field(cls, &o.0) {
                Option::Some(f) => {
                    proof {
                        lemma_field_idx_at(cls.fields@, o.0@, f as int);
                    }
                    f
                },
                Option::None => {
                    proof {
                        lemma_field_idx_none(cls.fields@, o.0@, 0);
                    }
                    return Err(Error::Sql(SqlError(SqlCode::CompileError)));
                },
            };
            Some((f, o.1))
        },
        Option::None => None,
    };
    proof {
        assert(where_spec(cls.fields@, where_shape(*where_eq), args.deep_view()) == Some(
            match wres {
                Option::Some(p) => Some((p.0 as int, p.1@)),
                Option::None => None::<(int, ValShape)>,
            },
        ));
        assert(order_spec(cls.fields@, order_shape(*order_by)) == Some(
            match ores {
                Option::Some(p) => Some((p.0 as int, p.1)),
                Option::None => None::<(int, bool)>,
            },
        ));
    }
    // Column metadata of the result set.
    let ni = idxs.len();
    let mut meta: Vec<Column> = Vec::new();
    let mut j: usize = 0;
    while j < ni
        invariant
            j <= ni,
            ni == idxs@.len(),
            c < dict.classes@.len(),
            cls == &dict.classes[c as int],
            forall|x: int| 0 <= x < ni ==> (#[trigger] idxs@[x]) < cls.fields@.len(),
            meta@.len() == j,
            forall|x: int|
                0 <= x < j ==> (#[trigger] meta@[x]).name@ == cls.fields@[idxs@[x] as int].name@
                    && meta@[x].ty == cls.fields@[idxs@[x] as int].field_el_type,
        decreases ni - j,
    {
        let fi = idxs[j];
        meta.push(Column { name: cls.fields[fi].name.clone(), ty: cls.fields[fi].field_el_type });
        j = j + 1;
    }
    // Gather the filtered rows in storage order.
    let n = store.class_len(c);
    let ghost base = store.class_rows(c as int);
    let mut filtered: Vec<Vec<Value>> = Vec::new();
    let mut i: usize = 0;
    while i < n
        invariant
            i <= n,
            n == base.len(),
            base == store.class_rows(c as int),
            c < dict.classes@.len(),
            c < store.data@.len(),
            store.wf(),
            dict.wf(),
            crate::database::schema_ok(*dict, *store),
            cls == &dict.classes[c as int],
            (wres matches Some(p) ==> p.0 < cls.fields@.len()),
            filtered.deep_view() == (match wres {
                Option::Some(p) => filter_rows(base.subrange(0, i as int), p.0 as int, p.1@),
                Option::None => base.subrange(0, i as int),
            }),
            forall|x: int|
                0 <= x < filtered@.len() ==> (#[trigger] filtered@[x])@.len()
                    == cls.fields@.len(),
        decreases n - i,
    {
        proof {
            assert(base.subrange(0, i + 1).drop_last() =~= base.subrange(0, i as int));
            assert(base.subrange(0, i + 1).last() == base[i as int]);
            assert(base[i as int] == store.data@[c as int].rows@[i as int].vals.deep_view());
            assert(store.data@[c as int].rows@[i as int].vals@.len() == cls.fields@.len());
        }
        let row = store.row_at(c, i);
        proof {
            assert(row.deep_view() == base[i as int]);
            assert(row.deep_view().len() == row@.len());
        }
        let keep: bool = match &wres {
            Option::Some(p) => val_eq_exec(&row[p.0], &p.1),
            Option::None => true,
        };
        if keep {
            let ghost pre = filtered.deep_view();
            let rowc = copy_row(row);
            filtered.push(rowc);
            proof {
                assert(filtered.deep_view() =~= pre.push(base[i as int]));
            }
        }
        i = i + 1;
    }
    proof {
        assert(base.subrange(0, n as int) =~= base);
    }
    let ghost filt = filtered.deep_view();
    let nf = filtered.len();
    // Decide the emission order: storage order, or sorted by the
    // ordering key.
    let mut ord: Vec<usize> = Vec::new();
    match &ores {
        Option::None => {
            let mut t: usize = 0;
            while t < nf
                invariant
                    t <= nf,
                    ord@.len() == t,
                    forall|x: int| 0 <= x < t ==> (#[trigger] ord@[x]) == x,
                decreases nf - t,
            {
                ord.push(t);
                t = t + 1;
            }
        },
        Option::Some(o) => {
            proof {
                assert forall|x: int| 0 <= x < filtered@.len() implies o.0 < (
                #[trigger] filtered@[x])@.len() by {}
            }
            match order_positions(&filtered, o.0, o.1) {
                Ok(v) => {
                    ord = v;
                },
                Err(e) => {
                    return Err(e);
                },
            }
        },
    }
    let no = ord.len();
    proof {
        assert(no == nf);
        assert(forall|x: int| 0 <= x < no ==> (#[trigger] ord@[x]) < nf);
    }
    // Emit the projected rows in the chosen order.
    let mut out: Vec<Vec<Value>> = Vec::new();
    let mut t: usize = 0;
    while t < no
        invariant
            t <= no,
            no == ord@.len(),
            no == nf,
            nf == filt.len(),
            ni == idxs@.len(),
            c < dict.classes@.len(),
            cls == &dict.classes[c as int],
            filtered.deep_view() == filt,
            filtered@.len() == nf,
            idxs_spec == idxs.deep_view().map_values(|x: usize| x as int),
            forall|x: int| 0 <= x < ni ==> (#[trigger] idxs@[x]) < cls.fields@.len(),
            forall|x: int|
                0 <= x < nf ==> (#[trigger] filtered@[x])@.len() == cls.fields@.len(),
            forall|x: int| 0 <= x < no ==> (#[trigger] ord@[x]) < nf,
            out@.len() == t,
            forall|x: int|
                0 <= x < t ==> #[trigger] out.deep_view()[x] == project_row(
                    filt[ord@[x] as int],
                    idxs_spec,
                ),
        decreases no - t,
    {
        let p = ord[t];
        let mut prow: Vec<Value> = Vec::new();
        let mut u: usize = 0;
        while u < ni
            invariant
                u <= ni,
                ni == idxs@.len(),
                t < no,
                no == ord@.len(),
                nf == filt.len(),
                c < dict.classes@.len(),
                cls == &dict.classes[c as int],
                filtered.deep_view() == filt,
                filtered@.len() == nf,
                p == ord@[t as int],
                p < nf,
                forall|x: int| 0 <= x < ni ==> (#[trigger] idxs@[x]) < cls.fields@.len(),
                forall|x: int|
                    0 <= x < nf ==> (#[trigger] filtered@[x])@.len() == cls.fields@.len(),
                prow@.len() == u,
                forall|x: int|
                    0 <= x < u ==> #[trigger] prow.deep_view()[x] == filt[p as int][idxs@[
                        x as int] as int],
            decreases ni - u,
        {
            proof {
                assert(filtered@[p as int].deep_view() == filt[p as int]);
                assert(filtered@[p as int].deep_view().len() == filtered@[p as int]@.len());
            }
            let v = copy_value(&filtered[p][idxs[u]]);
            let ghost pre = prow.deep_view();
            prow.push(v);
            proof {
                assert(prow.deep_view() =~= pre.push(filt[p as int][idxs@[u as int] as int]));
            }
            u = u + 1;
        }
        let ghost preo = out.deep_view();
        let ghost prowv = prow.deep_view();
        proof {
            assert(prowv =~= project_row(filt[p as int], idxs_spec));
        }
        out.push(prow);
        proof {
            assert(out.deep_view() =~= preo.push(prowv));
        }
        t = t + 1;
    }
    let ds = DataSource::new(meta, out);
    proof {
        assert(ds.rows_view() == out.deep_view());
        let cc = c as int;
        assert(class_idx_from(*dict, table@, 0) == Some(cc));
        let fieldsg = dict.classes@[cc].fields@;
        assert(proj_idxs(fieldsg, cols.deep_view()) == Some(idxs_spec));
        assert(ds.cols@.len() == idxs_spec.len());
        assert forall|j2: int| 0 <= j2 < idxs_spec.len() implies (#[trigger] ds.cols@[j2]).name@
            == fieldsg[idxs_spec[j2]].name@ && ds.cols@[j2].ty == fieldsg[
            idxs_spec[j2]].field_el_type by {
            assert(idxs_spec[j2] == idxs@[j2] as int);
        }
        match ores {
            Option::None => {
                assert(ds.rows_view() =~= project_rows(filt, idxs_spec));
            },
            Option::Some(o) => {
                let psi = Seq::new(ord@.len() as nat, |x: int| ord@[x] as int);
                assert(sorted_permutation(filt, idxs_spec, o.0 as int, o.1, psi, ds.rows_view()));
            },
        }
        let cc = c as int;
        let fieldsg = dict.classes@[cc].fields@;
        assert(filt == (match wres {
            Option::Some(p) => filter_rows(store.class_rows(cc), p.0 as int, p.1@),
            Option::None => store.class_rows(cc),
        }));
        let r: Result<DataSource, Error> = Ok(ds);
        let cc2 = c as int;
        let fieldsg2 = dict.classes@[cc2].fields@;
        assert forall|idxs2: Seq<int>, wopt: Option<(int, ValShape)>, oopt: Option<(int, bool)>|
            {
                &&& proj_idxs(fieldsg2, cols.deep_view()) == Some::<Seq<int>>(idxs2)
                &&& where_spec(fieldsg2, where_shape(*where_eq), args.deep_view()) == Some::<
                    Option<(int, ValShape)>,
                >(wopt)
                &&& order_spec(fieldsg2, order_shape(*order_by)) == Some::<
                    Option<(int, bool)>,
                >(oopt)
            } implies select_inner(*store, fieldsg2, cc2, idxs2, wopt, oopt, r) by {
            assert(idxs2 == idxs_spec);
            let base2 = store.class_rows(cc2);
            let filtered2 = match wopt {
                Option::Some((ci, wv)) => filter_rows(base2, ci, wv),
                Option::None => base2,
            };
            assert(filtered2 == filt);
            assert(ds.cols@.len() == idxs2.len());
            assert forall|j3: int| 0 <= j3 < idxs2.len() implies (#[trigger] ds.cols@[j3]).name@
                == fieldsg2[idxs2[j3]].name@ && ds.cols@[j3].ty == fieldsg2[
                idxs2[j3]].field_el_type by {
                assert(idxs2[j3] == idxs@[j3] as int);
            }
            if oopt is None {
                assert(ores is None);
                assert(ds.rows_view() == project_rows(filtered2, idxs2));
            }
            assert(select_order_clause(filtered2, idxs2, oopt, r)) by {
                assert forall|oi: int, desc: bool|
                    oopt == Some::<(int, bool)>((oi, desc)) implies ((!keys_ok(filtered2, oi)
                    ==> r == Err::<DataSource, Error>(
                    Error::Sql(SqlError(SqlCode::InvalidOperand)),
                )) && (keys_ok(filtered2, oi) ==> (r is Ok && (exists|ps: Seq<int>|
                    sorted_permutation(
                        filtered2,
                        idxs2,
                        oi,
                        desc,
                        ps,
                        (r->Ok_0).rows_view(),
                    ))))) by {
                    match ores {
                        Option::Some(o) => {
                            assert(oi == o.0 as int);
                            assert(desc == o.1);
                            let psi = Seq::new(ord@.len() as nat, |x: int| ord@[x] as int);
                            assert((r->Ok_0) == ds);
                            assert(sorted_permutation(
                                filtered2,
                                idxs2,
                                oi,
                                desc,
                                psi,
                                (r->Ok_0).rows_view(),
                            ));
                        },
                        Option::None => {
                            assert(oopt is None);
                        },
                    }
                }
            }
            assert(select_inner(*store, fieldsg2, cc2, idxs2, wopt, oopt, r));
        }
        assert(select_clause(
            *dict,
            *store,
            cols.deep_view(),
            where_shape(*where_eq),
            order_shape(*order_by),
            args.deep_view(),
            cc2,
            r,
        ));
        assert forall|c2: int| class_idx_from(*dict, table@, 0) == Some(c2) implies select_clause(
            *dict,
            *store,
            cols.deep_view(),
            where_shape(*where_eq),
            order_shape(*order_by),
            args.deep_view(),
            c2,
            r,
        ) by {
            assert(c2 == cc2);
        }
    }
    Ok(ds)
}


/// The rows that remain after a deletion: none when no filter was
/// written, the non-matching rows otherwise.
pub open spec fn del_rows(
    rows: Seq<Seq<ValShape>>,
    w: Option<(int, ValShape)>,
) -> Seq<Seq<ValShape>> {
    match w {
        Option::Some((ci, wv)) => keep_rows(rows, ci, wv),
        Option::None => Seq::empty(),
    }
}

/// A deletion scan of a non-empty run keeps or drops its first row and
/// proceeds with the rest.
proof fn lemma_keep_rows_first(s: Seq<Seq<ValShape>>, col: int, v: ValShape)
    requires
        s.len() > 0,
    ensures
        keep_rows(s, col, v) == (if val_eq_spec(s[0][col], v) {
            Seq::<Seq<ValShape>>::empty()
        } else {
            seq![s[0]]
        }) + keep_rows(s.drop_first(), col, v),
    decreases s.len(),
{
    let head: Seq<Seq<ValShape>> = if val_eq_spec(s[0][col], v) {
        Seq::empty()
    } else {
        seq![s[0]]
    };
    if s.len() == 1 {
        assert(s.drop_last() =~= Seq::<Seq<ValShape>>::empty());
        assert(s.drop_first() =~= Seq::<Seq<ValShape>>::empty());
        assert(keep_rows(s, col, v) =~= head + keep_rows(s.drop_first(), col, v));
    } else {
        lemma_keep_rows_first(s.drop_last(), col, v);
        assert(s.drop_last()[0] == s[0]);
        assert(s.drop_last().drop_first() =~= s.drop_first().drop_last());
        assert(s.drop_first().last() == s.last());
        if val_eq_spec(s.last()[col], v) {
            assert(keep_rows(s, col, v) == keep_rows(s.drop_last(), col, v));
        } else {
            assert(keep_rows(s, col, v) == keep_rows(s.drop_last(), col, v).push(s.last()));
            assert((head + keep_rows(s.drop_first().drop_last(), col, v)).push(s.last()) =~= head
                + keep_rows(s.drop_first().drop_last(), col, v).push(s.last()));
        }
    }
}

/// A deletion scan never keeps more rows than it saw.
proof fn lemma_keep_rows_len(s: Seq<Seq<ValShape>>, col: int, v: ValShape)
    ensures
        keep_rows(s, col, v).len() <= s.len(),
    decreases s.len(),
{
    if s.len() > 0 {
        lemma_keep_rows_len(s.drop_last(), col, v);
    }
}

/// Executes `DELETE`: removes every row matched by the filter, or every
/// row of the class when no filter was written, returning their pages to
/// the heap.
///
/// Fails with `COMPILE_ERROR` when the table or the filtered column does
/// not resolve or the filter's placeholder is out of range; the store is
/// then unchanged. On success exactly the matching rows are gone and the
/// affected-row count is returned.
pub fn exec_delete(
    dict: &Dictionary,
    store: &mut Store,
    table: &Vec<u8>,
    where_eq: &Option<(Vec<u8>, Lit)>,
    args: &Vec<Value>,
) -> (r: Result<i64, Error>)
    requires
        dict.wf(),
        old(store).wf(),
        crate::database::schema_ok(*dict, *old(store)),
    ensures
        final(store).wf(),
        crate::database::schema_ok(*dict, *final(store)),
        (r is Err ==> store_eq(*old(store), *final(store))),
        (class_idx_from(*dict, table@, 0) is None ==> r == Err::<i64, Error>(
            Error::Sql(SqlError(SqlCode::CompileError)),
        )),
        (forall|c: int|
            class_idx_from(*dict, table@, 0) == Some(c) ==> {
                let fields = dict.classes@[c].fields@;
                &&& (where_spec(fields, where_shape(*where_eq), args.deep_view()) is None ==> r
                    is Err)
                &&& (forall|wopt: Option<(int, ValShape)>|
                    where_spec(fields, where_shape(*where_eq), args.deep_view()) == Some::<
                        Option<(int, ValShape)>,
                    >(wopt) ==> {
                        let kept = del_rows(old(store).class_rows(c), wopt);
                        &&& (r is Ok ==> final(store).class_rows(c) == kept && (forall|d: int|
                            0 <= d < old(store).data@.len() && d != c ==> #[trigger] final(store).data@[d] == old(store).data@[d]))
                        &&& (old(store).class_rows(c).len() - kept.len() <= i64::MAX ==> r
                            == Ok::<i64, Error>(
                            (old(store).class_rows(c).len() - kept.len()) as i64,
                        ))
                    })
            }),
{
    let c = match find_class_bytes(dict, table) {
        Option::Some(c) => {
            proof {
                lemma_class_idx_at(*dict, table@, c as int);
            }
            c
        },
        Option::None => {
            proof {
                lemma_store_eq_refl_local(*store);
                lemma_class_idx_none(*dict, table@, 0);
            }
            return Err(Error::Sql(SqlError(SqlCode::CompileError)));
        },
    };
    let cls = &dict.classes[c];
    let wres: Option<(usize, Value)> = match where_eq {
        Option::Some(w) => {
            let f = match find_field(cls, &w.0) {
                Option::Some(f) => {
                    proof {
                        lemma_field_idx_at(cls.fields@, w.0@, f as int);
                    }
                    f
                },
                Option::None => {
                    proof {
                        lemma_store_eq_refl_local(*store);
                        lemma_field_idx_none(cls.fields@, w.0@, 0);
                    }
                    return Err(Error::Sql(SqlError(SqlCode::CompileError)));
                },
            };
            let v = match bind_lit_exec(&w.1, args) {
                Option::Some(v) => v,
                Option::None => {
                    proof {
                        lemma_store_eq_refl_local(*store);
                    }
                    return Err(Error::Sql(SqlError(SqlCode::CompileError)));
                },
            };
            Some((f, v))
        },
        Option::None => None,
    };
    proof {
        assert(where_spec(cls.fields@, where_shape(*where_eq), args.deep_view()) == Some(
            match wres {
                Option::Some(p) => Some((p.0 as int, p.1@)),
                Option::None => None::<(int, ValShape)>,
            },
        ));
    }
    let ghost base = old(store).class_rows(c as int);
    let ghost wsp: Option<(int, ValShape)> = match &wres {
        Option::Some(p) => Some((p.0 as int, p.1@)),
        Option::None => None,
    };
    let n = store.class_len(c);
    let mut i: usize = n;
    while i > 0
        invariant
            i <= n,
            n == base.len(),
            c < dict.classes@.len(),
            c < store.data@.len(),
            store.wf(),
            dict.wf(),
            crate::database::schema_ok(*dict, *store),
            cls == &dict.classes[c as int],
            base == old(store).class_rows(c as int),
            (wres matches Some(p) ==> p.0 < cls.fields@.len()),
            wsp == (match wres {
                Option::Some(p) => Some::<(int, ValShape)>((p.0 as int, p.1@)),
                Option::None => None::<(int, ValShape)>,
            }),
            store.data@.len() == old(store).data@.len(),
            store.class_rows(c as int) == base.subrange(0, i as int) + del_rows(
                base.subrange(i as int, n as int),
                wsp,
            ),
            forall|d: int|
                0 <= d < old(store).data@.len() && d != c ==> #[trigger] store.data@[d] == old(store).data@[d],
        decreases i,
    {
        let ghost cur = store.class_rows(c as int);
        let ghost suffix = del_rows(base.subrange(i as int, n as int), wsp);
        proof {
            assert(base.subrange(i - 1, n as int).drop_first() =~= base.subrange(
                i as int,
                n as int,
            ));
            assert(base.subrange(i - 1, n as int)[0] == base[i - 1]);
            assert(cur.len() == i + suffix.len());
            assert(store.data@[c as int].rows@.len() == cur.len());
            assert(cur[i - 1] == base.subrange(0, i as int)[i - 1]);
            assert(cur[i - 1] == base[i - 1]);
            assert(cur[i - 1] == store.data@[c as int].rows@[i - 1].vals.deep_view());
            assert(store.data@[c as int].rows@[i - 1].vals@.len() == cls.fields@.len());
        }
        let row = store.row_at(c, i - 1);
        proof {
            assert(row.deep_view() == cur[i - 1]);
            assert(row.deep_view().len() == row@.len());
        }
        let matches_row: bool = match &wres {
            Option::Some(p) => val_eq_exec(&row[p.0], &p.1),
            Option::None => true,
        };
        if matches_row {
            let ghost before = *store;
            store.delete_row_at(c, i - 1);
            proof {
                match wsp {
                    Option::Some((ci, wv)) => {
                        lemma_keep_rows_first(base.subrange(i - 1, n as int), ci, wv);
                        assert(del_rows(base.subrange(i - 1, n as int), wsp) == suffix);
                    },
                    Option::None => {},
                }
                assert(store.class_rows(c as int) =~= base.subrange(0, i - 1) + del_rows(
                    base.subrange(i - 1, n as int),
                    wsp,
                )) by {
                    assert(store.class_rows(c as int) == cur.remove(i - 1));
                    assert(cur.remove(i - 1) =~= base.subrange(0, i - 1) + suffix);
                }
                assert(crate::database::schema_ok(*dict, *store)) by {
                    assert forall|c1: int, i1: int|
                        0 <= c1 < store.data@.len() && 0 <= i1
                            < store.data@[c1].rows@.len() implies (
                    #[trigger] store.data@[c1].rows@[i1]).vals@.len() == dict.classes@[
                        c1].fields@.len() by {
                        if c1 == c {
                            assert(store.class_rows(c1)[i1]
                                == store.data@[c1].rows@[i1].vals.deep_view());
                            assert(store.class_rows(c1) == cur.remove(i - 1));
                            let oi = if i1 < i - 1 {
                                i1
                            } else {
                                i1 + 1
                            };
                            assert(cur.remove(i - 1)[i1] == cur[oi]);
                            assert(cur[oi] == before.data@[c1].rows@[oi].vals.deep_view());
                            assert(before.data@[c1].rows@[oi].vals@.len() == dict.classes@[
                                c1].fields@.len());
                        } else {
                            assert(store.data@[c1] == before.data@[c1]);
                        }
                    }
                }
            }
        } else {
            proof {
                match wsp {
                    Option::Some((ci, wv)) => {
                        lemma_keep_rows_first(base.subrange(i - 1, n as int), ci, wv);
                        assert(del_rows(base.subrange(i - 1, n as int), wsp) =~= seq![
                            base[i - 1],
                        ] + suffix);
                    },
                    Option::None => {},
                }
                assert(store.class_rows(c as int) =~= base.subrange(0, i - 1) + del_rows(
                    base.subrange(i - 1, n as int),
                    wsp,
                ));
            }
        }
        i = i - 1;
    }
    proof {
        assert(base.subrange(0, 0) =~= Seq::<Seq<ValShape>>::empty());
        assert(base.subrange(0, n as int) =~= base);
        assert(store.class_rows(c as int) =~= del_rows(base, wsp));
    }
    let remaining = store.class_len(c);
    proof {
        match wsp {
            Option::Some((ci, wv)) => {
                lemma_keep_rows_len(base, ci, wv);
            },
            Option::None => {},
        }
        assert(remaining <= n);
    }
    let deleted = n - remaining;
    proof {
        lemma_first_class_unique(*dict, table@, c as int);
    }
    if (deleted as u64) > 0x7fff_ffff_ffff_ffffu64 {
        return Ok(i64::MAX);
    }
    Ok(deleted as i64)
}


/// The shape of an assignment list: each column name with its literal.
pub open spec fn sets_shape(s: Seq<(Vec<u8>, Lit)>) -> Seq<(Seq<u8>, LitShape)> {
    Seq::new(s.len(), |k: int| (s[k].0@, s[k].1.deep_view()))
}

/// The resolved and bound assignment list: for each `col = lit`, the
/// column's first-match ordinal and the value coerced to the column's
/// declared type, or `None` on any resolution, binding or type failure.
pub open spec fn sets_spec(
    fields: Seq<DictField>,
    sets: Seq<(Seq<u8>, LitShape)>,
    args: Seq<ValShape>,
) -> Option<Seq<(int, ValShape)>>
    decreases sets.len(),
{
    if sets.len() == 0 {
        Some(Seq::empty())
    } else {
        match sets_spec(fields, sets.drop_last(), args) {
            Option::None => None,
            Option::Some(pre) => match field_idx_from(fields, sets.last().0, 0) {
                Option::None => None,
                Option::Some(f) => if lit_ok(sets.last().1, args) {
                    match coerce(fields[f].field_el_type, bind_lit_spec(sets.last().1, args)) {
                        Option::None => None,
                        Option::Some(v) => Some(pre.push((f, v))),
                    }
                } else {
                    None
                },
            },
        }
    }
}

/// If a prefix of the assignment list fails to resolve, the whole list
/// fails.
proof fn lemma_sets_spec_prefix_none(
    fields: Seq<DictField>,
    sets: Seq<(Seq<u8>, LitShape)>,
    args: Seq<ValShape>,
    i: int,
)
    requires
        0 <= i <= sets.len(),
        sets_spec(fields, sets.subrange(0, i), args) is None,
    ensures
        sets_spec(fields, sets, args) is None,
    decreases sets.len() - i,
{
    if i == sets.len() {
        assert(sets.subrange(0, i) =~= sets);
    } else {
        assert(sets.subrange(0, i + 1).drop_last() =~= sets.subrange(0, i));
        lemma_sets_spec_prefix_none(fields, sets, args, i + 1);
    }
}

/// One row with the assignments applied in statement order; a later
/// assignment to the same column wins.
pub open spec fn apply_sets(row: Seq<ValShape>, sets: Seq<(int, ValShape)>) -> Seq<ValShape>
    decreases sets.len(),
{
    if sets.len() == 0 {
        row
    } else {
        apply_sets(row, sets.drop_last()).update(sets.last().0, sets.last().1)
    }
}

/// True if the filter matches the row: a written filter compares its
/// column, no filter matches every row.
pub open spec fn row_matches(row: Seq<ValShape>, w: Option<(int, ValShape)>) -> bool {
    match w {
        Option::Some((ci, wv)) => val_eq_spec(row[ci], wv),
        Option::None => true,
    }
}

/// The class's rows after an update: the assignments applied to exactly
/// the matching rows, the others untouched.
pub open spec fn upd_rows(
    rows: Seq<Seq<ValShape>>,
    w: Option<(int, ValShape)>,
    sets: Seq<(int, ValShape)>,
) -> Seq<Seq<ValShape>> {
    Seq::new(
        rows.len(),
        |i: int|
            if row_matches(rows[i], w) {
                apply_sets(rows[i], sets)
            } else {
                rows[i]
            },
    )
}

/// The number of rows matched by the filter.
pub open spec fn match_count(rows: Seq<Seq<ValShape>>, w: Option<(int, ValShape)>) -> int
    decreases rows.len(),
{
    if rows.len() == 0 {
        0
    } else {
        match_count(rows.drop_last(), w) + (if row_matches(rows.last(), w) {
            1int
        } else {
            0int
        })
    }
}

/// Executes `UPDATE`: applies the assignments, in statement order, to
/// every row matched by the filter, or to every row of the class when no
/// filter was written, and reports how many rows matched.
///
/// Fails, with the store unchanged, when the table, an assigned column
/// or the filtered column does not resolve, a placeholder is out of
/// range, or an assigned value does not fit its column's type; once
/// everything resolves the statement always succeeds.
pub fn exec_update(
    dict: &Dictionary,
    store: &mut Store,
    table: &Vec<u8>,
    sets: &Vec<(Vec<u8>, Lit)>,
    where_eq: &Option<(Vec<u8>, Lit)>,
    args: &Vec<Value>,
) -> (r: Result<i64, Error>)
    requires
        dict.wf(),
        old(store).wf(),
        crate::database::schema_ok(*dict, *old(store)),
    ensures
        final(store).wf(),
        crate::database::schema_ok(*dict, *final(store)),
        final(store).data@.len() == old(store).data@.len(),
        (r is Err ==> store_eq(*old(store), *final(store))),
        (class_idx_from(*dict, table@, 0) is None ==> r == Err::<i64, Error>(
            Error::Sql(SqlError(SqlCode::CompileError)),
        )),
        (forall|c: int|
            class_idx_from(*dict, table@, 0) == Some(c) ==> {
                let fields = dict.classes@[c].fields@;
                let so = sets_spec(fields, sets_shape(sets@), args.deep_view());
                let wo = where_spec(fields, where_shape(*where_eq), args.deep_view());
                &&& (so is None ==> r is Err)
                &&& (wo is None ==> r is Err)
                &&& (so is Some && wo is Some ==> {
                    let rs = so.unwrap();
                    let wopt = wo.unwrap();
                    &&& final(store).class_rows(c) == upd_rows(
                        old(store).class_rows(c),
                        wopt,
                        rs,
                    )
                    &&& (forall|d: int|
                        0 <= d < old(store).data@.len() && d != c ==> #[trigger] final(store).data@[d]
                            == old(store).data@[d])
                    &&& r is Ok
                    &&& (match_count(old(store).class_rows(c), wopt) <= i64::MAX ==> r == Ok::<
                        i64,
                        Error,
                    >(match_count(old(store).class_rows(c), wopt) as i64))
                })
            }),
{
    let ghost argsv = args.deep_view();
    let ghost ssh = sets_shape(sets@);
    let c = match find_class_bytes(dict, table) {
        Option::Some(c) => {
            proof {
                lemma_class_idx_at(*dict, table@, c as int);
            }
            c
        },
        Option::None => {
            proof {
                lemma_store_eq_refl_local(*store);
                lemma_class_idx_none(*dict, table@, 0);
            }
            return Err(Error::Sql(SqlError(SqlCode::CompileError)));
        },
    };
    let cls = &dict.classes[c];
    // Resolve and bind the assignment list against the class fields.
    let mut rsv: Vec<(usize, Value)> = Vec::new();
    let mut si: usize = 0;
    while si < sets.len()
        invariant
            si <= sets@.len(),
            ssh == sets_shape(sets@),
            ssh.len() == sets@.len(),
            dict.wf(),
            *store == *old(store),
            old(store).wf(),
            crate::database::schema_ok(*dict, *old(store)),
            c < dict.classes@.len(),
            names_class(table@, dict.classes@[c as int]),
            (forall|d: int| 0 <= d < c ==> !names_class(table@, #[trigger] dict.classes@[d])),
            cls == &dict.classes[c as int],
            argsv == args.deep_view(),
            rsv@.len() == si,
            (forall|j: int| 0 <= j < si ==> (#[trigger] rsv@[j]).0 < cls.fields@.len()),
            sets_spec(cls.fields@, ssh.subrange(0, si as int), argsv) == Some(
                Seq::new(rsv@.len(), |j: int| (rsv@[j].0 as int, rsv@[j].1@)),
            ),
        decreases sets@.len() - si,
    {
        let ghost pre = Seq::new(rsv@.len(), |j: int| (rsv@[j].0 as int, rsv@[j].1@));
        proof {
            assert(ssh.subrange(0, si + 1).drop_last() =~= ssh.subrange(0, si as int));
            assert(ssh.subrange(0, si + 1).last() == ssh[si as int]);
            assert(ssh[si as int] == (sets@[si as int].0@, sets@[si as int].1.deep_view()));
        }
        let f = match find_field(cls, &sets[si].0) {
            Option::Some(f) => {
                proof {
                    lemma_field_idx_at(cls.fields@, sets@[si as int].0@, f as int);
                }
                f
            },
            Option::None => {
                proof {
                    lemma_store_eq_refl_local(*store);
                    lemma_class_idx_at(*dict, table@, c as int);
                    lemma_field_idx_none(cls.fields@, sets@[si as int].0@, 0);
                    assert(sets_spec(cls.fields@, ssh.subrange(0, si + 1), argsv) is None);
                    lemma_sets_spec_prefix_none(cls.fields@, ssh, argsv, si + 1);
                }
                return Err(Error::Sql(SqlError(SqlCode::CompileError)));
            },
        };
        let bv = match bind_lit_exec(&sets[si].1, args) {
            Option::Some(v) => v,
            Option::None => {
                proof {
                    lemma_store_eq_refl_local(*store);
                    lemma_class_idx_at(*dict, table@, c as int);
                    assert(sets_spec(cls.fields@, ssh.subrange(0, si + 1), argsv) is None);
                    lemma_sets_spec_prefix_none(cls.fields@, ssh, argsv, si + 1);
                }
                return Err(Error::Sql(SqlError(SqlCode::CompileError)));
            },
        };
        let cv = match coerce_exec(cls.fields[f].field_el_type, bv) {
            Option::Some(v) => v,
            Option::None => {
                proof {
                    lemma_store_eq_refl_local(*store);
                    lemma_class_idx_at(*dict, table@, c as int);
                    assert(sets_spec(cls.fields@, ssh.subrange(0, si + 1), argsv) is None);
                    lemma_sets_spec_prefix_none(cls.fields@, ssh, argsv, si + 1);
                }
                return Err(Error::Sql(SqlError(SqlCode::InvalidTypeCast)));
            },
        };
        rsv.push((f, cv));
        proof {
            assert(Seq::new(rsv@.len(), |j: int| (rsv@[j].0 as int, rsv@[j].1@)) =~= pre.push(
                (f as int, cv@),
            ));
        }
        si = si + 1;
    }
    proof {
        assert(ssh.subrange(0, sets@.len() as int) =~= ssh);
        lemma_class_idx_at(*dict, table@, c as int);
    }
    let ghost rssp = Seq::new(rsv@.len(), |j: int| (rsv@[j].0 as int, rsv@[j].1@));
    // Resolve and bind the filter.
    let wres: Option<(usize, Value)> = match where_eq {
        Option::Some(w) => {
            let f = match find_field(cls, &w.0) {
                Option::Some(f) => {
                    proof {
                        lemma_field_idx_at(cls.fields@, w.0@, f as int);
                    }
                    f
                },
                Option::None => {
                    proof {
                        lemma_store_eq_refl_local(*store);
                        lemma_field_idx_none(cls.fields@, w.0@, 0);
                    }
                    return Err(Error::Sql(SqlError(SqlCode::CompileError)));
                },
            };
            let v = match bind_lit_exec(&w.1, args) {
                Option::Some(v) => v,
                Option::None => {
                    proof {
                        lemma_store_eq_refl_local(*store);
                    }
                    return Err(Error::Sql(SqlError(SqlCode::CompileError)));
                },
            };
            Some((f, v))
        },
        Option::None => None,
    };
    let ghost wsp: Option<(int, ValShape)> = match &wres {
        Option::Some(p) => Some((p.0 as int, p.1@)),
        Option::None => None,
    };
    proof {
        assert(where_spec(cls.fields@, where_shape(*where_eq), argsv) == Some(wsp));
    }
    let ghost base = old(store).class_rows(c as int);
    let n = store.class_len(c);
    let mut cnt: usize = 0;
    let mut i: usize = 0;
    while i < n
        invariant
            i <= n,
            n == base.len(),
            c < dict.classes@.len(),
            c < store.data@.len(),
            store.wf(),
            dict.wf(),
            crate::database::schema_ok(*dict, *store),
            names_class(table@, dict.classes@[c as int]),
            (forall|d: int| 0 <= d < c ==> !names_class(table@, #[trigger] dict.classes@[d])),
            cls == &dict.classes[c as int],
            base == old(store).class_rows(c as int),
            rssp == Seq::new(rsv@.len(), |j: int| (rsv@[j].0 as int, rsv@[j].1@)),
            (forall|j: int| 0 <= j < rsv@.len() ==> (#[trigger] rsv@[j]).0 < cls.fields@.len()),
            (wres matches Some(p) ==> p.0 < cls.fields@.len()),
            wsp == (match wres {
                Option::Some(p) => Some::<(int, ValShape)>((p.0 as int, p.1@)),
                Option::None => None::<(int, ValShape)>,
            }),
            store.data@.len() == old(store).data@.len(),
            store.class_rows(c as int).len() == n,
            (forall|j: int|
                0 <= j < i ==> #[trigger] store.class_rows(c as int)[j] == (if row_matches(
                    base[j],
                    wsp,
                ) {
                    apply_sets(base[j], rssp)
                } else {
                    base[j]
                })),
            (forall|j: int|
                i <= j < n ==> #[trigger] store.class_rows(c as int)[j] == base[j]),
            (forall|d: int|
                0 <= d < old(store).data@.len() && d != c ==> #[trigger] store.data@[d] == old(
                    store,
                ).data@[d]),
            cnt <= i,
            cnt == match_count(base.subrange(0, i as int), wsp),
        decreases n - i,
    {
        proof {
            assert(base.subrange(0, i + 1).drop_last() =~= base.subrange(0, i as int));
            assert(base.subrange(0, i + 1).last() == base[i as int]);
            assert(store.class_rows(c as int)[i as int] == base[i as int]);
            assert(store.data@[c as int].rows@.len() == n);
            assert(base[i as int] == store.data@[c as int].rows@[i as int].vals.deep_view());
            assert(store.data@[c as int].rows@[i as int].vals@.len() == cls.fields@.len());
        }
        let row = store.row_at(c, i);
        proof {
            assert(row.deep_view() == base[i as int]);
            assert(row.deep_view().len() == row@.len());
        }
        let matches_row: bool = match &wres {
            Option::Some(p) => val_eq_exec(&row[p.0], &p.1),
            Option::None => true,
        };
        proof {
            assert(matches_row == row_matches(base[i as int], wsp));
        }
        if matches_row {
            let mut nv = copy_row(row);
            let ghost rowv = base[i as int];
            proof {
                assert(rssp.subrange(0, 0) =~= Seq::<(int, ValShape)>::empty());
                assert(nv.deep_view() == apply_sets(rowv, rssp.subrange(0, 0)));
            }
            let mut k: usize = 0;
            while k < rsv.len()
                invariant
                    k <= rsv@.len(),
                    rssp == Seq::new(rsv@.len(), |j: int| (rsv@[j].0 as int, rsv@[j].1@)),
                    (forall|j: int|
                        0 <= j < rsv@.len() ==> (#[trigger] rsv@[j]).0 < rowv.len()),
                    nv@.len() == rowv.len(),
                    nv.deep_view() == apply_sets(rowv, rssp.subrange(0, k as int)),
                decreases rsv@.len() - k,
            {
                let ghost prev = nv.deep_view();
                proof {
                    assert(rssp.subrange(0, k + 1).drop_last() =~= rssp.subrange(0, k as int));
                    assert(rssp.subrange(0, k + 1).last() == rssp[k as int]);
                }
                let f = rsv[k].0;
                let val = copy_value(&rsv[k].1);
                nv.set(f, val);
                proof {
                    assert(nv.deep_view() =~= prev.update(f as int, val@));
                    assert(nv.deep_view() == apply_sets(rowv, rssp.subrange(0, k + 1)));
                }
                k = k + 1;
            }
            proof {
                assert(rssp.subrange(0, rsv@.len() as int) =~= rssp);
                assert(nv.deep_view() == apply_sets(rowv, rssp));
            }
            let ghost before = *store;
            store.update_row_at(c, i, nv);
            proof {
                assert(store.class_rows(c as int) == before.class_rows(c as int).update(
                    i as int,
                    apply_sets(rowv, rssp),
                ));
                assert(crate::database::schema_ok(*dict, *store)) by {
                    assert forall|c1: int, i1: int|
                        0 <= c1 < store.data@.len() && 0 <= i1
                            < store.data@[c1].rows@.len() implies (
                    #[trigger] store.data@[c1].rows@[i1]).vals@.len() == dict.classes@[
                        c1].fields@.len() by {
                        if c1 == c {
                            assert(store.class_rows(c1).len()
                                == before.class_rows(c1).len());
                            assert(store.data@[c1].rows@.len() == store.class_rows(c1).len());
                            assert(store.class_rows(c1)[i1]
                                == store.data@[c1].rows@[i1].vals.deep_view());
                            assert(store.data@[c1].rows@[i1].vals@.len() == store.class_rows(
                                c1,
                            )[i1].len());
                            if i1 == i {
                                assert(store.class_rows(c1)[i1] == apply_sets(rowv, rssp));
                                assert(apply_sets(rowv, rssp).len() == nv@.len());
                            } else {
                                assert(store.class_rows(c1)[i1] == before.class_rows(c1)[i1]);
                                assert(before.class_rows(c1)[i1] == before.data@[
                                    c1].rows@[i1].vals.deep_view());
                                assert(before.data@[c1].rows@[i1].vals@.len() == dict.classes@[
                                    c1].fields@.len());
                            }
                        } else {
                            assert(store.data@[c1] == before.data@[c1]);
                        }
                    }
                }
            }
            if cnt < usize::MAX {
                cnt = cnt + 1;
            }
            proof {
                assert(cnt == match_count(base.subrange(0, i + 1), wsp));
            }
        } else {
            proof {
                assert(cnt == match_count(base.subrange(0, i + 1), wsp));
            }
        }
        i = i + 1;
    }
    proof {
        assert(base.subrange(0, n as int) =~= base);
        assert(cnt == match_count(base, wsp));
        assert(store.class_rows(c as int) =~= upd_rows(base, wsp, rssp));
        lemma_first_class_unique(*dict, table@, c as int);
    }
    if (cnt as u64) > 0x7fff_ffff_ffff_ffffu64 {
        return Ok(i64::MAX);
    }
    Ok(cnt as i64)
}


/// The outcome of one statement: an affected-row count for DDL and DML,
/// or a result set for a query.
pub enum StmtResult {
    /// The number of affected rows.
    Count(i64),
    /// The result set of a query.
    Rows(DataSource),
}

/// The compiled form of a statement text: its tokens parsed into a
/// statement and a placeholder count, or `None` when the text does not
/// tokenize or parse.
pub open spec fn compile_spec(s: Seq<u8>) -> Option<(StmtShape, int)> {
    match tokenize_from(s, 0) {
        Option::None => None,
        Option::Some(ts) => parse_sql(ts),
    }
}

/// Compiles ASCII SQL text into a statement and its placeholder count.
/// Fails with `COMPILE_ERROR` exactly when the text is not ASCII, does
/// not tokenize, or does not parse.
pub fn compile_sql(sql: &str) -> (r: Result<(Stmt, usize), Error>)
    ensures
        (!vstd::string::is_ascii(sql) ==> r == Err::<(Stmt, usize), Error>(
            Error::Sql(SqlError(SqlCode::CompileError)),
        )),
        (vstd::string::is_ascii(sql) && compile_spec(sql.spec_bytes()) is None ==> r == Err::<
            (Stmt, usize),
            Error,
        >(Error::Sql(SqlError(SqlCode::CompileError)))),
        (r matches Ok(p) ==> vstd::string::is_ascii(sql) && compile_spec(sql.spec_bytes())
            == Some((p.0.deep_view(), p.1 as int))),
        (vstd::string::is_ascii(sql) && !(compile_spec(sql.spec_bytes()) is None) ==> r is Ok),
    {
    if !sql.is_ascii() {
        return Err(Error::Sql(SqlError(SqlCode::CompileError)));
    }
    let bytes = sql.as_bytes_vec();
    let toks = match tokenize_exec(&bytes, 0) {
        Option::Some(ts) => ts,
        Option::None => {
            return Err(Error::Sql(SqlError(SqlCode::CompileError)));
        },
    };
    match parse_sql_exec(&toks) {
        Option::Some((st, np)) => Ok((st, np)),
        Option::None => Err(Error::Sql(SqlError(SqlCode::CompileError))),
    }
}


/// The affected-row count reported for a statement outcome: the count
/// itself, or the number of result rows of a query (saturated at the
/// count type's bound).
pub open spec fn affected_count(sr: StmtResult) -> int {
    match sr {
        StmtResult::Count(n) => n as int,
        StmtResult::Rows(ds) => if ds.rows_view().len() <= i64::MAX {
            ds.rows_view().len() as int
        } else {
            i64::MAX as int
        },
    }
}

/// The whole contract of `CREATE TABLE`, over the pre and post catalog
/// and store: a malformed request compiles to `COMPILE_ERROR`; a taken
/// name is `IllegalParam`; a spent reservation is
/// `DictCapacityExceeded`; otherwise the statement succeeds with zero
/// affected rows and the catalog gains exactly the described class.
pub open spec fn create_table_clause(
    dp: Dictionary,
    sp: Store,
    dq: Dictionary,
    sq: Store,
    table: Seq<u8>,
    cols: Seq<ColDefShape>,
    r: Result<StmtResult, Error>,
) -> bool {
    let valid = create_ascii(table, cols) && distinct_names(cols) && cols.len() > 0 && table.len()
        > 0;
    let taken = dp.class_name_taken(decode_ascii(table));
    let fits = dp.class_fits(cols.len());
    &&& (!valid ==> r == Err::<StmtResult, Error>(Error::Sql(SqlError(SqlCode::CompileError))))
    &&& (valid && taken ==> r == Err::<StmtResult, Error>(
        Error::Core(CoreError(CoreCode::IllegalParam)),
    ))
    &&& (valid && !taken && !fits ==> r == Err::<StmtResult, Error>(
        Error::Core(CoreError(CoreCode::DictCapacityExceeded)),
    ))
    &&& (valid && !taken && fits ==> r == Ok::<StmtResult, Error>(StmtResult::Count(0)))
    &&& (r is Ok ==> dq.classes@.len() == dp.classes@.len() + 1 && sq.data@.len() == sp.data@.len()
        + 1 && dq.classes@.last().name@ == decode_ascii(table) && dq.classes@.last().fields@.len()
        == cols.len() && (forall|i: int|
        0 <= i < cols.len() ==> (#[trigger] dq.classes@.last().fields@[i]).name@ == decode_ascii(
            cols[i].name,
        ) && dq.classes@.last().fields@[i].field_el_type == cols[i].ty) && (forall|d: int|
        0 <= d < dp.classes@.len() ==> #[trigger] dq.classes@[d] == dp.classes@[d]) && sq.data@[
        sp.data@.len() as int].rows@.len() == 0 && dq.indexes@ == dp.indexes@)
}

/// The whole contract of `INSERT`, over the pre and post store: the
/// table and an optional declaration-order column list must resolve; the
/// bound and type-checked rows are appended in one piece, with `NoMem`
/// exactly when pages or identifiers run short; the statement is
/// all-or-nothing.
pub open spec fn insert_into_clause(
    dp: Dictionary,
    sp: Store,
    sq: Store,
    table: Seq<u8>,
    colnames: Option<Seq<Seq<u8>>>,
    rows: Seq<Seq<LitShape>>,
    argsv: Seq<ValShape>,
    r: Result<StmtResult, Error>,
) -> bool {
    &&& (rows.len() <= i64::MAX && (forall|d: int|
        0 <= d < dp.classes@.len() ==> !names_class(table, #[trigger] dp.classes@[d])) ==> r
        == Err::<StmtResult, Error>(Error::Sql(SqlError(SqlCode::CompileError))))
    &&& (forall|c: int|
        {
            &&& 0 <= c < dp.classes@.len()
            &&& names_class(table, #[trigger] dp.classes@[c])
            &&& (forall|d: int| 0 <= d < c ==> !names_class(table, #[trigger] dp.classes@[d]))
        } ==> {
            let fields = dp.classes@[c].fields@;
            let named_ok = match colnames {
                Option::Some(ns) => names_in_order(fields, ns),
                Option::None => true,
            };
            &&& (named_ok && rows.len() <= i64::MAX && bound_rows(fields, rows, argsv) is None
                ==> r is Err)
            &&& (!named_ok && rows.len() <= i64::MAX ==> r == Err::<StmtResult, Error>(
                Error::Sql(SqlError(SqlCode::CompileError)),
            ))
            &&& (rows.len() > i64::MAX ==> r == Err::<StmtResult, Error>(
                Error::Sql(SqlError(SqlCode::NotEnoughMemory)),
            ))
            &&& (forall|brs: Seq<Seq<ValShape>>|
                named_ok && rows.len() <= i64::MAX && bound_rows(fields, rows, argsv) == Some::<
                    Seq<Seq<ValShape>>,
                >(brs) ==> {
                    let enough = free_pages(sp.pages.bitmap@) >= rows.len() && sp.data@[
                        c].next_id + rows.len() <= u64::MAX;
                    &&& (!enough ==> r == Err::<StmtResult, Error>(
                        Error::Core(CoreError(CoreCode::NoMem)),
                    ))
                    &&& (enough ==> r == Ok::<StmtResult, Error>(
                        StmtResult::Count(rows.len() as i64),
                    ) && sq.class_rows(c) == sp.class_rows(c) + brs && (forall|d: int|
                        0 <= d < dp.classes@.len() && d != c ==> #[trigger] sq.data@[d]
                            == sp.data@[d]))
                })
        })
}

/// The whole contract of a query, over the (unchanged) catalog and
/// store: resolution and evaluation per [`select_clause`], and a result
/// set — never a count — on success.
pub open spec fn query_stmt_clause(
    dp: Dictionary,
    sp: Store,
    colsv: SelColsShape,
    table: Seq<u8>,
    wsh: Option<(Seq<u8>, LitShape)>,
    osh: Option<(Seq<u8>, bool)>,
    argsv: Seq<ValShape>,
    r: Result<StmtResult, Error>,
) -> bool {
    let rds: Result<DataSource, Error> = match r {
        Result::Ok(StmtResult::Rows(ds)) => Ok(ds),
        Result::Ok(StmtResult::Count(_)) => Err(Error::Sql(SqlError(SqlCode::RuntimeError))),
        Result::Err(e) => Err(e),
    };
    &&& (class_idx_from(dp, table, 0) is None ==> r == Err::<StmtResult, Error>(
        Error::Sql(SqlError(SqlCode::CompileError)),
    ))
    &&& (forall|c: int|
        class_idx_from(dp, table, 0) == Some(c) ==> select_clause(
            dp,
            sp,
            colsv,
            wsh,
            osh,
            argsv,
            c,
            rds,
        ))
    &&& (r is Ok ==> r->Ok_0 is Rows)
}

/// The whole contract of `DELETE`, over the pre and post store: the
/// table and the optional filter must resolve, and exactly the matching
/// rows are gone, their number reported.
pub open spec fn delete_from_clause(
    dp: Dictionary,
    sp: Store,
    sq: Store,
    table: Seq<u8>,
    wsh: Option<(Seq<u8>, LitShape)>,
    argsv: Seq<ValShape>,
    r: Result<StmtResult, Error>,
) -> bool {
    &&& (class_idx_from(dp, table, 0) is None ==> r == Err::<StmtResult, Error>(
        Error::Sql(SqlError(SqlCode::CompileError)),
    ))
    &&& (forall|c: int|
        class_idx_from(dp, table, 0) == Some(c) ==> {
            let fields = dp.classes@[c].fields@;
            &&& (where_spec(fields, wsh, argsv) is None ==> r is Err)
            &&& (forall|wopt: Option<(int, ValShape)>|
                where_spec(fields, wsh, argsv) == Some::<Option<(int, ValShape)>>(wopt) ==> {
                    let kept = del_rows(sp.class_rows(c), wopt);
                    &&& (r is Ok ==> sq.class_rows(c) == kept && (forall|d: int|
                        0 <= d < sp.data@.len() && d != c ==> #[trigger] sq.data@[d] == sp.data@[
                            d]))
                    &&& (sp.class_rows(c).len() - kept.len() <= i64::MAX ==> r == Ok::<
                        StmtResult,
                        Error,
                    >(StmtResult::Count((sp.class_rows(c).len() - kept.len()) as i64)))
                })
        })
}

/// The whole contract of `UPDATE`, over the pre and post store: the
/// table, every assigned column and the optional filter must resolve
/// and the assigned values must fit their columns' types; the
/// assignments are then applied, in statement order, to exactly the
/// matching rows, whose number is reported.
pub open spec fn update_clause(
    dp: Dictionary,
    sp: Store,
    sq: Store,
    table: Seq<u8>,
    sets: Seq<(Seq<u8>, LitShape)>,
    wsh: Option<(Seq<u8>, LitShape)>,
    argsv: Seq<ValShape>,
    r: Result<StmtResult, Error>,
) -> bool {
    &&& (class_idx_from(dp, table, 0) is None ==> r == Err::<StmtResult, Error>(
        Error::Sql(SqlError(SqlCode::CompileError)),
    ))
    &&& (forall|c: int|
        class_idx_from(dp, table, 0) == Some(c) ==> {
            let fields = dp.classes@[c].fields@;
            let so = sets_spec(fields, sets, argsv);
            let wo = where_spec(fields, wsh, argsv);
            &&& (so is None ==> r is Err)
            &&& (wo is None ==> r is Err)
            &&& (so is Some && wo is Some ==> {
                let rs = so.unwrap();
                let wopt = wo.unwrap();
                &&& sq.class_rows(c) == upd_rows(sp.class_rows(c), wopt, rs)
                &&& (forall|d: int|
                    0 <= d < sp.data@.len() && d != c ==> #[trigger] sq.data@[d] == sp.data@[d])
                &&& r is Ok
                &&& (match_count(sp.class_rows(c), wopt) <= i64::MAX ==> r == Ok::<
                    StmtResult,
                    Error,
                >(StmtResult::Count(match_count(sp.class_rows(c), wopt) as i64)))
            })
        })
}

/// The whole contract of one compiled statement, over the pre and post
/// catalog and store, dispatched on the statement kind. Statements that
/// never touch the catalog or the store leave them equal.
pub open spec fn run_clause(
    dp: Dictionary,
    sp: Store,
    dq: Dictionary,
    sq: Store,
    sh: StmtShape,
    argsv: Seq<ValShape>,
    r: Result<StmtResult, Error>,
) -> bool {
    match sh {
        StmtShape::CreateTable { table, cols } => create_table_clause(
            dp,
            sp,
            dq,
            sq,
            table,
            cols,
            r,
        ),
        StmtShape::Insert { table, cols, rows } => dq == dp && insert_into_clause(
            dp,
            sp,
            sq,
            table,
            cols,
            rows,
            argsv,
            r,
        ),
        StmtShape::Query { cols, table, where_eq, order_by } => dq == dp && sq == sp
            && query_stmt_clause(dp, sp, cols, table, where_eq, order_by, argsv, r),
        StmtShape::Delete { table, where_eq } => dq == dp && delete_from_clause(
            dp,
            sp,
            sq,
            table,
            where_eq,
            argsv,
            r,
        ),
        StmtShape::Update { table, sets, where_eq } => dq == dp && update_clause(
            dp,
            sp,
            sq,
            table,
            sets,
            where_eq,
            argsv,
            r,
        ),
    }
}

/// Runs one compiled statement against a catalog and a store.
///
/// The per-kind semantics are carried by [`run_clause`]: `CREATE TABLE`
/// adds the described class, `INSERT` appends the bound rows, a query
/// returns its result set and leaves the database untouched, and
/// `DELETE` removes exactly the matching rows. On failure the catalog
/// and the store are observably unchanged.
pub fn run_stmt(
    dict: &mut Dictionary,
    store: &mut Store,
    stmt: &Stmt,
    args: &Vec<Value>,
) -> (r: Result<StmtResult, Error>)
    requires
        old(dict).wf(),
        old(store).wf(),
        crate::database::schema_ok(*old(dict), *old(store)),
    ensures
        final(dict).wf(),
        final(store).wf(),
        crate::database::schema_ok(*final(dict), *final(store)),
        (r is Err ==> dict_eq(*old(dict), *final(dict)) && store_eq(*old(store), *final(store))),
        run_clause(
            *old(dict),
            *old(store),
            *final(dict),
            *final(store),
            stmt.deep_view(),
            args.deep_view(),
            r,
        ),
{
    match stmt {
        Stmt::CreateTable { table, cols } => {
            let out: Result<StmtResult, Error> = match exec_create_table(
                dict,
                store,
                table,
                cols,
            ) {
                Ok(n) => Ok(StmtResult::Count(n)),
                Err(e) => Err(e),
            };
            proof {
                if out is Err {
                    lemma_store_eq_refl_local(*store);
                    crate::database::lemma_dict_eq_refl(*dict);
                }
                assert(create_table_clause(
                    *old(dict),
                    *old(store),
                    *dict,
                    *store,
                    table@,
                    cols.deep_view(),
                    out,
                ));
            }
            out
        },
        Stmt::Insert { table, cols, rows } => {
            proof {
                crate::database::lemma_dict_eq_refl(*dict);
            }
            let out: Result<StmtResult, Error> = if (rows.len() as u64)
                > 0x7fff_ffff_ffff_ffffu64 {
                Err(Error::Sql(SqlError(SqlCode::NotEnoughMemory)))
            } else {
                match exec_insert(dict, store, table, cols, rows, args) {
                    Ok(n) => Ok(StmtResult::Count(n)),
                    Err(e) => Err(e),
                }
            };
            proof {
                if out is Err {
                    lemma_store_eq_refl_local(*store);
                }
                assert(insert_into_clause(
                    *old(dict),
                    *old(store),
                    *store,
                    table@,
                    cols.deep_view(),
                    rows.deep_view(),
                    args.deep_view(),
                    out,
                ));
            }
            out
        },
        Stmt::Query { cols, table, where_eq, order_by } => {
            proof {
                crate::database::lemma_dict_eq_refl(*dict);
                lemma_store_eq_refl_local(*store);
            }
            let out: Result<StmtResult, Error> = match exec_select(
                dict,
                store,
                cols,
                table,
                where_eq,
                order_by,
                args,
            ) {
                Ok(ds) => Ok(StmtResult::Rows(ds)),
                Err(e) => Err(e),
            };
            proof {
                assert(query_stmt_clause(
                    *old(dict),
                    *old(store),
                    cols.deep_view(),
                    table@,
                    where_shape(*where_eq),
                    order_shape(*order_by),
                    args.deep_view(),
                    out,
                ));
            }
            out
        },
        Stmt::Delete { table, where_eq } => {
            proof {
                crate::database::lemma_dict_eq_refl(*dict);
            }
            let out: Result<StmtResult, Error> = match exec_delete(
                dict,
                store,
                table,
                where_eq,
                args,
            ) {
                Ok(n) => Ok(StmtResult::Count(n)),
                Err(e) => Err(e),
            };
            proof {
                if out is Err {
                    lemma_store_eq_refl_local(*store);
                }
                assert(delete_from_clause(
                    *old(dict),
                    *old(store),
                    *store,
                    table@,
                    where_shape(*where_eq),
                    args.deep_view(),
                    out,
                ));
            }
            out
        },
        Stmt::Update { table, sets, where_eq } => {
            proof {
                crate::database::lemma_dict_eq_refl(*dict);
            }
            let res = exec_update(dict, store, table, sets, where_eq, args);
            let ghost resg = res;
            let out: Result<StmtResult, Error> = match res {
                Ok(n) => Ok(StmtResult::Count(n)),
                Err(e) => Err(e),
            };
            proof {
                if out is Err {
                    lemma_store_eq_refl_local(*store);
                }
                assert(resg is Ok ==> out == Ok::<StmtResult, Error>(
                    StmtResult::Count(resg->Ok_0),
                ));
                assert(resg is Err ==> out == Err::<StmtResult, Error>(resg->Err_0));
                assert(update_clause(
                    *old(dict),
                    *old(store),
                    *store,
                    table@,
                    sets_shape(sets@),
                    where_shape(*where_eq),
                    args.deep_view(),
                    out,
                )) by {
                    let dp = *old(dict);
                    let sp = *old(store);
                    let sq = *store;
                    let shs = sets_shape(sets@);
                    let wsh0 = where_shape(*where_eq);
                    let argsv = args.deep_view();
                    assert forall|c: int| class_idx_from(dp, table@, 0) == Some(c) implies {
                        let fields = dp.classes@[c].fields@;
                        let so = sets_spec(fields, shs, argsv);
                        let wo = where_spec(fields, wsh0, argsv);
                        &&& (so is None ==> out is Err)
                        &&& (wo is None ==> out is Err)
                        &&& (so is Some && wo is Some ==> {
                            let rs = so.unwrap();
                            let wopt = wo.unwrap();
                            &&& sq.class_rows(c) == upd_rows(sp.class_rows(c), wopt, rs)
                            &&& (forall|d: int|
                                0 <= d < sp.data@.len() && d != c ==> #[trigger] sq.data@[d]
                                    == sp.data@[d])
                            &&& out is Ok
                            &&& (match_count(sp.class_rows(c), wopt) <= i64::MAX ==> out
                                == Ok::<StmtResult, Error>(
                                StmtResult::Count(match_count(sp.class_rows(c), wopt) as i64),
                            ))
                        })
                    } by {
                        let fields = dp.classes@[c].fields@;
                        let so = sets_spec(fields, shs, argsv);
                        let wo = where_spec(fields, wsh0, argsv);
                        if so is Some && wo is Some {
                            let wopt = wo.unwrap();
                            assert(resg is Ok);
                            assert(match_count(sp.class_rows(c), wopt) <= i64::MAX ==> resg
                                == Ok::<i64, Error>(match_count(sp.class_rows(c), wopt) as i64));
                        }
                    }
                }
            }
            out
        },
    }
}

} // verus!
