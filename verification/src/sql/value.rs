//! SQL values.
//!
//! A [`Value`] is the tagged union carried between the application, the
//! statement executor and the stored rows. Every integer is held internally
//! as a signed 64-bit value regardless of its declared column width; 32- and
//! 64-bit floating point payloads are carried as raw IEEE-754 bit patterns
//! and are never computed on by the engine core. Conversions to and from
//! text are locale-independent.
//!
//! Array values require an explicit reinterpretation step ([`Value::as_array`])
//! from the generic value before their specialized accessors are usable, and
//! that reinterpretation fails when the runtime tag does not match.

use vstd::prelude::*;
use vstd::slice::slice_to_vec;

use crate::sql::{SqlCode, SqlError};
use crate::Error;

verus! {

/// `10^p`.
pub open spec fn pow10(p: nat) -> nat
    decreases p,
{
    if p == 0 {
        1
    } else {
        10 * pow10((p - 1) as nat)
    }
}

/// The decimal digit character for `d` (`d < 10`).
pub open spec fn digit_to_char(d: nat) -> char {
    ((d + 48) as u8) as char
}

/// The numeric value of a decimal digit character.
pub open spec fn char_to_digit(c: char) -> nat {
    (c as nat - 48) as nat
}

/// True if `s` is a non-empty run of decimal digit characters.
pub open spec fn is_digits(s: Seq<char>) -> bool {
    s.len() > 0 && forall|i: int| 0 <= i < s.len() ==> '0' <= #[trigger] s[i] <= '9'
}

/// The value of a run of decimal digit characters.
pub open spec fn dec_val(s: Seq<char>) -> nat
    decreases s.len(),
{
    if s.len() == 0 {
        0
    } else {
        10 * dec_val(s.drop_last()) + char_to_digit(s.last())
    }
}

/// The canonical decimal representation of `n`: no sign, no leading zeroes
/// (except for `0` itself).
pub open spec fn dec_rep(n: nat) -> Seq<char>
    decreases n,
{
    if n < 10 {
        seq![digit_to_char(n)]
    } else {
        dec_rep(n / 10) + seq![digit_to_char(n % 10)]
    }
}

/// The canonical, locale-independent decimal representation of `i`,
/// with a leading `-` for negative values.
pub open spec fn int_rep(i: int) -> Seq<char> {
    if i < 0 {
        seq!['-'] + dec_rep((-i) as nat)
    } else {
        dec_rep(i as nat)
    }
}

/// The locale-independent integer reading of `s`: an optional leading `-`,
/// then one or more decimal digits, and nothing else; `None` when the text
/// has any other shape or the value does not fit an `i64`.
pub open spec fn parse_i64_spec(s: Seq<char>) -> Option<i64> {
    if s.len() > 0 && s[0] == '-' {
        let t = s.subrange(1, s.len() as int);
        if is_digits(t) && dec_val(t) <= 0x8000_0000_0000_0000 {
            Some((-(dec_val(t) as int)) as i64)
        } else {
            None
        }
    } else if is_digits(s) && dec_val(s) <= i64::MAX {
        Some(dec_val(s) as i64)
    } else {
        None
    }
}

/// The type of a generic SQL value.
///
/// The numeric codes (see [`Type::from_mco`]) describe the declared column
/// widths; the engine core stores every integer as a signed 64-bit value.
#[derive(Clone, Copy, Debug, PartialEq, Eq, Structural)]
pub enum Type {
    /// A `null` value.
    Null,
    /// A boolean value.
    Bool,
    /// A signed 8-bit integer.
    Int1,
    /// A signed 16-bit integer.
    Int2,
    /// A signed 32-bit integer.
    Int4,
    /// A signed 64-bit integer.
    Int8,
    /// An unsigned 8-bit integer.
    UInt1,
    /// An unsigned 16-bit integer.
    UInt2,
    /// An unsigned 32-bit integer.
    UInt4,
    /// An unsigned 64-bit integer.
    UInt8,
    /// A 32-bit floating point value.
    Real4,
    /// A 64-bit floating point value.
    Real8,
    /// A timestamp.
    Time,
    /// A fixed-width numeric value.
    Numeric,
    /// A variable-length string.
    String,
    /// A variable-length byte array.
    Binary,
    /// An array of values.
    Array,
    /// A blob.
    Blob,
    /// A sequence.
    Sequence,
}

impl Type {
    /// The stable numeric code of each column type; used by external
    /// representations of column metadata.
    pub open spec fn code(self) -> u32 {
        match self {
            Type::Null => 0,
            Type::Bool => 1,
            Type::Int1 => 2,
            Type::Int2 => 3,
            Type::Int4 => 4,
            Type::Int8 => 5,
            Type::UInt1 => 6,
            Type::UInt2 => 7,
            Type::UInt4 => 8,
            Type::UInt8 => 9,
            Type::Real4 => 10,
            Type::Real8 => 11,
            Type::Time => 12,
            Type::Numeric => 13,
            Type::String => 14,
            Type::Binary => 15,
            Type::Array => 16,
            Type::Blob => 17,
            Type::Sequence => 18,
        }
    }

    /// Returns the stable numeric code of this column type.
    pub fn to_code(&self) -> (r: u32)
        ensures
            r == self.code(),
    {
        match self {
            Type::Null => 0,
            Type::Bool => 1,
            Type::Int1 => 2,
            Type::Int2 => 3,
            Type::Int4 => 4,
            Type::Int8 => 5,
            Type::UInt1 => 6,
            Type::UInt2 => 7,
            Type::UInt4 => 8,
            Type::UInt8 => 9,
            Type::Real4 => 10,
            Type::Real8 => 11,
            Type::Time => 12,
            Type::Numeric => 13,
            Type::String => 14,
            Type::Binary => 15,
            Type::Array => 16,
            Type::Blob => 17,
            Type::Sequence => 18,
        }
    }

    /// Maps a stable numeric column-type code back to the type, or `None`
    /// for a code outside the known range.
    pub fn from_mco(v: u32) -> (r: Option<Type>)
        ensures
            r matches Some(t) ==> t.code() == v,
            r is None <==> v > 18,
    {
        match v {
            0u32 => Some(Type::Null),
            1u32 => Some(Type::Bool),
            2u32 => Some(Type::Int1),
            3u32 => Some(Type::Int2),
            4u32 => Some(Type::Int4),
            5u32 => Some(Type::Int8),
            6u32 => Some(Type::UInt1),
            7u32 => Some(Type::UInt2),
            8u32 => Some(Type::UInt4),
            9u32 => Some(Type::UInt8),
            10u32 => Some(Type::Real4),
            11u32 => Some(Type::Real8),
            12u32 => Some(Type::Time),
            13u32 => Some(Type::Numeric),
            14u32 => Some(Type::String),
            15u32 => Some(Type::Binary),
            16u32 => Some(Type::Array),
            17u32 => Some(Type::Blob),
            18u32 => Some(Type::Sequence),
            _ => None,
        }
    }
}

/// A scalar element of an SQL array. Arrays are homogeneous collections of
/// scalars; they do not nest.
pub enum Elem {
    /// A `null` element.
    Null,
    /// A boolean.
    Bool(bool),
    /// A signed 64-bit integer.
    Int(i64),
    /// The raw IEEE-754 bit pattern of a 64-bit float.
    Real(u64),
    /// A timestamp in engine ticks.
    Time(u64),
    /// A string.
    Str(String),
    /// A byte string.
    Bin(Vec<u8>),
}

/// The mathematical shape of an array element.
pub enum ElemShape {
    /// A `null` element.
    Null,
    /// A boolean.
    Bool(bool),
    /// A signed 64-bit integer.
    Int(i64),
    /// The raw IEEE-754 bit pattern of a 64-bit float.
    Real(u64),
    /// A timestamp in engine ticks.
    Time(u64),
    /// A string.
    Str(Seq<char>),
    /// A byte string.
    Bin(Seq<u8>),
}

impl DeepView for Elem {
    type V = ElemShape;

    open spec fn deep_view(&self) -> ElemShape {
        match self {
            Elem::Null => ElemShape::Null,
            Elem::Bool(b) => ElemShape::Bool(*b),
            Elem::Int(i) => ElemShape::Int(*i),
            Elem::Real(bits) => ElemShape::Real(*bits),
            Elem::Time(t) => ElemShape::Time(*t),
            Elem::Str(s) => ElemShape::Str(s@),
            Elem::Bin(b) => ElemShape::Bin(b@),
        }
    }
}

impl View for Elem {
    type V = ElemShape;

    open spec fn view(&self) -> ElemShape {
        self.deep_view()
    }
}

/// The mathematical shape of a [`Value`]: strings as character sequences,
/// binary payloads as byte sequences, arrays as sequences of element shapes.
pub enum ValShape {
    /// A `null` value.
    Null,
    /// A boolean.
    Bool(bool),
    /// A signed 64-bit integer.
    Int(i64),
    /// The raw IEEE-754 bit pattern of a 64-bit float.
    Real(u64),
    /// A timestamp in engine ticks.
    Time(u64),
    /// A fixed-width numeric: scaled value and scale.
    Numeric { scaled: i64, prec: u8 },
    /// A string.
    Str(Seq<char>),
    /// A byte string.
    Bin(Seq<u8>),
    /// An array of scalar elements.
    Arr(Seq<ElemShape>),
}

/// A generic SQL value.
///
/// Values are plain data: they are produced by the statement executor (from
/// literals, bound parameters and stored rows) and handed back to the
/// application through records and cursors.
pub enum Value {
    /// A `null` value.
    Null,
    /// A boolean.
    Bool(bool),
    /// A signed 64-bit integer; every integer column width is carried here.
    Int(i64),
    /// The raw IEEE-754 bit pattern of a 64-bit float. The engine core
    /// never interprets the bits.
    Real(u64),
    /// A timestamp in engine ticks.
    Time(u64),
    /// A fixed-width numeric: scaled value and scale (`value / 10^prec`).
    Numeric { scaled: i64, prec: u8 },
    /// A string.
    Str(String),
    /// A byte string.
    Bin(Vec<u8>),
    /// An array of scalar elements of one element type.
    Arr(Vec<Elem>),
}

impl DeepView for Value {
    type V = ValShape;

    open spec fn deep_view(&self) -> ValShape {
        match self {
            Value::Null => ValShape::Null,
            Value::Bool(b) => ValShape::Bool(*b),
            Value::Int(i) => ValShape::Int(*i),
            Value::Real(bits) => ValShape::Real(*bits),
            Value::Time(t) => ValShape::Time(*t),
            Value::Numeric { scaled, prec } => ValShape::Numeric { scaled: *scaled, prec: *prec },
            Value::Str(s) => ValShape::Str(s@),
            Value::Bin(b) => ValShape::Bin(b@),
            Value::Arr(items) => ValShape::Arr(items.deep_view()),
        }
    }
}

impl View for Value {
    type V = ValShape;

    open spec fn view(&self) -> ValShape {
        self.deep_view()
    }
}

impl Value {
    /// The runtime tag of a value shape.
    pub open spec fn shape_type(s: ValShape) -> Type {
        match s {
            ValShape::Null => Type::Null,
            ValShape::Bool(_) => Type::Bool,
            ValShape::Int(_) => Type::Int8,
            ValShape::Real(_) => Type::Real8,
            ValShape::Time(_) => Type::Time,
            ValShape::Numeric { .. } => Type::Numeric,
            ValShape::Str(_) => Type::String,
            ValShape::Bin(_) => Type::Binary,
            ValShape::Arr(_) => Type::Array,
        }
    }

    /// Returns the type of the contained value. Integers always report
    /// `Int8` and floats `Real8`: the engine stores every scalar at 64-bit
    /// width regardless of the declared column width.
    pub fn value_type(&self) -> (r: Type)
        ensures
            r == Value::shape_type(self@),
    {
        match self {
            Value::Null => Type::Null,
            Value::Bool(_) => Type::Bool,
            Value::Int(_) => Type::Int8,
            Value::Real(_) => Type::Real8,
            Value::Time(_) => Type::Time,
            Value::Numeric { .. } => Type::Numeric,
            Value::Str(_) => Type::String,
            Value::Bin(_) => Type::Binary,
            Value::Arr(_) => Type::Array,
        }
    }

    /// Returns `true` if the value is the SQL `null` value.
    pub fn is_null(&self) -> (r: bool)
        ensures
            r == (self@ is Null),
    {
        match self {
            Value::Null => true,
            _ => false,
        }
    }

    /// Returns `true` if the value is a boolean `true`, or a non-zero
    /// integer.
    pub fn is_true(&self) -> (r: bool)
        ensures
            r == (self@ == ValShape::Bool(true) || (self@ matches ValShape::Int(i) && i != 0)),
    {
        match self {
            Value::Bool(b) => *b,
            Value::Int(i) => *i != 0,
            _ => false,
        }
    }

    /// Creates the SQL `null` value.
    pub fn new_null() -> (r: Value)
        ensures
            r@ == ValShape::Null,
    {
        Value::Null
    }

    /// Creates a boolean value.
    pub fn new_bool(b: bool) -> (r: Value)
        ensures
            r@ == ValShape::Bool(b),
    {
        Value::Bool(b)
    }

    /// Creates an integer value. Every integer width is carried as `i64`.
    pub fn new_int(i: i64) -> (r: Value)
        ensures
            r@ == ValShape::Int(i),
    {
        Value::Int(i)
    }

    /// Creates a floating point value from its raw IEEE-754 bit pattern.
    pub fn new_real_bits(bits: u64) -> (r: Value)
        ensures
            r@ == ValShape::Real(bits),
    {
        Value::Real(bits)
    }

    /// Creates a timestamp value from a tick count.
    pub fn new_time(t: u64) -> (r: Value)
        ensures
            r@ == ValShape::Time(t),
    {
        Value::Time(t)
    }

    /// Creates a string value, copying the text.
    pub fn new_string(s: &str) -> (r: Value)
        ensures
            r@ == ValShape::Str(s@),
    {
        Value::Str(s.to_owned())
    }

    /// Creates a byte-string value, copying the bytes.
    pub fn new_binary(b: &[u8]) -> (r: Value)
        ensures
            r@ == ValShape::Bin(b@),
    {
        Value::Bin(slice_to_vec(b))
    }

    /// Creates a fixed-width numeric value.
    pub fn from_numeric(n: &Numeric) -> (r: Value)
        ensures
            r@ == (ValShape::Numeric { scaled: n.val_scaled, prec: n.prec }),
    {
        Value::Numeric { scaled: n.val_scaled, prec: n.prec }
    }

    /// Creates an array value from its elements.
    pub fn new_array(items: Vec<Elem>) -> (r: Value)
        ensures
            r@ == ValShape::Arr(items.deep_view()),
    {
        Value::Arr(items)
    }

    /// For non-scalar types, returns the size of the data: the length of a
    /// string or byte string, or the number of elements of an array. Scalar
    /// values report `InvalidOperation`.
    pub fn size(&self) -> (r: Result<usize, Error>)
        ensures
            self@ matches ValShape::Str(s) ==> (r matches Ok(n) && n == s.len()),
            self@ matches ValShape::Bin(b) ==> (r matches Ok(n) && n == b.len()),
            self@ matches ValShape::Arr(a) ==> (r matches Ok(n) && n == a.len()),
            !(self@ is Str || self@ is Bin || self@ is Arr) ==> r == Err::<usize, Error>(
                Error::Sql(SqlError(SqlCode::InvalidOperation)),
            ),
    {
        match self {
            Value::Str(s) => Ok(s.as_str().unicode_len()),
            Value::Bin(b) => Ok(b.len()),
            Value::Arr(items) => Ok(items.len()),
            _ => Err(Error::Sql(SqlError(SqlCode::InvalidOperation))),
        }
    }
}

/// The truncated quotient of a scaled numeric value by its scale: the
/// integer part of `v / 10^p`, rounded toward zero.
pub open spec fn numeric_int_part(v: int, p: nat) -> int {
    if v >= 0 {
        v / (pow10(p) as int)
    } else {
        -((-v) / (pow10(p) as int))
    }
}

/// The fractional digits of a scaled numeric value: `|v| % 10^p`.
pub open spec fn numeric_fract_part(v: int, p: nat) -> int {
    (if v >= 0 { v } else { -v }) % (pow10(p) as int)
}

/// A fixed-width numeric value: a scaled 64-bit integer together with a
/// decimal scale between 0 and 19. The represented number is
/// `val_scaled / 10^prec`.
#[derive(Clone, Copy, Debug, PartialEq, Eq, Structural)]
pub struct Numeric {
    /// The scaled value.
    pub val_scaled: i64,
    /// The scale (number of fractional decimal digits), at most 19.
    pub prec: u8,
}

/// `10^p` is never larger than `10^19`, which fits in 64 bits.
proof fn lemma_pow10_bound(p: nat)
    requires
        p <= 19,
    ensures
        pow10(p) >= 1,
        pow10(p) <= 10_000_000_000_000_000_000,
    decreases 19 - p,
{
    assert(pow10(19) == 10_000_000_000_000_000_000) by {
        reveal_with_fuel(pow10, 20);
    }
    if p < 19 {
        lemma_pow10_bound(p + 1);
    }
}

/// Computes `10^p` for `p` up to 19.
fn pow10_u64(p: u8) -> (r: u64)
    requires
        p <= 19,
    ensures
        r == pow10(p as nat),
{
    let mut r: u64 = 1;
    let mut j: u8 = 0;
    while j < p
        invariant
            j <= p <= 19,
            r == pow10(j as nat),
        decreases p - j,
    {
        proof {
            lemma_pow10_bound((j + 1) as nat);
        }
        r = r * 10;
        j = j + 1;
    }
    r
}

impl Numeric {
    /// Constructs a fixed-width numeric from a scaled value and a scale.
    /// Returns `None` when the scale is greater than 19.
    pub fn new(val_scaled: i64, prec: usize) -> (r: Option<Self>)
        ensures
            prec <= 19 ==> r == Some(Numeric { val_scaled, prec: prec as u8 }),
            prec > 19 ==> r is None,
    {
        if prec <= 19 {
            Some(Numeric { val_scaled, prec: prec as u8 })
        } else {
            None
        }
    }

    /// True of every constructible numeric: the scale is at most 19.
    pub open spec fn wf(self) -> bool {
        self.prec <= 19
    }

    /// Returns the scaled value.
    pub fn value_scaled(&self) -> (r: i64)
        ensures
            r == self.val_scaled,
    {
        self.val_scaled
    }

    /// Returns the scale.
    pub fn precision(&self) -> (r: usize)
        ensures
            r == self.prec,
    {
        self.prec as usize
    }

    /// Returns the integer part of the represented number, rounded toward
    /// zero.
    pub fn int_part(&self) -> (r: i64)
        requires
            self.wf(),
        ensures
            r == numeric_int_part(self.val_scaled as int, self.prec as nat),
    {
        proof {
            lemma_pow10_bound(self.prec as nat);
        }
        let s = self.scale();
        let m = abs_u64(self.val_scaled);
        let q = m / s;
        if self.val_scaled >= 0 {
            q as i64
        } else if q == 0x8000_0000_0000_0000u64 {
            i64::MIN
        } else {
            -(q as i64)
        }
    }

    /// Returns the fractional digits of the represented number:
    /// `|value_scaled| % 10^prec`.
    pub fn fract_part(&self) -> (r: u64)
        requires
            self.wf(),
        ensures
            r == numeric_fract_part(self.val_scaled as int, self.prec as nat),
    {
        proof {
            lemma_pow10_bound(self.prec as nat);
        }
        let s = self.scale();
        let m = abs_u64(self.val_scaled);
        m % s
    }

    /// Destructures the numeric into the scaled value and the scale.
    pub fn destruct(self) -> (r: (i64, usize))
        ensures
            r.0 == self.val_scaled,
            r.1 == self.prec,
    {
        (self.val_scaled, self.prec as usize)
    }

    /// The scale factor `10^prec`.
    fn scale(&self) -> (r: u64)
        requires
            self.wf(),
        ensures
            r == pow10(self.prec as nat),
            r >= 1,
    {
        proof {
            lemma_pow10_bound(self.prec as nat);
        }
        pow10_u64(self.prec)
    }
}

/// The single-character string for the decimal digit `d`.
fn digit_str(d: u8) -> (r: &'static str)
    requires
        d < 10,
    ensures
        r@ =~= seq![digit_to_char(d as nat)],
{
    proof {
        reveal_strlit("0");
        reveal_strlit("1");
        reveal_strlit("2");
        reveal_strlit("3");
        reveal_strlit("4");
        reveal_strlit("5");
        reveal_strlit("6");
        reveal_strlit("7");
        reveal_strlit("8");
        reveal_strlit("9");
    }
    match d {
        0u8 => "0",
        1u8 => "1",
        2u8 => "2",
        3u8 => "3",
        4u8 => "4",
        5u8 => "5",
        6u8 => "6",
        7u8 => "7",
        8u8 => "8",
        _ => "9",
    }
}

/// Formats `n` in canonical decimal: no sign, no leading zeroes.
pub fn format_u64(n: u64) -> (r: String)
    ensures
        r@ == dec_rep(n as nat),
    decreases n,
{
    if n < 10 {
        let r = String::from_str(digit_str(n as u8));
        proof {
            assert(r@ =~= dec_rep(n as nat));
        }
        r
    } else {
        let mut r = format_u64(n / 10);
        r.append(digit_str((n % 10) as u8));
        proof {
            assert(r@ =~= dec_rep(n as nat));
        }
        r
    }
}

/// The magnitude of `i` as an unsigned value.
fn abs_u64(i: i64) -> (r: u64)
    ensures
        i >= 0 ==> r == i,
        i < 0 ==> r == -(i as int),
{
    if i >= 0 {
        i as u64
    } else {
        ((-(i + 1)) as u64) + 1
    }
}

/// Formats `i` in canonical, locale-independent decimal, with a leading `-`
/// for negative values.
pub fn format_i64(i: i64) -> (r: String)
    ensures
        r@ == int_rep(i as int),
{
    proof {
        reveal_strlit("-");
    }
    if i >= 0 {
        format_u64(abs_u64(i))
    } else {
        let mut r = String::from_str("-");
        let digits = format_u64(abs_u64(i));
        r.append(digits.as_str());
        proof {
            assert(r@ =~= int_rep(i as int));
        }
        r
    }
}

/// One digit extends a digit run's value tenfold plus itself.
proof fn lemma_dec_val_extend(s: Seq<char>, a: int, j: int)
    requires
        0 <= a <= j < s.len(),
    ensures
        dec_val(s.subrange(a, j + 1)) == 10 * dec_val(s.subrange(a, j)) + char_to_digit(s[j]),
{
    let t = s.subrange(a, j + 1);
    assert(t.drop_last() =~= s.subrange(a, j));
    assert(t.last() == s[j]);
}

/// A digit run's value only grows as the run is extended to the right.
proof fn lemma_dec_val_grows(s: Seq<char>, a: int, i: int, n: int)
    requires
        0 <= a <= i <= n <= s.len(),
    ensures
        dec_val(s.subrange(a, n)) >= dec_val(s.subrange(a, i)),
        i < n ==> dec_val(s.subrange(a, n)) >= 10 * dec_val(s.subrange(a, i)),
    decreases n - i,
{
    if i < n {
        lemma_dec_val_extend(s, a, n - 1);
        if i < n - 1 {
            lemma_dec_val_grows(s, a, i, n - 1);
        }
    }
}

/// Reads `s` as a locale-independent decimal integer: an optional leading
/// `-`, then one or more digits. Any other text, or a value outside the
/// `i64` range, reports `InvalidTypeCast`.
pub fn parse_i64(s: &str) -> (r: Result<i64, Error>)
    ensures
        (parse_i64_spec(s@) matches Some(v) ==> r == Ok::<i64, Error>(v)),
        (parse_i64_spec(s@) is None ==> r == Err::<i64, Error>(
            Error::Sql(SqlError(SqlCode::InvalidTypeCast)),
        )),
{
    let n = s.unicode_len();
    if n == 0 {
        return Err(Error::Sql(SqlError(SqlCode::InvalidTypeCast)));
    }
    let neg = s.get_char(0) == '-';
    let start: usize = if neg { 1 } else { 0 };
    if start == n {
        return Err(Error::Sql(SqlError(SqlCode::InvalidTypeCast)));
    }
    let ghost t = s@.subrange(start as int, n as int);
    proof {
        if !neg {
            assert(t =~= s@);
        }
    }
    let mut acc: u64 = 0;
    let mut i: usize = start;
    while i < n
        invariant
            start <= i <= n,
            n == s@.len(),
            start == if neg { 1int } else { 0int },
            neg ==> s@[0] == '-',
            !neg ==> s@[0] != '-',
            t == s@.subrange(start as int, n as int),
            !neg ==> t == s@,
            acc == dec_val(s@.subrange(start as int, i as int)),
            forall|k: int| start <= k < i ==> '0' <= #[trigger] s@[k] <= '9',
        decreases n - i,
    {
        let c = s.get_char(i);
        if c < '0' || c > '9' {
            proof {
                assert(!is_digits(t)) by {
                    assert(t[i - start] == s@[i as int]);
                }
            }
            return Err(Error::Sql(SqlError(SqlCode::InvalidTypeCast)));
        }
        if acc > 1844674407370955160u64 {
            // The value already exceeds the i64 range; any further digit
            // would also overflow the 64-bit accumulator.
            proof {
                lemma_dec_val_grows(s@, start as int, i as int, n as int);
                assert(dec_val(t) >= 10 * acc);
            }
            return Err(Error::Sql(SqlError(SqlCode::InvalidTypeCast)));
        }
        let d = (c as u32) - 48;
        proof {
            lemma_dec_val_extend(s@, start as int, i as int);
        }
        acc = acc * 10 + (d as u64);
        i = i + 1;
    }
    proof {
        assert(s@.subrange(start as int, n as int) == t);
        assert(is_digits(t));
    }
    if neg {
        if acc > 0x8000_0000_0000_0000u64 {
            Err(Error::Sql(SqlError(SqlCode::InvalidTypeCast)))
        } else if acc == 0x8000_0000_0000_0000u64 {
            Ok(i64::MIN)
        } else {
            Ok(-(acc as i64))
        }
    } else {
        if acc > 0x7fff_ffff_ffff_ffffu64 {
            Err(Error::Sql(SqlError(SqlCode::InvalidTypeCast)))
        } else {
            Ok(acc as i64)
        }
    }
}

/// The integer reading of a value: integers read as themselves, booleans as
/// zero or one, timestamps as their tick count when it fits, strings by the
/// locale-independent text reading. Everything else has no integer reading.
pub open spec fn to_i64_spec(v: ValShape) -> Option<i64> {
    match v {
        ValShape::Int(i) => Some(i),
        ValShape::Bool(b) => Some(if b { 1i64 } else { 0i64 }),
        ValShape::Time(t) => if t <= i64::MAX { Some(t as i64) } else { None },
        ValShape::Str(s) => parse_i64_spec(s),
        _ => None,
    }
}

/// The text of a boolean.
pub open spec fn bool_rep(b: bool) -> Seq<char> {
    if b {
        seq!['t', 'r', 'u', 'e']
    } else {
        seq!['f', 'a', 'l', 's', 'e']
    }
}

/// The text of the SQL `null` value.
pub open spec fn null_rep() -> Seq<char> {
    seq!['n', 'u', 'l', 'l']
}

/// The text rendering of a value: strings as themselves, integers and
/// timestamps in canonical decimal, booleans and nulls by their keywords.
/// Floating point, numeric, binary and array values have no engine-core
/// text rendering.
pub open spec fn to_text_spec(v: ValShape) -> Option<Seq<char>> {
    match v {
        ValShape::Str(s) => Some(s),
        ValShape::Int(i) => Some(int_rep(i as int)),
        ValShape::Bool(b) => Some(bool_rep(b)),
        ValShape::Null => Some(null_rep()),
        ValShape::Time(t) => Some(dec_rep(t as nat)),
        _ => None,
    }
}

/// The runtime tag of an array element shape.
pub open spec fn elem_type_spec(e: ElemShape) -> Type {
    match e {
        ElemShape::Null => Type::Null,
        ElemShape::Bool(_) => Type::Bool,
        ElemShape::Int(_) => Type::Int8,
        ElemShape::Real(_) => Type::Real8,
        ElemShape::Time(_) => Type::Time,
        ElemShape::Str(_) => Type::String,
        ElemShape::Bin(_) => Type::Binary,
    }
}

/// The value shape carried by an array element shape.
pub open spec fn elem_to_val_spec(e: ElemShape) -> ValShape {
    match e {
        ElemShape::Null => ValShape::Null,
        ElemShape::Bool(b) => ValShape::Bool(b),
        ElemShape::Int(i) => ValShape::Int(i),
        ElemShape::Real(bits) => ValShape::Real(bits),
        ElemShape::Time(t) => ValShape::Time(t),
        ElemShape::Str(s) => ValShape::Str(s),
        ElemShape::Bin(b) => ValShape::Bin(b),
    }
}

impl Elem {
    /// Copies this element into a standalone generic value.
    pub fn to_value(&self) -> (r: Value)
        ensures
            r@ == elem_to_val_spec(self@),
    {
        match self {
            Elem::Null => Value::Null,
            Elem::Bool(b) => Value::Bool(*b),
            Elem::Int(i) => Value::Int(*i),
            Elem::Real(bits) => Value::Real(*bits),
            Elem::Time(t) => Value::Time(*t),
            Elem::Str(s) => Value::Str(s.clone()),
            Elem::Bin(b) => Value::Bin(slice_to_vec(b.as_slice())),
        }
    }
}

impl Value {
    /// Casts the value to `i64`.
    ///
    /// Integers are returned as they are; booleans become zero or one;
    /// timestamps are returned when their tick count fits; strings are
    /// parsed with the locale-independent decimal reading. Everything else
    /// reports `InvalidTypeCast`.
    pub fn to_i64(&self) -> (r: Result<i64, Error>)
        ensures
            (to_i64_spec(self@) matches Some(v) ==> r == Ok::<i64, Error>(v)),
            (to_i64_spec(self@) is None ==> r == Err::<i64, Error>(
                Error::Sql(SqlError(SqlCode::InvalidTypeCast)),
            )),
    {
        match self {
            Value::Int(i) => Ok(*i),
            Value::Bool(b) => Ok(if *b { 1 } else { 0 }),
            Value::Time(t) => {
                if *t <= 0x7fff_ffff_ffff_ffffu64 {
                    Ok(*t as i64)
                } else {
                    Err(Error::Sql(SqlError(SqlCode::InvalidTypeCast)))
                }
            },
            Value::Str(s) => parse_i64(s.as_str()),
            _ => Err(Error::Sql(SqlError(SqlCode::InvalidTypeCast))),
        }
    }

    /// Casts the value to the tick count of a timestamp. Timestamps return
    /// their ticks; non-negative integers are reinterpreted as ticks.
    pub fn to_date_time(&self) -> (r: Result<u64, Error>)
        ensures
            (self@ matches ValShape::Time(t) ==> r == Ok::<u64, Error>(t)),
            (self@ matches ValShape::Int(i) ==> ((i >= 0 ==> r == Ok::<u64, Error>(i as u64)) && (
            i < 0 ==> r == Err::<u64, Error>(Error::Sql(SqlError(SqlCode::InvalidTypeCast)))))),
            (!(self@ is Time || self@ is Int) ==> r == Err::<u64, Error>(
                Error::Sql(SqlError(SqlCode::InvalidTypeCast)),
            )),
    {
        match self {
            Value::Time(t) => Ok(*t),
            Value::Int(i) => {
                if *i >= 0 {
                    Ok(*i as u64)
                } else {
                    Err(Error::Sql(SqlError(SqlCode::InvalidTypeCast)))
                }
            },
            _ => Err(Error::Sql(SqlError(SqlCode::InvalidTypeCast))),
        }
    }

    /// Returns the raw IEEE-754 bit pattern of a floating point value, or
    /// `InvalidTypeCast` for any other tag. The engine core never computes
    /// on the bits; callers reinterpret them as a 64-bit float.
    pub fn to_real_bits(&self) -> (r: Result<u64, Error>)
        ensures
            (self@ matches ValShape::Real(bits) ==> r == Ok::<u64, Error>(bits)),
            (!(self@ is Real) ==> r == Err::<u64, Error>(
                Error::Sql(SqlError(SqlCode::InvalidTypeCast)),
            )),
    {
        match self {
            Value::Real(bits) => Ok(*bits),
            _ => Err(Error::Sql(SqlError(SqlCode::InvalidTypeCast))),
        }
    }

    /// Returns the contained fixed-width numeric value, or
    /// `InvalidTypeCast` for any other tag or an unrepresentable scale.
    pub fn to_numeric(&self) -> (r: Result<Numeric, Error>)
        ensures
            (self@ matches ValShape::Numeric { scaled, prec } ==> ((prec <= 19 ==> r == Ok::<
                Numeric,
                Error,
            >(Numeric { val_scaled: scaled, prec })) && (prec > 19 ==> r == Err::<Numeric, Error>(
            Error::Sql(SqlError(SqlCode::InvalidTypeCast)))))),
            (!(self@ is Numeric) ==> r == Err::<Numeric, Error>(
                Error::Sql(SqlError(SqlCode::InvalidTypeCast)),
            )),
    {
        match self {
            Value::Numeric { scaled, prec } => {
                if *prec <= 19 {
                    Ok(Numeric { val_scaled: *scaled, prec: *prec })
                } else {
                    Err(Error::Sql(SqlError(SqlCode::InvalidTypeCast)))
                }
            },
            _ => Err(Error::Sql(SqlError(SqlCode::InvalidTypeCast))),
        }
    }

    /// Converts the value to its text rendering: strings as themselves,
    /// integers and timestamps in canonical decimal, booleans and nulls by
    /// their keywords. Other tags report `InvalidTypeCast`.
    pub fn to_string(&self) -> (r: Result<String, Error>)
        ensures
            (to_text_spec(self@) matches Some(s) ==> r matches Ok(out) && out@ == s),
            (to_text_spec(self@) is None ==> r == Err::<String, Error>(
                Error::Sql(SqlError(SqlCode::InvalidTypeCast)),
            )),
    {
        proof {
            reveal_strlit("true");
            reveal_strlit("false");
            reveal_strlit("null");
        }
        match self {
            Value::Str(s) => Ok(s.clone()),
            Value::Int(i) => Ok(format_i64(*i)),
            Value::Bool(b) => {
                let r = if *b {
                    String::from_str("true")
                } else {
                    String::from_str("false")
                };
                proof {
                    assert(r@ =~= bool_rep(*b));
                }
                Ok(r)
            },
            Value::Null => {
                let r = String::from_str("null");
                proof {
                    assert(r@ =~= null_rep());
                }
                Ok(r)
            },
            Value::Time(t) => Ok(format_u64(*t)),
            _ => Err(Error::Sql(SqlError(SqlCode::InvalidTypeCast))),
        }
    }

    /// Returns a string slice pointing at the contents of a string value,
    /// or `InvalidTypeCast` for any other tag.
    pub fn as_str(&self) -> (r: Result<&str, Error>)
        ensures
            (self@ matches ValShape::Str(s) ==> r matches Ok(out) && out@ == s),
            !(self@ is Str) ==> (r matches Err(e) && e == Error::Sql(
                SqlError(SqlCode::InvalidTypeCast),
            )),
    {
        match self {
            Value::Str(s) => Ok(s.as_str()),
            _ => Err(Error::Sql(SqlError(SqlCode::InvalidTypeCast))),
        }
    }

    /// Returns a copy of the bytes of a string or byte-string value:
    /// the UTF-8 encoding of a string, or the bytes themselves.
    pub fn to_binary(&self) -> (r: Result<Vec<u8>, Error>)
        ensures
            (self@ matches ValShape::Bin(b) ==> r matches Ok(out) && out@ == b),
            (self@ matches ValShape::Str(s) ==> r matches Ok(out) && out@
                == vstd::utf8::encode_utf8(s)),
            !(self@ is Bin || self@ is Str) ==> (r matches Err(e) && e == Error::Sql(
                SqlError(SqlCode::InvalidTypeCast),
            )),
    {
        match self {
            Value::Bin(b) => Ok(slice_to_vec(b.as_slice())),
            Value::Str(s) => Ok(s.as_str().as_bytes_vec()),
            _ => Err(Error::Sql(SqlError(SqlCode::InvalidTypeCast))),
        }
    }

    /// Returns a byte slice pointing at the contents of a byte-string
    /// value, or `InvalidTypeCast` for any other tag.
    pub fn as_bytes(&self) -> (r: Result<&[u8], Error>)
        ensures
            (self@ matches ValShape::Bin(b) ==> r matches Ok(out) && out@ == b),
            !(self@ is Bin) ==> (r matches Err(e) && e == Error::Sql(
                SqlError(SqlCode::InvalidTypeCast),
            )),
    {
        match self {
            Value::Bin(b) => Ok(b.as_slice()),
            _ => Err(Error::Sql(SqlError(SqlCode::InvalidTypeCast))),
        }
    }

    /// Reinterprets the value as an array view if it has the array tag;
    /// reports `InvalidTypeCast` otherwise. This checked downcast is the
    /// only way to reach the array accessors.
    pub fn as_array(&self) -> (r: Result<Array<'_>, Error>)
        ensures
            (self@ matches ValShape::Arr(items) ==> r matches Ok(a) && a.items.deep_view()
                == items),
            !(self@ is Arr) ==> (r matches Err(e) && e == Error::Sql(
                SqlError(SqlCode::InvalidTypeCast),
            )),
    {
        match self {
            Value::Arr(items) => Ok(Array { items }),
            _ => Err(Error::Sql(SqlError(SqlCode::InvalidTypeCast))),
        }
    }
}

/// A borrowed array view over an array-tagged [`Value`], produced by the
/// checked downcast [`Value::as_array`].
pub struct Array<'a> {
    /// The elements of the underlying array value.
    pub items: &'a Vec<Elem>,
}

impl<'a> Array<'a> {
    /// Returns the element type of the array: the tag of its first
    /// element, or `Null` for an empty array.
    pub fn elem_type(&self) -> (r: Type)
        ensures
            self.items@.len() == 0 ==> r == Type::Null,
            self.items@.len() > 0 ==> r == elem_type_spec(self.items.deep_view()[0]),
    {
        if self.items.len() == 0 {
            Type::Null
        } else {
            match &self.items[0] {
                Elem::Null => Type::Null,
                Elem::Bool(_) => Type::Bool,
                Elem::Int(_) => Type::Int8,
                Elem::Real(_) => Type::Real8,
                Elem::Time(_) => Type::Time,
                Elem::Str(_) => Type::String,
                Elem::Bin(_) => Type::Binary,
            }
        }
    }

    /// Returns the number of elements.
    pub fn len(&self) -> (r: usize)
        ensures
            r == self.items@.len(),
    {
        self.items.len()
    }

    /// Returns a copy of the element at `at`, or `IndexOutOfBounds` past
    /// the end.
    pub fn get_at(&self, at: usize) -> (r: Result<Value, Error>)
        ensures
            at < self.items@.len() ==> (r matches Ok(v) && v@ == elem_to_val_spec(
                self.items.deep_view()[at as int],
            )),
            at >= self.items@.len() ==> (r matches Err(e) && e == Error::Sql(
                SqlError(SqlCode::IndexOutOfBounds),
            )),
    {
        if at < self.items.len() {
            Ok(self.items[at].to_value())
        } else {
            Err(Error::Sql(SqlError(SqlCode::IndexOutOfBounds)))
        }
    }
}

/// Copies an array element, preserving its shape.
pub fn copy_elem(e: &Elem) -> (r: Elem)
    ensures
        r@ == e@,
{
    match e {
        Elem::Null => Elem::Null,
        Elem::Bool(b) => Elem::Bool(*b),
        Elem::Int(i) => Elem::Int(*i),
        Elem::Real(bits) => Elem::Real(*bits),
        Elem::Time(t) => Elem::Time(*t),
        Elem::Str(s) => Elem::Str(s.clone()),
        Elem::Bin(b) => Elem::Bin(slice_to_vec(b.as_slice())),
    }
}

/// Copies a value, preserving its shape.
pub fn copy_value(v: &Value) -> (r: Value)
    ensures
        r@ == v@,
{
    match v {
        Value::Null => Value::Null,
        Value::Bool(b) => Value::Bool(*b),
        Value::Int(i) => Value::Int(*i),
        Value::Real(bits) => Value::Real(*bits),
        Value::Time(t) => Value::Time(*t),
        Value::Numeric { scaled, prec } => Value::Numeric { scaled: *scaled, prec: *prec },
        Value::Str(s) => Value::Str(s.clone()),
        Value::Bin(b) => Value::Bin(slice_to_vec(b.as_slice())),
        Value::Arr(items) => {
            let mut out: Vec<Elem> = Vec::new();
            let mut i: usize = 0;
            while i < items.len()
                invariant
                    i <= items@.len(),
                    out@.len() == i,
                    forall|j: int| 0 <= j < i ==> out@[j]@ == items@[j]@,
                decreases items@.len() - i,
            {
                out.push(copy_elem(&items[i]));
                i = i + 1;
            }
            proof {
                assert(out.deep_view() =~= items.deep_view());
            }
            Value::Arr(out)
        },
    }
}

/// Copies a row of values, preserving the shapes.
pub fn copy_row(vals: &Vec<Value>) -> (r: Vec<Value>)
    ensures
        r.deep_view() == vals.deep_view(),
        r@.len() == vals@.len(),
{
    let mut out: Vec<Value> = Vec::new();
    let mut i: usize = 0;
    while i < vals.len()
        invariant
            i <= vals@.len(),
            out@.len() == i,
            forall|j: int| 0 <= j < i ==> out@[j]@ == vals@[j]@,
        decreases vals@.len() - i,
    {
        out.push(copy_value(&vals[i]));
        i = i + 1;
    }
    proof {
        assert(out.deep_view() =~= vals.deep_view());
    }
    out
}

/// A byte-string wrapper whose sole purpose is passing binary parameters
/// (slices of `u8` are array parameters, not binary ones).
pub struct Binary<'a> {
    /// The wrapped bytes.
    pub bytes: &'a [u8],
}

impl<'a> Binary<'a> {
    /// Wraps a byte slice.
    pub fn new(bytes: &'a [u8]) -> (r: Self)
        ensures
            r.bytes@ == bytes@,
    {
        Binary { bytes }
    }

    /// Copies the wrapped bytes into a byte-string value.
    pub fn to_value(&self) -> (r: Value)
        ensures
            r@ == ValShape::Bin(self.bytes@),
    {
        Value::Bin(slice_to_vec(self.bytes))
    }
}

/// The canonical decimal representation is a digit run.
proof fn lemma_dec_rep_digits(n: nat)
    ensures
        is_digits(dec_rep(n)),
    decreases n,
{
    if n >= 10 {
        lemma_dec_rep_digits(n / 10);
    }
}

/// A digit character carries its digit: reading back the character of a
/// digit below ten yields the digit.
proof fn lemma_digit_char_val(d: nat)
    requires
        d < 10,
    ensures
        char_to_digit(digit_to_char(d)) == d,
        '0' <= digit_to_char(d) <= '9',
{
    let b = (d + 48) as u8;
    assert(b as nat == d + 48);
    assert((b as char) as nat == b as nat);
}

/// Formatting and reading back a digit run is the identity.
proof fn lemma_dec_val_rep(n: nat)
    ensures
        dec_val(dec_rep(n)) == n,
    decreases n,
{
    assert(dec_rep(n).len() > 0);
    assert(dec_val(dec_rep(n)) == 10 * dec_val(dec_rep(n).drop_last()) + char_to_digit(
        dec_rep(n).last(),
    ));
    if n < 10 {
        lemma_digit_char_val(n);
        assert(dec_rep(n).last() == digit_to_char(n));
        assert(dec_rep(n).drop_last() =~= Seq::<char>::empty());
        assert(dec_val(Seq::<char>::empty()) == 0);
    } else {
        lemma_dec_val_rep(n / 10);
        lemma_digit_char_val(n % 10);
        assert(dec_rep(n).last() == digit_to_char(n % 10));
        assert(dec_rep(n).drop_last() =~= dec_rep(n / 10));
        assert(dec_val(dec_rep(n)) == 10 * dec_val(dec_rep(n / 10)) + char_to_digit(
            digit_to_char(n % 10),
        ));
    }
}

/// Round trip for integers: building a value from any `i64` and casting it
/// back with the matching conversion reproduces the integer exactly.
pub proof fn lemma_round_trip_int(i: i64)
    ensures
        to_i64_spec(ValShape::Int(i)) == Some(i),
{
}

/// Round trip for booleans: building a value from any `bool` and reading it
/// back through the boolean test reproduces the boolean exactly; the
/// integer cast renders it as zero or one.
pub proof fn lemma_round_trip_bool(b: bool)
    ensures
        (ValShape::Bool(b) == ValShape::Bool(true) || (ValShape::Bool(b) matches ValShape::Int(i)
            && i != 0)) == b,
        to_i64_spec(ValShape::Bool(b)) == Some(if b { 1i64 } else { 0i64 }),
{
}

/// Round trip for strings: building a value from any text and rendering it
/// back reproduces the text exactly.
pub proof fn lemma_round_trip_string(s: Seq<char>)
    ensures
        to_text_spec(ValShape::Str(s)) == Some(s),
{
}

/// Round trip for floating point bit patterns: building a value from any
/// 64-bit pattern and reading the bits back reproduces them exactly, so a
/// float survives the trip to full representable precision.
pub proof fn lemma_round_trip_real_bits(bits: u64)
    ensures
        (ValShape::Real(bits) matches ValShape::Real(out) && out == bits),
{
}

/// Round trip for fixed-width numerics: for every scale up to 19 and every
/// representable scaled value, building a value from a numeric and casting
/// it back reproduces the numeric exactly.
pub proof fn lemma_round_trip_numeric(n: Numeric)
    requires
        n.wf(),
    ensures
        (ValShape::Numeric { scaled: n.val_scaled, prec: n.prec } matches ValShape::Numeric {
            scaled,
            prec,
        } && Numeric { val_scaled: scaled, prec } == n),
{
}

/// Formatting any `i64` and reading the text back yields the value: the
/// locale-independent text round trip is exact for integers.
pub proof fn lemma_int_text_round_trip(i: i64)
    ensures
        parse_i64_spec(int_rep(i as int)) == Some(i),
{
    if i >= 0 {
        let s = dec_rep(i as nat);
        lemma_dec_rep_digits(i as nat);
        lemma_dec_val_rep(i as nat);
        assert(s[0] != '-');
        assert(parse_i64_spec(s) == Some(i));
    } else {
        let m = (-(i as int)) as nat;
        let s = int_rep(i as int);
        lemma_dec_rep_digits(m);
        lemma_dec_val_rep(m);
        assert(s[0] == '-');
        assert(s.subrange(1, s.len() as int) =~= dec_rep(m));
        assert(dec_val(dec_rep(m)) <= 0x8000_0000_0000_0000);
        assert(parse_i64_spec(s) == Some(i));
    }
}


/// The engine tick count of the moment `secs` seconds plus `nanos`
/// nanoseconds after the epoch, at `prec` ticks per second: the moment
/// is expressed in the coarsest unit the resolution can still tell apart
/// and scaled to ticks, band by band.
pub open spec fn scaled_ticks(secs: nat, nanos: nat, prec: nat) -> nat {
    if prec >= 1_000_000_000 {
        (secs * 1_000_000_000 + nanos) * (prec / 1_000_000_000)
    } else if prec >= 1_000_000 {
        (secs * 1_000_000 + nanos / 1_000) * (prec / 1_000_000)
    } else if prec >= 1_000 {
        (secs * 1_000 + nanos / 1_000_000) * (prec / 1_000)
    } else {
        secs * prec
    }
}

/// The whole seconds since the epoch of a tick count at `prec` ticks per
/// second.
pub open spec fn epoch_seconds(ticks: nat, prec: nat) -> nat {
    ticks / prec
}

/// The sub-second part of a tick count, in nanoseconds (truncated to the
/// resolution the tick rate can express).
pub open spec fn epoch_subsec_nanos(ticks: nat, prec: nat) -> nat {
    if prec >= 1_000_000_000 {
        (ticks % prec) / (prec / 1_000_000_000nat)
    } else {
        (ticks % prec) * (1_000_000_000nat / prec)
    }
}

/// Scales a moment after the epoch to engine ticks at `prec` ticks per
/// second. Fails with `InvalidTypeCast` exactly when the tick count does
/// not fit 64 bits. Callers hand in the moment as plain seconds and
/// nanoseconds; what supplies the wall clock lives outside the engine.
pub fn ticks_from_epoch(secs: u64, nanos: u32, prec: u32) -> (r: Result<u64, Error>)
    requires
        prec >= 1,
        nanos < 1_000_000_000,
    ensures
        (r matches Ok(t) ==> t == scaled_ticks(secs as nat, nanos as nat, prec as nat)),
        (r is Err <==> scaled_ticks(secs as nat, nanos as nat, prec as nat) > u64::MAX),
        (r is Err ==> r == Err::<u64, Error>(Error::Sql(SqlError(SqlCode::InvalidTypeCast)))),
{
    let (unit, sub): (u64, u64) = if prec >= 1_000_000_000 {
        (1_000_000_000, nanos as u64)
    } else if prec >= 1_000_000 {
        (1_000_000, (nanos / 1_000) as u64)
    } else if prec >= 1_000 {
        (1_000, (nanos / 1_000_000) as u64)
    } else {
        (1, 0)
    };
    let mult: u64 = (prec as u64) / unit;
    proof {
        assert(mult >= 1) by (nonlinear_arith)
            requires
                prec >= 1,
                unit >= 1,
                prec as u64 >= unit,
                mult == (prec as u64) / unit,
        ;
        assert(sub < unit || unit == 1) by {
            if unit == 1_000_000_000 {
            } else if unit == 1_000_000 {
                assert((nanos / 1_000) < 1_000_000);
            } else if unit == 1_000 {
                assert((nanos / 1_000_000) < 1_000);
            }
        }
    }
    // First stage: the moment in the band's unit. Its mathematical value
    // is secs * unit + sub; an overflowing stage already exceeds the tick
    // range, because the multiplier is at least one.
    if secs > (u64::MAX - sub) / unit {
        proof {
            lemma_mul_div_bound(secs as nat, (u64::MAX - sub) as nat, unit as nat);
            assert((secs as nat) * (unit as nat) + (sub as nat) > u64::MAX);
            lemma_scaled_ge_base(
                (secs as nat) * (unit as nat) + (sub as nat),
                mult as nat,
            );
            lemma_scaled_form(
                secs as nat,
                nanos as nat,
                prec as nat,
                unit as nat,
                sub as nat,
                mult as nat,
            );
        }
        return Err(Error::Sql(SqlError(SqlCode::InvalidTypeCast)));
    }
    proof {
        lemma_mul_div_bound_le(secs as nat, (u64::MAX - sub) as nat, unit as nat);
    }
    let base: u64 = secs * unit + sub;
    // Second stage: scale to ticks.
    if base > u64::MAX / mult {
        proof {
            lemma_mul_div_bound(base as nat, u64::MAX as nat, mult as nat);
            lemma_scaled_form(
                secs as nat,
                nanos as nat,
                prec as nat,
                unit as nat,
                sub as nat,
                mult as nat,
            );
        }
        return Err(Error::Sql(SqlError(SqlCode::InvalidTypeCast)));
    }
    proof {
        lemma_mul_div_bound_le(base as nat, u64::MAX as nat, mult as nat);
        lemma_scaled_form(
            secs as nat,
            nanos as nat,
            prec as nat,
            unit as nat,
            sub as nat,
            mult as nat,
        );
    }
    Ok(base * mult)
}

/// Exceeding the quotient means the product exceeds the bound.
proof fn lemma_mul_div_bound(a: nat, m: nat, k: nat)
    requires
        k >= 1,
        a > m / k,
    ensures
        a * k > m,
{
    vstd::arithmetic::div_mod::lemma_fundamental_div_mod(m as int, k as int);
    vstd::arithmetic::div_mod::lemma_mod_bound(m as int, k as int);
    assert(a * k > m) by (nonlinear_arith)
        requires
            k >= 1,
            a >= m / k + 1,
            m == k * ((m as int) / (k as int)) + (m as int) % (k as int),
            0 <= (m as int) % (k as int),
            (m as int) % (k as int) < k,
    ;
}

/// Staying at or below the quotient keeps the product within the bound.
proof fn lemma_mul_div_bound_le(a: nat, m: nat, k: nat)
    requires
        k >= 1,
        a <= m / k,
    ensures
        a * k <= m,
{
    vstd::arithmetic::div_mod::lemma_fundamental_div_mod(m as int, k as int);
    vstd::arithmetic::div_mod::lemma_mod_bound(m as int, k as int);
    assert(a * k <= m) by (nonlinear_arith)
        requires
            k >= 1,
            a <= m / k,
            m == k * ((m as int) / (k as int)) + (m as int) % (k as int),
            0 <= (m as int) % (k as int),
            (m as int) % (k as int) < k,
    ;
}

/// The banded scaling law written with the band's unit, sub-second part
/// and multiplier spelled out.
proof fn lemma_scaled_form(secs: nat, nanos: nat, prec: nat, unit: nat, sub: nat, mult: nat)
    requires
        prec >= 1,
        nanos < 1_000_000_000,
        (prec >= 1_000_000_000 ==> unit == 1_000_000_000 && sub == nanos),
        (prec < 1_000_000_000 && prec >= 1_000_000 ==> unit == 1_000_000 && sub == nanos
            / 1_000),
        (prec < 1_000_000 && prec >= 1_000 ==> unit == 1_000 && sub == nanos / 1_000_000),
        (prec < 1_000 ==> unit == 1 && sub == 0),
        mult == prec / unit,
    ensures
        scaled_ticks(secs, nanos, prec) == (secs * unit + sub) * mult,
{
    if prec < 1_000 {
        assert(secs * 1 + 0 == secs);
        assert(prec / 1 == prec);
    }
}

/// A scaled value is at least its base when the multiplier is at least
/// one.
proof fn lemma_scaled_ge_base(base: nat, mult: nat)
    requires
        mult >= 1,
    ensures
        base * mult >= base,
{
    assert(base * mult >= base) by (nonlinear_arith)
        requires
            mult >= 1,
    ;
}

/// Splits a tick count at `prec` ticks per second back into whole
/// seconds since the epoch and the sub-second part in nanoseconds
/// (truncated to the resolution the tick rate can express).
pub fn epoch_from_ticks(ticks: u64, prec: u32) -> (r: (u64, u32))
    requires
        prec >= 1,
    ensures
        r.0 == epoch_seconds(ticks as nat, prec as nat),
        r.1 == epoch_subsec_nanos(ticks as nat, prec as nat),
{
    let secs = ticks / (prec as u64);
    let rem = ticks % (prec as u64);
    proof {
        assert(rem < prec);
    }
    if prec >= 1_000_000_000 {
        let per_nano = (prec / 1_000_000_000) as u64;
        proof {
            assert(per_nano >= 1);
            assert(rem / per_nano <= rem);
        }
        let nanos = rem / per_nano;
        (secs, nanos as u32)
    } else {
        let per_tick = (1_000_000_000 / prec) as u64;
        proof {
            vstd::arithmetic::div_mod::lemma_fundamental_div_mod(
                1_000_000_000int,
                prec as int,
            );
            vstd::arithmetic::div_mod::lemma_mod_bound(1_000_000_000int, prec as int);
            assert(rem * per_tick < 1_000_000_000) by (nonlinear_arith)
                requires
                    prec >= 1,
                    rem < prec,
                    per_tick == 1_000_000_000 as u64 / (prec as u64),
                    1_000_000_000int == (prec as int) * (1_000_000_000int / (prec as int))
                        + 1_000_000_000int % (prec as int),
                    0 <= 1_000_000_000int % (prec as int),
            ;
        }
        let nanos = rem * per_tick;
        (secs, nanos as u32)
    }
}

} // verus!
