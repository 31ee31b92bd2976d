use vstd::bytes::{
    lemma_auto_spec_u32_to_from_le_bytes, lemma_auto_spec_u64_to_from_le_bytes,
    spec_u32_from_le_bytes, spec_u32_to_le_bytes, spec_u64_from_le_bytes, spec_u64_to_le_bytes,
    u32_from_le_bytes, u32_to_le_bytes, u64_from_le_bytes, u64_to_le_bytes,
};
use vstd::prelude::*;
use vstd::slice::slice_to_vec;
use vstd::utf8::{decode_utf8, encode_utf8, encode_utf8_decode_utf8, encode_utf8_valid_utf8, valid_utf8};

use crate::error::Error;
use crate::trusted::string_from_utf8;

verus! {

/// The primitive logical types whose values can stand in partition tuples and
/// in column bounds.
#[derive(Debug, Clone, Copy, PartialEq, Eq, Structural)]
pub enum PrimitiveKind {
    /// True or false.
    Boolean,
    /// 32-bit signed integer.
    Int,
    /// 64-bit signed integer.
    Long,
    /// Days since the Unix epoch.
    Date,
    /// Microseconds since midnight.
    Time,
    /// Microseconds since the Unix epoch, without a zone.
    Timestamp,
    /// Microseconds since the Unix epoch, in UTC.
    TimestampTz,
    /// A character string.
    Text,
    /// A variable-length byte string.
    Bytes,
    /// A fixed-length byte string.
    Fixed,
}

/// A primitive logical value.
#[derive(Debug, Clone, PartialEq)]
pub enum Value {
    /// True or false.
    Boolean(bool),
    /// 32-bit signed integer.
    Int(i32),
    /// 64-bit signed integer.
    Long(i64),
    /// Days since the Unix epoch.
    Date(i32),
    /// Microseconds since midnight.
    Time(i64),
    /// Microseconds since the Unix epoch, without a zone.
    Timestamp(i64),
    /// Microseconds since the Unix epoch, in UTC.
    TimestampTz(i64),
    /// A character string.
    Text(String),
    /// A variable-length byte string.
    Bytes(Vec<u8>),
    /// A fixed-length byte string.
    Fixed(Vec<u8>),
}

/// The mathematical model of a [`Value`]: strings and byte strings are plain
/// sequences.
pub enum ValueModel {
    /// Model of [`Value::Boolean`].
    Boolean(bool),
    /// Model of [`Value::Int`].
    Int(i32),
    /// Model of [`Value::Long`].
    Long(i64),
    /// Model of [`Value::Date`].
    Date(i32),
    /// Model of [`Value::Time`].
    Time(i64),
    /// Model of [`Value::Timestamp`].
    Timestamp(i64),
    /// Model of [`Value::TimestampTz`].
    TimestampTz(i64),
    /// Model of [`Value::Text`].
    Text(Seq<char>),
    /// Model of [`Value::Bytes`].
    Bytes(Seq<u8>),
    /// Model of [`Value::Fixed`].
    Fixed(Seq<u8>),
}

impl DeepView for Value {
    type V = ValueModel;

    open spec fn deep_view(&self) -> ValueModel {
        match self {
            Value::Boolean(b) => ValueModel::Boolean(*b),
            Value::Int(x) => ValueModel::Int(*x),
            Value::Long(x) => ValueModel::Long(*x),
            Value::Date(x) => ValueModel::Date(*x),
            Value::Time(x) => ValueModel::Time(*x),
            Value::Timestamp(x) => ValueModel::Timestamp(*x),
            Value::TimestampTz(x) => ValueModel::TimestampTz(*x),
            Value::Text(s) => ValueModel::Text(s@),
            Value::Bytes(b) => ValueModel::Bytes(b@),
            Value::Fixed(b) => ValueModel::Fixed(b@),
        }
    }
}

/// The kind of a value model.
pub open spec fn kind_of(v: ValueModel) -> PrimitiveKind {
    match v {
        ValueModel::Boolean(_) => PrimitiveKind::Boolean,
        ValueModel::Int(_) => PrimitiveKind::Int,
        ValueModel::Long(_) => PrimitiveKind::Long,
        ValueModel::Date(_) => PrimitiveKind::Date,
        ValueModel::Time(_) => PrimitiveKind::Time,
        ValueModel::Timestamp(_) => PrimitiveKind::Timestamp,
        ValueModel::TimestampTz(_) => PrimitiveKind::TimestampTz,
        ValueModel::Text(_) => PrimitiveKind::Text,
        ValueModel::Bytes(_) => PrimitiveKind::Bytes,
        ValueModel::Fixed(_) => PrimitiveKind::Fixed,
    }
}

/// The two's-complement image of a 32-bit signed integer.
pub open spec fn u32_of_i32(x: i32) -> u32 {
    if x >= 0 {
        x as u32
    } else {
        (x + 0x1_0000_0000) as u32
    }
}

/// The 32-bit signed integer with the given two's-complement image.
pub open spec fn i32_of_u32(u: u32) -> i32 {
    if u < 0x8000_0000 {
        u as i32
    } else {
        (u - 0x1_0000_0000) as i32
    }
}

/// The two's-complement image of a 64-bit signed integer.
pub open spec fn u64_of_i64(x: i64) -> u64 {
    if x >= 0 {
        x as u64
    } else {
        (x + 0x1_0000_0000_0000_0000) as u64
    }
}

/// The 64-bit signed integer with the given two's-complement image.
pub open spec fn i64_of_u64(u: u64) -> i64 {
    if u < 0x8000_0000_0000_0000 {
        u as i64
    } else {
        (u - 0x1_0000_0000_0000_0000) as i64
    }
}

/// The canonical binary form of a primitive value, as used in the lower and
/// upper bound maps: one byte for booleans, little-endian two's complement
/// for the integer kinds, UTF-8 for strings, and the bytes themselves for
/// byte strings.
pub open spec fn spec_encode_value(v: ValueModel) -> Seq<u8> {
    match v {
        ValueModel::Boolean(b) => seq![if b { 1u8 } else { 0u8 }],
        ValueModel::Int(x) => spec_u32_to_le_bytes(u32_of_i32(x)),
        ValueModel::Long(x) => spec_u64_to_le_bytes(u64_of_i64(x)),
        ValueModel::Date(x) => spec_u32_to_le_bytes(u32_of_i32(x)),
        ValueModel::Time(x) => spec_u64_to_le_bytes(u64_of_i64(x)),
        ValueModel::Timestamp(x) => spec_u64_to_le_bytes(u64_of_i64(x)),
        ValueModel::TimestampTz(x) => spec_u64_to_le_bytes(u64_of_i64(x)),
        ValueModel::Text(s) => encode_utf8(s),
        ValueModel::Bytes(b) => b,
        ValueModel::Fixed(b) => b,
    }
}

/// The value of the given kind that the bytes are the canonical form of, or
/// nothing when no value of that kind has this form.
pub open spec fn spec_decode_value(b: Seq<u8>, k: PrimitiveKind) -> Option<ValueModel> {
    match k {
        PrimitiveKind::Boolean => if b.len() == 1 && (b[0] == 0u8 || b[0] == 1u8) {
            Some(ValueModel::Boolean(b[0] == 1u8))
        } else {
            None
        },
        PrimitiveKind::Int => if b.len() == 4 {
            Some(ValueModel::Int(i32_of_u32(spec_u32_from_le_bytes(b))))
        } else {
            None
        },
        PrimitiveKind::Long => if b.len() == 8 {
            Some(ValueModel::Long(i64_of_u64(spec_u64_from_le_bytes(b))))
        } else {
            None
        },
        PrimitiveKind::Date => if b.len() == 4 {
            Some(ValueModel::Date(i32_of_u32(spec_u32_from_le_bytes(b))))
        } else {
            None
        },
        PrimitiveKind::Time => if b.len() == 8 {
            Some(ValueModel::Time(i64_of_u64(spec_u64_from_le_bytes(b))))
        } else {
            None
        },
        PrimitiveKind::Timestamp => if b.len() == 8 {
            Some(ValueModel::Timestamp(i64_of_u64(spec_u64_from_le_bytes(b))))
        } else {
            None
        },
        PrimitiveKind::TimestampTz => if b.len() == 8 {
            Some(ValueModel::TimestampTz(i64_of_u64(spec_u64_from_le_bytes(b))))
        } else {
            None
        },
        PrimitiveKind::Text => if valid_utf8(b) {
            Some(ValueModel::Text(decode_utf8(b)))
        } else {
            None
        },
        PrimitiveKind::Bytes => Some(ValueModel::Bytes(b)),
        PrimitiveKind::Fixed => Some(ValueModel::Fixed(b)),
    }
}

impl Value {
    /// The kind of this value.
    pub fn kind(&self) -> (r: PrimitiveKind)
        ensures
            r == kind_of(self.deep_view()),
    {
        match self {
            Value::Boolean(_) => PrimitiveKind::Boolean,
            Value::Int(_) => PrimitiveKind::Int,
            Value::Long(_) => PrimitiveKind::Long,
            Value::Date(_) => PrimitiveKind::Date,
            Value::Time(_) => PrimitiveKind::Time,
            Value::Timestamp(_) => PrimitiveKind::Timestamp,
            Value::TimestampTz(_) => PrimitiveKind::TimestampTz,
            Value::Text(_) => PrimitiveKind::Text,
            Value::Bytes(_) => PrimitiveKind::Bytes,
            Value::Fixed(_) => PrimitiveKind::Fixed,
        }
    }
}

/// Converts a 32-bit signed integer to its two's-complement image.
fn i32_to_u32(x: i32) -> (u: u32)
    ensures
        u == u32_of_i32(x),
{
    if x >= 0 {
        x as u32
    } else {
        ((x as i64) + 0x1_0000_0000i64) as u32
    }
}

/// Converts a two's-complement image back to the 32-bit signed integer.
fn u32_to_i32(u: u32) -> (x: i32)
    ensures
        x == i32_of_u32(u),
{
    if u < 0x8000_0000 {
        u as i32
    } else {
        ((u as i64) - 0x1_0000_0000i64) as i32
    }
}

/// Converts a 64-bit signed integer to its two's-complement image.
fn i64_to_u64(x: i64) -> (u: u64)
    ensures
        u == u64_of_i64(x),
{
    if x >= 0 {
        x as u64
    } else {
        ((x as i128) + 0x1_0000_0000_0000_0000i128) as u64
    }
}

/// Converts a two's-complement image back to the 64-bit signed integer.
fn u64_to_i64(u: u64) -> (x: i64)
    ensures
        x == i64_of_u64(u),
{
    if u < 0x8000_0000_0000_0000 {
        u as i64
    } else {
        ((u as i128) - 0x1_0000_0000_0000_0000i128) as i64
    }
}

/// Serializes a primitive value to its canonical binary form.
pub fn encode_value(v: &Value) -> (r: Vec<u8>)
    ensures
        r@ == spec_encode_value(v.deep_view()),
{
    match v {
        Value::Boolean(b) => {
            let mut out: Vec<u8> = Vec::new();
            out.push(if *b { 1u8 } else { 0u8 });
            assert(out@ =~= spec_encode_value(v.deep_view()));
            out
        },
        Value::Int(x) => u32_to_le_bytes(i32_to_u32(*x)),
        Value::Long(x) => u64_to_le_bytes(i64_to_u64(*x)),
        Value::Date(x) => u32_to_le_bytes(i32_to_u32(*x)),
        Value::Time(x) => u64_to_le_bytes(i64_to_u64(*x)),
        Value::Timestamp(x) => u64_to_le_bytes(i64_to_u64(*x)),
        Value::TimestampTz(x) => u64_to_le_bytes(i64_to_u64(*x)),
        Value::Text(s) => s.as_str().as_bytes_vec(),
        Value::Bytes(b) => slice_to_vec(b.as_slice()),
        Value::Fixed(b) => slice_to_vec(b.as_slice()),
    }
}

/// Deserializes the canonical binary form of a primitive value of the given
/// kind. Fails exactly when the bytes are the canonical form of no value of
/// that kind.
pub fn decode_value(bytes: &[u8], kind: PrimitiveKind) -> (r: Result<Value, Error>)
    ensures
        r matches Ok(v) ==> spec_decode_value(bytes@, kind) == Some(v.deep_view()),
        r is Ok <==> spec_decode_value(bytes@, kind) is Some,
        r matches Err(e) ==> e == Error::InvalidMetadata,
{
    broadcast use encode_utf8_decode_utf8, encode_utf8_valid_utf8;

    match kind {
        PrimitiveKind::Boolean => {
            if bytes.len() == 1 {
                let b = bytes[0];
                if b == 0 || b == 1 {
                    Ok(Value::Boolean(b == 1))
                } else {
                    Err(Error::InvalidMetadata)
                }
            } else {
                Err(Error::InvalidMetadata)
            }
        },
        PrimitiveKind::Int => {
            if bytes.len() == 4 {
                Ok(Value::Int(u32_to_i32(u32_from_le_bytes(bytes))))
            } else {
                Err(Error::InvalidMetadata)
            }
        },
        PrimitiveKind::Long => {
            if bytes.len() == 8 {
                Ok(Value::Long(u64_to_i64(u64_from_le_bytes(bytes))))
            } else {
                Err(Error::InvalidMetadata)
            }
        },
        PrimitiveKind::Date => {
            if bytes.len() == 4 {
                Ok(Value::Date(u32_to_i32(u32_from_le_bytes(bytes))))
            } else {
                Err(Error::InvalidMetadata)
            }
        },
        PrimitiveKind::Time => {
            if bytes.len() == 8 {
                Ok(Value::Time(u64_to_i64(u64_from_le_bytes(bytes))))
            } else {
                Err(Error::InvalidMetadata)
            }
        },
        PrimitiveKind::Timestamp => {
            if bytes.len() == 8 {
                Ok(Value::Timestamp(u64_to_i64(u64_from_le_bytes(bytes))))
            } else {
                Err(Error::InvalidMetadata)
            }
        },
        PrimitiveKind::TimestampTz => {
            if bytes.len() == 8 {
                Ok(Value::TimestampTz(u64_to_i64(u64_from_le_bytes(bytes))))
            } else {
                Err(Error::InvalidMetadata)
            }
        },
        PrimitiveKind::Text => {
            match string_from_utf8(slice_to_vec(bytes)) {
                Ok(s) => {
                    assert(decode_utf8(bytes@) == s@) by {
                        assert(decode_utf8(encode_utf8(s@)) == s@);
                    }
                    assert(valid_utf8(bytes@)) by {
                        assert(valid_utf8(encode_utf8(s@)));
                    }
                    Ok(Value::Text(s))
                },
                Err(e) => Err(e),
            }
        },
        PrimitiveKind::Bytes => Ok(Value::Bytes(slice_to_vec(bytes))),
        PrimitiveKind::Fixed => Ok(Value::Fixed(slice_to_vec(bytes))),
    }
}

/// Decoding the canonical binary form of any primitive value, at the value's
/// own kind, gives back exactly that value.
pub proof fn lemma_value_codec_round_trip(v: ValueModel)
    ensures
        spec_decode_value(spec_encode_value(v), kind_of(v)) == Some(v),
{
    lemma_auto_spec_u32_to_from_le_bytes();
    lemma_auto_spec_u64_to_from_le_bytes();
    broadcast use encode_utf8_decode_utf8, encode_utf8_valid_utf8;

    match v {
        ValueModel::Boolean(b) => {
            let e = spec_encode_value(v);
            assert(e.len() == 1);
            assert(e[0] == if b { 1u8 } else { 0u8 });
        },
        _ => {},
    }
}

/// Lexicographic order on byte strings: the order the canonical binary forms
/// of byte-string bounds are compared in.
pub open spec fn lex_le(a: Seq<u8>, b: Seq<u8>) -> bool
    decreases a.len(),
{
    if a.len() == 0 {
        true
    } else if b.len() == 0 {
        false
    } else if a[0] < b[0] {
        true
    } else if a[0] > b[0] {
        false
    } else {
        lex_le(a.drop_first(), b.drop_first())
    }
}

/// For byte-string values the canonical binary form is the byte string
/// itself, so comparing encoded bounds byte-lexicographically is comparing
/// the values themselves.
pub proof fn lemma_encode_order_bytes(a: Seq<u8>, b: Seq<u8>)
    ensures
        lex_le(spec_encode_value(ValueModel::Bytes(a)), spec_encode_value(ValueModel::Bytes(b)))
            == lex_le(a, b),
        lex_le(spec_encode_value(ValueModel::Fixed(a)), spec_encode_value(ValueModel::Fixed(b)))
            == lex_le(a, b),
{
}

/// For booleans the one-byte canonical form orders false before true, as the
/// values themselves are ordered.
pub proof fn lemma_encode_order_boolean(a: bool, b: bool)
    ensures
        lex_le(
            spec_encode_value(ValueModel::Boolean(a)),
            spec_encode_value(ValueModel::Boolean(b)),
        ) == (a == b || !a),
{
    let ea = spec_encode_value(ValueModel::Boolean(a));
    let eb = spec_encode_value(ValueModel::Boolean(b));
    assert(ea.len() == 1 && eb.len() == 1);
    if ea[0] == eb[0] {
        assert(ea.drop_first().len() == 0);
        assert(lex_le(ea.drop_first(), eb.drop_first()));
        assert(lex_le(ea, eb));
    }
}

/// Structural equality of two values.
pub fn values_equal(a: &Value, b: &Value) -> (r: bool)
    ensures
        r == (a.deep_view() == b.deep_view()),
{
    match (a, b) {
        (Value::Boolean(x), Value::Boolean(y)) => *x == *y,
        (Value::Int(x), Value::Int(y)) => *x == *y,
        (Value::Long(x), Value::Long(y)) => *x == *y,
        (Value::Date(x), Value::Date(y)) => *x == *y,
        (Value::Time(x), Value::Time(y)) => *x == *y,
        (Value::Timestamp(x), Value::Timestamp(y)) => *x == *y,
        (Value::TimestampTz(x), Value::TimestampTz(y)) => *x == *y,
        (Value::Text(x), Value::Text(y)) => x.eq(y),
        (Value::Bytes(x), Value::Bytes(y)) => bytes_equal(x, y),
        (Value::Fixed(x), Value::Fixed(y)) => bytes_equal(x, y),
        _ => false,
    }
}

/// Equality of two byte vectors.
pub fn bytes_equal(a: &Vec<u8>, b: &Vec<u8>) -> (r: bool)
    ensures
        r == (a@ == b@),
{
    if a.len() != b.len() {
        assert(a@ != b@);
        return false;
    }
    let n = a.len();
    let mut i: usize = 0;
    while i < n
        invariant
            n == a@.len() == b@.len(),
            0 <= i <= n,
            forall|j: int| 0 <= j < i ==> a@[j] == b@[j],
        decreases n - i,
    {
        if a[i] != b[i] {
            return false;
        }
        i += 1;
    }
    assert(a@ =~= b@);
    true
}



/// Lexicographic order on character sequences: how string values compare,
/// code unit by code unit.
pub open spec fn lex_le_chars(a: Seq<char>, b: Seq<char>) -> bool
    decreases a.len(),
{
    if a.len() == 0 {
        true
    } else if b.len() == 0 {
        false
    } else if a[0] < b[0] {
        true
    } else if a[0] > b[0] {
        false
    } else {
        lex_le_chars(a.drop_first(), b.drop_first())
    }
}

/// The order on primitive values of one kind: numeric kinds by value,
/// strings lexicographically by code unit, byte strings lexicographically
/// by byte, false before true.
pub open spec fn spec_value_le(a: ValueModel, b: ValueModel) -> bool
    recommends
        kind_of(a) == kind_of(b),
{
    match (a, b) {
        (ValueModel::Boolean(x), ValueModel::Boolean(y)) => x == y || !x,
        (ValueModel::Int(x), ValueModel::Int(y)) => x <= y,
        (ValueModel::Long(x), ValueModel::Long(y)) => x <= y,
        (ValueModel::Date(x), ValueModel::Date(y)) => x <= y,
        (ValueModel::Time(x), ValueModel::Time(y)) => x <= y,
        (ValueModel::Timestamp(x), ValueModel::Timestamp(y)) => x <= y,
        (ValueModel::TimestampTz(x), ValueModel::TimestampTz(y)) => x <= y,
        (ValueModel::Text(x), ValueModel::Text(y)) => lex_le_chars(x, y),
        (ValueModel::Bytes(x), ValueModel::Bytes(y)) => lex_le(x, y),
        (ValueModel::Fixed(x), ValueModel::Fixed(y)) => lex_le(x, y),
        _ => false,
    }
}

/// Comparing two bounds of one kind after decoding their canonical binary
/// forms is comparing the values themselves: the codec loses no ordering.
pub proof fn lemma_codec_preserves_order(a: ValueModel, b: ValueModel)
    requires
        kind_of(a) == kind_of(b),
    ensures
        ({
            let da = spec_decode_value(spec_encode_value(a), kind_of(a));
            let db = spec_decode_value(spec_encode_value(b), kind_of(b));
            da == Some(a) && db == Some(b) && (spec_value_le(a, b) == spec_value_le(
                da.unwrap(),
                db.unwrap(),
            ))
        }),
{
    lemma_value_codec_round_trip(a);
    lemma_value_codec_round_trip(b);
}


/// The UTF-8 encoding of a sequence of ASCII characters is the characters
/// as bytes, one for one.
proof fn lemma_ascii_encoding_pointwise(s: Seq<char>)
    requires
        vstd::utf8::is_ascii_chars(s),
    ensures
        encode_utf8(s) =~= Seq::new(s.len(), |i: int| s[i] as u8),
{
    vstd::utf8::is_ascii_chars_encode_utf8(s);
}

/// For ASCII strings the canonical binary form (UTF-8) orders
/// byte-lexicographically exactly as the strings order by code unit.
pub proof fn lemma_encode_order_ascii_text(a: Seq<char>, b: Seq<char>)
    requires
        vstd::utf8::is_ascii_chars(a),
        vstd::utf8::is_ascii_chars(b),
    ensures
        lex_le(spec_encode_value(ValueModel::Text(a)), spec_encode_value(ValueModel::Text(b)))
            == lex_le_chars(a, b),
    decreases a.len(),
{
    lemma_ascii_encoding_pointwise(a);
    lemma_ascii_encoding_pointwise(b);
    let ea = encode_utf8(a);
    let eb = encode_utf8(b);
    if a.len() == 0 || b.len() == 0 {
    } else {
        assert(ea[0] == a[0] as u8);
        assert(eb[0] == b[0] as u8);
        assert('\0' <= a[0] <= '\u{7f}');
        assert('\0' <= b[0] <= '\u{7f}');
        assert(((a[0] as u8) < (b[0] as u8)) == (a[0] < b[0]));
        assert(((a[0] as u8) > (b[0] as u8)) == (a[0] > b[0]));
        if a[0] == b[0] {
            assert(vstd::utf8::is_ascii_chars(a.drop_first()));
            assert(vstd::utf8::is_ascii_chars(b.drop_first()));
            lemma_encode_order_ascii_text(a.drop_first(), b.drop_first());
            lemma_ascii_encoding_pointwise(a.drop_first());
            lemma_ascii_encoding_pointwise(b.drop_first());
            assert(ea.drop_first() =~= encode_utf8(a.drop_first()));
            assert(eb.drop_first() =~= encode_utf8(b.drop_first()));
        }
    }
}

} // verus!
