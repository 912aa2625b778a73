//! The tagged shapes the encoder dispatches on, and the specification of
//! their RESP encodings.
//!
//! Each variant corresponds to one callback site of a value traversal:
//! the encoder never infers a shape from content. Shapes with no RESP
//! mapping in this subset are carried so that encoding them can be
//! rejected by name.

use vstd::prelude::*;

use crate::wire::{array_header, bool_chars, bulk, null_bulk};
use crate::digits::dec_int;

verus! {

/// A structured value to encode.
#[derive(Debug)]
pub enum Value {
    Bool(bool),
    I8(i8),
    I16(i16),
    I32(i32),
    I64(i64),
    U8(u8),
    U16(u16),
    U32(u32),
    U64(u64),
    Char(char),
    Str(String),
    /// A raw byte array: carried, but unsupported by this protocol subset.
    Bytes(Vec<u8>),
    /// An optional: absent encodes as the null bulk string, present
    /// encodes transparently as its inner value.
    Optional(Option<Box<Value>>),
    Unit,
    /// A sequence with its length declared by the collection itself.
    List(Vec<Value>),
    Tuple(Vec<Value>),
    /// A tuple struct: its name is ignored, its fields encode as an array.
    TupleStruct(String, Vec<Value>),
    UnitStruct(String),
    UnitVariant(String, u32, String),
    NewtypeStruct(String, Box<Value>),
    NewtypeVariant(String, u32, String, Box<Value>),
    TupleVariant(String, u32, String, Vec<Value>),
    Mapping(Vec<(Value, Value)>),
    Struct(String, Vec<(String, Value)>),
    StructVariant(String, u32, String, Vec<(String, Value)>),
}

/// The mathematical value of an integer-shaped `Value`, whatever its width
/// or signedness, and nothing for every other shape.
pub open spec fn int_value(v: Value) -> Option<int> {
    match v {
        Value::I8(x) => Some(x as int),
        Value::I16(x) => Some(x as int),
        Value::I32(x) => Some(x as int),
        Value::I64(x) => Some(x as int),
        Value::U8(x) => Some(x as int),
        Value::U16(x) => Some(x as int),
        Value::U32(x) => Some(x as int),
        Value::U64(x) => Some(x as int),
        _ => None,
    }
}

/// The RESP encoding of a value: the wire text on success, or the name of
/// the unsupported operation on failure. Encoding is fail-fast, so a
/// composite reports the first failing element in traversal order.
pub open spec fn enc(v: Value) -> Result<Seq<char>, Seq<char>>
    decreases v,
{
    match v {
        Value::Bool(b) => Ok(bulk(bool_chars(b))),
        Value::I8(x) => Ok(bulk(dec_int(x as int))),
        Value::I16(x) => Ok(bulk(dec_int(x as int))),
        Value::I32(x) => Ok(bulk(dec_int(x as int))),
        Value::I64(x) => Ok(bulk(dec_int(x as int))),
        Value::U8(x) => Ok(bulk(dec_int(x as int))),
        Value::U16(x) => Ok(bulk(dec_int(x as int))),
        Value::U32(x) => Ok(bulk(dec_int(x as int))),
        Value::U64(x) => Ok(bulk(dec_int(x as int))),
        Value::Char(c) => Ok(bulk(seq![c])),
        Value::Str(s) => Ok(bulk(s@)),
        Value::Bytes(_) => Err("serialize_bytes"@),
        Value::Optional(opt) => match opt {
            Option::None => Ok(null_bulk()),
            Option::Some(inner) => enc(*inner),
        },
        Value::Unit => Ok(null_bulk()),
        Value::List(vs) => match enc_list(vs@) {
            Ok(body) => Ok(array_header(vs@.len()) + body),
            Err(op) => Err(op),
        },
        Value::Tuple(vs) => match enc_list(vs@) {
            Ok(body) => Ok(array_header(vs@.len()) + body),
            Err(op) => Err(op),
        },
        Value::TupleStruct(_, vs) => match enc_list(vs@) {
            Ok(body) => Ok(array_header(vs@.len()) + body),
            Err(op) => Err(op),
        },
        Value::UnitStruct(_) => Err("serialize_unit_struct"@),
        Value::UnitVariant(_, _, _) => Err("serialize_unit_variant"@),
        Value::NewtypeStruct(_, _) => Err("serialize_newtype_struct"@),
        Value::NewtypeVariant(_, _, _, _) => Err("serialize_newtype_variant"@),
        Value::TupleVariant(_, _, _, _) => Err("serialize_tuple_variant"@),
        Value::Mapping(_) => Err("serialize_map"@),
        Value::Struct(_, _) => Err("serialize_struct"@),
        Value::StructVariant(_, _, _, _) => Err("serialize_struct_variant"@),
    }
}

/// The concatenation of the encodings of a run of elements, in order,
/// stopping at the first failure.
pub open spec fn enc_list(vs: Seq<Value>) -> Result<Seq<char>, Seq<char>>
    decreases vs,
{
    if vs.len() == 0 {
        Ok(Seq::empty())
    } else {
        match enc(vs[0]) {
            Err(op) => Err(op),
            Ok(head) => match enc_list(vs.drop_first()) {
                Err(op) => Err(op),
                Ok(tail) => Ok(head + tail),
            },
        }
    }
}

/// Splits a run of elements at position `i`: when the first `i` elements
/// encode successfully, the whole run encodes as that prefix followed by
/// whatever the remainder yields.
pub proof fn lemma_enc_list_split(s: Seq<Value>, i: int)
    requires
        0 <= i <= s.len(),
        enc_list(s.take(i)) is Ok,
    ensures
        enc_list(s) == match enc_list(s.skip(i)) {
            Ok(q) => Ok::<Seq<char>, Seq<char>>(enc_list(s.take(i))->Ok_0 + q),
            Err(op) => Err::<Seq<char>, Seq<char>>(op),
        },
    decreases i,
{
    if i == 0 {
        assert(s.take(0) =~= Seq::<Value>::empty());
        assert(s.skip(0) =~= s);
        match enc_list(s) {
            Ok(q) => {
                assert(enc_list(s.take(0))->Ok_0 + q =~= q);
            },
            Err(_) => {},
        }
    } else {
        let t = s.drop_first();
        assert(s.take(i)[0] == s[0]);
        assert(s.take(i).drop_first() =~= t.take(i - 1));
        let head = enc(s[0])->Ok_0;
        lemma_enc_list_split(t, i - 1);
        assert(t.skip(i - 1) =~= s.skip(i));
        let prefix = enc_list(t.take(i - 1))->Ok_0;
        assert(enc_list(s.take(i))->Ok_0 == head + prefix);
        match enc_list(s.skip(i)) {
            Ok(q) => {
                assert(enc_list(t) == Ok::<Seq<char>, Seq<char>>(prefix + q));
                assert(head + (prefix + q) =~= (head + prefix) + q);
            },
            Err(_) => {},
        }
    }
}

/// Extends a successfully encoded prefix by one more successful element.
pub proof fn lemma_enc_list_take_succ(s: Seq<Value>, i: int)
    requires
        0 <= i < s.len(),
        enc_list(s.take(i)) is Ok,
        enc(s[i]) is Ok,
    ensures
        enc_list(s.take(i + 1)) == Ok::<Seq<char>, Seq<char>>(
            enc_list(s.take(i))->Ok_0 + enc(s[i])->Ok_0,
        ),
{
    let w = s.take(i + 1);
    assert(w.take(i) =~= s.take(i));
    lemma_enc_list_split(w, i);
    let tail = w.skip(i);
    assert(tail =~= seq![s[i]]);
    assert(tail[0] == s[i]);
    assert(tail.drop_first() =~= Seq::<Value>::empty());
    assert(enc_list(tail.drop_first()) == Ok::<Seq<char>, Seq<char>>(Seq::<char>::empty()));
    assert(enc_list(tail) == Ok::<Seq<char>, Seq<char>>(enc(s[i])->Ok_0 + Seq::<char>::empty()));
    assert(enc(s[i])->Ok_0 + Seq::<char>::empty() =~= enc(s[i])->Ok_0);
}

/// When the first `i` elements encode successfully and element `i` fails,
/// the whole run fails with that element's error: encoding is fail-fast
/// in traversal order.
pub proof fn lemma_enc_list_err_at(s: Seq<Value>, i: int)
    requires
        0 <= i < s.len(),
        enc_list(s.take(i)) is Ok,
        enc(s[i]) is Err,
    ensures
        enc_list(s) == Err::<Seq<char>, Seq<char>>(enc(s[i])->Err_0),
{
    lemma_enc_list_split(s, i);
    let tail = s.skip(i);
    assert(tail[0] == s[i]);
}

} // verus!
