//! The RESP encoder: an output accumulator with one method per value
//! shape, each appending the canonical wire text or reporting a typed
//! failure for shapes outside the protocol subset.

use vstd::prelude::*;
use vstd::string::StringExecFns;

use crate::digits::{dec_int, dec_string, dec_string_int};
use crate::error::{Error, ErrorKind};
use crate::value::{enc, enc_list, Value};
use crate::wire::{array_header, bool_chars, bulk, byte_len, lemma_char_byte_len, null_bulk};

verus! {

broadcast use vstd::slice::group_slice_axioms;

/// The UTF-8 byte length of a string, the measure RESP length fields use.
fn byte_length(v: &str) -> (n: usize)
    ensures
        n == byte_len(v@),
{
    let bytes = v.as_bytes();
    bytes.len()
}

/// Relies on `String::push`: appends exactly the given character to the
/// end of the string.
#[verifier::external_body]
fn push_char(s: &mut String, c: char)
    ensures
        final(s)@ == old(s)@ + seq![c],
{
    s.push(c)
}

/// The width in bytes of one character's UTF-8 encoding.
fn char_utf8_len(c: char) -> (n: usize)
    ensures
        n == byte_len(seq![c]),
{
    proof {
        lemma_char_byte_len(c);
    }
    let u: u32 = c as u32;
    if u < 0x80 {
        1
    } else if u < 0x800 {
        2
    } else if u < 0x10000 {
        3
    } else {
        4
    }
}

/// The encoder. It owns the text accumulated so far; every successful
/// callback appends to it, and a failure leaves whatever was already
/// committed (the whole encode call is then discarded by the caller).
pub struct Serializer {
    output: String,
}

impl Serializer {
    /// A fresh encoder with an empty accumulator.
    pub fn new() -> (s: Serializer)
        ensures
            s@ == Seq::<char>::empty(),
    {
        Serializer { output: String::new() }
    }

    /// Consumes the encoder and yields the accumulated wire text.
    pub fn into_string(self) -> (s: String)
        ensures
            s@ == self@,
    {
        self.output
    }

    /// The null bulk string, the encoding of absent and unit values.
    pub fn serialize_null(&self) -> (r: String)
        ensures
            r@ == null_bulk(),
    {
        String::from_str("$-1\r\n")
    }

    /// The bulk-string text of an integer: its decimal form, preceded by
    /// a length field measured on that decimal text.
    pub fn serialize_num_types(&self, v: i128) -> (r: String)
        ensures
            r@ == bulk(dec_int(v as int)),
    {
        let payload = dec_string_int(v);
        let len: usize = byte_length(payload.as_str());
        let digits = dec_string(len as u128);
        let mut r = String::from_str("$");
        r.append(digits.as_str());
        r.append("\r\n");
        r.append(payload.as_str());
        r.append("\r\n");
        proof {
            assert(r@ =~= bulk(dec_int(v as int)));
        }
        r
    }

    /// Appends the bulk-string encoding of a string: `$`, the byte length
    /// of the payload, CR LF, the payload, CR LF.
    pub fn serialize_str(&mut self, v: &str) -> (r: Result<(), Error>)
        ensures
            r is Ok,
            final(self)@ == old(self)@ + bulk(v@),
    {
        let len: usize = byte_length(v);
        let digits = dec_string(len as u128);
        self.output.append("$");
        self.output.append(digits.as_str());
        self.output.append("\r\n");
        self.output.append(v);
        self.output.append("\r\n");
        proof {
            assert(self.output@ =~= old(self)@ + bulk(v@));
        }
        Ok(())
    }

    /// Appends the encoding of a boolean: the bulk string spelling
    /// `true` or `false`.
    pub fn serialize_bool(&mut self, v: bool) -> (r: Result<(), Error>)
        ensures
            r is Ok,
            final(self)@ == old(self)@ + bulk(bool_chars(v)),
    {
        match v {
            true => self.serialize_str("true"),
            false => self.serialize_str("false"),
        }
    }

    /// Appends the bulk-string encoding of a character: the payload is
    /// the character itself and the length field is its UTF-8 byte width.
    pub fn serialize_char(&mut self, v: char) -> (r: Result<(), Error>)
        ensures
            r is Ok,
            final(self)@ == old(self)@ + bulk(seq![v]),
    {
        let width: usize = char_utf8_len(v);
        let digits = dec_string(width as u128);
        self.output.append("$");
        self.output.append(digits.as_str());
        self.output.append("\r\n");
        push_char(&mut self.output, v);
        self.output.append("\r\n");
        proof {
            assert(self.output@ =~= old(self)@ + bulk(seq![v]));
        }
        Ok(())
    }

    /// Appends the null bulk string for an absent optional.
    pub fn serialize_none(&mut self) -> (r: Result<(), Error>)
        ensures
            r is Ok,
            final(self)@ == old(self)@ + null_bulk(),
    {
        let null = self.serialize_null();
        self.output.append(null.as_str());
        Ok(())
    }

    /// Appends the null bulk string for the unit value.
    pub fn serialize_unit(&mut self) -> (r: Result<(), Error>)
        ensures
            r is Ok,
            final(self)@ == old(self)@ + null_bulk(),
    {
        let null = self.serialize_null();
        self.output.append(null.as_str());
        Ok(())
    }

    /// Appends the bulk-string encoding of a signed integer.
    pub fn serialize_i8(&mut self, v: i8) -> (r: Result<(), Error>)
        ensures
            r is Ok,
            final(self)@ == old(self)@ + bulk(dec_int(v as int)),
    {
        let text = self.serialize_num_types(v as i128);
        self.output.append(text.as_str());
        Ok(())
    }

    /// Appends the bulk-string encoding of a signed integer.
    pub fn serialize_i16(&mut self, v: i16) -> (r: Result<(), Error>)
        ensures
            r is Ok,
            final(self)@ == old(self)@ + bulk(dec_int(v as int)),
    {
        let text = self.serialize_num_types(v as i128);
        self.output.append(text.as_str());
        Ok(())
    }

    /// Appends the bulk-string encoding of a signed integer.
    pub fn serialize_i32(&mut self, v: i32) -> (r: Result<(), Error>)
        ensures
            r is Ok,
            final(self)@ == old(self)@ + bulk(dec_int(v as int)),
    {
        let text = self.serialize_num_types(v as i128);
        self.output.append(text.as_str());
        Ok(())
    }

    /// Appends the bulk-string encoding of a signed integer.
    pub fn serialize_i64(&mut self, v: i64) -> (r: Result<(), Error>)
        ensures
            r is Ok,
            final(self)@ == old(self)@ + bulk(dec_int(v as int)),
    {
        let text = self.serialize_num_types(v as i128);
        self.output.append(text.as_str());
        Ok(())
    }

    /// Appends the bulk-string encoding of an unsigned integer.
    pub fn serialize_u8(&mut self, v: u8) -> (r: Result<(), Error>)
        ensures
            r is Ok,
            final(self)@ == old(self)@ + bulk(dec_int(v as int)),
    {
        let text = self.serialize_num_types(v as i128);
        self.output.append(text.as_str());
        Ok(())
    }

    /// Appends the bulk-string encoding of an unsigned integer.
    pub fn serialize_u16(&mut self, v: u16) -> (r: Result<(), Error>)
        ensures
            r is Ok,
            final(self)@ == old(self)@ + bulk(dec_int(v as int)),
    {
        let text = self.serialize_num_types(v as i128);
        self.output.append(text.as_str());
        Ok(())
    }

    /// Appends the bulk-string encoding of an unsigned integer.
    pub fn serialize_u32(&mut self, v: u32) -> (r: Result<(), Error>)
        ensures
            r is Ok,
            final(self)@ == old(self)@ + bulk(dec_int(v as int)),
    {
        let text = self.serialize_num_types(v as i128);
        self.output.append(text.as_str());
        Ok(())
    }

    /// Appends the bulk-string encoding of an unsigned integer.
    pub fn serialize_u64(&mut self, v: u64) -> (r: Result<(), Error>)
        ensures
            r is Ok,
            final(self)@ == old(self)@ + bulk(dec_int(v as int)),
    {
        let text = self.serialize_num_types(v as i128);
        self.output.append(text.as_str());
        Ok(())
    }

    /// Begins a sequence-like composite. The element count must be known
    /// up front: RESP arrays announce their length before any element, so
    /// an unknown length is rejected with a serialization error and
    /// nothing is emitted.
    pub fn serialize_seq(&mut self, len: Option<usize>) -> (r: Result<(), Error>)
        ensures
            match len {
                Some(n) => r is Ok && final(self)@ == old(self)@ + array_header(n as nat),
                None => {
                    &&& final(self)@ == old(self)@
                    &&& r matches Err(e) && e.kind matches ErrorKind::SerError(m) && m@
                        == "sequence length is unknown"@
                },
            },
    {
        match len {
            None => Err(
                Error::new(
                    ErrorKind::SerError(String::from_str("sequence length is unknown")),
                ),
            ),
            Some(n) => {
                let digits = dec_string(n as u128);
                self.output.append("*");
                self.output.append(digits.as_str());
                self.output.append("\r\n");
                proof {
                    assert(self.output@ =~= old(self)@ + array_header(n as nat));
                }
                Ok(())
            },
        }
    }

    /// Begins a tuple, whose arity is always known.
    pub fn serialize_tuple(&mut self, len: usize) -> (r: Result<(), Error>)
        ensures
            r is Ok,
            final(self)@ == old(self)@ + array_header(len as nat),
    {
        self.serialize_seq(Some(len))
    }

    /// Begins a tuple struct; the name plays no part in the encoding.
    pub fn serialize_tuple_struct(&mut self, _name: &str, len: usize) -> (r: Result<(), Error>)
        ensures
            r is Ok,
            final(self)@ == old(self)@ + array_header(len as nat),
    {
        self.serialize_seq(Some(len))
    }

    /// Raw byte arrays have no binary-safe path in this protocol subset.
    pub fn serialize_bytes(&mut self, _v: &[u8]) -> (r: Result<(), Error>)
        ensures
            final(self)@ == old(self)@,
            r matches Err(e) && e.kind matches ErrorKind::UnsupportedOperation(m) && m@
                == "serialize_bytes"@,
    {
        Err(self.unsupported("serialize_bytes"))
    }

    /// Unit structs have no RESP mapping in this subset.
    pub fn serialize_unit_struct(&mut self, _name: &str) -> (r: Result<(), Error>)
        ensures
            final(self)@ == old(self)@,
            r matches Err(e) && e.kind matches ErrorKind::UnsupportedOperation(m) && m@
                == "serialize_unit_struct"@,
    {
        Err(self.unsupported("serialize_unit_struct"))
    }

    /// Enum unit variants have no RESP mapping in this subset.
    pub fn serialize_unit_variant(
        &mut self,
        _name: &str,
        _variant_index: u32,
        _variant: &str,
    ) -> (r: Result<(), Error>)
        ensures
            final(self)@ == old(self)@,
            r matches Err(e) && e.kind matches ErrorKind::UnsupportedOperation(m) && m@
                == "serialize_unit_variant"@,
    {
        Err(self.unsupported("serialize_unit_variant"))
    }

    /// Newtype structs have no RESP mapping in this subset.
    pub fn serialize_newtype_struct(&mut self, _name: &str) -> (r: Result<(), Error>)
        ensures
            final(self)@ == old(self)@,
            r matches Err(e) && e.kind matches ErrorKind::UnsupportedOperation(m) && m@
                == "serialize_newtype_struct"@,
    {
        Err(self.unsupported("serialize_newtype_struct"))
    }

    /// Enum newtype variants have no RESP mapping in this subset.
    pub fn serialize_newtype_variant(
        &mut self,
        _name: &str,
        _variant_index: u32,
        _variant: &str,
    ) -> (r: Result<(), Error>)
        ensures
            final(self)@ == old(self)@,
            r matches Err(e) && e.kind matches ErrorKind::UnsupportedOperation(m) && m@
                == "serialize_newtype_variant"@,
    {
        Err(self.unsupported("serialize_newtype_variant"))
    }

    /// Enum tuple variants have no RESP mapping in this subset.
    pub fn serialize_tuple_variant(
        &mut self,
        _name: &str,
        _variant_index: u32,
        _variant: &str,
        _len: usize,
    ) -> (r: Result<(), Error>)
        ensures
            final(self)@ == old(self)@,
            r matches Err(e) && e.kind matches ErrorKind::UnsupportedOperation(m) && m@
                == "serialize_tuple_variant"@,
    {
        Err(self.unsupported("serialize_tuple_variant"))
    }

    /// Maps have no RESP mapping in this subset.
    pub fn serialize_map(&mut self, _len: Option<usize>) -> (r: Result<(), Error>)
        ensures
            final(self)@ == old(self)@,
            r matches Err(e) && e.kind matches ErrorKind::UnsupportedOperation(m) && m@
                == "serialize_map"@,
    {
        Err(self.unsupported("serialize_map"))
    }

    /// Named structs have no RESP mapping in this subset.
    pub fn serialize_struct(&mut self, _name: &str, _len: usize) -> (r: Result<(), Error>)
        ensures
            final(self)@ == old(self)@,
            r matches Err(e) && e.kind matches ErrorKind::UnsupportedOperation(m) && m@
                == "serialize_struct"@,
    {
        Err(self.unsupported("serialize_struct"))
    }

    /// Enum struct variants have no RESP mapping in this subset.
    pub fn serialize_struct_variant(
        &mut self,
        _name: &str,
        _variant_index: u32,
        _variant: &str,
        _len: usize,
    ) -> (r: Result<(), Error>)
        ensures
            final(self)@ == old(self)@,
            r matches Err(e) && e.kind matches ErrorKind::UnsupportedOperation(m) && m@
                == "serialize_struct_variant"@,
    {
        Err(self.unsupported("serialize_struct_variant"))
    }

    /// Collecting a value's display form has no RESP mapping in this subset.
    pub fn collect_str(&mut self) -> (r: Result<(), Error>)
        ensures
            final(self)@ == old(self)@,
            r matches Err(e) && e.kind matches ErrorKind::UnsupportedOperation(m) && m@
                == "collect_str"@,
    {
        Err(self.unsupported("collect_str"))
    }

    /// An unsupported-operation error naming the rejected callback.
    fn unsupported(&self, operation: &str) -> (e: Error)
        ensures
            e.kind matches ErrorKind::UnsupportedOperation(m) && m@ == operation@,
    {
        Error::new(ErrorKind::UnsupportedOperation(String::from_str(operation)))
    }

    /// Encodes a present optional transparently: the inner value is
    /// encoded as if it had been presented directly, with no wrapper.
    pub fn serialize_some(&mut self, value: &Value) -> (r: Result<(), Error>)
        ensures
            enc(*value) matches Ok(text) ==> r is Ok && final(self)@ == old(self)@ + text,
            enc(*value) matches Err(op) ==> r matches Err(e) && e.kind
                matches ErrorKind::UnsupportedOperation(m) && m@ == op,
        decreases *value, 1int,
    {
        self.encode_value(value)
    }

    /// Encodes one element of a composite already begun.
    pub fn serialize_element(&mut self, value: &Value) -> (r: Result<(), Error>)
        ensures
            enc(*value) matches Ok(text) ==> r is Ok && final(self)@ == old(self)@ + text,
            enc(*value) matches Err(op) ==> r matches Err(e) && e.kind
                matches ErrorKind::UnsupportedOperation(m) && m@ == op,
        decreases *value, 1int,
    {
        self.encode_value(value)
    }

    /// Encodes one field of a tuple struct already begun.
    pub fn serialize_field(&mut self, value: &Value) -> (r: Result<(), Error>)
        ensures
            enc(*value) matches Ok(text) ==> r is Ok && final(self)@ == old(self)@ + text,
            enc(*value) matches Err(op) ==> r matches Err(e) && e.kind
                matches ErrorKind::UnsupportedOperation(m) && m@ == op,
        decreases *value, 1int,
    {
        self.encode_value(value)
    }

    /// Closes a composite. All of its output was committed as the
    /// elements arrived, so there is nothing left to emit.
    pub fn end(&mut self) -> (r: Result<(), Error>)
        ensures
            r is Ok,
            final(self)@ == old(self)@,
    {
        Ok(())
    }

    /// Encodes a whole sequence-like composite: the array header with the
    /// declared length, then each element in order, stopping at the first
    /// failure.
    fn serialize_array(&mut self, items: &Vec<Value>) -> (r: Result<(), Error>)
        ensures
            enc_list(items@) matches Ok(body) ==> r is Ok && final(self)@ == old(self)@ + (
            array_header(items@.len()) + body),
            enc_list(items@) matches Err(op) ==> r matches Err(e) && e.kind
                matches ErrorKind::UnsupportedOperation(m) && m@ == op,
        decreases items@, 2int,
    {
        let len: usize = items.len();
        let ghost start = self@;
        match self.serialize_seq(Some(len)) {
            Err(e) => {
                return Err(e);
            },
            Ok(_) => {},
        }
        let ghost base = self@;
        let mut i: usize = 0;
        while i < len
            invariant
                i <= len,
                len == items@.len(),
                enc_list(items@.take(i as int)) matches Ok(p) && self@ == base + p,
            decreases len - i,
        {
            let r = self.serialize_element(&items[i]);
            match r {
                Ok(_) => {},
                Err(e) => {
                    proof {
                        crate::value::lemma_enc_list_err_at(items@, i as int);
                    }
                    return Err(e);
                },
            }
            proof {
                let p = enc_list(items@.take(i as int))->Ok_0;
                let piece = enc(items@[i as int])->Ok_0;
                crate::value::lemma_enc_list_take_succ(items@, i as int);
                assert(self@ =~= base + (p + piece));
            }
            i = i + 1;
        }
        match self.end() {
            Err(e) => {
                return Err(e);
            },
            Ok(_) => {},
        }
        proof {
            assert(items@.take(len as int) =~= items@);
            let body = enc_list(items@)->Ok_0;
            assert(self@ =~= start + (array_header(items@.len()) + body));
        }
        Ok(())
    }

    /// The dispatch at the heart of the encoder: appends the RESP text of
    /// any supported value, recursing through optionals and composites,
    /// and rejects unsupported shapes by name.
    pub fn encode_value(&mut self, v: &Value) -> (r: Result<(), Error>)
        ensures
            enc(*v) matches Ok(text) ==> r is Ok && final(self)@ == old(self)@ + text,
            enc(*v) matches Err(op) ==> r matches Err(e) && e.kind
                matches ErrorKind::UnsupportedOperation(m) && m@ == op,
        decreases *v, 0int,
    {
        match v {
            Value::Bool(b) => self.serialize_bool(*b),
            Value::I8(x) => self.serialize_i8(*x),
            Value::I16(x) => self.serialize_i16(*x),
            Value::I32(x) => self.serialize_i32(*x),
            Value::I64(x) => self.serialize_i64(*x),
            Value::U8(x) => self.serialize_u8(*x),
            Value::U16(x) => self.serialize_u16(*x),
            Value::U32(x) => self.serialize_u32(*x),
            Value::U64(x) => self.serialize_u64(*x),
            Value::Char(c) => self.serialize_char(*c),
            Value::Str(s) => self.serialize_str(s.as_str()),
            Value::Bytes(b) => self.serialize_bytes(b.as_slice()),
            Value::Optional(opt) => match opt {
                Option::None => self.serialize_none(),
                Option::Some(inner) => self.serialize_some(&**inner),
            },
            Value::Unit => self.serialize_unit(),
            Value::List(vs) => self.serialize_array(vs),
            Value::Tuple(vs) => self.serialize_array(vs),
            Value::TupleStruct(_, vs) => self.serialize_array(vs),
            Value::UnitStruct(name) => self.serialize_unit_struct(name.as_str()),
            Value::UnitVariant(name, idx, variant) => self.serialize_unit_variant(
                name.as_str(),
                *idx,
                variant.as_str(),
            ),
            Value::NewtypeStruct(name, _) => self.serialize_newtype_struct(name.as_str()),
            Value::NewtypeVariant(name, idx, variant, _) => self.serialize_newtype_variant(
                name.as_str(),
                *idx,
                variant.as_str(),
            ),
            Value::TupleVariant(name, idx, variant, vs) => self.serialize_tuple_variant(
                name.as_str(),
                *idx,
                variant.as_str(),
                vs.len(),
            ),
            Value::Mapping(entries) => self.serialize_map(Some(entries.len())),
            Value::Struct(name, fields) => self.serialize_struct(name.as_str(), fields.len()),
            Value::StructVariant(name, idx, variant, fields) => self.serialize_struct_variant(
                name.as_str(),
                *idx,
                variant.as_str(),
                fields.len(),
            ),
        }
    }
}

/// Encodes a value as RESP wire text. This is the sole entry point: it
/// creates a fresh encoder, drives it over the value, and returns the
/// accumulated text, or the first error met in traversal order.
pub fn to_string(value: &Value) -> (r: Result<String, Error>)
    ensures
        enc(*value) matches Ok(text) ==> r matches Ok(out) && out@ == text,
        enc(*value) matches Err(op) ==> r matches Err(e) && e.kind
            matches ErrorKind::UnsupportedOperation(m) && m@ == op,
{
    let mut serializer = Serializer::new();
    match serializer.encode_value(value) {
        Ok(_) => Ok(serializer.into_string()),
        Err(e) => Err(e),
    }
}

impl View for Serializer {
    type V = Seq<char>;

    closed spec fn view(&self) -> Seq<char> {
        self.output@
    }
}

} // verus!
