//! Laws of the encoding, stated and proved over the wire-format model.

use vstd::prelude::*;

use crate::digits::{dec_int, dec_nat};
use crate::value::{enc, enc_list, int_value, Value};
use crate::wire::{array_header, bulk, crlf, lemma_dec_byte_len, null_bulk};

verus! {

/// Law: an integer of any width and signedness encodes as the bulk string
/// of its decimal text, whose length field is the character count of that
/// text (a leading '-' included) — decimal text is ASCII, so it occupies
/// one byte per character.
pub proof fn lemma_integer_encoding(v: Value, i: int)
    requires
        int_value(v) == Some(i),
    ensures
        enc(v) == Ok::<Seq<char>, Seq<char>>(
            "$"@ + dec_nat(dec_int(i).len()) + crlf() + dec_int(i) + crlf(),
        ),
{
    lemma_dec_byte_len(i);
    assert(bulk(dec_int(i)) == "$"@ + dec_nat(dec_int(i).len()) + crlf() + dec_int(i) + crlf());
}

/// Law: an absent optional and the unit value both encode as the null
/// bulk string.
pub proof fn lemma_null_encoding()
    ensures
        enc(Value::Optional(Option::None)) == Ok::<Seq<char>, Seq<char>>(null_bulk()),
        enc(Value::Unit) == Ok::<Seq<char>, Seq<char>>(null_bulk()),
{
}

/// Law: a present optional encodes transparently, exactly as its inner
/// value would on its own; no wrapper is emitted and failures pass
/// through unchanged.
pub proof fn lemma_some_transparency(inner: Box<Value>)
    ensures
        enc(Value::Optional(Option::Some(inner))) == enc(*inner),
{
}

/// A run of elements encodes successfully exactly when every element
/// does, and then yields the concatenation of their encodings in order.
proof fn lemma_enc_list_all_ok(s: Seq<Value>)
    ensures
        enc_list(s) is Ok <==> (forall|j: int| 0 <= j < s.len() ==> #[trigger] enc(s[j]) is Ok),
        enc_list(s) is Ok ==> enc_list(s)->Ok_0 == Seq::new(
            s.len(),
            |j: int| enc(s[j])->Ok_0,
        ).flatten(),
    decreases s,
{
    let pieces = Seq::new(s.len(), |j: int| enc(s[j])->Ok_0);
    if s.len() == 0 {
        assert(pieces =~= Seq::<Seq<char>>::empty());
        assert(pieces.flatten() == Seq::<char>::empty());
    } else {
        let t = s.drop_first();
        lemma_enc_list_all_ok(t);
        let rest = Seq::new(t.len(), |j: int| enc(t[j])->Ok_0);
        assert(pieces.drop_first() =~= rest);
        assert forall|j: int| 0 <= j < s.len() && (enc(s[0]) is Ok && enc_list(t)
            is Ok) implies #[trigger] enc(s[j]) is Ok by {
            if j >= 1 {
                assert(enc(t[j - 1]) is Ok);
            }
        }
        if enc_list(s) is Ok {
            assert(pieces.flatten() == pieces.first() + pieces.drop_first().flatten());
        }
        if forall|j: int| 0 <= j < s.len() ==> #[trigger] enc(s[j]) is Ok {
            assert(enc(s[0]) is Ok);
            assert(forall|j: int| 0 <= j < t.len() ==> #[trigger] enc(t[j]) is Ok);
        }
    }
}

/// Law: a sequence with declared length `n` encodes as the array header
/// announcing `n`, followed by the concatenation of each element's own
/// encoding, in order; it encodes successfully exactly when every
/// element does.
pub proof fn lemma_sequence_encoding(items: Vec<Value>)
    ensures
        enc(Value::List(items)) is Ok <==> (forall|j: int|
            0 <= j < items@.len() ==> #[trigger] enc(items@[j]) is Ok),
        enc(Value::List(items)) is Ok ==> enc(Value::List(items))->Ok_0 == array_header(
            items@.len(),
        ) + Seq::new(items@.len(), |j: int| enc(items@[j])->Ok_0).flatten(),
{
    lemma_enc_list_all_ok(items@);
}

/// Law: nesting is compositional. A two-element sequence encodes as
/// `*2`, CR LF, then the first element's entire encoding, then the
/// second's — whatever those elements are, arrays included, each
/// following the same rules recursively.
pub proof fn lemma_nesting_compositional(items: Vec<Value>)
    requires
        items@.len() == 2,
        enc(items@[0]) is Ok,
        enc(items@[1]) is Ok,
    ensures
        enc(Value::List(items)) == Ok::<Seq<char>, Seq<char>>(
            array_header(2) + (enc(items@[0])->Ok_0 + enc(items@[1])->Ok_0),
        ),
{
    lemma_enc_list_all_ok(items@);
    let pieces = Seq::new(items@.len(), |j: int| enc(items@[j])->Ok_0);
    let first = enc(items@[0])->Ok_0;
    let second = enc(items@[1])->Ok_0;
    assert(pieces.drop_first() =~= seq![second]);
    assert(pieces.drop_first().drop_first() =~= Seq::<Seq<char>>::empty());
    reveal_with_fuel(Seq::<Seq<char>>::flatten, 3);
    assert(pieces.flatten() == first + (second + Seq::<char>::empty()));
    assert(first + (second + Seq::<char>::empty()) =~= first + second);
}

} // verus!
