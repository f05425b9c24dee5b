//! Query-string rendering in `application/x-www-form-urlencoded` form.
//!
//! The builders in [`crate::options`] collect `key=value` pairs; this
//! module says exactly what the rendered string looks like
//! ([`query_of`]) and produces it.  The per-byte serialization itself
//! is done by the `url` crate; everything around it — joining pairs
//! with `=` and `&`, decimal formatting — is verified here.

use vstd::prelude::*;
use vstd::utf8::encode_utf8;

verus! {

/// Bytes the byte serializer keeps unchanged: ASCII alphanumerics and
/// `*`, `-`, `.`, `_`.
pub open spec fn form_safe_byte(b: u8) -> bool {
    ||| b == 42
    ||| b == 45
    ||| b == 46
    ||| b == 95
    ||| 48 <= b <= 57
    ||| 65 <= b <= 90
    ||| 97 <= b <= 122
}

/// The upper-case hexadecimal digit of a value below sixteen.
pub open spec fn hex_upper(n: u8) -> u8
    recommends
        n < 16,
{
    if n < 10 {
        (48 + n) as u8
    } else {
        (55 + n) as u8
    }
}

/// How one byte is serialized: kept as itself, `+` for a space, and
/// `%XX` with upper-case hex digits otherwise.
pub open spec fn form_byte(b: u8) -> Seq<u8> {
    if b == 32 {
        seq![43u8]
    } else if form_safe_byte(b) {
        seq![b]
    } else {
        seq![37u8, hex_upper(b / 16), hex_upper(b % 16)]
    }
}

/// The byte serialization of a whole byte string.
pub open spec fn form_encoded(bs: Seq<u8>) -> Seq<u8>
    decreases bs.len(),
{
    if bs.len() == 0 {
        Seq::empty()
    } else {
        form_byte(bs[0]) + form_encoded(bs.drop_first())
    }
}

/// The serialization of a string: its UTF-8 bytes, byte-serialized.
pub open spec fn form_encoded_str(s: Seq<char>) -> Seq<u8> {
    form_encoded(encode_utf8(s))
}

/// One serialized `key=value` pair.
pub open spec fn encoded_pair(p: (Seq<char>, Seq<char>)) -> Seq<u8> {
    form_encoded_str(p.0) + seq![61u8] + form_encoded_str(p.1)
}

/// All pairs, each serialized, joined with `&` in the given order.
pub open spec fn rendered_pairs(pairs: Seq<(Seq<char>, Seq<char>)>) -> Seq<u8>
    decreases pairs.len(),
{
    if pairs.len() == 0 {
        Seq::empty()
    } else if pairs.len() == 1 {
        encoded_pair(pairs[0])
    } else {
        rendered_pairs(pairs.drop_last()) + seq![38u8] + encoded_pair(pairs.last())
    }
}

/// The characters of an ASCII byte string.
pub open spec fn chars_of_bytes(bs: Seq<u8>) -> Seq<char> {
    bs.map_values(|b: u8| b as char)
}

/// The query string rendered from a sequence of raw key/value pairs.
pub open spec fn query_of(pairs: Seq<(Seq<char>, Seq<char>)>) -> Seq<char> {
    chars_of_bytes(rendered_pairs(pairs))
}

/// The decimal digits of a number, most significant first.
pub open spec fn dec_digits(n: nat) -> Seq<u8>
    decreases n,
{
    if n < 10 {
        seq![(48 + n) as u8]
    } else {
        dec_digits(n / 10) + seq![(48 + n % 10) as u8]
    }
}

/// The decimal text of a number.
pub open spec fn dec_chars(n: nat) -> Seq<char> {
    chars_of_bytes(dec_digits(n))
}

/// Everything the byte serializer emits is ASCII.
pub proof fn lemma_form_encoded_ascii(bs: Seq<u8>)
    ensures
        forall|i: int| 0 <= i < form_encoded(bs).len() ==> form_encoded(bs)[i] < 128,
    decreases bs.len(),
{
    if bs.len() > 0 {
        lemma_form_encoded_ascii(bs.drop_first());
        assert forall|i: int| 0 <= i < form_encoded(bs).len() implies form_encoded(bs)[i]
            < 128 by {
            let fb = form_byte(bs[0]);
            let rest = form_encoded(bs.drop_first());
            assert(form_encoded(bs) == fb + rest);
            if i < fb.len() {
                assert(form_encoded(bs)[i] == fb[i]);
            } else {
                assert(form_encoded(bs)[i] == rest[i - fb.len()]);
            }
        }
    }
}

/// A whole rendered query string is ASCII.
pub proof fn lemma_rendered_ascii(pairs: Seq<(Seq<char>, Seq<char>)>)
    ensures
        forall|i: int| 0 <= i < rendered_pairs(pairs).len() ==> rendered_pairs(pairs)[i] < 128,
    decreases pairs.len(),
{
    if pairs.len() == 1 {
        lemma_form_encoded_ascii(encode_utf8(pairs[0].0));
        lemma_form_encoded_ascii(encode_utf8(pairs[0].1));
        assert forall|i: int| 0 <= i < rendered_pairs(pairs).len() implies rendered_pairs(
            pairs,
        )[i] < 128 by {
            let k = form_encoded_str(pairs[0].0);
            let v = form_encoded_str(pairs[0].1);
            assert(rendered_pairs(pairs) == k + seq![61u8] + v);
            if i < k.len() {
                assert(rendered_pairs(pairs)[i] == k[i]);
            } else if i == k.len() {
                assert(rendered_pairs(pairs)[i] == 61);
            } else {
                assert(rendered_pairs(pairs)[i] == v[i - k.len() - 1]);
            }
        }
    } else if pairs.len() > 1 {
        lemma_rendered_ascii(pairs.drop_last());
        lemma_form_encoded_ascii(encode_utf8(pairs.last().0));
        lemma_form_encoded_ascii(encode_utf8(pairs.last().1));
        assert forall|i: int| 0 <= i < rendered_pairs(pairs).len() implies rendered_pairs(
            pairs,
        )[i] < 128 by {
            let front = rendered_pairs(pairs.drop_last());
            let k = form_encoded_str(pairs.last().0);
            let v = form_encoded_str(pairs.last().1);
            assert(rendered_pairs(pairs) == front + seq![38u8] + k + seq![61u8] + v);
            if i < front.len() {
                assert(rendered_pairs(pairs)[i] == front[i]);
            } else if i == front.len() {
                assert(rendered_pairs(pairs)[i] == 38);
            } else if i < front.len() + 1 + k.len() {
                assert(rendered_pairs(pairs)[i] == k[i - front.len() - 1]);
            } else if i == front.len() + 1 + k.len() {
                assert(rendered_pairs(pairs)[i] == 61);
            } else {
                assert(rendered_pairs(pairs)[i] == v[i - front.len() - k.len() - 2]);
            }
        }
    }
}

/// Decimal digits are ASCII.
pub proof fn lemma_dec_digits_ascii(n: nat)
    ensures
        forall|i: int| 0 <= i < dec_digits(n).len() ==> dec_digits(n)[i] < 128,
    decreases n,
{
    if n >= 10 {
        lemma_dec_digits_ascii(n / 10);
        assert forall|i: int| 0 <= i < dec_digits(n).len() implies dec_digits(n)[i] < 128 by {
            let front = dec_digits(n / 10);
            assert(dec_digits(n) == front + seq![(48 + n % 10) as u8]);
            if i < front.len() {
                assert(dec_digits(n)[i] == front[i]);
            } else {
                assert(dec_digits(n)[i] == (48 + n % 10) as u8);
            }
        }
    }
}

/// Relies on `url::form_urlencoded::byte_serialize`: each input byte is
/// kept if it is an ASCII alphanumeric or `*`, `-`, `.`, `_`; a space
/// becomes `+`; any other byte becomes `%XX` with upper-case hex digits.
#[verifier::external_body]
fn byte_serialize_bytes(input: &[u8]) -> (r: Vec<u8>)
    ensures
        r@ == form_encoded(input@),
{
    let s: String = url::form_urlencoded::byte_serialize(input).collect();
    s.into_bytes()
}

/// Relies on `String::from_utf8`: bytes below 0x80 are valid UTF-8 and
/// decode to the string of exactly those characters.
#[verifier::external_body]
fn string_from_ascii(bytes: Vec<u8>) -> (r: String)
    requires
        forall|i: int| 0 <= i < bytes@.len() ==> bytes@[i] < 128,
    ensures
        r@ == chars_of_bytes(bytes@),
{
    String::from_utf8(bytes).unwrap_or_default()
}

/// Appends the serialization of `s` to a byte buffer.
fn push_encoded(out: &mut Vec<u8>, s: &str)
    ensures
        final(out)@ == old(out)@ + form_encoded_str(s@),
{
    let mut enc = byte_serialize_bytes(s.as_bytes());
    out.append(&mut enc);
}

/// Appends the decimal digits of `n` to a byte buffer.
fn push_dec_digits(out: &mut Vec<u8>, n: u64)
    ensures
        final(out)@ == old(out)@ + dec_digits(n as nat),
    decreases n,
{
    if n < 10 {
        out.push(48 + n as u8);
        proof {
            assert(out@ =~= old(out)@ + dec_digits(n as nat));
        }
    } else {
        push_dec_digits(out, n / 10);
        out.push(48 + (n % 10) as u8);
        proof {
            assert(out@ =~= old(out)@ + dec_digits(n as nat));
        }
    }
}

/// The decimal text of a 64-bit number.
pub fn dec_string(n: u64) -> (r: String)
    ensures
        r@ == dec_chars(n as nat),
{
    let mut out: Vec<u8> = Vec::new();
    push_dec_digits(&mut out, n);
    proof {
        lemma_dec_digits_ascii(n as nat);
        assert(out@ =~= dec_digits(n as nat));
    }
    string_from_ascii(out)
}

/// Renders raw pairs into one query string, exactly as [`query_of`]
/// describes.
pub fn render_pairs(pairs: &Vec<(String, String)>) -> (r: String)
    ensures
        r@ == query_of(pairs.deep_view()),
{
    let mut out: Vec<u8> = Vec::new();
    let mut i: usize = 0;
    while i < pairs.len()
        invariant
            i <= pairs.len(),
            pairs.deep_view().len() == pairs@.len(),
            out@ == rendered_pairs(pairs.deep_view().take(i as int)),
        decreases pairs.len() - i,
    {
        if i > 0 {
            out.push(38);
        }
        push_encoded(&mut out, pairs[i].0.as_str());
        out.push(61);
        push_encoded(&mut out, pairs[i].1.as_str());
        proof {
            let pv = pairs.deep_view();
            assert(pv[i as int] == (pairs@[i as int].0@, pairs@[i as int].1@));
            assert(pv.take(i as int + 1).drop_last() =~= pv.take(i as int));
            assert(pv.take(i as int + 1).last() == pv[i as int]);
            assert(out@ =~= rendered_pairs(pv.take(i as int + 1)));
        }
        i = i + 1;
    }
    proof {
        assert(pairs.deep_view().take(pairs@.len() as int) =~= pairs.deep_view());
        lemma_rendered_ascii(pairs.deep_view());
    }
    string_from_ascii(out)
}

} // verus!
