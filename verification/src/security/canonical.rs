//! The canonical byte sequence over which request signatures are computed.
//!
//! `canonical = UTF8(timestamp) '\n' UTF8(method) '\n' UTF8(path+query) '\n' body`.
//! The three text fields are taken exactly as received; the body is appended
//! raw. Because each text field is newline-terminated and none may contain a
//! raw newline, distinct requests canonicalize to distinct byte sequences
//! (`lemma_canonical_injective`).

use vstd::prelude::*;
use vstd::string::StrSliceExecFns;
use vstd::string::StringSliceAdditionalSpecFns;
use vstd::utf8::{encode_scalar, encode_utf8};

verus! {

/// The canonical message for a raw timestamp, method, path+query and body.
pub open spec fn canonical_bytes(
    stamp: Seq<char>,
    method: Seq<char>,
    path: Seq<char>,
    body: Seq<u8>,
) -> Seq<u8> {
    encode_utf8(stamp) + seq![10u8] + encode_utf8(method) + seq![10u8] + encode_utf8(path)
        + seq![10u8] + body
}

/// Build the canonical message.
pub fn canonical_message(stamp: &str, method: &str, path: &str, body: &[u8]) -> (r: Vec<u8>)
    ensures
        r@ == canonical_bytes(stamp@, method@, path@, body@),
{
    let mut out: Vec<u8> = stamp.as_bytes_vec();
    out.push(10);
    let method_bytes: Vec<u8> = method.as_bytes_vec();
    let mut i: usize = 0;
    while i < method_bytes.len()
        invariant
            0 <= i <= method_bytes@.len(),
            out@ == stamp.spec_bytes() + seq![10u8] + method_bytes@.take(i as int),
        decreases method_bytes@.len() - i,
    {
        out.push(method_bytes[i]);
        proof {
            assert(method_bytes@.take(i + 1) =~= method_bytes@.take(i as int).push(
                method_bytes@[i as int],
            ));
        }
        i = i + 1;
    }
    proof {
        assert(method_bytes@.take(method_bytes@.len() as int) =~= method_bytes@);
    }
    out.push(10);
    let path_bytes: Vec<u8> = path.as_bytes_vec();
    let ghost prefix = stamp.spec_bytes() + seq![10u8] + method.spec_bytes() + seq![10u8];
    let mut j: usize = 0;
    while j < path_bytes.len()
        invariant
            0 <= j <= path_bytes@.len(),
            out@ == prefix + path_bytes@.take(j as int),
        decreases path_bytes@.len() - j,
    {
        out.push(path_bytes[j]);
        proof {
            assert(path_bytes@.take(j + 1) =~= path_bytes@.take(j as int).push(
                path_bytes@[j as int],
            ));
        }
        j = j + 1;
    }
    proof {
        assert(path_bytes@.take(path_bytes@.len() as int) =~= path_bytes@);
    }
    out.push(10);
    let ghost prefix2 = prefix + path.spec_bytes() + seq![10u8];
    let mut k: usize = 0;
    while k < body.len()
        invariant
            0 <= k <= body@.len(),
            out@ == prefix2 + body@.take(k as int),
        decreases body@.len() - k,
    {
        let b: u8 = body[k];
        out.push(b);
        proof {
            assert(body@.take(k + 1) =~= body@.take(k as int).push(body@[k as int]));
        }
        k = k + 1;
    }
    proof {
        assert(body@.take(body@.len() as int) =~= body@);
        assert(out@ =~= canonical_bytes(stamp@, method@, path@, body@));
    }
    out
}

/// The UTF-8 encoding of a text without `'\n'` contains no newline byte.
pub proof fn lemma_encode_no_newline(s: Seq<char>)
    requires
        !s.contains('\n'),
    ensures
        !encode_utf8(s).contains(10u8),
    decreases s.len(),
{
    if s.len() > 0 {
        let c = s[0];
        let u = c as u32;
        assert(c != '\n') by {
            if c == '\n' {
                assert(s.contains('\n'));
            }
        }
        assert(u != 10) by {
            vstd::utf8::char_u32_cast(c, c as u32);
            vstd::utf8::char_u32_cast('\n', '\n' as u32);
            assert(('\n' as u32) == 10);
            if u == 10 {
                assert((u as char) == c);
                assert((('\n' as u32) as char) == '\n');
            }
        }
        vstd::utf8::char_is_scalar(c);
        lemma_encode_scalar_no_newline(u);
        assert(!s.drop_first().contains('\n')) by {
            if s.drop_first().contains('\n') {
                let j = choose|j: int| 0 <= j < s.drop_first().len() && s.drop_first()[j] == '\n';
                assert(s[j + 1] == '\n');
            }
        }
        lemma_encode_no_newline(s.drop_first());
        let head = encode_scalar(u);
        let tail = encode_utf8(s.drop_first());
        assert(encode_utf8(s) == head + tail);
        if encode_utf8(s).contains(10u8) {
            let w = choose|i: int| 0 <= i < encode_utf8(s).len() && encode_utf8(s)[i] == 10u8;
            if w < head.len() {
                assert(head[w] == 10u8);
            } else {
                assert(tail[w - head.len()] == 10u8);
                assert(tail.contains(10u8));
            }
            assert(false);
        }
    } else {
        assert(encode_utf8(s).len() == 0);
        if encode_utf8(s).contains(10u8) {
            let w = choose|i: int| 0 <= i < encode_utf8(s).len() && encode_utf8(s)[i] == 10u8;
            assert(false);
        }
    }
}

proof fn lemma_encode_scalar_no_newline(u: u32)
    requires
        u != 10,
        vstd::utf8::is_scalar(u),
    ensures
        forall|i: int| 0 <= i < encode_scalar(u).len() ==> encode_scalar(u)[i] != 10u8,
{
    let e = encode_scalar(u);
    if vstd::utf8::has_width_1_encoding(u) {
        assert(((u & 0x7F) as u8) != 10u8) by (bit_vector)
            requires
                u != 10 && u <= 0x7F,
        ;
        assert(e.len() == 1 && e[0] != 10u8);
    } else if vstd::utf8::has_width_2_encoding(u) {
        assert((0xC0u8 | ((u >> 6) & 0x1F) as u8) != 10u8) by (bit_vector);
        assert((0x80u8 | (u & 0x3F) as u8) != 10u8) by (bit_vector);
        assert(e.len() == 2 && e[0] != 10u8 && e[1] != 10u8);
    } else if vstd::utf8::has_width_3_encoding(u) {
        assert((0xE0u8 | ((u >> 12) & 0x0F) as u8) != 10u8) by (bit_vector);
        assert((0x80u8 | ((u >> 6) & 0x3F) as u8) != 10u8) by (bit_vector);
        assert((0x80u8 | (u & 0x3F) as u8) != 10u8) by (bit_vector);
        assert(e.len() == 3 && e[0] != 10u8 && e[1] != 10u8 && e[2] != 10u8);
    } else {
        assert((0xF0u8 | ((u >> 18) & 0x7) as u8) != 10u8) by (bit_vector);
        assert((0x80u8 | ((u >> 12) & 0x3F) as u8) != 10u8) by (bit_vector);
        assert((0x80u8 | ((u >> 6) & 0x3F) as u8) != 10u8) by (bit_vector);
        assert((0x80u8 | (u & 0x3F) as u8) != 10u8) by (bit_vector);
        assert(e.len() == 4 && e[0] != 10u8 && e[1] != 10u8 && e[2] != 10u8 && e[3] != 10u8);
    }
}

/// Canonical messages are injective: when no text field contains a raw
/// newline, equal canonical messages come only from equal fields. Altering
/// the raw timestamp, the method, the path+query or the body therefore
/// changes the bytes the signature is checked against.
pub proof fn lemma_canonical_injective(
    stamp1: Seq<char>,
    method1: Seq<char>,
    path1: Seq<char>,
    body1: Seq<u8>,
    stamp2: Seq<char>,
    method2: Seq<char>,
    path2: Seq<char>,
    body2: Seq<u8>,
)
    requires
        !stamp1.contains('\n'),
        !method1.contains('\n'),
        !path1.contains('\n'),
        !stamp2.contains('\n'),
        !method2.contains('\n'),
        !path2.contains('\n'),
        canonical_bytes(stamp1, method1, path1, body1) == canonical_bytes(
            stamp2,
            method2,
            path2,
            body2,
        ),
    ensures
        stamp1 == stamp2,
        method1 == method2,
        path1 == path2,
        body1 == body2,
{
    broadcast use vstd::utf8::encode_utf8_decode_utf8;

    lemma_encode_no_newline(stamp1);
    lemma_encode_no_newline(method1);
    lemma_encode_no_newline(path1);
    lemma_encode_no_newline(stamp2);
    lemma_encode_no_newline(method2);
    lemma_encode_no_newline(path2);
    let rest1 = encode_utf8(method1) + seq![10u8] + encode_utf8(path1) + seq![10u8] + body1;
    let rest2 = encode_utf8(method2) + seq![10u8] + encode_utf8(path2) + seq![10u8] + body2;
    assert(encode_utf8(stamp1) + seq![10u8] + rest1 =~= canonical_bytes(
        stamp1,
        method1,
        path1,
        body1,
    ));
    assert(encode_utf8(stamp2) + seq![10u8] + rest2 =~= canonical_bytes(
        stamp2,
        method2,
        path2,
        body2,
    ));
    lemma_newline_split(encode_utf8(stamp1), rest1, encode_utf8(stamp2), rest2);
    let tail1 = encode_utf8(path1) + seq![10u8] + body1;
    let tail2 = encode_utf8(path2) + seq![10u8] + body2;
    assert(encode_utf8(method1) + seq![10u8] + tail1 =~= rest1);
    assert(encode_utf8(method2) + seq![10u8] + tail2 =~= rest2);
    lemma_newline_split(encode_utf8(method1), tail1, encode_utf8(method2), tail2);
    lemma_newline_split(encode_utf8(path1), body1, encode_utf8(path2), body2);
    assert(vstd::utf8::decode_utf8(encode_utf8(stamp1)) == stamp1);
    assert(vstd::utf8::decode_utf8(encode_utf8(stamp2)) == stamp2);
    assert(vstd::utf8::decode_utf8(encode_utf8(method1)) == method1);
    assert(vstd::utf8::decode_utf8(encode_utf8(method2)) == method2);
    assert(vstd::utf8::decode_utf8(encode_utf8(path1)) == path1);
    assert(vstd::utf8::decode_utf8(encode_utf8(path2)) == path2);
}

/// Two newline-terminated fields followed by arbitrary rests: equality of the
/// whole forces equality of the parts, since neither field holds a newline.
proof fn lemma_newline_split(x1: Seq<u8>, r1: Seq<u8>, x2: Seq<u8>, r2: Seq<u8>)
    requires
        !x1.contains(10u8),
        !x2.contains(10u8),
        x1 + seq![10u8] + r1 == x2 + seq![10u8] + r2,
    ensures
        x1 == x2,
        r1 == r2,
{
    let c1 = x1 + seq![10u8] + r1;
    let c2 = x2 + seq![10u8] + r2;
    assert(c1.len() == x1.len() + 1 + r1.len());
    assert(c2.len() == x2.len() + 1 + r2.len());
    assert(c1[x1.len() as int] == 10u8);
    assert(c2[x2.len() as int] == 10u8);
    if x1.len() < x2.len() {
        assert(c2[x1.len() as int] == x2[x1.len() as int]);
        assert(x2.contains(10u8)) by {
            assert(x2[x1.len() as int] == 10u8);
        }
        assert(false);
    }
    if x2.len() < x1.len() {
        assert(c1[x2.len() as int] == x1[x2.len() as int]);
        assert(x1.contains(10u8)) by {
            assert(x1[x2.len() as int] == 10u8);
        }
        assert(false);
    }
    assert(x1.len() == x2.len());
    assert forall|i: int| 0 <= i < x1.len() implies x1[i] == x2[i] by {
        assert(c1[i] == x1[i]);
        assert(c2[i] == x2[i]);
    }
    assert(x1 =~= x2);
    assert forall|i: int| 0 <= i < r1.len() implies r1[i] == r2[i] by {
        assert(c1[x1.len() + 1 + i] == r1[i]);
        assert(c2[x2.len() + 1 + i] == r2[i]);
    }
    assert(r1 =~= r2);
}

} // verus!
