//! Certificate files: PEM unwrapping and the minimal base64 decoder.

use vstd::prelude::*;
use vstd::string::StringSliceAdditionalSpecFns;

verus! {

/// The 6-bit value of a base64 character; characters outside the alphabet
/// count as 0.
pub open spec fn base64_value(c: u8) -> u8 {
    if 65 <= c <= 90 {
        (c - 65) as u8
    } else if 97 <= c <= 122 {
        (c - 71) as u8
    } else if 48 <= c <= 57 {
        (c + 4) as u8
    } else if c == 43 {
        62
    } else if c == 47 {
        63
    } else {
        0
    }
}

/// Bytes the decoder skips: line feed, carriage return and '='.
pub open spec fn is_base64_noise(c: u8) -> bool {
    c == 10 || c == 13 || c == 61
}

/// `s` without the bytes the decoder skips.
pub open spec fn strip_base64_noise(s: Seq<u8>) -> Seq<u8>
    decreases s.len(),
{
    if s.len() == 0 {
        Seq::empty()
    } else {
        strip_base64_noise(s.drop_last()) + if is_base64_noise(s.last()) {
            Seq::<u8>::empty()
        } else {
            seq![s.last()]
        }
    }
}

/// The bytes encoded by a group of two to four base64 characters.
pub open spec fn decode_base64_group(g: Seq<u8>) -> Seq<u8> {
    let b0 = base64_value(g[0]);
    let b1 = base64_value(g[1]);
    let first = seq![(b0 << 2u8) | (b1 >> 4u8)];
    if g.len() == 2 {
        first
    } else {
        let b2 = base64_value(g[2]);
        let second = first.push((b1 << 4u8) | (b2 >> 2u8));
        if g.len() == 3 {
            second
        } else {
            second.push((b2 << 6u8) | base64_value(g[3]))
        }
    }
}

/// Decodes groups of four characters; a last group of one character is
/// dropped, a last group of two or three yields one or two bytes.
pub open spec fn decode_base64_groups(s: Seq<u8>) -> Seq<u8>
    decreases s.len(),
{
    if s.len() < 2 {
        Seq::empty()
    } else if s.len() <= 4 {
        decode_base64_group(s)
    } else {
        decode_base64_group(s.take(4)) + decode_base64_groups(s.skip(4))
    }
}

/// What the decoder makes of `s`: the groups of its characters without line
/// breaks and padding.
pub open spec fn base64_decoded(s: Seq<u8>) -> Seq<u8> {
    decode_base64_groups(strip_base64_noise(s))
}

fn base64_value_of(c: u8) -> (v: u8)
    ensures
        v == base64_value(c),
        v < 64,
{
    if 65 <= c && c <= 90 {
        c - 65
    } else if 97 <= c && c <= 122 {
        c - 71
    } else if 48 <= c && c <= 57 {
        c + 4
    } else if c == 43 {
        62
    } else if c == 47 {
        63
    } else {
        0
    }
}

/// Decodes base64 bytes, skipping line breaks and padding.
pub fn base64_decode_bytes(input: &[u8]) -> (out: Vec<u8>)
    ensures
        out@ == base64_decoded(input@),
{
    let mut clean: Vec<u8> = Vec::new();
    let mut i: usize = 0;
    while i < input.len()
        invariant
            i <= input@.len(),
            clean@ == strip_base64_noise(input@.take(i as int)),
        decreases input@.len() - i,
    {
        assert(input@.take(i + 1).drop_last() =~= input@.take(i as int));
        let b = input[i];
        if !(b == 10 || b == 13 || b == 61) {
            clean.push(b);
        }
        assert(clean@ =~= strip_base64_noise(input@.take(i + 1)));
        i = i + 1;
    }
    assert(input@.take(i as int) =~= input@);

    let mut out: Vec<u8> = Vec::new();
    let mut pos: usize = 0;
    assert(clean@.skip(0) =~= clean@);
    while pos < clean.len() && clean.len() - pos >= 2
        invariant
            pos <= clean@.len(),
            decode_base64_groups(clean@) == out@ + decode_base64_groups(clean@.skip(pos as int)),
        decreases clean@.len() - pos,
    {
        let rest = clean.len() - pos;
        let ghost tail = clean@.skip(pos as int);
        let ghost before = out@;
        let b0 = base64_value_of(clean[pos]);
        let b1 = base64_value_of(clean[pos + 1]);
        out.push((b0 << 2u8) | (b1 >> 4u8));
        if rest > 2 {
            let b2 = base64_value_of(clean[pos + 2]);
            out.push((b1 << 4u8) | (b2 >> 2u8));
            if rest > 3 {
                out.push((b2 << 6u8) | base64_value_of(clean[pos + 3]));
            }
        }
        if rest <= 4 {
            assert(out@ =~= before + decode_base64_group(tail));
            pos = clean.len();
            assert(clean@.skip(pos as int) =~= Seq::<u8>::empty());
            assert(decode_base64_groups(clean@) =~= out@ + decode_base64_groups(clean@.skip(pos as int)));
        } else {
            assert(out@ =~= before + decode_base64_group(tail.take(4)));
            assert(tail.skip(4) =~= clean@.skip(pos + 4));
            pos = pos + 4;
            assert(decode_base64_groups(clean@) =~= out@ + decode_base64_groups(clean@.skip(pos as int)));
        }
    }
    assert(out@ =~= decode_base64_groups(clean@));
    out
}

/// Decodes base64 text, skipping line breaks and padding. Characters outside
/// the alphabet count as 0; a last group of a single character is dropped.
pub fn base64_decode(input: &str) -> (out: Vec<u8>)
    ensures
        out@ == base64_decoded(input.spec_bytes()),
{
    base64_decode_bytes(input.as_bytes())
}

/// The number of bytes decoded from `n` base64 characters: three per full
/// group of four, and one less than the characters of a last partial group.
pub open spec fn base64_decoded_len(n: nat) -> nat {
    3 * (n / 4) + if n % 4 >= 2 {
        (n % 4 - 1) as nat
    } else {
        0
    }
}

/// Decoding yields three bytes per four characters (after line breaks and
/// padding are skipped), and one less than the characters of a last partial
/// group.
pub proof fn base64_decoded_length(s: Seq<u8>)
    ensures
        decode_base64_groups(s).len() == base64_decoded_len(s.len()),
    decreases s.len(),
{
    if s.len() > 4 {
        base64_decoded_length(s.skip(4));
    }
}

/// The standard base64 character (RFC 4648 alphabet) of a 6-bit value.
pub open spec fn base64_char(v: u8) -> u8 {
    if v < 26 {
        (v + 65) as u8
    } else if v < 52 {
        (v + 71) as u8
    } else if v < 62 {
        (v - 4) as u8
    } else if v == 62 {
        43
    } else {
        47
    }
}

/// The characters that encode a group of one to three bytes, without
/// padding: two, three or four characters.
pub open spec fn encode_base64_group(g: Seq<u8>) -> Seq<u8> {
    let x = g[0];
    let y = if g.len() > 1 { g[1] } else { 0u8 };
    let z = if g.len() > 2 { g[2] } else { 0u8 };
    let c0 = base64_char(x >> 2u8);
    let c1 = base64_char(((x & 3u8) << 4u8) | (y >> 4u8));
    let c2 = base64_char(((y & 15u8) << 2u8) | (z >> 6u8));
    let c3 = base64_char(z & 63u8);
    if g.len() == 1 {
        seq![c0, c1]
    } else if g.len() == 2 {
        seq![c0, c1, c2]
    } else {
        seq![c0, c1, c2, c3]
    }
}

/// The '=' padding after a last group of `n` bytes.
pub open spec fn base64_padding(n: nat) -> Seq<u8> {
    if n == 1 {
        seq![61u8, 61u8]
    } else if n == 2 {
        seq![61u8]
    } else {
        Seq::empty()
    }
}

/// The standard base64 encoding of `b` (RFC 4648 alphabet, '=' padding).
pub open spec fn base64_encode(b: Seq<u8>) -> Seq<u8>
    decreases b.len(),
{
    if b.len() == 0 {
        Seq::empty()
    } else if b.len() <= 3 {
        encode_base64_group(b) + base64_padding(b.len())
    } else {
        encode_base64_group(b.take(3)) + base64_encode(b.skip(3))
    }
}

proof fn lemma_strip_concat(a: Seq<u8>, b: Seq<u8>)
    ensures
        strip_base64_noise(a + b) == strip_base64_noise(a) + strip_base64_noise(b),
    decreases b.len(),
{
    if b.len() == 0 {
        assert(a + b =~= a);
        assert(strip_base64_noise(a) + Seq::<u8>::empty() =~= strip_base64_noise(a));
    } else {
        lemma_strip_concat(a, b.drop_last());
        assert((a + b).drop_last() =~= a + b.drop_last());
        assert((a + b).last() == b.last());
        let tail = if is_base64_noise(b.last()) {
            Seq::<u8>::empty()
        } else {
            seq![b.last()]
        };
        assert(strip_base64_noise(a) + strip_base64_noise(b.drop_last()) + tail =~= strip_base64_noise(a)
            + (strip_base64_noise(b.drop_last()) + tail));
    }
}

proof fn lemma_strip_clean(a: Seq<u8>)
    requires
        forall|i: int| 0 <= i < a.len() ==> !is_base64_noise(#[trigger] a[i]),
    ensures
        strip_base64_noise(a) == a,
    decreases a.len(),
{
    if a.len() > 0 {
        let init = a.drop_last();
        assert forall|i: int| 0 <= i < init.len() implies !is_base64_noise(#[trigger] init[i]) by {
            assert(init[i] == a[i]);
        }
        lemma_strip_clean(init);
        assert(!is_base64_noise(a[a.len() - 1]));
        assert(init + seq![a.last()] =~= a);
    }
}

proof fn lemma_strip_padding(n: nat)
    ensures
        strip_base64_noise(base64_padding(n)) == Seq::<u8>::empty(),
{
    let p = base64_padding(n);
    if n == 1 {
        assert(p.drop_last() =~= seq![61u8]);
        assert(p.drop_last().drop_last() =~= Seq::<u8>::empty());
        assert(strip_base64_noise(p.drop_last().drop_last()) == Seq::<u8>::empty());
        assert(strip_base64_noise(p.drop_last()) =~= Seq::<u8>::empty());
        assert(strip_base64_noise(p) =~= Seq::<u8>::empty());
    } else if n == 2 {
        assert(p.drop_last() =~= Seq::<u8>::empty());
        assert(strip_base64_noise(p.drop_last()) == Seq::<u8>::empty());
        assert(strip_base64_noise(p) =~= Seq::<u8>::empty());
    }
}

proof fn lemma_base64_char(v: u8)
    requires
        v < 64,
    ensures
        base64_value(base64_char(v)) == v,
        !is_base64_noise(base64_char(v)),
{
}

proof fn lemma_decode_encoded_group(g: Seq<u8>)
    requires
        1 <= g.len() <= 3,
    ensures
        encode_base64_group(g).len() == g.len() + 1,
        strip_base64_noise(encode_base64_group(g)) == encode_base64_group(g),
        decode_base64_group(encode_base64_group(g)) == g,
{
    let x = g[0];
    let y = if g.len() > 1 { g[1] } else { 0u8 };
    let z = if g.len() > 2 { g[2] } else { 0u8 };
    let v0 = x >> 2u8;
    let v1 = ((x & 3u8) << 4u8) | (y >> 4u8);
    let v2 = ((y & 15u8) << 2u8) | (z >> 6u8);
    let v3 = z & 63u8;
    assert(v0 < 64 && v1 < 64 && v2 < 64 && v3 < 64) by (bit_vector)
        requires
            v0 == x >> 2u8,
            v1 == ((x & 3u8) << 4u8) | (y >> 4u8),
            v2 == ((y & 15u8) << 2u8) | (z >> 6u8),
            v3 == z & 63u8,
    ;
    lemma_base64_char(v0);
    lemma_base64_char(v1);
    lemma_base64_char(v2);
    lemma_base64_char(v3);
    assert((v0 << 2u8) | (v1 >> 4u8) == x) by (bit_vector)
        requires
            v0 == x >> 2u8,
            v1 == ((x & 3u8) << 4u8) | (y >> 4u8),
    ;
    assert((v1 << 4u8) | (v2 >> 2u8) == y) by (bit_vector)
        requires
            v1 == ((x & 3u8) << 4u8) | (y >> 4u8),
            v2 == ((y & 15u8) << 2u8) | (z >> 6u8),
    ;
    assert((v2 << 6u8) | v3 == z) by (bit_vector)
        requires
            v2 == ((y & 15u8) << 2u8) | (z >> 6u8),
            v3 == z & 63u8,
    ;
    let e = encode_base64_group(g);
    assert forall|i: int| 0 <= i < e.len() implies !is_base64_noise(#[trigger] e[i]) by {}
    lemma_strip_clean(e);
    assert(decode_base64_group(e) =~= g);
}

proof fn lemma_decode_encoding(b: Seq<u8>)
    ensures
        decode_base64_groups(strip_base64_noise(base64_encode(b))) == b,
    decreases b.len(),
{
    if b.len() == 0 {
        assert(strip_base64_noise(Seq::<u8>::empty()) == Seq::<u8>::empty());
        assert(decode_base64_groups(Seq::<u8>::empty()) =~= b);
    } else if b.len() <= 3 {
        let g = encode_base64_group(b);
        lemma_decode_encoded_group(b);
        lemma_strip_concat(g, base64_padding(b.len()));
        lemma_strip_padding(b.len());
        assert(strip_base64_noise(base64_encode(b)) =~= g);
    } else {
        let head = b.take(3);
        let rest = b.skip(3);
        let g = encode_base64_group(head);
        lemma_decode_encoded_group(head);
        lemma_strip_concat(g, base64_encode(rest));
        lemma_decode_encoding(rest);
        let t = strip_base64_noise(base64_encode(rest));
        let s = g + t;
        assert(strip_base64_noise(base64_encode(b)) == s);
        assert(t.len() >= 2);
        assert(s.take(4) =~= g);
        assert(s.skip(4) =~= t);
        assert(head + rest =~= b);
    }
}

/// Decoding gives back the bytes of their standard base64 encoding (RFC 4648
/// alphabet, '=' padding), also when line feeds, carriage returns or '='
/// stand anywhere between its characters: any text that, without those
/// bytes, reads as the encoding of `b` decodes to `b`.
pub proof fn base64_decode_inverts_encoding(b: Seq<u8>, s: Seq<u8>)
    requires
        strip_base64_noise(s) == strip_base64_noise(base64_encode(b)),
    ensures
        base64_decoded(s) == b,
{
    lemma_decode_encoding(b);
}

/// Start of the line that holds position `i` of `s`.
pub open spec fn line_start(s: Seq<u8>, i: int) -> int
    decreases i,
{
    if i <= 0 || s[i - 1] == 10 {
        i
    } else {
        line_start(s, i - 1)
    }
}

/// Lines end at every line feed: the line that holds position `i` begins
/// at the start of the text or right after a line feed, and no line feed
/// stands between its beginning and `i`.
pub proof fn lines_end_at_every_line_feed(s: Seq<u8>, i: int)
    requires
        0 <= i <= s.len(),
    ensures
        0 <= line_start(s, i) <= i,
        line_start(s, i) == 0 || s[line_start(s, i) - 1] == 10,
        forall|j: int| line_start(s, i) <= j < i ==> s[j] != 10,
        i > 0 && s[i - 1] == 10 ==> line_start(s, i) == i,
    decreases i,
{
    if i > 0 && s[i - 1] != 10 {
        lines_end_at_every_line_feed(s, i - 1);
    }
}

/// The line starting at `j` begins with "-----" (a PEM boundary line).
pub open spec fn dashes_at(s: Seq<u8>, j: int) -> bool {
    &&& 0 <= j
    &&& j + 5 <= s.len()
    &&& s[j] == 45 && s[j + 1] == 45 && s[j + 2] == 45 && s[j + 3] == 45 && s[j + 4] == 45
}

/// Position `i` belongs to the base64 body of a PEM file: it is not a line
/// break and its line does not begin with "-----".
pub open spec fn in_pem_body(s: Seq<u8>, i: int) -> bool {
    s[i] != 10 && !dashes_at(s, line_start(s, i))
}

/// The bytes of the first `n` positions of `s` that belong to the base64 body.
pub open spec fn pem_body_prefix(s: Seq<u8>, n: int) -> Seq<u8>
    decreases n,
{
    if n <= 0 {
        Seq::empty()
    } else {
        pem_body_prefix(s, n - 1) + if in_pem_body(s, n - 1) {
            seq![s[n - 1]]
        } else {
            Seq::<u8>::empty()
        }
    }
}

/// The base64 body of a PEM file: the lines that do not begin with "-----",
/// joined without their line breaks.
pub open spec fn pem_body(s: Seq<u8>) -> Seq<u8> {
    pem_body_prefix(s, s.len() as int)
}

/// No byte of `x` is a line feed.
pub open spec fn without_line_feed(x: Seq<u8>) -> bool {
    forall|j: int| 0 <= j < x.len() ==> x[j] != 10
}

/// `x` begins with five dashes.
pub open spec fn begins_with_five_dashes(x: Seq<u8>) -> bool {
    x.len() >= 5 && x[0] == 45 && x[1] == 45 && x[2] == 45 && x[3] == 45 && x[4] == 45
}

/// A PEM text of three lines, each ended by a line feed: a first boundary
/// line `h`, a body line `b` and a last boundary line `t`.
pub open spec fn three_pem_lines(h: Seq<u8>, b: Seq<u8>, t: Seq<u8>) -> Seq<u8> {
    h + seq![10u8] + b + seq![10u8] + t + seq![10u8]
}

proof fn lemma_three_lines_index(h: Seq<u8>, b: Seq<u8>, t: Seq<u8>)
    ensures
        three_pem_lines(h, b, t).len() == h.len() + b.len() + t.len() + 3,
        forall|k: int| 0 <= k < h.len() ==> #[trigger] three_pem_lines(h, b, t)[k] == h[k],
        three_pem_lines(h, b, t)[h.len() as int] == 10,
        forall|k: int|
            0 <= k < b.len() ==> #[trigger] three_pem_lines(h, b, t)[h.len() + 1 + k] == b[k],
        three_pem_lines(h, b, t)[(h.len() + 1 + b.len()) as int] == 10,
        forall|k: int|
            0 <= k < t.len() ==> #[trigger] three_pem_lines(h, b, t)[h.len() + 2 + b.len() + k] == t[k],
        three_pem_lines(h, b, t)[(h.len() + 2 + b.len() + t.len()) as int] == 10,
{
    let s = three_pem_lines(h, b, t);
    let hb = h + seq![10u8] + b;
    let hbt = hb + seq![10u8] + t;
    assert forall|k: int| 0 <= k < b.len() implies #[trigger] s[h.len() + 1 + k] == b[k] by {
        assert(s[h.len() + 1 + k] == hb[h.len() + 1 + k]);
    }
    assert forall|k: int| 0 <= k < h.len() implies #[trigger] s[k] == h[k] by {
        assert(s[k] == hb[k]);
    }
    assert forall|k: int| 0 <= k < t.len() implies #[trigger] s[h.len() + 2 + b.len() + k] == t[k] by {
        assert(s[h.len() + 2 + b.len() + k] == hbt[h.len() + 2 + b.len() + k]);
    }
    assert(s[h.len() as int] == hb[h.len() as int]);
    assert(s[(h.len() + 1 + b.len()) as int] == hbt[(h.len() + 1 + b.len()) as int]);
}

proof fn lemma_three_lines_in_body(h: Seq<u8>, b: Seq<u8>, t: Seq<u8>, j: int)
    requires
        without_line_feed(h),
        without_line_feed(b),
        without_line_feed(t),
        begins_with_five_dashes(h),
        begins_with_five_dashes(t),
        !begins_with_five_dashes(b),
        0 <= j < three_pem_lines(h, b, t).len(),
    ensures
        in_pem_body(three_pem_lines(h, b, t), j) <==> (h.len() + 1 <= j < h.len() + 1 + b.len()),
{
    let s = three_pem_lines(h, b, t);
    let hl = h.len() as int;
    let bl = b.len() as int;
    lemma_three_lines_index(h, b, t);
    lines_end_at_every_line_feed(s, j);
    let ls = line_start(s, j);
    if j <= hl {
        if ls > 0 {
            assert(s[ls - 1] == h[ls - 1]);
        }
        assert(ls == 0);
        assert(s[0] == h[0] && s[1] == h[1] && s[2] == h[2] && s[3] == h[3] && s[4] == h[4]);
        assert(dashes_at(s, 0));
    } else if j <= hl + 1 + bl {
        if ls <= hl {
            assert(s[hl] != 10);
        }
        if ls > hl + 1 {
            assert(s[ls - 1] == b[ls - 1 - hl - 1]);
        }
        assert(ls == hl + 1);
        if bl >= 5 {
            assert(s[hl + 1] == b[0] && s[hl + 2] == b[1] && s[hl + 3] == b[2] && s[hl + 4] == b[3]
                && s[hl + 5] == b[4]);
        } else {
            assert(s[hl + 1 + bl] == 10);
            assert(s[hl + 1 + bl] != 45);
        }
        assert(!dashes_at(s, hl + 1));
        if j < hl + 1 + bl {
            assert(s[j] == b[j - hl - 1]);
        }
    } else {
        let ts = hl + 2 + bl;
        if j < ts + t.len() {
            if ls <= hl + 1 + bl {
                assert(s[hl + 1 + bl] != 10);
            }
            if ls > ts {
                assert(s[ls - 1] == t[ls - 1 - ts]);
            }
            assert(ls == ts);
            assert(s[ts] == t[0] && s[ts + 1] == t[1] && s[ts + 2] == t[2] && s[ts + 3] == t[3] && s[ts + 4]
                == t[4]);
            assert(dashes_at(s, ts));
        }
    }
}

proof fn lemma_three_lines_body_prefix(h: Seq<u8>, b: Seq<u8>, t: Seq<u8>, n: int)
    requires
        without_line_feed(h),
        without_line_feed(b),
        without_line_feed(t),
        begins_with_five_dashes(h),
        begins_with_five_dashes(t),
        !begins_with_five_dashes(b),
        0 <= n <= three_pem_lines(h, b, t).len(),
    ensures
        pem_body_prefix(three_pem_lines(h, b, t), n) == b.take(
            if n <= h.len() + 1 {
                0
            } else if n - h.len() - 1 >= b.len() {
                b.len() as int
            } else {
                n - h.len() - 1
            },
        ),
    decreases n,
{
    let s = three_pem_lines(h, b, t);
    let hl = h.len() as int;
    if n == 0 {
        assert(b.take(0) =~= Seq::<u8>::empty());
    } else {
        lemma_three_lines_body_prefix(h, b, t, n - 1);
        lemma_three_lines_in_body(h, b, t, n - 1);
        lemma_three_lines_index(h, b, t);
        if in_pem_body(s, n - 1) {
            let k = n - 1 - hl - 1;
            assert(s[n - 1] == b[k]);
            assert(b.take(k) + seq![b[k]] =~= b.take(k + 1));
        }
    }
}

/// The body of a PEM text whose lines end in line feeds (the usual Unix
/// form) is its body line: for a first and a last line that begin with
/// "-----" and a line between them that does not, all three without line
/// feeds, the body is exactly the middle line.
pub proof fn pem_body_of_unix_lines(h: Seq<u8>, b: Seq<u8>, t: Seq<u8>)
    requires
        without_line_feed(h),
        without_line_feed(b),
        without_line_feed(t),
        begins_with_five_dashes(h),
        begins_with_five_dashes(t),
        !begins_with_five_dashes(b),
    ensures
        pem_body(h + seq![10u8] + b + seq![10u8] + t + seq![10u8]) == b,
{
    let s = three_pem_lines(h, b, t);
    lemma_three_lines_index(h, b, t);
    lemma_three_lines_body_prefix(h, b, t, s.len() as int);
    assert(b.take(b.len() as int) =~= b);
}

/// The file begins with "-----BEGIN".
pub open spec fn is_pem(s: Seq<u8>) -> bool {
    &&& s.len() >= 10
    &&& dashes_at(s, 0)
    &&& s[5] == 66 && s[6] == 69 && s[7] == 71 && s[8] == 73 && s[9] == 78
}

/// Why a certificate file could not be turned into DER bytes.
#[derive(Debug, Clone, Copy, PartialEq, Eq, Structural)]
pub enum CertFileError {
    /// A PEM file that is not valid UTF-8.
    InvalidUtf8,
}

/// The DER bytes of a certificate file: a PEM file (one that begins with
/// "-----BEGIN") is unwrapped and its body decoded, any other file is taken
/// as DER as it is.
pub open spec fn certificate_der_of(s: Seq<u8>) -> Result<Seq<u8>, CertFileError> {
    if is_pem(s) {
        if vstd::utf8::valid_utf8(s) {
            Ok(base64_decoded(pem_body(s)))
        } else {
            Err(CertFileError::InvalidUtf8)
        }
    } else {
        Ok(s)
    }
}

/// Whether `bytes` is valid UTF-8, by `std::str::from_utf8`, which
/// documents that it fails exactly when the bytes are not valid UTF-8. The
/// contract equates its answer with vstd's definition `valid_utf8`.
#[verifier::external_body]
fn utf8_is_valid(bytes: &[u8]) -> (res: bool)
    ensures
        res == vstd::utf8::valid_utf8(bytes@),
{
    std::str::from_utf8(bytes).is_ok()
}

fn dashes_at_exec(s: &[u8], j: usize) -> (res: bool)
    ensures
        res == dashes_at(s@, j as int),
{
    j <= s.len() && s.len() - j >= 5 && s[j] == 45 && s[j + 1] == 45 && s[j + 2] == 45 && s[j + 3] == 45
        && s[j + 4] == 45
}

/// The base64 body of a PEM file.
pub fn pem_body_bytes(s: &[u8]) -> (body: Vec<u8>)
    ensures
        body@ == pem_body(s@),
{
    let mut body: Vec<u8> = Vec::new();
    let mut start: usize = 0;
    let mut skip = false;
    let mut i: usize = 0;
    while i < s.len()
        invariant
            i <= s@.len(),
            body@ == pem_body_prefix(s@, i as int),
            i > 0 ==> start == line_start(s@, i - 1) && skip == dashes_at(s@, start as int),
            start <= i,
        decreases s@.len() - i,
    {
        if i == 0 || s[i - 1] == 10 {
            start = i;
            skip = dashes_at_exec(s, i);
        }
        assert(start == line_start(s@, i as int));
        if s[i] != 10 && !skip {
            body.push(s[i]);
        }
        assert(body@ =~= pem_body_prefix(s@, i + 1));
        i = i + 1;
    }
    body
}

/// The DER bytes of a certificate file, PEM or DER.
pub fn certificate_der(file: &[u8]) -> (res: Result<Vec<u8>, CertFileError>)
    ensures
        match res {
            Ok(der) => certificate_der_of(file@) == Ok::<Seq<u8>, CertFileError>(der@),
            Err(e) => certificate_der_of(file@) == Err::<Seq<u8>, CertFileError>(e),
        },
{
    let pem = file.len() >= 10 && dashes_at_exec(file, 0) && file[5] == 66 && file[6] == 69 && file[7] == 71
        && file[8] == 73 && file[9] == 78;
    if pem {
        if !utf8_is_valid(file) {
            return Err(CertFileError::InvalidUtf8);
        }
        let body = pem_body_bytes(file);
        Ok(base64_decode_bytes(body.as_slice()))
    } else {
        let mut der: Vec<u8> = Vec::new();
        let mut i: usize = 0;
        while i < file.len()
            invariant
                i <= file@.len(),
                der@ == file@.take(i as int),
            decreases file@.len() - i,
        {
            der.push(file[i]);
            assert(der@ =~= file@.take(i + 1));
            i = i + 1;
        }
        assert(file@.take(i as int) =~= file@);
        Ok(der)
    }
}

} // verus!
