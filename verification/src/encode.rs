use vstd::prelude::*;

verus! {

/// A byte that form-urlencoding passes through unchanged: an ASCII
/// alphanumeric or one of `*`, `-`, `.`, `_`.
pub open spec fn is_unreserved(b: u8) -> bool {
    ||| ('A' as u8) <= b <= ('Z' as u8)
    ||| ('a' as u8) <= b <= ('z' as u8)
    ||| ('0' as u8) <= b <= ('9' as u8)
    ||| b == ('*' as u8)
    ||| b == ('-' as u8)
    ||| b == ('.' as u8)
    ||| b == ('_' as u8)
}

/// The ASCII uppercase hex digit of a value below 16.
pub open spec fn spec_hex_digit(n: u8) -> u8 {
    if n < 10 {
        (('0' as u8) + n) as u8
    } else {
        (('A' as u8) + (n - 10)) as u8
    }
}

/// The form-urlencoded image of one byte: the byte itself if unreserved, `+`
/// for a space, otherwise `%` and two uppercase hex digits.
pub open spec fn spec_encode_byte(b: u8) -> Seq<u8> {
    if is_unreserved(b) {
        seq![b]
    } else if b == (' ' as u8) {
        seq![('+' as u8)]
    } else {
        seq![('%' as u8), spec_hex_digit(b / 16), spec_hex_digit(b % 16)]
    }
}

/// The form-urlencoded image of a byte string.
pub open spec fn spec_encode(s: Seq<u8>) -> Seq<u8>
    decreases s.len(),
{
    if s.len() == 0 {
        Seq::empty()
    } else {
        spec_encode_byte(s[0]) + spec_encode(s.drop_first())
    }
}

/// The `k=v` form of one query pair, both sides form-urlencoded.
pub open spec fn spec_encode_pair(k: Seq<u8>, v: Seq<u8>) -> Seq<u8> {
    spec_encode(k) + seq![('=' as u8)] + spec_encode(v)
}

/// A query string: the pairs in their given order, each as `k=v`, joined by
/// `&`.
pub open spec fn spec_query(pairs: Seq<(Seq<u8>, Seq<u8>)>) -> Seq<u8>
    decreases pairs.len(),
{
    if pairs.len() == 0 {
        Seq::empty()
    } else if pairs.len() == 1 {
        spec_encode_pair(pairs[0].0, pairs[0].1)
    } else {
        spec_encode_pair(pairs[0].0, pairs[0].1) + seq![('&' as u8)] + spec_query(
            pairs.drop_first(),
        )
    }
}

/// The decimal digits of `n`, most significant first.
pub open spec fn spec_decimal(n: nat) -> Seq<u8>
    decreases n,
{
    if n < 10 {
        seq![((('0' as u8) + n) as u8)]
    } else {
        spec_decimal(n / 10) + seq![((('0' as u8) + n % 10) as u8)]
    }
}

/// Encoding a string one byte longer appends the image of the last byte.
pub proof fn lemma_encode_snoc(s: Seq<u8>, b: u8)
    ensures
        spec_encode(s.push(b)) == spec_encode(s) + spec_encode_byte(b),
    decreases s.len(),
{
    if s.len() == 0 {
        assert(s.push(b)[0] == b);
        assert(s.push(b).drop_first() =~= Seq::<u8>::empty());
        assert(spec_encode(Seq::<u8>::empty()) == Seq::<u8>::empty());
        assert(spec_encode(s.push(b)) =~= spec_encode(s) + spec_encode_byte(b));
    } else {
        lemma_encode_snoc(s.drop_first(), b);
        assert(s.push(b)[0] == s[0]);
        assert(s.push(b).drop_first() =~= s.drop_first().push(b));
        assert(spec_encode(s.push(b)) =~= spec_encode(s) + spec_encode_byte(b));
    }
}

/// A query of one more pair appends `&` and that pair's `k=v` form.
pub proof fn lemma_query_snoc(pairs: Seq<(Seq<u8>, Seq<u8>)>, p: (Seq<u8>, Seq<u8>))
    requires
        pairs.len() >= 1,
    ensures
        spec_query(pairs.push(p)) == spec_query(pairs) + seq![('&' as u8)] + spec_encode_pair(
            p.0,
            p.1,
        ),
    decreases pairs.len(),
{
    if pairs.len() == 1 {
        assert(pairs.push(p)[0] == pairs[0]);
        assert(pairs.push(p).drop_first() =~= seq![p]);
        assert(spec_query(seq![p]) == spec_encode_pair(p.0, p.1));
        assert(spec_query(pairs.push(p)) =~= spec_query(pairs) + seq![('&' as u8)]
            + spec_encode_pair(p.0, p.1));
    } else {
        lemma_query_snoc(pairs.drop_first(), p);
        assert(pairs.push(p)[0] == pairs[0]);
        assert(pairs.push(p).drop_first() =~= pairs.drop_first().push(p));
        assert(spec_query(pairs.push(p)) =~= spec_query(pairs) + seq![('&' as u8)]
            + spec_encode_pair(p.0, p.1));
    }
}

/// Whether form-urlencoding keeps this byte as it is.
fn unreserved(b: u8) -> (r: bool)
    ensures
        r == is_unreserved(b),
{
    (65 <= b && b <= 90) || (97 <= b && b <= 122) || (48 <= b && b <= 57) || b == 42 || b == 45
        || b == 46 || b == 95
}

/// The ASCII uppercase hex digit of a value below 16.
fn hex_digit(n: u8) -> (r: u8)
    requires
        n < 16,
    ensures
        r == spec_hex_digit(n),
{
    if n < 10 {
        48 + n
    } else {
        55 + n
    }
}

/// Appends the bytes of `src` to `dst` unchanged.
pub fn push_all(dst: &mut Vec<u8>, src: &[u8])
    ensures
        final(dst)@ == old(dst)@ + src@,
{
    let mut i: usize = 0;
    while i < src.len()
        invariant
            i <= src@.len(),
            dst@ == old(dst)@ + src@.take(i as int),
        decreases src@.len() - i,
    {
        dst.push(src[i]);
        proof {
            assert(src@.take(i + 1) =~= src@.take(i as int).push(src@[i as int]));
            assert(dst@ =~= old(dst)@ + src@.take(i + 1));
        }
        i = i + 1;
    }
    proof {
        assert(src@.take(src@.len() as int) =~= src@);
    }
}

/// Appends the form-urlencoded image of `src` to `dst`.
pub fn push_encoded(dst: &mut Vec<u8>, src: &[u8])
    ensures
        final(dst)@ == old(dst)@ + spec_encode(src@),
{
    let mut i: usize = 0;
    while i < src.len()
        invariant
            i <= src@.len(),
            dst@ == old(dst)@ + spec_encode(src@.take(i as int)),
        decreases src@.len() - i,
    {
        let b = src[i];
        if unreserved(b) {
            dst.push(b);
        } else if b == 32 {
            dst.push(43);
        } else {
            dst.push(37);
            dst.push(hex_digit(b / 16));
            dst.push(hex_digit(b % 16));
        }
        proof {
            lemma_encode_snoc(src@.take(i as int), src@[i as int]);
            assert(src@.take(i + 1) =~= src@.take(i as int).push(src@[i as int]));
            assert(dst@ =~= old(dst)@ + spec_encode(src@.take(i + 1)));
        }
        i = i + 1;
    }
    proof {
        assert(src@.take(src@.len() as int) =~= src@);
    }
}

/// Appends the decimal digits of `n` to `dst`.
pub fn push_decimal(dst: &mut Vec<u8>, n: u16)
    ensures
        final(dst)@ == old(dst)@ + spec_decimal(n as nat),
    decreases n,
{
    if n >= 10 {
        push_decimal(dst, n / 10);
    }
    dst.push(48 + (n % 10) as u8);
    proof {
        if n < 10 {
            assert(dst@ =~= old(dst)@ + spec_decimal(n as nat));
        } else {
            assert(dst@ =~= old(dst)@ + spec_decimal(n as nat));
        }
    }
}

} // verus!
