use vstd::prelude::*;

verus! {

pub open spec fn is_hex_digit(c: char) -> bool {
    ('0' <= c && c <= '9') || ('a' <= c && c <= 'f') || ('A' <= c && c <= 'F')
}

pub open spec fn hex_value(c: char) -> u8 {
    if '0' <= c && c <= '9' {
        ((c as u32) - ('0' as u32)) as u8
    } else if 'a' <= c && c <= 'f' {
        ((c as u32) - ('a' as u32) + 10) as u8
    } else {
        ((c as u32) - ('A' as u32) + 10) as u8
    }
}

/// Upper-case hex digit for a value below 16.
pub open spec fn hex_char(v: u8) -> char {
    if v < 10 {
        ((v as u32) + ('0' as u32)) as char
    } else {
        ((v as u32) - 10 + ('A' as u32)) as char
    }
}

/// Bytes that stand for themselves in an encoded segment: letters, digits and `-._~`.
pub open spec fn is_unreserved(b: u8) -> bool {
    (48 <= b <= 57) || (65 <= b <= 90) || (97 <= b <= 122) || b == 45 || b == 46 || b == 95
        || b == 126
}

pub open spec fn prepend(p: Seq<u8>, rest: Option<Seq<u8>>) -> Option<Seq<u8>> {
    match rest {
        Some(r) => Some(p + r),
        None => None,
    }
}

/// The bytes that a percent-encoded text stands for: `%` and two hex digits
/// give one byte, an ASCII character gives its code; anything else, or a `%`
/// without two hex digits after it, makes the text invalid.
pub open spec fn percent_decoded(s: Seq<char>) -> Option<Seq<u8>>
    decreases s.len(),
{
    if s.len() == 0 {
        Some(Seq::empty())
    } else if s[0] == '%' {
        if s.len() >= 3 && is_hex_digit(s[1]) && is_hex_digit(s[2]) {
            prepend(
                seq![(hex_value(s[1]) * 16 + hex_value(s[2])) as u8],
                percent_decoded(s.subrange(3, s.len() as int)),
            )
        } else {
            None
        }
    } else if (s[0] as u32) < 128 {
        prepend(seq![(s[0] as u32) as u8], percent_decoded(s.subrange(1, s.len() as int)))
    } else {
        None
    }
}

pub open spec fn encoded_byte(b: u8) -> Seq<char> {
    if is_unreserved(b) {
        seq![(b as u32) as char]
    } else {
        seq!['%', hex_char(b / 16), hex_char(b % 16)]
    }
}

/// Percent-encoding of bytes: unreserved bytes as they are, every other byte
/// as `%` and two upper-case hex digits.
pub open spec fn percent_encoded(b: Seq<u8>) -> Seq<char>
    decreases b.len(),
{
    if b.len() == 0 {
        Seq::empty()
    } else {
        encoded_byte(b[0]) + percent_encoded(b.subrange(1, b.len() as int))
    }
}

proof fn lemma_hex_round_trip(v: u8)
    requires
        v < 16,
    ensures
        is_hex_digit(hex_char(v)),
        hex_value(hex_char(v)) == v,
{
}

/// Decoding the encoding of any bytes gives those bytes back.
pub proof fn lemma_percent_round_trip(b: Seq<u8>)
    ensures
        percent_decoded(percent_encoded(b)) == Some(b),
    decreases b.len(),
{
    if b.len() > 0 {
        let rest = b.subrange(1, b.len() as int);
        lemma_percent_round_trip(rest);
        let e = percent_encoded(b);
        let head = encoded_byte(b[0]);
        assert(e == head + percent_encoded(rest));
        if is_unreserved(b[0]) {
            assert(e.subrange(1, e.len() as int) =~= percent_encoded(rest));
            assert(e[0] == head[0]);
        } else {
            lemma_hex_round_trip(b[0] / 16);
            lemma_hex_round_trip(b[0] % 16);
            assert(e.subrange(3, e.len() as int) =~= percent_encoded(rest));
            assert(e[0] == '%' && e[1] == head[1] && e[2] == head[2]);
            assert((hex_value(e[1]) * 16 + hex_value(e[2])) as u8 == b[0]);
        }
        assert(seq![b[0]] + rest =~= b);
    } else {
        assert(percent_encoded(b) =~= Seq::<char>::empty());
        assert(b =~= Seq::<u8>::empty());
    }
}

fn hex_digit_value(c: char) -> (r: Option<u8>)
    ensures
        r is Some <==> is_hex_digit(c),
        r is Some ==> r->Some_0 == hex_value(c),
{
    if '0' <= c && c <= '9' {
        Some(((c as u32) - ('0' as u32)) as u8)
    } else if 'a' <= c && c <= 'f' {
        Some(((c as u32) - ('a' as u32) + 10) as u8)
    } else if 'A' <= c && c <= 'F' {
        Some(((c as u32) - ('A' as u32) + 10) as u8)
    } else {
        None
    }
}

/// Decodes the characters `from..to` of `s`.
pub fn percent_decode_range(s: &str, from: usize, to: usize) -> (r: Option<Vec<u8>>)
    requires
        from <= to <= s@.len(),
    ensures
        match r {
            Some(v) => percent_decoded(s@.subrange(from as int, to as int)) == Some(v@),
            None => percent_decoded(s@.subrange(from as int, to as int)) is None,
        },
{
    let ghost whole = s@.subrange(from as int, to as int);
    let mut out: Vec<u8> = Vec::new();
    let mut i: usize = from;
    while i < to
        invariant
            from <= i <= to <= s@.len(),
            whole == s@.subrange(from as int, to as int),
            percent_decoded(whole) == prepend(out@, percent_decoded(s@.subrange(i as int, to as int))),
        decreases to - i,
    {
        let ghost cur = s@.subrange(i as int, to as int);
        let c = s.get_char(i);
        assert(cur[0] == c);
        if c == '%' {
            if to - i < 3 {
                return None;
            }
            let h = s.get_char(i + 1);
            let l = s.get_char(i + 2);
            assert(cur[1] == h && cur[2] == l);
            match (hex_digit_value(h), hex_digit_value(l)) {
                (Some(hv), Some(lv)) => {
                    let byte: u8 = hv * 16 + lv;
                    assert(cur.subrange(3, cur.len() as int) =~= s@.subrange(i + 3, to as int));
                    proof {
                        let rest = percent_decoded(s@.subrange(i + 3, to as int));
                        if rest is Some {
                            assert(out@.push(byte) + rest->Some_0 =~= out@ + (seq![byte] + rest->Some_0));
                        }
                    }
                    out.push(byte);
                    i = i + 3;
                },
                _ => {
                    return None;
                },
            }
        } else if (c as u32) < 128 {
            let byte: u8 = (c as u32) as u8;
            assert(cur.subrange(1, cur.len() as int) =~= s@.subrange(i + 1, to as int));
            proof {
                let rest = percent_decoded(s@.subrange(i + 1, to as int));
                if rest is Some {
                    assert(out@.push(byte) + rest->Some_0 =~= out@ + (seq![byte] + rest->Some_0));
                }
            }
            out.push(byte);
            i = i + 1;
        } else {
            return None;
        }
    }
    assert(s@.subrange(i as int, to as int) =~= Seq::<char>::empty());
    assert(out@ + Seq::<u8>::empty() =~= out@);
    Some(out)
}

fn hex_digit_char(v: u8) -> (r: char)
    requires
        v < 16,
    ensures
        r == hex_char(v),
{
    if v < 10 {
        (v + 48) as char
    } else {
        (v - 10 + 65) as char
    }
}

fn unreserved(b: u8) -> (r: bool)
    ensures
        r == is_unreserved(b),
{
    (48 <= b && b <= 57) || (65 <= b && b <= 90) || (97 <= b && b <= 122) || b == 45 || b == 46
        || b == 95 || b == 126
}

proof fn lemma_encoded_prefix(b: Seq<u8>, i: int)
    requires
        0 <= i < b.len(),
    ensures
        percent_encoded(b.subrange(0, i + 1)) == percent_encoded(b.subrange(0, i)) + encoded_byte(
            b[i],
        ),
    decreases i,
{
    let p = b.subrange(0, i + 1);
    assert(p.subrange(1, p.len() as int) =~= b.subrange(1, i + 1));
    if i == 0 {
        assert(b.subrange(0, 0) =~= Seq::<u8>::empty());
        assert(b.subrange(1, 1) =~= Seq::<u8>::empty());
        assert(percent_encoded(b.subrange(1, 1)) =~= Seq::<char>::empty());
        assert(percent_encoded(b.subrange(0, 0)) =~= Seq::<char>::empty());
        assert(encoded_byte(b[0]) + Seq::<char>::empty() =~= encoded_byte(b[0]));
        assert(Seq::<char>::empty() + encoded_byte(b[0]) =~= encoded_byte(b[0]));
    } else {
        let t = b.subrange(1, b.len() as int);
        lemma_encoded_prefix(t, i - 1);
        assert(t.subrange(0, i) =~= b.subrange(1, i + 1));
        assert(t.subrange(0, i - 1) =~= b.subrange(1, i));
        let q = b.subrange(0, i);
        assert(q.subrange(1, q.len() as int) =~= b.subrange(1, i));
        assert(q[0] == b[0] && p[0] == b[0]);
        assert(encoded_byte(b[0]) + (percent_encoded(b.subrange(1, i)) + encoded_byte(b[i]))
            =~= (encoded_byte(b[0]) + percent_encoded(b.subrange(1, i))) + encoded_byte(b[i]));
    }
}

/// Percent-encodes bytes: letters, digits and `-._~` as they are, every other
/// byte as `%` and two upper-case hex digits.
pub fn percent_encode(b: &Vec<u8>) -> (r: Vec<char>)
    ensures
        r@ == percent_encoded(b@),
{
    let mut out: Vec<char> = Vec::new();
    let mut i: usize = 0;
    assert(b@.subrange(0, 0) =~= Seq::<u8>::empty());
    assert(percent_encoded(Seq::<u8>::empty()) =~= Seq::<char>::empty());
    while i < b.len()
        invariant
            i <= b.len(),
            out@ == percent_encoded(b@.subrange(0, i as int)),
        decreases b.len() - i,
    {
        let x = b[i];
        proof {
            lemma_encoded_prefix(b@, i as int);
        }
        let ghost prev = out@;
        if unreserved(x) {
            out.push(x as char);
            assert(out@ =~= prev + encoded_byte(x));
        } else {
            out.push('%');
            out.push(hex_digit_char(x / 16));
            out.push(hex_digit_char(x % 16));
            assert(out@ =~= prev + encoded_byte(x));
        }
        i = i + 1;
    }
    assert(b@.subrange(0, i as int) =~= b@);
    out
}

} // verus!
