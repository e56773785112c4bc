//! Decimal digit strings: the byte-level representation of unsigned numbers
//! used by the wire protocol (`Content-Length`) and by the jail pid file.

use vstd::prelude::*;

verus! {

pub open spec fn is_digit_byte(b: u8) -> bool {
    48 <= b <= 57
}

pub open spec fn digit_val(b: u8) -> nat {
    (b - 48) as nat
}

pub open spec fn all_digits(s: Seq<u8>) -> bool {
    forall|i: int| 0 <= i < s.len() ==> is_digit_byte(#[trigger] s[i])
}

/// The number denoted by a digit string, most significant digit first.
pub open spec fn dec_value(s: Seq<u8>) -> nat
    decreases s.len(),
{
    if s.len() == 0 {
        0
    } else {
        dec_value(s.drop_last()) * 10 + digit_val(s.last())
    }
}

/// The canonical decimal representation of a number (no leading zeros,
/// except that zero itself is the single digit `'0'`).
pub open spec fn dec_bytes(n: nat) -> Seq<u8>
    decreases n,
{
    if n < 10 {
        seq![(48 + n) as u8]
    } else {
        dec_bytes(n / 10).push((48 + n % 10) as u8)
    }
}

pub proof fn lemma_dec_bytes_all_digits(n: nat)
    ensures
        all_digits(dec_bytes(n)),
        dec_bytes(n).len() >= 1,
    decreases n,
{
    if n >= 10 {
        lemma_dec_bytes_all_digits(n / 10);
        assert forall|i: int| 0 <= i < dec_bytes(n).len() implies is_digit_byte(
            #[trigger] dec_bytes(n)[i],
        ) by {
            if i < dec_bytes(n / 10).len() {
                assert(dec_bytes(n)[i] == dec_bytes(n / 10)[i]);
            }
        }
    }
}

/// Formatting and reading are inverse: the canonical representation of `n`
/// denotes `n`.
pub proof fn lemma_dec_value_of_dec_bytes(n: nat)
    ensures
        dec_value(dec_bytes(n)) == n,
    decreases n,
{
    if n < 10 {
        let s = dec_bytes(n);
        assert(s == seq![(48 + n) as u8]);
        assert(s.drop_last() =~= Seq::<u8>::empty());
        assert(dec_value(s) == dec_value(s.drop_last()) * 10 + digit_val(s.last()));
        assert(digit_val(s.last()) == n);
        assert(dec_value(s) == n);
    } else {
        lemma_dec_value_of_dec_bytes(n / 10);
        assert(dec_bytes(n) == dec_bytes(n / 10).push((48 + n % 10) as u8));
        assert(dec_bytes(n).drop_last() =~= dec_bytes(n / 10));
        assert(dec_bytes(n).last() == (48 + n % 10) as u8);
        assert(digit_val((48 + n % 10) as u8) == n % 10);
        assert(dec_value(dec_bytes(n)) == (n / 10) * 10 + n % 10);
    }
}

/// A digit string denotes at least what any of its prefixes denotes.
pub proof fn lemma_dec_value_prefix(s: Seq<u8>, i: int)
    requires
        0 <= i <= s.len(),
    ensures
        dec_value(s.subrange(0, i)) <= dec_value(s),
    decreases s.len() - i,
{
    if i < s.len() {
        let p = s.subrange(0, i);
        let q = s.subrange(0, i + 1);
        assert(q.drop_last() =~= p);
        assert(dec_value(q) == dec_value(p) * 10 + digit_val(q.last()));
        assert(dec_value(p) * 10 >= dec_value(p));
        lemma_dec_value_prefix(s, i + 1);
    } else {
        assert(s.subrange(0, i) =~= s);
    }
}

/// The canonical decimal representation of `n`, as bytes.
pub fn format_u64(n: u64) -> (r: Vec<u8>)
    ensures
        r@ == dec_bytes(n as nat),
{
    let mut low: Vec<u8> = Vec::new();
    let mut m: u64 = n;
    while m >= 10
        invariant
            dec_bytes(n as nat) =~= dec_bytes(m as nat) + low@.reverse(),
        decreases m,
    {
        let d: u8 = (m % 10) as u8;
        proof {
            let prev = low@;
            assert((prev.push((48 + d) as u8)).reverse() =~= seq![(48 + d) as u8]
                + prev.reverse());
            assert(dec_bytes(m as nat) =~= dec_bytes((m / 10) as nat).push(
                (48 + (m % 10) as nat) as u8,
            ));
            assert(dec_bytes((m / 10) as nat) + (seq![(48 + d) as u8] + prev.reverse())
                =~= (dec_bytes((m / 10) as nat).push((48 + d) as u8)) + prev.reverse());
        }
        low.push(48 + d);
        m = m / 10;
    }
    let mut r: Vec<u8> = Vec::new();
    r.push(48 + (m as u8));
    proof {
        assert(r@ =~= dec_bytes(m as nat));
    }
    let mut i: usize = low.len();
    while i > 0
        invariant
            i <= low.len(),
            r@ =~= dec_bytes(m as nat) + low@.subrange(i as int, low@.len() as int).reverse(),
        decreases i,
    {
        i = i - 1;
        let ghost before = low@.subrange(i as int + 1, low@.len() as int).reverse();
        r.push(low[i]);
        proof {
            assert(low@.subrange(i as int, low@.len() as int).reverse() =~= before.push(
                low@[i as int],
            ));
        }
    }
    proof {
        assert(low@.subrange(0, low@.len() as int) =~= low@);
        assert(r@ =~= dec_bytes(m as nat) + low@.reverse());
    }
    r
}

/// Reads a decimal digit string. Returns the denoted value exactly when the
/// input is a nonempty, all-digit string whose value fits in a `u64`.
pub fn parse_u64(s: &[u8]) -> (r: Option<u64>)
    ensures
        match r {
            Some(v) => s@.len() > 0 && all_digits(s@) && v as nat == dec_value(s@),
            None => s@.len() == 0 || !all_digits(s@) || dec_value(s@) > u64::MAX,
        },
{
    if s.len() == 0 {
        return None;
    }
    let mut acc: u64 = 0;
    let mut i: usize = 0;
    while i < s.len()
        invariant
            0 <= i <= s@.len(),
            all_digits(s@.subrange(0, i as int)),
            acc as nat == dec_value(s@.subrange(0, i as int)),
        decreases s@.len() - i,
    {
        let b = s[i];
        if b < 48 || b > 57 {
            assert(!is_digit_byte(s@[i as int]));
            return None;
        }
        let d: u64 = (b - 48) as u64;
        let ghost pre = s@.subrange(0, i as int);
        let ghost cur = s@.subrange(0, i as int + 1);
        proof {
            assert(cur.drop_last() =~= pre);
            assert(dec_value(cur) == dec_value(pre) * 10 + digit_val(s@[i as int]));
        }
        if acc > (u64::MAX - d) / 10 {
            proof {
                assert(acc as nat * 10 + d as nat > u64::MAX) by (nonlinear_arith)
                    requires
                        acc as nat > ((u64::MAX - d) as nat) / 10,
                        d <= 9,
                ;
                lemma_dec_value_prefix(s@, i as int + 1);
            }
            return None;
        }
        proof {
            assert(acc as nat * 10 + d as nat <= u64::MAX) by (nonlinear_arith)
                requires
                    acc as nat <= ((u64::MAX - d) as nat) / 10,
                    d <= 9,
            ;
        }
        acc = acc * 10 + d;
        i = i + 1;
        proof {
            assert(all_digits(cur)) by {
                assert(forall|k: int| 0 <= k < cur.len() ==> cur[k] == s@[k]);
            }
        }
    }
    proof {
        assert(s@.subrange(0, s@.len() as int) =~= s@);
    }
    Some(acc)
}

/// Reads a decimal digit string into a `u32`, as the jail pid file holds one.
pub fn parse_u32(s: &[u8]) -> (r: Option<u32>)
    ensures
        match r {
            Some(v) => s@.len() > 0 && all_digits(s@) && v as nat == dec_value(s@),
            None => s@.len() == 0 || !all_digits(s@) || dec_value(s@) > u32::MAX,
        },
{
    match parse_u64(s) {
        Some(v) => {
            if v <= u32::MAX as u64 {
                Some(v as u32)
            } else {
                None
            }
        },
        None => None,
    }
}

} // verus!

verus! {

/// The decimal digit characters.
pub open spec fn digit_char(d: nat) -> char {
    seq!['0', '1', '2', '3', '4', '5', '6', '7', '8', '9'][d as int]
}

/// The canonical decimal representation of a number, as characters.
pub open spec fn dec_chars(n: nat) -> Seq<char>
    decreases n,
{
    if n < 10 {
        seq![digit_char(n)]
    } else {
        dec_chars(n / 10).push(digit_char(n % 10))
    }
}

/// The characters denoted by a string of digit bytes.
pub open spec fn chars_of_digits(s: Seq<u8>) -> Seq<char> {
    Seq::new(s.len(), |i: int| digit_char((s[i] - 48) as nat))
}

pub proof fn lemma_chars_of_dec_bytes(n: nat)
    ensures
        chars_of_digits(dec_bytes(n)) == dec_chars(n),
    decreases n,
{
    if n < 10 {
        assert(chars_of_digits(dec_bytes(n)) =~= dec_chars(n));
    } else {
        lemma_chars_of_dec_bytes(n / 10);
        assert(chars_of_digits(dec_bytes(n)) =~= chars_of_digits(dec_bytes(n / 10)).push(
            digit_char(n % 10),
        ));
    }
}

/// Appends one decimal digit character for the digit byte `b`.
fn push_digit_char(out: &mut String, b: u8)
    requires
        48 <= b <= 57,
    ensures
        final(out)@ == old(out)@ + seq![digit_char((b - 48) as nat)],
{
    if b == 48 {
        proof {
            reveal_strlit("0");
        }
        out.append("0");
    } else if b == 49 {
        proof {
            reveal_strlit("1");
        }
        out.append("1");
    } else if b == 50 {
        proof {
            reveal_strlit("2");
        }
        out.append("2");
    } else if b == 51 {
        proof {
            reveal_strlit("3");
        }
        out.append("3");
    } else if b == 52 {
        proof {
            reveal_strlit("4");
        }
        out.append("4");
    } else if b == 53 {
        proof {
            reveal_strlit("5");
        }
        out.append("5");
    } else if b == 54 {
        proof {
            reveal_strlit("6");
        }
        out.append("6");
    } else if b == 55 {
        proof {
            reveal_strlit("7");
        }
        out.append("7");
    } else if b == 56 {
        proof {
            reveal_strlit("8");
        }
        out.append("8");
    } else {
        proof {
            reveal_strlit("9");
        }
        out.append("9");
    }
    proof {
        assert(final(out)@ =~= old(out)@ + seq![digit_char((b - 48) as nat)]);
    }
}

/// The decimal representation of `n` as a string.
pub fn usize_to_string(n: usize) -> (r: String)
    ensures
        r@ == dec_chars(n as nat),
{
    let bytes = format_u64(n as u64);
    proof {
        lemma_dec_bytes_all_digits(n as nat);
        lemma_chars_of_dec_bytes(n as nat);
    }
    let mut out = String::new();
    let mut i: usize = 0;
    while i < bytes.len()
        invariant
            i <= bytes@.len(),
            bytes@ == dec_bytes(n as nat),
            all_digits(bytes@),
            out@ == chars_of_digits(bytes@.subrange(0, i as int)),
        decreases bytes@.len() - i,
    {
        let b = bytes[i];
        proof {
            assert(is_digit_byte(bytes@[i as int]));
        }
        push_digit_char(&mut out, b);
        i = i + 1;
        proof {
            assert(out@ =~= chars_of_digits(bytes@.subrange(0, i as int)));
        }
    }
    proof {
        assert(bytes@.subrange(0, bytes@.len() as int) =~= bytes@);
    }
    out
}

} // verus!
