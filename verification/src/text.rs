//! Comparing text.

use vstd::prelude::*;
use vstd::std_specs::iter::IteratorSpec;
use vstd::string::*;
use vstd::utf8::*;

verus! {

/// Whether `prefix` stands at the start of `s`.
pub open spec fn is_prefix_of(prefix: Seq<char>, s: Seq<char>) -> bool {
    prefix.len() <= s.len() && s.subrange(0, prefix.len() as int) == prefix
}

/// Whether two texts are the same.
pub fn text_eq(a: &str, b: &str) -> (same: bool)
    ensures
        same == (a@ == b@),
{
    let x = a.as_bytes();
    let y = b.as_bytes();
    proof {
        encode_utf8_decode_utf8(a@);
        encode_utf8_decode_utf8(b@);
    }
    if x.len() != y.len() {
        return false;
    }
    let mut i: usize = 0;
    while i < x.len()
        invariant
            i <= x.len(),
            x.len() == y.len(),
            x@ == encode_utf8(a@),
            y@ == encode_utf8(b@),
            forall|k: int| 0 <= k < i ==> x@[k] == y@[k],
        decreases x.len() - i,
    {
        if x[i] != y[i] {
            return false;
        }
        i += 1;
    }
    assert(x@ =~= y@);
    true
}

/// Whether `s` starts with `prefix`.
pub fn text_starts_with(s: &str, prefix: &str) -> (b: bool)
    ensures
        b == is_prefix_of(prefix@, s@),
{
    broadcast use vstd::string::group_string_axioms;

    let mut rest = s.chars();
    let mut wanted = prefix.chars();
    let ghost mut head: Seq<char> = Seq::empty();
    let mut b = true;
    assert(head + rest.remaining() =~= s@);
    assert(head + wanted.remaining() =~= prefix@);
    loop
        invariant_except_break
            rest.obeys_prophetic_iter_laws(),
            wanted.obeys_prophetic_iter_laws(),
            wanted.decrease() is Some,
            head + rest.remaining() == s@,
            head + wanted.remaining() == prefix@,
        ensures
            b == is_prefix_of(prefix@, s@),
        decreases wanted.decrease()->0,
    {
        let ghost rest_before = rest.remaining();
        let ghost wanted_before = wanted.remaining();
        match wanted.next() {
            None => {
                assert(head =~= prefix@);
                assert(s@.subrange(0, prefix@.len() as int) =~= head);
                b = true;
                break ;
            },
            Some(w) => {
                assert(wanted_before =~= seq![w] + wanted.remaining());
                assert(prefix@[head.len() as int] == w);
                match rest.next() {
                    None => {
                        assert(head =~= s@);
                        b = false;
                        break ;
                    },
                    Some(c) => {
                        assert(rest_before =~= seq![c] + rest.remaining());
                        assert(s@[head.len() as int] == c);
                        if c != w {
                            assert(prefix@.len() <= s@.len() ==> s@.subrange(
                                0,
                                prefix@.len() as int,
                            )[head.len() as int] == c);
                            b = false;
                            break ;
                        }
                        proof {
                            let longer = head.push(c);
                            assert(longer + rest.remaining() =~= s@);
                            assert(longer + wanted.remaining() =~= prefix@);
                            head = longer;
                        }
                    },
                }
            },
        }
    }
    b
}

/// The characters of a text.
pub fn chars_of(s: &str) -> (chars: Vec<char>)
    ensures
        chars@ == s@,
{
    broadcast use vstd::string::group_string_axioms;

    let mut it = s.chars();
    let mut chars: Vec<char> = Vec::new();
    loop
        invariant_except_break
            it.obeys_prophetic_iter_laws(),
            it.decrease() is Some,
            chars@ + it.remaining() == s@,
        ensures
            chars@ == s@,
        decreases it.decrease()->0,
    {
        let ghost before = it.remaining();
        match it.next() {
            Some(c) => {
                chars.push(c);
                assert(before =~= seq![c] + it.remaining());
                assert(chars@ + it.remaining() =~= s@);
            },
            None => {
                assert(chars@ =~= s@);
                break ;
            },
        }
    }
    chars
}

/// The character of a decimal digit.
pub open spec fn digit_char(d: nat) -> char
    recommends
        d < 10,
{
    if d == 0 {
        '0'
    } else if d == 1 {
        '1'
    } else if d == 2 {
        '2'
    } else if d == 3 {
        '3'
    } else if d == 4 {
        '4'
    } else if d == 5 {
        '5'
    } else if d == 6 {
        '6'
    } else if d == 7 {
        '7'
    } else if d == 8 {
        '8'
    } else {
        '9'
    }
}

/// The decimal digits of a natural number, without leading zeros.
pub open spec fn decimal(n: nat) -> Seq<char>
    decreases n,
{
    if n < 10 {
        seq![digit_char(n)]
    } else {
        decimal(n / 10).push(digit_char(n % 10))
    }
}

/// The decimal text of an integer: a minus sign before the digits of a
/// negative one.
pub open spec fn signed_decimal(i: int) -> Seq<char> {
    if i < 0 {
        seq!['-'] + decimal((-i) as nat)
    } else {
        decimal(i as nat)
    }
}

/// The text of one decimal digit.
fn digit_text(d: u64) -> (t: &'static str)
    requires
        d < 10,
    ensures
        t@ == seq![digit_char(d as nat)],
{
    proof {
        reveal_strlit("0");
        reveal_strlit("1");
        reveal_strlit("2");
        reveal_strlit("3");
        reveal_strlit("4");
        reveal_strlit("5");
        reveal_strlit("6");
        reveal_strlit("7");
        reveal_strlit("8");
        reveal_strlit("9");
    }
    let t = if d == 0 {
        "0"
    } else if d == 1 {
        "1"
    } else if d == 2 {
        "2"
    } else if d == 3 {
        "3"
    } else if d == 4 {
        "4"
    } else if d == 5 {
        "5"
    } else if d == 6 {
        "6"
    } else if d == 7 {
        "7"
    } else if d == 8 {
        "8"
    } else {
        "9"
    };
    assert(t@ =~= seq![digit_char(d as nat)]);
    t
}

/// Appends the decimal digits of a number to a text.
pub fn push_decimal(dest: &mut String, n: u64)
    ensures
        final(dest)@ == old(dest)@ + decimal(n as nat),
    decreases n,
{
    if n < 10 {
        dest.append(digit_text(n));
    } else {
        push_decimal(dest, n / 10);
        dest.append(digit_text(n % 10));
        assert(dest@ =~= old(dest)@ + decimal(n as nat));
    }
}

/// Appends the decimal text of an integer to a text.
pub fn push_signed_decimal(dest: &mut String, i: i64)
    ensures
        final(dest)@ == old(dest)@ + signed_decimal(i as int),
{
    if i < 0 {
        proof {
            reveal_strlit("-");
        }
        dest.append("-");
        let magnitude: u64 = (-(i + 1)) as u64 + 1;
        push_decimal(dest, magnitude);
        assert(dest@ =~= old(dest)@ + signed_decimal(i as int));
    } else {
        push_decimal(dest, i as u64);
    }
}

} // verus!
