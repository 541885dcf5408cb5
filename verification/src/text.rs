//! Decimal text of integers, as it appears in paths and messages.

use vstd::prelude::*;
use vstd::string::*;

verus! {

/// The character of one decimal digit.
pub open spec fn digit_char(d: nat) -> char
    recommends
        d < 10,
{
    if d == 0 {
        '0'
    } else if d == 1 {
        '1'
    } else if d == 2 {
        '2'
    } else if d == 3 {
        '3'
    } else if d == 4 {
        '4'
    } else if d == 5 {
        '5'
    } else if d == 6 {
        '6'
    } else if d == 7 {
        '7'
    } else if d == 8 {
        '8'
    } else {
        '9'
    }
}

/// The decimal digits of `n`, most significant first, without leading zeros.
pub open spec fn decimal(n: nat) -> Seq<char>
    decreases n,
{
    if n < 10 {
        seq![digit_char(n)]
    } else {
        decimal(n / 10).push(digit_char(n % 10))
    }
}

/// The decimal text of a signed number: a minus sign before a negative one.
pub open spec fn signed_decimal(n: int) -> Seq<char> {
    if n < 0 {
        seq!['-'] + decimal((-n) as nat)
    } else {
        decimal(n as nat)
    }
}

/// The digits of `n`, least significant first.
spec fn digits_reversed(n: nat) -> Seq<u8>
    decreases n,
{
    if n < 10 {
        seq![n as u8]
    } else {
        seq![(n % 10) as u8] + digits_reversed(n / 10)
    }
}

/// The text of the digits `ds[0..k]`, read from the last to the first.
spec fn text_of_reversed(ds: Seq<u8>, k: int) -> Seq<char>
    decreases k,
{
    if k <= 0 {
        Seq::empty()
    } else {
        seq![digit_char(ds[k - 1] as nat)] + text_of_reversed(ds, k - 1)
    }
}

/// Reading the reversed digits of `n` backwards gives its decimal text.
proof fn lemma_reversed_is_decimal(n: nat)
    ensures
        digits_reversed(n).len() >= 1,
        forall|i: int| 0 <= i < digits_reversed(n).len() ==> digits_reversed(n)[i] < 10,
        text_of_reversed(digits_reversed(n), digits_reversed(n).len() as int) == decimal(n),
    decreases n,
{
    let ds = digits_reversed(n);
    if n < 10 {
        assert(ds.len() == 1);
        assert(text_of_reversed(ds, 0) =~= Seq::<char>::empty());
        assert(text_of_reversed(ds, 1) =~= seq![digit_char(n)]);
    } else {
        let rest = digits_reversed(n / 10);
        lemma_reversed_is_decimal(n / 10);
        lemma_text_of_shift(seq![(n % 10) as u8], rest, rest.len() as int);
        assert(ds == seq![(n % 10) as u8] + rest);
        assert(ds.len() == rest.len() + 1);
        // reading ds backwards: first rest backwards, then the lowest digit
        assert(text_of_reversed(ds, 1) =~= seq![digit_char(n % 10)]) by {
            assert(text_of_reversed(ds, 0) =~= Seq::<char>::empty());
        }
        assert(text_of_reversed(ds, ds.len() as int) =~= decimal(n / 10).push(digit_char(n % 10)));
    }
}

/// Reading `head + tail` backwards down to `head`'s end reads `tail`
/// backwards, and then what is left of `head`.
proof fn lemma_text_of_shift(head: Seq<u8>, tail: Seq<u8>, k: int)
    requires
        0 <= k <= tail.len(),
    ensures
        text_of_reversed(head + tail, head.len() + k) == text_of_reversed(tail, k)
            + text_of_reversed(head + tail, head.len() as int),
    decreases k,
{
    let all = head + tail;
    if k == 0 {
        assert(text_of_reversed(tail, 0) =~= Seq::<char>::empty());
        assert(text_of_reversed(all, head.len() as int) =~= Seq::<char>::empty()
            + text_of_reversed(all, head.len() as int));
    } else {
        lemma_text_of_shift(head, tail, k - 1);
        assert(all[head.len() + k - 1] == tail[k - 1]);
        assert(text_of_reversed(all, head.len() + k) =~= seq![digit_char(tail[k - 1] as nat)]
            + text_of_reversed(all, head.len() + k - 1));
        assert(text_of_reversed(tail, k) =~= seq![digit_char(tail[k - 1] as nat)]
            + text_of_reversed(tail, k - 1));
        assert(seq![digit_char(tail[k - 1] as nat)] + (text_of_reversed(tail, k - 1)
            + text_of_reversed(all, head.len() as int)) =~= (seq![digit_char(tail[k - 1] as nat)]
            + text_of_reversed(tail, k - 1)) + text_of_reversed(all, head.len() as int));
    }
}

/// The text of one digit.
fn digit_str(d: u8) -> (s: &'static str)
    requires
        d < 10,
    ensures
        s@ == seq![digit_char(d as nat)],
{
    proof {
        reveal_strlit("0");
        reveal_strlit("1");
        reveal_strlit("2");
        reveal_strlit("3");
        reveal_strlit("4");
        reveal_strlit("5");
        reveal_strlit("6");
        reveal_strlit("7");
        reveal_strlit("8");
        reveal_strlit("9");
    }
    let s = if d == 0 {
        "0"
    } else if d == 1 {
        "1"
    } else if d == 2 {
        "2"
    } else if d == 3 {
        "3"
    } else if d == 4 {
        "4"
    } else if d == 5 {
        "5"
    } else if d == 6 {
        "6"
    } else if d == 7 {
        "7"
    } else if d == 8 {
        "8"
    } else {
        "9"
    };
    assert(s@ =~= seq![digit_char(d as nat)]);
    s
}

/// Appends the decimal text of `n` to `out`.
pub fn push_decimal(out: &mut String, n: u64)
    ensures
        final(out)@ == old(out)@ + decimal(n as nat),
{
    let mut digits: Vec<u8> = Vec::new();
    let mut rest: u64 = n;
    while rest >= 10
        invariant
            digits@ + digits_reversed(rest as nat) == digits_reversed(n as nat),
            forall|i: int| 0 <= i < digits@.len() ==> digits@[i] < 10,
        decreases rest,
    {
        let d: u8 = (rest % 10) as u8;
        proof {
            let tail = digits_reversed((rest / 10) as nat);
            assert(digits_reversed(rest as nat) == seq![d] + tail);
            assert(digits@.push(d) + tail =~= digits@ + (seq![d] + tail));
        }
        digits.push(d);
        rest = rest / 10;
    }
    proof {
        assert(digits_reversed(rest as nat) == seq![rest as u8]);
        assert(digits@.push(rest as u8) =~= digits@ + seq![rest as u8]);
    }
    digits.push(rest as u8);
    proof {
        lemma_reversed_is_decimal(n as nat);
    }
    let ghost all = digits@;
    let mut k: usize = digits.len();
    proof {
        assert(old(out)@ + text_of_reversed(all, k as int) == old(out)@ + decimal(n as nat));
    }
    while k > 0
        invariant
            k <= digits.len(),
            digits@ == all,
            forall|i: int| 0 <= i < all.len() ==> all[i] < 10,
            out@ + text_of_reversed(all, k as int) == old(out)@ + decimal(n as nat),
        decreases k,
    {
        let ghost before = out@;
        let d = digits[k - 1];
        out.append(digit_str(d));
        proof {
            assert(text_of_reversed(all, k as int) == seq![digit_char(all[k - 1] as nat)]
                + text_of_reversed(all, k - 1));
            assert((before + seq![digit_char(d as nat)]) + text_of_reversed(all, k - 1) =~= before
                + (seq![digit_char(d as nat)] + text_of_reversed(all, k - 1)));
        }
        k = k - 1;
    }
    proof {
        assert(text_of_reversed(all, 0) =~= Seq::<char>::empty());
        assert(out@ + Seq::<char>::empty() =~= out@);
    }
}

/// Appends the decimal text of a signed number to `out`.
pub fn push_signed_decimal(out: &mut String, n: i64)
    ensures
        final(out)@ == old(out)@ + signed_decimal(n as int),
{
    if n < 0 {
        proof {
            reveal_strlit("-");
            assert("-"@ =~= seq!['-']);
        }
        out.append("-");
        let magnitude: u64 = (-(n as i128)) as u64;
        push_decimal(out, magnitude);
        assert(out@ =~= old(out)@ + (seq!['-'] + decimal((-n) as nat)));
    } else {
        push_decimal(out, n as u64);
    }
}

/// The decimal text of `n`.
pub fn decimal_text(n: u64) -> (text: String)
    ensures
        text@ == decimal(n as nat),
{
    let mut text = String::new();
    push_decimal(&mut text, n);
    assert(Seq::<char>::empty() + decimal(n as nat) =~= decimal(n as nat));
    text
}

/// The decimal text of a signed number.
pub fn signed_decimal_text(n: i64) -> (text: String)
    ensures
        text@ == signed_decimal(n as int),
{
    let mut text = String::new();
    push_signed_decimal(&mut text, n);
    assert(Seq::<char>::empty() + signed_decimal(n as int) =~= signed_decimal(n as int));
    text
}

} // verus!

verus! {

/// The texts of a list of strings.
pub open spec fn texts(strings: Seq<String>) -> Seq<Seq<char>> {
    strings.map_values(|s: String| s@)
}

/// `pieces` in one text, with `separator` between each two.
pub open spec fn joined(pieces: Seq<Seq<char>>, separator: Seq<char>) -> Seq<char>
    decreases pieces.len(),
{
    if pieces.len() == 0 {
        Seq::empty()
    } else if pieces.len() == 1 {
        pieces[0]
    } else {
        joined(pieces.drop_last(), separator) + separator + pieces.last()
    }
}

/// Joins `pieces` with `separator` between each two.
pub fn join(pieces: &Vec<String>, separator: &str) -> (text: String)
    ensures
        text@ == joined(texts(pieces@), separator@),
{
    let mut text = String::new();
    let mut i: usize = 0;
    while i < pieces.len()
        invariant
            i <= pieces.len(),
            text@ == joined(texts(pieces@).subrange(0, i as int), separator@),
        decreases pieces.len() - i,
    {
        let ghost before = texts(pieces@).subrange(0, i as int);
        let ghost after = texts(pieces@).subrange(0, i + 1);
        proof {
            assert(after.drop_last() =~= before);
            assert(after.last() == pieces@[i as int]@);
        }
        if i > 0 {
            text.append(separator);
        } else {
            assert(text@ + pieces@[i as int]@ =~= pieces@[i as int]@);
        }
        text.append(pieces[i].as_str());
        i = i + 1;
    }
    proof {
        assert(texts(pieces@).subrange(0, i as int) =~= texts(pieces@));
    }
    text
}

} // verus!
