//! Decimal rendering of frame numbers and rotations inside asset names.

use vstd::prelude::*;

verus! {

/// The ASCII digit for `d` (`d < 10`).
pub open spec fn spec_digit_char(d: nat) -> char {
    if d == 0 { '0' }
    else if d == 1 { '1' }
    else if d == 2 { '2' }
    else if d == 3 { '3' }
    else if d == 4 { '4' }
    else if d == 5 { '5' }
    else if d == 6 { '6' }
    else if d == 7 { '7' }
    else if d == 8 { '8' }
    else { '9' }
}

/// Decimal digits of `n`, most significant first, without leading zeros.
pub open spec fn spec_decimal(n: nat) -> Seq<char>
    decreases n,
{
    if n < 10 {
        seq![spec_digit_char(n)]
    } else {
        spec_decimal(n / 10).push(spec_digit_char(n % 10))
    }
}

/// Decimal digits of `n`, left-padded with `'0'` to at least `width` characters.
pub open spec fn spec_padded_decimal(n: nat, width: nat) -> Seq<char> {
    let digits = spec_decimal(n);
    if digits.len() < width {
        Seq::new((width - digits.len()) as nat, |i: int| '0') + digits
    } else {
        digits
    }
}

/// Number of decimal digits of `n`.
pub open spec fn spec_decimal_len(n: nat) -> nat
    decreases n,
{
    if n < 10 { 1 } else { 1 + spec_decimal_len(n / 10) }
}

proof fn lemma_decimal_len(n: nat)
    ensures
        spec_decimal(n).len() == spec_decimal_len(n),
        1 <= spec_decimal_len(n) <= n + 1,
    decreases n,
{
    if n >= 10 {
        lemma_decimal_len(n / 10);
    }
}

/// The one-character text of digit `d`.
fn digit_text(d: usize) -> (r: &'static str)
    requires
        d < 10,
    ensures
        r@ == seq![spec_digit_char(d as nat)],
{
    proof {
        reveal_strlit("0");
        reveal_strlit("1");
        reveal_strlit("2");
        reveal_strlit("3");
        reveal_strlit("4");
        reveal_strlit("5");
        reveal_strlit("6");
        reveal_strlit("7");
        reveal_strlit("8");
        reveal_strlit("9");
    }
    if d == 0 {
        "0"
    } else if d == 1 {
        "1"
    } else if d == 2 {
        "2"
    } else if d == 3 {
        "3"
    } else if d == 4 {
        "4"
    } else if d == 5 {
        "5"
    } else if d == 6 {
        "6"
    } else if d == 7 {
        "7"
    } else if d == 8 {
        "8"
    } else {
        "9"
    }
}

/// Appends the decimal digits of `n` to `s`.
pub fn push_decimal(s: &mut String, n: usize)
    ensures
        final(s)@ == old(s)@ + spec_decimal(n as nat),
    decreases n,
{
    if n >= 10 {
        push_decimal(s, n / 10);
    }
    let d = digit_text(n % 10);
    s.append(d);
    proof {
        if n >= 10 {
            assert(spec_decimal(n as nat) == spec_decimal((n / 10) as nat).push(
                spec_digit_char((n % 10) as nat),
            ));
        }
    }
}

/// Number of decimal digits of `n`.
fn decimal_len(n: usize) -> (r: usize)
    ensures
        r == spec_decimal(n as nat).len(),
    decreases n,
{
    proof {
        lemma_decimal_len(n as nat);
    }
    if n < 10 {
        1
    } else {
        let inner = decimal_len(n / 10);
        proof {
            lemma_decimal_len(n as nat);
            lemma_decimal_len((n / 10) as nat);
        }
        inner + 1
    }
}

/// Appends the decimal digits of `n`, left-padded with zeros to `width` characters.
pub fn push_padded_decimal(s: &mut String, n: usize, width: usize)
    ensures
        final(s)@ == old(s)@ + spec_padded_decimal(n as nat, width as nat),
{
    let len = decimal_len(n);
    let ghost start = s@;
    let mut pad: usize = 0;
    if len < width {
        while pad < width - len
            invariant
                len < width,
                pad <= width - len,
                s@ == start + Seq::new(pad as nat, |i: int| '0'),
            decreases width - len - pad,
        {
            s.append("0");
            proof {
                reveal_strlit("0");
                assert(s@ =~= start + Seq::new((pad + 1) as nat, |i: int| '0'));
            }
            pad = pad + 1;
        }
    }
    let ghost padded = s@;
    push_decimal(s, n);
    proof {
        if len < width {
            assert(s@ =~= start + (Seq::new((width - len) as nat, |i: int| '0') + spec_decimal(n as nat)));
        } else {
            assert(s@ =~= start + spec_decimal(n as nat));
        }
    }
}

/// `prefix`, then `n` padded to `width` digits, then `suffix`.
pub open spec fn spec_numbered_name(prefix: Seq<char>, n: nat, width: nat, suffix: Seq<char>) -> Seq<char> {
    prefix + spec_padded_decimal(n, width) + suffix
}

/// The concatenation of two texts as a new string.
pub fn concat2(a: &str, b: &str) -> (r: String)
    ensures
        r@ == a@ + b@,
{
    let mut r = String::new();
    r.append(a);
    r.append(b);
    r
}

/// The concatenation of three texts as a new string.
pub fn concat3(a: &str, b: &str, c: &str) -> (r: String)
    ensures
        r@ == a@ + b@ + c@,
{
    let mut r = String::new();
    r.append(a);
    r.append(b);
    r.append(c);
    r
}

/// `prefix`, then `n` padded to `width` digits, then `suffix`.
pub fn numbered_name(prefix: &str, n: usize, width: usize, suffix: &str) -> (r: String)
    ensures
        r@ == spec_numbered_name(prefix@, n as nat, width as nat, suffix@),
{
    let mut r = String::new();
    r.append(prefix);
    push_padded_decimal(&mut r, n, width);
    r.append(suffix);
    r
}

/// The names `prefix`, `n`, `suffix` for every `n` below `count`, in order.
pub fn numbered_names(prefix: &str, count: usize, width: usize, suffix: &str) -> (r: Vec<String>)
    ensures
        r@.len() == count,
        forall|i: int| 0 <= i < count ==> #[trigger] r@[i]@ == spec_numbered_name(prefix@, i as nat, width as nat, suffix@),
{
    let mut r: Vec<String> = Vec::new();
    let mut n: usize = 0;
    while n < count
        invariant
            n <= count,
            r@.len() == n,
            forall|i: int| 0 <= i < n ==> #[trigger] r@[i]@ == spec_numbered_name(prefix@, i as nat, width as nat, suffix@),
        decreases count - n,
    {
        r.push(numbered_name(prefix, n, width, suffix));
        n = n + 1;
    }
    r
}

/// The texts of a list of strings.
pub open spec fn spec_texts(v: Seq<String>) -> Seq<Seq<char>> {
    v.map_values(|s: String| s@)
}

/// The names `prefix`, `n` in plain decimal, `suffix` for every `n` below `count`.
pub open spec fn spec_decimal_names(prefix: Seq<char>, count: nat, suffix: Seq<char>) -> Seq<Seq<char>> {
    Seq::new(count, |i: int| prefix + spec_decimal(i as nat) + suffix)
}

/// The names `prefix`, `n` in plain decimal, `suffix` for every `n` below `count`, in order.
pub fn decimal_names(prefix: &str, count: usize, suffix: &str) -> (r: Vec<String>)
    ensures
        r@.len() == count,
        forall|i: int| 0 <= i < count ==> #[trigger] r@[i]@ == prefix@ + spec_decimal(i as nat) + suffix@,
        spec_texts(r@) == spec_decimal_names(prefix@, count as nat, suffix@),
{
    let r = numbered_names(prefix, count, 1, suffix);
    proof {
        assert forall|i: int| 0 <= i < count implies #[trigger] r@[i]@ == prefix@ + spec_decimal(i as nat) + suffix@ by {
            lemma_decimal_len(i as nat);
        }
        assert(spec_texts(r@) =~= spec_decimal_names(prefix@, count as nat, suffix@));
    }
    r
}

} // verus!
