//! Small verified string-building helpers shared by the rest of the crate.
use vstd::prelude::*;

verus! {

/// Relies on std's `String::push`: appends exactly one character at the end.
#[verifier::external_body]
pub(crate) fn push_char(s: &mut String, c: char)
    ensures
        final(s)@ == old(s)@.push(c),
{
    s.push(c);
}

/// A run of `n` space characters.
pub open spec fn spaces(n: int) -> Seq<char>
    decreases n,
{
    if n <= 0 {
        Seq::empty()
    } else {
        spaces(n - 1).push(' ')
    }
}

/// Appends `count` spaces to `s`.
pub(crate) fn push_spaces(s: &mut String, count: usize)
    ensures
        final(s)@ == old(s)@ + spaces(count as int),
{
    proof {
        assert(s@ =~= old(s)@ + spaces(0));
    }
    let mut k: usize = 0;
    while k < count
        invariant
            k <= count,
            s@ == old(s)@ + spaces(k as int),
        decreases count - k,
    {
        push_char(s, ' ');
        k = k + 1;
        proof {
            assert(s@ =~= old(s)@ + spaces(k as int));
        }
    }
}

pub open spec fn digit_char(d: int) -> char {
    if d == 0 {
        '0'
    } else if d == 1 {
        '1'
    } else if d == 2 {
        '2'
    } else if d == 3 {
        '3'
    } else if d == 4 {
        '4'
    } else if d == 5 {
        '5'
    } else if d == 6 {
        '6'
    } else if d == 7 {
        '7'
    } else if d == 8 {
        '8'
    } else {
        '9'
    }
}

/// Decimal representation of a nonnegative number, most significant digit first.
pub open spec fn dec_rep(n: int) -> Seq<char>
    decreases n,
{
    if n < 10 {
        seq![digit_char(n)]
    } else {
        dec_rep(n / 10).push(digit_char(n % 10))
    }
}

fn digit_to_char(d: usize) -> (c: char)
    requires
        d < 10,
    ensures
        c == digit_char(d as int),
{
    match d {
        0 => '0',
        1 => '1',
        2 => '2',
        3 => '3',
        4 => '4',
        5 => '5',
        6 => '6',
        7 => '7',
        8 => '8',
        _ => '9',
    }
}

/// The characters of `s`, in reverse order.
pub open spec fn rev_chars(s: Seq<char>) -> Seq<char> {
    Seq::new(s.len(), |i: int| s[s.len() - 1 - i])
}

pub proof fn lemma_rev_chars_push(s: Seq<char>, c: char)
    ensures
        rev_chars(s.push(c)) =~= seq![c] + rev_chars(s),
{
}

pub proof fn lemma_rev_chars_cons(c: char, s: Seq<char>)
    ensures
        rev_chars(seq![c] + s) =~= rev_chars(s).push(c),
{
}

/// Renders `n` in decimal, as `n` would print.
pub fn decimal_string(n: usize) -> (s: String)
    ensures
        s@ == dec_rep(n as int),
{
    let mut digits: Vec<char> = Vec::new();
    let mut m: usize = n;
    proof {
        assert(dec_rep(n as int) =~= dec_rep(n as int) + rev_chars(Seq::empty()));
    }
    while m >= 10
        invariant
            dec_rep(n as int) == dec_rep(m as int) + rev_chars(digits@),
        decreases m,
    {
        let ghost pre = digits@;
        let d = m % 10;
        digits.push(digit_to_char(d));
        proof {
            lemma_rev_chars_push(pre, digit_char(d as int));
            assert(dec_rep(m as int) =~= dec_rep((m / 10) as int) + seq![
                digit_char((m % 10) as int),
            ]);
            assert(dec_rep(n as int) =~= dec_rep((m / 10) as int) + rev_chars(digits@));
        }
        m = m / 10;
    }
    let mut s = String::new();
    push_char(&mut s, digit_to_char(m));
    proof {
        assert(digits@.skip(digits@.len() as int) =~= Seq::empty());
        assert(s@ =~= dec_rep(m as int) + rev_chars(digits@.skip(digits@.len() as int)));
    }
    let mut i: usize = digits.len();
    while i > 0
        invariant
            i <= digits@.len(),
            s@ == dec_rep(m as int) + rev_chars(digits@.skip(i as int)),
        decreases i,
    {
        i = i - 1;
        let c = digits[i];
        push_char(&mut s, c);
        proof {
            assert(digits@.skip(i as int) =~= seq![c] + digits@.skip(i + 1));
            lemma_rev_chars_cons(c, digits@.skip(i + 1));
            assert(s@ =~= dec_rep(m as int) + rev_chars(digits@.skip(i as int)));
        }
    }
    proof {
        assert(digits@.skip(0) =~= digits@);
    }
    s
}

} // verus!
