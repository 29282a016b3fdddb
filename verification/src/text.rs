//! Text helpers shared by the other modules: comparison, concatenation,
//! decimal numbers and splitting on a separator, each with its meaning
//! stated over `Seq<char>`.

use vstd::prelude::*;
use vstd::utf8::*;

verus! {

/// Whether `a` and `b` hold the same characters. Compares the UTF-8 bytes
/// without allocating.
pub fn str_eq(a: &str, b: &str) -> (same: bool)
    ensures
        same == (a@ == b@),
{
    let x = a.as_bytes();
    let y = b.as_bytes();
    proof {
        encode_utf8_decode_utf8(a@);
        encode_utf8_decode_utf8(b@);
    }
    if x.len() != y.len() {
        return false;
    }
    let mut i: usize = 0;
    while i < x.len()
        invariant
            i <= x.len(),
            x.len() == y.len(),
            x@ == encode_utf8(a@),
            y@ == encode_utf8(b@),
            forall|k: int| 0 <= k < i ==> x@[k] == y@[k],
        decreases x.len() - i,
    {
        if x[i] != y[i] {
            return false;
        }
        i += 1;
    }
    assert(x@ =~= y@);
    true
}

/// `a` followed by `b`.
pub fn joined(a: &str, b: &str) -> (both: String)
    ensures
        both@ == a@ + b@,
{
    let mut both = a.to_owned();
    both.append(b);
    both
}

/// The characters of `s`, in order.
pub fn chars_of(s: &str) -> (chars: Vec<char>)
    ensures
        chars@ == s@,
{
    let mut chars: Vec<char> = Vec::new();
    for c in it: s.chars()
        invariant
            it.seq() == s@,
            chars@ == s@.take(it.index() as int),
    {
        chars.push(c);
    }
    chars
}

/// Whether `s` begins with `prefix`.
pub open spec fn starts_with(s: Seq<char>, prefix: Seq<char>) -> bool {
    prefix.len() <= s.len() && s.take(prefix.len() as int) == prefix
}

/// What follows `prefix` in `s`, where `s` begins with it.
pub fn strip_prefix(s: &str, prefix: &str) -> (rest: Option<String>)
    ensures
        match rest {
            Some(r) => starts_with(s@, prefix@) && r@ == s@.skip(prefix@.len() as int),
            None => !starts_with(s@, prefix@),
        },
{
    let chars = chars_of(s);
    let wanted = chars_of(prefix);
    if wanted.len() > chars.len() {
        return None;
    }
    let mut i: usize = 0;
    while i < wanted.len()
        invariant
            i <= wanted.len() <= chars.len(),
            chars@ == s@,
            wanted@ == prefix@,
            forall|k: int| 0 <= k < i ==> chars@[k] == wanted@[k],
        decreases wanted.len() - i,
    {
        if chars[i] != wanted[i] {
            return None;
        }
        i += 1;
    }
    proof {
        assert(s@.take(prefix@.len() as int) =~= prefix@);
    }
    Some(s.substring_char(wanted.len(), chars.len()).to_owned())
}

/// The decimal digit for `d`, defined for `d < 10`.
pub open spec fn digit(d: nat) -> char {
    if d == 0 {
        '0'
    } else if d == 1 {
        '1'
    } else if d == 2 {
        '2'
    } else if d == 3 {
        '3'
    } else if d == 4 {
        '4'
    } else if d == 5 {
        '5'
    } else if d == 6 {
        '6'
    } else if d == 7 {
        '7'
    } else if d == 8 {
        '8'
    } else {
        '9'
    }
}

/// `n` written in base ten, without leading zeros.
pub open spec fn decimal(n: nat) -> Seq<char>
    decreases n,
{
    if n < 10 {
        seq![digit(n)]
    } else {
        decimal(n / 10).push(digit(n % 10))
    }
}

fn digit_str(d: usize) -> (s: &'static str)
    requires
        d < 10,
    ensures
        s@ == seq![digit(d as nat)],
{
    proof {
        reveal_strlit("0");
        reveal_strlit("1");
        reveal_strlit("2");
        reveal_strlit("3");
        reveal_strlit("4");
        reveal_strlit("5");
        reveal_strlit("6");
        reveal_strlit("7");
        reveal_strlit("8");
        reveal_strlit("9");
    }
    let s = if d == 0 {
        "0"
    } else if d == 1 {
        "1"
    } else if d == 2 {
        "2"
    } else if d == 3 {
        "3"
    } else if d == 4 {
        "4"
    } else if d == 5 {
        "5"
    } else if d == 6 {
        "6"
    } else if d == 7 {
        "7"
    } else if d == 8 {
        "8"
    } else {
        "9"
    };
    s
}

/// `n` in base ten.
pub fn decimal_string(n: usize) -> (text: String)
    ensures
        text@ == decimal(n as nat),
    decreases n,
{
    if n < 10 {
        digit_str(n).to_owned()
    } else {
        let mut text = decimal_string(n / 10);
        text.append(digit_str(n % 10));
        text
    }
}

/// Every character of a decimal number is one of the ten digits.
pub proof fn lemma_decimal_digits(n: nat)
    ensures
        decimal(n).len() >= 1,
        forall|i: int| 0 <= i < decimal(n).len() ==> '0' <= #[trigger] decimal(n)[i] <= '9',
    decreases n,
{
    if n >= 10 {
        lemma_decimal_digits(n / 10);
    }
}

/// The number that a digit stands for.
pub open spec fn digit_value(c: char) -> nat {
    if c == '1' {
        1
    } else if c == '2' {
        2
    } else if c == '3' {
        3
    } else if c == '4' {
        4
    } else if c == '5' {
        5
    } else if c == '6' {
        6
    } else if c == '7' {
        7
    } else if c == '8' {
        8
    } else if c == '9' {
        9
    } else {
        0
    }
}

/// The number that a run of digits stands for in base ten.
pub open spec fn decimal_value(digits: Seq<char>) -> nat
    decreases digits.len(),
{
    if digits.len() == 0 {
        0
    } else {
        decimal_value(digits.drop_last()) * 10 + digit_value(digits.last())
    }
}

/// Reading a number written in base ten gives the number back.
pub proof fn lemma_decimal_value(n: nat)
    ensures
        decimal_value(decimal(n)) == n,
    decreases n,
{
    if n < 10 {
        assert(decimal(n).drop_last() =~= Seq::<char>::empty());
        assert(decimal_value(Seq::<char>::empty()) == 0);
    } else {
        lemma_decimal_value(n / 10);
        assert(decimal(n).drop_last() =~= decimal(n / 10));
    }
}

/// Two numbers that are written alike are the same number.
pub proof fn lemma_decimal_injective(a: nat, b: nat)
    requires
        decimal(a) == decimal(b),
    ensures
        a == b,
{
    lemma_decimal_value(a);
    lemma_decimal_value(b);
}

/// The pieces of `s` between occurrences of `sep`. There is always at least
/// one piece; a separator at either end leaves an empty piece there.
pub open spec fn split(s: Seq<char>, sep: char) -> Seq<Seq<char>>
    decreases s.len(),
{
    if s.len() == 0 {
        seq![Seq::<char>::empty()]
    } else {
        let before = split(s.drop_last(), sep);
        if s.last() == sep {
            before.push(Seq::<char>::empty())
        } else {
            before.drop_last().push(before.last().push(s.last()))
        }
    }
}

/// `pieces` written one after another with `sep` between neighbours.
pub open spec fn join(pieces: Seq<Seq<char>>, sep: char) -> Seq<char>
    decreases pieces.len(),
{
    if pieces.len() == 0 {
        Seq::<char>::empty()
    } else if pieces.len() == 1 {
        pieces[0]
    } else {
        join(pieces.drop_last(), sep).push(sep) + pieces.last()
    }
}

/// Splitting never yields an empty list and no piece holds the separator.
pub proof fn lemma_split_pieces(s: Seq<char>, sep: char)
    ensures
        split(s, sep).len() >= 1,
        forall|k: int, i: int|
            0 <= k < split(s, sep).len() && 0 <= i < split(s, sep)[k].len() ==> split(
                s,
                sep,
            )[k][i] != sep,
    decreases s.len(),
{
    if s.len() > 0 {
        lemma_split_pieces(s.drop_last(), sep);
    }
}

/// Joining the pieces of a split with the same separator gives the text back.
pub proof fn lemma_join_split(s: Seq<char>, sep: char)
    ensures
        join(split(s, sep), sep) == s,
    decreases s.len(),
{
    if s.len() > 0 {
        let front = s.drop_last();
        let before = split(front, sep);
        lemma_split_pieces(front, sep);
        lemma_join_split(front, sep);
        let now = split(s, sep);
        if s.last() == sep {
            assert(now.drop_last() =~= before);
        } else if before.len() > 1 {
            assert(now.drop_last() =~= before.drop_last());
            assert(join(now, sep) =~= join(before, sep).push(s.last()));
        }
    }
}

/// Splits `s` at every `sep`.
pub fn split_text(s: &str, sep: char) -> (pieces: Vec<String>)
    ensures
        pieces.deep_view() == split(s@, sep),
{
    let chars = chars_of(s);
    let n = chars.len();
    let mut pieces: Vec<String> = Vec::new();
    let mut start: usize = 0;
    let mut i: usize = 0;
    proof {
        assert(s@.take(0) =~= Seq::<char>::empty());
    }
    while i < n
        invariant
            chars@ == s@,
            n == chars.len(),
            start <= i <= n,
            split(s@.take(i as int), sep) == pieces.deep_view().push(
                s@.subrange(start as int, i as int),
            ),
        decreases n - i,
    {
        let ghost open = s@.subrange(start as int, i as int);
        proof {
            assert(s@.take(i + 1).drop_last() =~= s@.take(i as int));
        }
        if chars[i] == sep {
            let piece = s.substring_char(start, i).to_owned();
            pieces.push(piece);
            start = i + 1;
            proof {
                assert(s@.subrange(start as int, i + 1) =~= Seq::<char>::empty());
            }
        } else {
            proof {
                assert(s@.subrange(start as int, i + 1) =~= open.push(s@[i as int]));
            }
        }
        i += 1;
    }
    let last = s.substring_char(start, n).to_owned();
    proof {
        assert(s@.take(n as int) =~= s@);
    }
    pieces.push(last);
    pieces
}

} // verus!
