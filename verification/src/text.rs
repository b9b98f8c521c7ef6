//! Text operations of the standard library that the rest of the crate builds
//! on, each with the meaning that contracts elsewhere refer to.
use vstd::prelude::*;

verus! {

/// The lower-case form of a text, as Unicode defines it.
pub uninterp spec fn lowercase(s: Seq<char>) -> Seq<char>;

/// Whether a character is white space, as Unicode lists it.
pub open spec fn is_space(c: char) -> bool {
    let code = c as u32;
    ||| 0x09 <= code <= 0x0d
    ||| code == 0x20
    ||| code == 0x85
    ||| code == 0xa0
    ||| code == 0x1680
    ||| 0x2000 <= code <= 0x200a
    ||| code == 0x2028
    ||| code == 0x2029
    ||| code == 0x202f
    ||| code == 0x205f
    ||| code == 0x3000
}

/// `s` without its leading white space.
pub open spec fn trimmed_start(s: Seq<char>) -> Seq<char>
    decreases s.len(),
{
    if s.len() > 0 && is_space(s[0]) {
        trimmed_start(s.skip(1))
    } else {
        s
    }
}

/// `s` without its trailing white space.
pub open spec fn trimmed_end(s: Seq<char>) -> Seq<char>
    decreases s.len(),
{
    if s.len() > 0 && is_space(s.last()) {
        trimmed_end(s.drop_last())
    } else {
        s
    }
}

/// `s` without its leading and trailing white space.
pub open spec fn trimmed(s: Seq<char>) -> Seq<char> {
    trimmed_end(trimmed_start(s))
}

/// A decimal text has no white space around it.
pub proof fn lemma_decimal_is_trimmed(n: int)
    ensures
        trimmed(decimal(n)) == decimal(n),
{
    lemma_decimal_chars(n);
    let d = decimal(n);
    assert(d[0] == '-' || digit_value(d[0]) is Some);
    assert(d.last() == d[d.len() - 1]);
}

/// Whether `pat` occurs in `s` as a contiguous run.
pub open spec fn occurs_in(pat: Seq<char>, s: Seq<char>) -> bool {
    exists|i: int| 0 <= i <= s.len() - pat.len() && #[trigger] s.subrange(i, i + pat.len()) == pat
}

/// `s` with every occurrence of `from`, taken from the left and without
/// overlap, replaced by `to`.
pub open spec fn replaced(s: Seq<char>, from: Seq<char>, to: Seq<char>) -> Seq<char>
    decreases s.len(),
{
    if from.len() == 0 || s.len() < from.len() {
        s
    } else if from.is_prefix_of(s) {
        to + replaced(s.skip(from.len() as int), from, to)
    } else {
        seq![s[0]] + replaced(s.skip(1), from, to)
    }
}

/// The pieces of `piece + rest` that lie between occurrences of `sep` in
/// `rest`, where `piece` is the part of the current piece already passed.
pub open spec fn split_from(rest: Seq<char>, sep: Seq<char>, piece: Seq<char>) -> Seq<Seq<char>>
    decreases rest.len(),
{
    if sep.len() == 0 || rest.len() < sep.len() {
        seq![piece + rest]
    } else if sep.is_prefix_of(rest) {
        seq![piece] + split_from(rest.skip(sep.len() as int), sep, Seq::empty())
    } else {
        split_from(rest.skip(1), sep, piece.push(rest[0]))
    }
}

/// The pieces of `s` between occurrences of `sep`, taken from the left and
/// without overlap. There is always at least one piece.
pub open spec fn split_by(s: Seq<char>, sep: Seq<char>) -> Seq<Seq<char>> {
    split_from(s, sep, Seq::empty())
}

/// The decimal digit for `d`.
pub open spec fn digit(d: int) -> char {
    if d == 0 {
        '0'
    } else if d == 1 {
        '1'
    } else if d == 2 {
        '2'
    } else if d == 3 {
        '3'
    } else if d == 4 {
        '4'
    } else if d == 5 {
        '5'
    } else if d == 6 {
        '6'
    } else if d == 7 {
        '7'
    } else if d == 8 {
        '8'
    } else {
        '9'
    }
}

/// The decimal digits of `n`, without leading zeros.
pub open spec fn digits(n: nat) -> Seq<char>
    decreases n,
{
    if n < 10 {
        seq![digit(n as int)]
    } else {
        digits(n / 10).push(digit((n % 10) as int))
    }
}

/// The decimal text of `n`, with a minus sign where it is negative.
pub open spec fn decimal(n: int) -> Seq<char> {
    if n < 0 {
        seq!['-'] + digits((-n) as nat)
    } else {
        digits(n as nat)
    }
}

/// The number that a decimal digit stands for.
pub open spec fn digit_value(c: char) -> Option<int> {
    if c == '0' {
        Some(0)
    } else if c == '1' {
        Some(1)
    } else if c == '2' {
        Some(2)
    } else if c == '3' {
        Some(3)
    } else if c == '4' {
        Some(4)
    } else if c == '5' {
        Some(5)
    } else if c == '6' {
        Some(6)
    } else if c == '7' {
        Some(7)
    } else if c == '8' {
        Some(8)
    } else if c == '9' {
        Some(9)
    } else {
        None
    }
}

/// The number that a text of decimal digits denotes. `None` where the text
/// is empty or holds anything but digits.
pub open spec fn digits_value(s: Seq<char>) -> Option<int>
    decreases s.len(),
{
    if s.len() == 0 {
        None
    } else {
        match digit_value(s.last()) {
            None => None,
            Some(d) => if s.len() == 1 {
                Some(d)
            } else {
                match digits_value(s.drop_last()) {
                    Some(v) => Some(10 * v + d),
                    None => None,
                }
            },
        }
    }
}

/// The number that a text denotes: decimal digits, with a plus or a minus
/// sign before them or without.
pub open spec fn signed_value(s: Seq<char>) -> Option<int> {
    if s.len() > 0 && s[0] == '-' {
        match digits_value(s.skip(1)) {
            Some(v) => Some(-v),
            None => None,
        }
    } else if s.len() > 0 && s[0] == '+' {
        digits_value(s.skip(1))
    } else {
        digits_value(s)
    }
}

/// The number that a decimal text denotes, if it denotes one that fits 64
/// bits.
pub open spec fn integer_of(s: Seq<char>) -> Option<i64> {
    match signed_value(s) {
        Some(v) => if -0x8000_0000_0000_0000 <= v <= 0x7fff_ffff_ffff_ffff {
            Some(v as i64)
        } else {
            None
        },
        None => None,
    }
}

/// The digits of a number denote that number, and are digits all.
pub proof fn lemma_digits_read_back(n: nat)
    ensures
        digits_value(digits(n)) == Some(n as int),
        digits(n).len() >= 1,
        forall|i: int| 0 <= i < digits(n).len() ==> digit_value(#[trigger] digits(n)[i]) is Some,
    decreases n,
{
    if n >= 10 {
        lemma_digits_read_back(n / 10);
        let head = digits(n / 10);
        let all = head.push(digit((n % 10) as int));
        assert(all.drop_last() =~= head);
        assert(all.last() == digit((n % 10) as int));
        assert forall|i: int| 0 <= i < all.len() implies digit_value(#[trigger] all[i]) is Some by {
            if i < head.len() {
                assert(all[i] == head[i]);
            }
        }
    }
}

/// A decimal text is made of digits, behind a minus sign where the number
/// is negative.
pub proof fn lemma_decimal_chars(n: int)
    ensures
        decimal(n).len() >= 1,
        forall|i: int|
            0 <= i < decimal(n).len() ==> (#[trigger] decimal(n)[i]) == '-' || digit_value(
                decimal(n)[i],
            ) is Some,
{
    if n < 0 {
        lemma_digits_read_back((-n) as nat);
        let d = digits((-n) as nat);
        assert forall|i: int| 0 <= i < decimal(n).len() implies (#[trigger] decimal(n)[i]) == '-'
            || digit_value(decimal(n)[i]) is Some by {
            if i > 0 {
                assert(decimal(n)[i] == d[i - 1]);
            }
        }
    } else {
        lemma_digits_read_back(n as nat);
    }
}

/// The decimal text of a number denotes that number.
pub proof fn lemma_decimal_reads_back(n: int)
    ensures
        signed_value(decimal(n)) == Some(n),
        -0x8000_0000_0000_0000 <= n <= 0x7fff_ffff_ffff_ffff ==> integer_of(decimal(n)) == Some(
            n as i64,
        ),
{
    if n < 0 {
        lemma_digits_read_back((-n) as nat);
        assert(decimal(n)[0] == '-');
        assert(decimal(n).skip(1) =~= digits((-n) as nat));
    } else {
        lemma_digits_read_back(n as nat);
        assert(digit_value(digits(n as nat)[0]) is Some);
    }
}

/// Different numbers have different decimal texts.
pub proof fn lemma_decimal_is_one_to_one(a: int, b: int)
    requires
        decimal(a) == decimal(b),
    ensures
        a == b,
{
    lemma_decimal_reads_back(a);
    lemma_decimal_reads_back(b);
}

/// Calls `str::to_lowercase`. The result is the lower-case form of `s`; what
/// that form is for a given text is left to the standard library.
#[verifier::external_body]
pub(crate) fn to_lowercase(s: &str) -> (r: String)
    ensures
        r@ == lowercase(s@),
{
    s.to_lowercase()
}

/// Calls `str::replace` with a non-empty text pattern: every match of `from`,
/// found from the left without overlap, gives way to `to`.
#[verifier::external_body]
pub(crate) fn replace(s: &str, from: &str, to: &str) -> (r: String)
    requires
        from@.len() > 0,
    ensures
        r@ == replaced(s@, from@, to@),
{
    s.replace(from, to)
}

/// Calls `str::split` with a non-empty text separator and owns each piece.
#[verifier::external_body]
pub(crate) fn split(s: &str, sep: &str) -> (r: Vec<String>)
    requires
        sep@.len() > 0,
    ensures
        r.deep_view() == split_by(s@, sep@),
{
    s.split(sep).map(|piece| piece.to_string()).collect()
}

/// Calls `str::trim`: the characters with Unicode's property of white
/// space are taken from both ends.
#[verifier::external_body]
pub(crate) fn trim(s: &str) -> (r: String)
    ensures
        r@ == trimmed(s@),
{
    s.trim().to_string()
}

/// Calls `i128::to_string`: the decimal text of `n`.
#[verifier::external_body]
pub(crate) fn decimal_text(n: i128) -> (r: String)
    ensures
        r@ == decimal(n as int),
{
    n.to_string()
}

/// Calls `str::parse` for `i64`: a text denotes a number where it is made
/// of decimal digits, with one sign before them or without, and the number
/// fits 64 bits.
#[verifier::external_body]
pub(crate) fn parse_integer(s: &str) -> (r: Option<i64>)
    ensures
        r == integer_of(s@),
{
    s.parse::<i64>().ok()
}

/// Whether the text `a` stands before the text `b` in the order of the
/// dictionary, character by character.
pub open spec fn text_lt(a: Seq<char>, b: Seq<char>) -> bool
    decreases a.len(),
{
    if b.len() == 0 {
        false
    } else if a.len() == 0 {
        true
    } else if a[0] != b[0] {
        (a[0] as u32) < (b[0] as u32)
    } else {
        text_lt(a.skip(1), b.skip(1))
    }
}

/// Compares two texts with `<`, the order that `str` defines: that of the
/// dictionary, character by character.
#[verifier::external_body]
pub(crate) fn comes_before(a: &str, b: &str) -> (r: bool)
    ensures
        r == text_lt(a@, b@),
{
    a < b
}

/// The text made of `a` followed by `b`.
pub fn concat(a: &str, b: &str) -> (r: String)
    ensures
        r@ == a@ + b@,
{
    let mut out = a.to_owned();
    out.append(b);
    out
}

/// Whether two texts hold the same characters.
pub fn same_text(a: &str, b: &str) -> (r: bool)
    ensures
        r == (a@ == b@),
{
    let x = a.to_owned();
    let y = b.to_owned();
    x == y
}


/// Whether `prefix` is an initial part of `s`.
pub fn starts_with(s: &str, prefix: &str) -> (r: bool)
    ensures
        r == prefix@.is_prefix_of(s@),
{
    let n = s.unicode_len();
    let m = prefix.unicode_len();
    if n < m {
        return false;
    }
    let head = s.substring_char(0, m);
    same_text(head, prefix)
}

/// Whether `pat` occurs somewhere in `s`.
pub fn contains(s: &str, pat: &str) -> (r: bool)
    ensures
        r == occurs_in(pat@, s@),
{
    let n = s.unicode_len();
    let m = pat.unicode_len();
    if n < m {
        return false;
    }
    let last = n - m;
    let mut i: usize = 0;
    loop
        invariant
            m <= n,
            n == s@.len(),
            m == pat@.len(),
            last == n - m,
            i <= last,
            forall|j: int| 0 <= j < i ==> #[trigger] s@.subrange(j, j + m) != pat@,
        decreases last - i,
    {
        let part = s.substring_char(i, i + m);
        if same_text(part, pat) {
            return true;
        }
        if i == last {
            return false;
        }
        i += 1;
    }
}

/// `s` without the initial part `prefix`, where it starts with it.
pub fn strip_prefix(s: &str, prefix: &str) -> (r: Option<String>)
    ensures
        r is Some <==> prefix@.is_prefix_of(s@),
        r is Some ==> r->0@ == s@.skip(prefix@.len() as int),
{
    if starts_with(s, prefix) {
        let from = prefix.unicode_len();
        let to = s.unicode_len();
        let rest = s.substring_char(from, to);
        assert(s@.subrange(from as int, to as int) =~= s@.skip(from as int));
        Some(rest.to_owned())
    } else {
        None
    }
}

/// The parts of `s` before and after the first `mark`, where it holds one.
pub fn split_once(s: &str, mark: char) -> (r: Option<(String, String)>)
    ensures
        match r {
            Some((head, tail)) => !head@.contains(mark) && head@ + seq![mark] + tail@ == s@,
            None => !s@.contains(mark),
        },
{
    let len = s.unicode_len();
    let mut i: usize = 0;
    while i < len
        invariant
            i <= len,
            len == s@.len(),
            forall|j: int| 0 <= j < i ==> s@[j] != mark,
        decreases len - i,
    {
        if s.get_char(i) == mark {
            let head = s.substring_char(0, i);
            let tail = s.substring_char(i + 1, len);
            assert(head@ + seq![mark] + tail@ =~= s@);
            return Some((head.to_owned(), tail.to_owned()));
        }
        i += 1;
    }
    None
}


/// `s` without the final part `suffix`, where it ends with it.
pub fn strip_suffix(s: &str, suffix: &str) -> (r: Option<String>)
    ensures
        r is Some <==> suffix@.is_suffix_of(s@),
        r is Some ==> r->0@ == s@.take(s@.len() - suffix@.len()),
{
    let n = s.unicode_len();
    let m = suffix.unicode_len();
    if n < m {
        return None;
    }
    let tail = s.substring_char(n - m, n);
    if same_text(tail, suffix) {
        let head = s.substring_char(0, n - m);
        assert(s@.subrange(0, n - m) =~= s@.take(n - m));
        Some(head.to_owned())
    } else {
        None
    }
}

/// What follows the first `mark` in `s`, where `s` holds one.
pub open spec fn after_mark(s: Seq<char>, mark: char) -> Option<Seq<char>>
    decreases s.len(),
{
    if s.len() == 0 {
        None
    } else if s[0] == mark {
        Some(s.skip(1))
    } else {
        after_mark(s.skip(1), mark)
    }
}

/// A text without `mark` has nothing after it.
pub proof fn lemma_no_mark(s: Seq<char>, mark: char)
    requires
        !s.contains(mark),
    ensures
        after_mark(s, mark) is None,
    decreases s.len(),
{
    if s.len() > 0 {
        assert(s[0] != mark);
        assert forall|i: int| 0 <= i < s.skip(1).len() implies s.skip(1)[i] != mark by {
            assert(s.skip(1)[i] == s[i + 1]);
        }
        lemma_no_mark(s.skip(1), mark);
    }
}

/// Behind a head without `mark` and the mark itself comes what follows the
/// first mark.
pub proof fn lemma_after_mark(head: Seq<char>, mark: char, tail: Seq<char>)
    requires
        !head.contains(mark),
    ensures
        after_mark(head + seq![mark] + tail, mark) == Some(tail),
    decreases head.len(),
{
    let s = head + seq![mark] + tail;
    if head.len() == 0 {
        assert(s[0] == mark);
        assert(s.skip(1) =~= tail);
    } else {
        assert(s[0] == head[0]);
        assert(head[0] != mark);
        assert forall|i: int| 0 <= i < head.skip(1).len() implies head.skip(1)[i] != mark by {
            assert(head.skip(1)[i] == head[i + 1]);
        }
        assert(s.skip(1) =~= head.skip(1) + seq![mark] + tail);
        lemma_after_mark(head.skip(1), mark, tail);
    }
}

/// What follows the first `mark` in `s`, where `s` holds one.
pub fn after_first(s: &str, mark: char) -> (r: Option<String>)
    ensures
        r.deep_view() == after_mark(s@, mark),
{
    match split_once(s, mark) {
        Some((head, tail)) => {
            proof {
                lemma_after_mark(head@, mark, tail@);
            }
            Some(tail)
        },
        None => {
            proof {
                lemma_no_mark(s@, mark);
            }
            None
        },
    }
}


/// What stands before the first `mark` in `s`; all of `s` where it holds
/// none.
pub open spec fn before_mark(s: Seq<char>, mark: char) -> Seq<char>
    decreases s.len(),
{
    if s.len() == 0 || s[0] == mark {
        Seq::empty()
    } else {
        seq![s[0]] + before_mark(s.skip(1), mark)
    }
}

/// A head without `mark` is what stands before the first mark behind it.
pub proof fn lemma_before_mark(head: Seq<char>, mark: char, tail: Seq<char>)
    requires
        !head.contains(mark),
    ensures
        before_mark(head + seq![mark] + tail, mark) == head,
    decreases head.len(),
{
    let s = head + seq![mark] + tail;
    if head.len() == 0 {
        assert(s[0] == mark);
        assert(head =~= Seq::<char>::empty());
    } else {
        assert(s[0] == head[0]);
        assert(head[0] != mark);
        assert forall|i: int| 0 <= i < head.skip(1).len() implies head.skip(1)[i] != mark by {
            assert(head.skip(1)[i] == head[i + 1]);
        }
        assert(s.skip(1) =~= head.skip(1) + seq![mark] + tail);
        lemma_before_mark(head.skip(1), mark, tail);
        assert(seq![head[0]] + head.skip(1) =~= head);
    }
}

/// What stands before the first `mark` in `s`, where `s` holds one.
pub fn before_first(s: &str, mark: char) -> (r: Option<String>)
    ensures
        r is Some <==> s@.contains(mark),
        r is Some ==> r->0@ == before_mark(s@, mark),
{
    match split_once(s, mark) {
        Some((head, tail)) => {
            proof {
                lemma_before_mark(head@, mark, tail@);
                assert(s@[head@.len() as int] == mark);
            }
            Some(head)
        },
        None => None,
    }
}


/// A text that holds `mark` has something, if only nothing, after it.
pub proof fn lemma_mark_has_rest(s: Seq<char>, mark: char)
    requires
        s.contains(mark),
    ensures
        after_mark(s, mark) is Some,
    decreases s.len(),
{
    if s.len() > 0 && s[0] != mark {
        let i = choose|i: int| 0 <= i < s.len() && s[i] == mark;
        assert(s.skip(1)[i - 1] == mark);
        lemma_mark_has_rest(s.skip(1), mark);
    }
}

} // verus!
