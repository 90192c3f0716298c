use vstd::prelude::*;
use vstd::string::*;

verus! {

/// Lexicographic order of two texts, character by character (by code point),
/// a shorter text ordered before any text it is a prefix of.
pub open spec fn text_cmp(a: Seq<char>, b: Seq<char>) -> core::cmp::Ordering
    decreases a.len(),
{
    if a.len() == 0 && b.len() == 0 {
        core::cmp::Ordering::Equal
    } else if a.len() == 0 {
        core::cmp::Ordering::Less
    } else if b.len() == 0 {
        core::cmp::Ordering::Greater
    } else if (a[0] as u32) < (b[0] as u32) {
        core::cmp::Ordering::Less
    } else if (a[0] as u32) > (b[0] as u32) {
        core::cmp::Ordering::Greater
    } else {
        text_cmp(a.drop_first(), b.drop_first())
    }
}

/// The ordering with its two sides swapped.
pub open spec fn reversed(o: core::cmp::Ordering) -> core::cmp::Ordering {
    match o {
        core::cmp::Ordering::Less => core::cmp::Ordering::Greater,
        core::cmp::Ordering::Equal => core::cmp::Ordering::Equal,
        core::cmp::Ordering::Greater => core::cmp::Ordering::Less,
    }
}

/// Ordering of two integers.
pub open spec fn int_cmp(a: int, b: int) -> core::cmp::Ordering {
    if a < b {
        core::cmp::Ordering::Less
    } else if a > b {
        core::cmp::Ordering::Greater
    } else {
        core::cmp::Ordering::Equal
    }
}

pub fn reverse_ordering(o: core::cmp::Ordering) -> (r: core::cmp::Ordering)
    ensures
        r == reversed(o),
{
    match o {
        core::cmp::Ordering::Less => core::cmp::Ordering::Greater,
        core::cmp::Ordering::Equal => core::cmp::Ordering::Equal,
        core::cmp::Ordering::Greater => core::cmp::Ordering::Less,
    }
}

pub fn compare_i64(a: i64, b: i64) -> (r: core::cmp::Ordering)
    ensures
        r == int_cmp(a as int, b as int),
{
    if a < b {
        core::cmp::Ordering::Less
    } else if a > b {
        core::cmp::Ordering::Greater
    } else {
        core::cmp::Ordering::Equal
    }
}

/// Compares two texts in lexicographic order of their characters.
pub fn compare_text(a: &str, b: &str) -> (r: core::cmp::Ordering)
    ensures
        r == text_cmp(a@, b@),
{
    let la = a.unicode_len();
    let lb = b.unicode_len();
    assert(a@.subrange(0, la as int) =~= a@);
    assert(b@.subrange(0, lb as int) =~= b@);
    let mut i: usize = 0;
    while i < la && i < lb
        invariant
            la == a@.len(),
            lb == b@.len(),
            i <= la,
            i <= lb,
            forall|k: int| 0 <= k < i ==> a@[k] == b@[k],
            text_cmp(a@, b@) == text_cmp(a@.subrange(i as int, la as int), b@.subrange(i as int, lb as int)),
        decreases la - i,
    {
        let ca = a.get_char(i);
        let cb = b.get_char(i);
        let ghost sa = a@.subrange(i as int, la as int);
        let ghost sb = b@.subrange(i as int, lb as int);
        assert(sa[0] == ca && sb[0] == cb);
        if (ca as u32) < (cb as u32) {
            return core::cmp::Ordering::Less;
        } else if (ca as u32) > (cb as u32) {
            return core::cmp::Ordering::Greater;
        }
        assert(ca == cb) by {
            assert((ca as u32) == (cb as u32));
        }
        assert(sa.drop_first() =~= a@.subrange(i + 1, la as int));
        assert(sb.drop_first() =~= b@.subrange(i + 1, lb as int));
        i = i + 1;
    }
    if i == la && i == lb {
        core::cmp::Ordering::Equal
    } else if i == la {
        core::cmp::Ordering::Less
    } else {
        core::cmp::Ordering::Greater
    }
}

/// True when both texts hold the same characters.
pub fn same_text(a: &str, b: &str) -> (r: bool)
    ensures
        r == (a@ == b@),
{
    let la = a.unicode_len();
    let lb = b.unicode_len();
    if la != lb {
        return false;
    }
    let mut i: usize = 0;
    while i < la
        invariant
            la == a@.len(),
            lb == b@.len(),
            la == lb,
            i <= la,
            forall|k: int| 0 <= k < i ==> a@[k] == b@[k],
        decreases la - i,
    {
        if a.get_char(i) != b.get_char(i) {
            return false;
        }
        i = i + 1;
    }
    assert(a@ =~= b@);
    true
}

/// True when `prefix` is a prefix of `s`.
pub fn has_prefix(s: &str, prefix: &Vec<char>) -> (r: bool)
    ensures
        r == (prefix@.len() <= s@.len() && s@.subrange(0, prefix@.len() as int) == prefix@),
{
    let ls = s.unicode_len();
    if prefix.len() > ls {
        return false;
    }
    let mut i: usize = 0;
    while i < prefix.len()
        invariant
            ls == s@.len(),
            prefix@.len() <= ls,
            i <= prefix@.len(),
            forall|k: int| 0 <= k < i ==> s@[k] == prefix@[k],
        decreases prefix@.len() - i,
    {
        if s.get_char(i) != prefix[i] {
            assert(s@.subrange(0, prefix@.len() as int)[i as int] != prefix@[i as int]);
            return false;
        }
        i = i + 1;
    }
    assert(s@.subrange(0, prefix@.len() as int) =~= prefix@);
    true
}

/// Index of the first occurrence of `c` in `s`, if any.
pub fn find_char(s: &str, c: char) -> (r: Option<usize>)
    ensures
        match r {
            Some(i) => i < s@.len() && s@[i as int] == c && !s@.subrange(0, i as int).contains(c),
            None => !s@.contains(c),
        },
{
    let ls = s.unicode_len();
    let mut i: usize = 0;
    while i < ls
        invariant
            ls == s@.len(),
            i <= ls,
            forall|k: int| 0 <= k < i ==> s@[k] != c,
        decreases ls - i,
    {
        if s.get_char(i) == c {
            assert(!s@.subrange(0, i as int).contains(c)) by {
                assert(forall|k: int| 0 <= k < i ==> s@.subrange(0, i as int)[k] == s@[k]);
            }
            return Some(i);
        }
        i = i + 1;
    }
    None
}

/// Index just past the last occurrence of `c` in `s` (0 when `c` does not occur).
pub fn after_last(s: &str, c: char) -> (r: usize)
    ensures
        r <= s@.len(),
        !s@.subrange(r as int, s@.len() as int).contains(c),
        r > 0 ==> s@[r - 1] == c,
        r == 0 ==> !s@.contains(c),
{
    let ls = s.unicode_len();
    let mut i: usize = ls;
    while i > 0
        invariant
            ls == s@.len(),
            i <= ls,
            forall|k: int| i <= k < ls ==> s@[k] != c,
        decreases i,
    {
        if s.get_char(i - 1) == c {
            assert(!s@.subrange(i as int, ls as int).contains(c)) by {
                assert(forall|k: int| 0 <= k < ls - i ==> s@.subrange(i as int, ls as int)[k] == s@[k + i]);
            }
            return i;
        }
        i = i - 1;
    }
    assert(!s@.subrange(0, ls as int).contains(c)) by {
        assert(s@.subrange(0, ls as int) =~= s@);
    }
    assert(s@.subrange(0, ls as int) =~= s@);
    0
}

/// The characters of `s` from `from` (inclusive) to `to` (exclusive), as an owned text.
pub fn slice_text(s: &str, from: usize, to: usize) -> (r: String)
    requires
        from <= to <= s@.len(),
    ensures
        r@ == s@.subrange(from as int, to as int),
{
    String::from_str(s.substring_char(from, to))
}

/// An owned copy of a text.
pub fn owned(s: &str) -> (r: String)
    ensures
        r@ == s@,
{
    String::from_str(s)
}

/// Concatenation of two texts.
pub fn join2(a: &str, b: &str) -> (r: String)
    ensures
        r@ == a@ + b@,
{
    String::from_str(a).concat(b)
}

/// Concatenation of three texts.
pub fn join3(a: &str, b: &str, c: &str) -> (r: String)
    ensures
        r@ == a@ + b@ + c@,
{
    String::from_str(a).concat(b).concat(c)
}

/// Relies on std's `FromIterator<char> for String`: the text holds the characters in order.
#[verifier::external_body]
pub fn string_from_chars(v: &Vec<char>) -> (r: String)
    ensures
        r@ == v@,
{
    v.iter().collect()
}

/// The characters of a text, in order.
pub fn chars_of(s: &str) -> (r: Vec<char>)
    ensures
        r@ == s@,
{
    let ls = s.unicode_len();
    let mut out: Vec<char> = Vec::new();
    let mut i: usize = 0;
    while i < ls
        invariant
            ls == s@.len(),
            i <= ls,
            out@ == s@.subrange(0, i as int),
        decreases ls - i,
    {
        out.push(s.get_char(i));
        i = i + 1;
        assert(out@ =~= s@.subrange(0, i as int));
    }
    assert(s@.subrange(0, ls as int) =~= s@);
    out
}

/// Decimal digits of a natural number.
pub open spec fn digits(n: nat) -> Seq<char>
    decreases n,
{
    if n < 10 {
        seq![digit_char(n)]
    } else {
        digits(n / 10).push(digit_char(n % 10))
    }
}

pub open spec fn digit_char(d: nat) -> char {
    if d == 0 { '0' } else if d == 1 { '1' } else if d == 2 { '2' } else if d == 3 { '3' }
    else if d == 4 { '4' } else if d == 5 { '5' } else if d == 6 { '6' } else if d == 7 { '7' }
    else if d == 8 { '8' } else { '9' }
}

/// Decimal representation of an integer, with a leading '-' when negative.
pub open spec fn decimal(n: int) -> Seq<char> {
    if n < 0 {
        seq!['-'] + digits((-n) as nat)
    } else {
        digits(n as nat)
    }
}

fn digit(d: u128) -> (c: char)
    requires
        d < 10,
    ensures
        c == digit_char(d as nat),
{
    if d == 0 { '0' } else if d == 1 { '1' } else if d == 2 { '2' } else if d == 3 { '3' }
    else if d == 4 { '4' } else if d == 5 { '5' } else if d == 6 { '6' } else if d == 7 { '7' }
    else if d == 8 { '8' } else { '9' }
}

fn digits_of(n: u128) -> (r: Vec<char>)
    ensures
        r@ == digits(n as nat),
    decreases n,
{
    if n < 10 {
        let mut v: Vec<char> = Vec::new();
        v.push(digit(n));
        assert(v@ =~= seq![digit_char(n as nat)]);
        v
    } else {
        let mut v = digits_of(n / 10);
        v.push(digit(n % 10));
        v
    }
}

/// Decimal text of an integer.
pub fn decimal_text(n: i128) -> (r: String)
    requires
        n > i128::MIN,
    ensures
        r@ == decimal(n as int),
{
    if n < 0 {
        let mut v: Vec<char> = Vec::new();
        v.push('-');
        let mut d = digits_of((-n) as u128);
        v.append(&mut d);
        assert(v@ =~= seq!['-'] + digits((-n) as nat));
        string_from_chars(&v)
    } else {
        let v = digits_of(n as u128);
        string_from_chars(&v)
    }
}

/// `n` occurs in `h` at index `i`.
pub open spec fn occurs_at(h: Seq<char>, n: Seq<char>, i: int) -> bool {
    0 <= i && i + n.len() <= h.len() && h.subrange(i, i + n.len()) == n
}

/// `n` occurs somewhere in `h`.
pub open spec fn occurs_in(h: Seq<char>, n: Seq<char>) -> bool {
    exists|i: int| occurs_at(h, n, i)
}

fn matches_at(h: &str, hl: usize, n: &str, nl: usize, i: usize) -> (r: bool)
    requires
        hl == h@.len(),
        nl == n@.len(),
        i + nl <= hl,
    ensures
        r == occurs_at(h@, n@, i as int),
{
    let mut k: usize = 0;
    while k < nl
        invariant
            hl == h@.len(),
            nl == n@.len(),
            i + nl <= hl,
            k <= nl,
            forall|j: int| 0 <= j < k ==> h@[i + j] == n@[j],
        decreases nl - k,
    {
        if h.get_char(i + k) != n.get_char(k) {
            assert(h@.subrange(i as int, i + nl)[k as int] != n@[k as int]);
            return false;
        }
        k = k + 1;
    }
    assert(h@.subrange(i as int, i + nl) =~= n@);
    true
}

/// True when `n` occurs in `h`.
pub fn contains_text(h: &str, n: &str) -> (r: bool)
    ensures
        r == occurs_in(h@, n@),
{
    let hl = h.unicode_len();
    let nl = n.unicode_len();
    if nl > hl {
        return false;
    }
    let last = hl - nl;
    let mut i: usize = 0;
    loop
        invariant
            hl == h@.len(),
            nl == n@.len(),
            last == hl - nl,
            i <= last,
            forall|j: int| 0 <= j < i ==> !occurs_at(h@, n@, j),
        decreases last - i,
    {
        if matches_at(h, hl, n, nl, i) {
            return true;
        }
        if i == last {
            assert forall|j: int| !occurs_at(h@, n@, j) by {
                if 0 <= j && j + nl <= hl {
                    assert(j <= i);
                }
            }
            return false;
        }
        i = i + 1;
    }
}

} // verus!
