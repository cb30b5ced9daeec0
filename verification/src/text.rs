//! Character-level text helpers shared by the operand parser, the
//! mnemonic classifier and the label resolver.
//!
//! A source line is handled as a vector of characters; its mathematical
//! model is the `Seq<char>` view of that vector.  Every helper here has a
//! spec-level counterpart on `Seq<char>` so that the parsing functions can
//! state exactly what they return.

use vstd::prelude::*;

verus! {

/// ASCII whitespace, as stripped from the ends of tokens and lines.
pub open spec fn is_space_char(c: char) -> bool {
    c == ' ' || c == '\t' || c == '\r' || c == '\n'
}

/// Decimal digit.
pub open spec fn is_digit_char(c: char) -> bool {
    48 <= c as u32 && c as u32 <= 57
}

/// Numeric value of a decimal digit.
pub open spec fn digit_val(c: char) -> int {
    c as u32 - 48
}

/// ASCII upper-case letter.
pub open spec fn is_upper_char(c: char) -> bool {
    65 <= c as u32 && c as u32 <= 90
}

/// Case-insensitive equality of two characters: equal outright, or equal
/// ASCII letters that differ only in case.
pub open spec fn ci_eq(a: char, b: char) -> bool {
    ||| a == b
    ||| (is_upper_char(a) && b as u32 == a as u32 + 32)
    ||| (is_upper_char(b) && a as u32 == b as u32 + 32)
}

/// `pat` is a case-insensitive prefix of `s`.
pub open spec fn starts_with_ci(s: Seq<char>, pat: Seq<char>) -> bool {
    pat.len() <= s.len() && (forall|i: int| 0 <= i < pat.len() ==> ci_eq(s[i], pat[i]))
}

/// `s` and `pat` match case-insensitively in full.
pub open spec fn eq_ci(s: Seq<char>, pat: Seq<char>) -> bool {
    s.len() == pat.len() && starts_with_ci(s, pat)
}

/// `pat` occurs in `s` starting at position `i`.
pub open spec fn occurs_at(s: Seq<char>, pat: Seq<char>, i: int) -> bool {
    0 <= i && i + pat.len() <= s.len() && (forall|j: int|
        0 <= j < pat.len() ==> s[i + j] == pat[j])
}

/// `pat` occurs somewhere in `s`.
pub open spec fn contains_seq(s: Seq<char>, pat: Seq<char>) -> bool {
    exists|i: int| occurs_at(s, pat, i)
}

/// `c` occurs somewhere in `s`.
pub open spec fn contains_char(s: Seq<char>, c: char) -> bool {
    exists|i: int| 0 <= i < s.len() && s[i] == c
}

/// `s` with every occurrence of `c` removed.
pub open spec fn remove_char(s: Seq<char>, c: char) -> Seq<char>
    decreases s.len(),
{
    if s.len() == 0 {
        Seq::empty()
    } else {
        let rest = remove_char(s.drop_last(), c);
        if s.last() == c {
            rest
        } else {
            rest.push(s.last())
        }
    }
}

/// Case-insensitive equality of two characters.
pub(crate) fn ci_eq_char(a: char, b: char) -> (r: bool)
    ensures
        r == ci_eq(a, b),
{
    let au = a as u32;
    let bu = b as u32;
    a == b || (65 <= au && au <= 90 && bu == au + 32) || (65 <= bu && bu <= 90 && au == bu + 32)
}

/// `pat` is a case-insensitive prefix of `s`.
pub(crate) fn starts_with_ci_chars(s: &Vec<char>, pat: &Vec<char>) -> (r: bool)
    ensures
        r == starts_with_ci(s@, pat@),
{
    if pat.len() > s.len() {
        return false;
    }
    let mut i: usize = 0;
    while i < pat.len()
        invariant
            i <= pat.len() <= s.len(),
            forall|j: int| 0 <= j < i ==> ci_eq(s@[j], pat@[j]),
        decreases pat.len() - i,
    {
        if !ci_eq_char(s[i], pat[i]) {
            return false;
        }
        i += 1;
    }
    true
}

/// `s` and `pat` match case-insensitively in full.
pub(crate) fn eq_ci_chars(s: &Vec<char>, pat: &Vec<char>) -> (r: bool)
    ensures
        r == eq_ci(s@, pat@),
{
    s.len() == pat.len() && starts_with_ci_chars(s, pat)
}

/// `c` occurs somewhere in `s`.
pub(crate) fn contains_char_exec(s: &Vec<char>, c: char) -> (r: bool)
    ensures
        r == contains_char(s@, c),
{
    let mut i: usize = 0;
    while i < s.len()
        invariant
            i <= s.len(),
            forall|j: int| 0 <= j < i ==> s@[j] != c,
        decreases s.len() - i,
    {
        if s[i] == c {
            return true;
        }
        i += 1;
    }
    false
}

/// `pat` occurs somewhere in `s`.
pub(crate) fn contains_seq_exec(s: &Vec<char>, pat: &Vec<char>) -> (r: bool)
    ensures
        r == contains_seq(s@, pat@),
{
    if pat.len() > s.len() {
        assert(forall|i: int| !occurs_at(s@, pat@, i));
        return false;
    }
    let mut i: usize = 0;
    while i <= s.len() - pat.len()
        invariant
            pat.len() <= s.len(),
            i <= s.len() - pat.len() + 1,
            forall|k: int| 0 <= k < i ==> !occurs_at(s@, pat@, k),
        decreases s.len() - i,
    {
        let mut j: usize = 0;
        let mut found = true;
        while j < pat.len()
            invariant
                pat.len() <= s.len(),
                i + pat.len() <= s.len(),
                j <= pat.len(),
                found ==> forall|m: int| 0 <= m < j ==> s@[i + m] == pat@[m],
                !found ==> !occurs_at(s@, pat@, i as int),
            decreases pat.len() - j,
        {
            if s[i + j] != pat[j] {
                found = false;
                j = pat.len();
            } else {
                j += 1;
            }
        }
        if found {
            assert(occurs_at(s@, pat@, i as int));
            return true;
        }
        i += 1;
    }
    assert forall|k: int| !occurs_at(s@, pat@, k) by {
        if 0 <= k && k + pat@.len() <= s@.len() {
            assert(k < i);
        }
    }
    false
}

/// `s` with every occurrence of `c` removed.
pub(crate) fn remove_char_exec(s: &Vec<char>, c: char) -> (r: Vec<char>)
    ensures
        r@ == remove_char(s@, c),
{
    let mut r: Vec<char> = Vec::new();
    let mut i: usize = 0;
    while i < s.len()
        invariant
            i <= s.len(),
            r@ == remove_char(s@.subrange(0, i as int), c),
        decreases s.len() - i,
    {
        proof {
            assert(s@.subrange(0, i + 1).drop_last() =~= s@.subrange(0, i as int));
            assert(s@.subrange(0, i + 1).last() == s@[i as int]);
        }
        if s[i] != c {
            r.push(s[i]);
        }
        i += 1;
    }
    proof {
        assert(s@.subrange(0, s@.len() as int) =~= s@);
    }
    r
}

/// Copy of the subrange `[lo, hi)` of `s`.
pub(crate) fn subvec(s: &Vec<char>, lo: usize, hi: usize) -> (r: Vec<char>)
    requires
        lo <= hi <= s@.len(),
    ensures
        r@ == s@.subrange(lo as int, hi as int),
{
    let mut r: Vec<char> = Vec::new();
    let mut i: usize = lo;
    while i < hi
        invariant
            lo <= i <= hi <= s@.len(),
            r@ == s@.subrange(lo as int, i as int),
        decreases hi - i,
    {
        r.push(s[i]);
        proof {
            assert(r@ =~= s@.subrange(lo as int, i + 1));
        }
        i += 1;
    }
    r
}

/// Exact equality of two character vectors.
pub(crate) fn eq_chars(a: &Vec<char>, b: &Vec<char>) -> (r: bool)
    ensures
        r == (a@ == b@),
{
    if a.len() != b.len() {
        return false;
    }
    let mut i: usize = 0;
    while i < a.len()
        invariant
            a@.len() == b@.len(),
            i <= a@.len(),
            forall|j: int| 0 <= j < i ==> a@[j] == b@[j],
        decreases a@.len() - i,
    {
        if a[i] != b[i] {
            return false;
        }
        i += 1;
    }
    proof {
        assert(a@ =~= b@);
    }
    true
}

/// A vector of one given character.
pub(crate) fn chars1(a: char) -> (r: Vec<char>)
    ensures
        r@ == seq![a],
{
    let mut r: Vec<char> = Vec::new();
    r.push(a);
    proof {
        assert(r@ =~= seq![a]);
    }
    r
}

/// A vector of two given characters.
pub(crate) fn chars2(a: char, b: char) -> (r: Vec<char>)
    ensures
        r@ == seq![a, b],
{
    let mut r: Vec<char> = Vec::new();
    r.push(a);
    r.push(b);
    proof {
        assert(r@ =~= seq![a, b]);
    }
    r
}

/// A vector of three given characters.
pub(crate) fn chars3(a: char, b: char, c: char) -> (r: Vec<char>)
    ensures
        r@ == seq![a, b, c],
{
    let mut r: Vec<char> = Vec::new();
    r.push(a);
    r.push(b);
    r.push(c);
    proof {
        assert(r@ =~= seq![a, b, c]);
    }
    r
}

/// A vector of four given characters.
pub(crate) fn chars4(a: char, b: char, c: char, d: char) -> (r: Vec<char>)
    ensures
        r@ == seq![a, b, c, d],
{
    let mut r: Vec<char> = Vec::new();
    r.push(a);
    r.push(b);
    r.push(c);
    r.push(d);
    proof {
        assert(r@ =~= seq![a, b, c, d]);
    }
    r
}

/// The characters of `s`, in order.
pub fn str_to_chars(s: &str) -> (r: Vec<char>)
    ensures
        r@ == s@,
{
    let n = s.unicode_len();
    let mut r: Vec<char> = Vec::new();
    let mut i: usize = 0;
    while i < n
        invariant
            i <= n == s@.len(),
            r@ == s@.subrange(0, i as int),
        decreases n - i,
    {
        r.push(s.get_char(i));
        proof {
            assert(r@ =~= s@.subrange(0, i + 1));
        }
        i += 1;
    }
    proof {
        assert(s@.subrange(0, s@.len() as int) =~= s@);
    }
    r
}

/// The input with leading whitespace removed.
pub open spec fn trim_start_spec(s: Seq<char>) -> Seq<char>
    decreases s.len(),
{
    if s.len() > 0 && is_space_char(s.first()) {
        trim_start_spec(s.drop_first())
    } else {
        s
    }
}

/// The input with trailing whitespace removed.
pub open spec fn trim_end_spec(s: Seq<char>) -> Seq<char>
    decreases s.len(),
{
    if s.len() > 0 && is_space_char(s.last()) {
        trim_end_spec(s.drop_last())
    } else {
        s
    }
}

/// The input with leading and trailing whitespace removed.
pub open spec fn trim_spec(s: Seq<char>) -> Seq<char> {
    trim_end_spec(trim_start_spec(s))
}

pub proof fn lemma_trim_start_at(s: Seq<char>, k: int)
    requires
        0 <= k <= s.len(),
        forall|i: int| 0 <= i < k ==> is_space_char(s[i]),
        k == s.len() || !is_space_char(s[k]),
    ensures
        trim_start_spec(s) == s.subrange(k, s.len() as int),
    decreases k,
{
    if k == 0 {
        assert(s.subrange(0, s.len() as int) =~= s);
    } else {
        let t = s.drop_first();
        assert(is_space_char(s.first()));
        lemma_trim_start_at(t, k - 1);
        assert(t.subrange(k - 1, t.len() as int) =~= s.subrange(k, s.len() as int));
    }
}

pub proof fn lemma_trim_end_at(s: Seq<char>, k: int)
    requires
        0 <= k <= s.len(),
        forall|i: int| k <= i < s.len() ==> is_space_char(s[i]),
        k == 0 || !is_space_char(s[k - 1]),
    ensures
        trim_end_spec(s) == s.subrange(0, k),
    decreases s.len() - k,
{
    if k == s.len() {
        assert(s.subrange(0, s.len() as int) =~= s);
        if s.len() > 0 {
            assert(!is_space_char(s.last()));
        }
    } else {
        let t = s.drop_last();
        assert(is_space_char(s.last()));
        lemma_trim_end_at(t, k);
        assert(t.subrange(0, k) =~= s.subrange(0, k));
    }
}

/// Trimming changes nothing when both ends are already non-space.
pub proof fn lemma_trim_id(s: Seq<char>)
    requires
        s.len() > 0,
        !is_space_char(s[0]),
        !is_space_char(s.last()),
    ensures
        trim_spec(s) == s,
{
    lemma_trim_start_at(s, 0);
    assert(s.subrange(0, s.len() as int) =~= s);
    lemma_trim_end_at(s, s.len() as int);
}

/// Whitespace test, one character.
pub(crate) fn is_space_exec(c: char) -> (r: bool)
    ensures
        r == is_space_char(c),
{
    c == ' ' || c == '\t' || c == '\r' || c == '\n'
}

/// Copy of `s` with leading and trailing whitespace removed.
pub(crate) fn trim_chars(s: &Vec<char>) -> (r: Vec<char>)
    ensures
        r@ == trim_spec(s@),
{
    let mut lo: usize = 0;
    while lo < s.len() && is_space_exec(s[lo])
        invariant
            lo <= s.len(),
            forall|i: int| 0 <= i < lo ==> is_space_char(s@[i]),
        decreases s.len() - lo,
    {
        lo += 1;
    }
    let mut hi: usize = s.len();
    while hi > lo && is_space_exec(s[hi - 1])
        invariant
            lo <= hi <= s.len(),
            forall|i: int| hi <= i < s.len() ==> is_space_char(s@[i]),
        decreases hi,
    {
        hi -= 1;
    }
    proof {
        lemma_trim_start_at(s@, lo as int);
        let t = s@.subrange(lo as int, s@.len() as int);
        lemma_trim_end_at(t, hi - lo);
        assert(t.subrange(0, hi - lo) =~= s@.subrange(lo as int, hi as int));
    }
    subvec(s, lo, hi)
}

/// Index of the first occurrence of `c` in `s`, or -1 if there is none.
pub open spec fn find_char(s: Seq<char>, c: char) -> int
    decreases s.len(),
{
    if s.len() == 0 {
        -1
    } else if s.first() == c {
        0
    } else if find_char(s.drop_first(), c) == -1 {
        -1
    } else {
        find_char(s.drop_first(), c) + 1
    }
}

/// `find_char` returns -1 exactly when `c` does not occur, and otherwise
/// the least index holding `c`.
pub proof fn lemma_find_char(s: Seq<char>, c: char)
    ensures
        find_char(s, c) == -1 ==> !contains_char(s, c),
        find_char(s, c) != -1 ==> 0 <= find_char(s, c) < s.len() && s[find_char(s, c)] == c
            && (forall|i: int| 0 <= i < find_char(s, c) ==> s[i] != c),
    decreases s.len(),
{
    if s.len() == 0 {
    } else if s.first() == c {
    } else {
        lemma_find_char(s.drop_first(), c);
        let t = s.drop_first();
        if find_char(t, c) == -1 {
            assert forall|i: int| 0 <= i < s.len() implies s[i] != c by {
                if i > 0 {
                    assert(t[i - 1] == s[i]);
                    assert(!contains_char(t, c));
                }
            }
        } else {
            assert forall|i: int| 0 <= i < find_char(s, c) implies s[i] != c by {
                if i > 0 {
                    assert(t[i - 1] == s[i]);
                }
            }
        }
    }
}

/// From a witness index, `find_char` is pinned down.
pub proof fn lemma_find_char_witness(s: Seq<char>, c: char, k: int)
    requires
        0 <= k < s.len(),
        s[k] == c,
        forall|i: int| 0 <= i < k ==> s[i] != c,
    ensures
        find_char(s, c) == k,
{
    lemma_find_char(s, c);
    if find_char(s, c) == -1 {
        assert(contains_char(s, c));
    } else {
        let j = find_char(s, c);
        if j < k {
            assert(s[j] != c);
        } else if j > k {
            assert(s[k] != c);
        }
    }
}

/// Index of the first occurrence of `c`, if any.
pub(crate) fn find_char_exec(s: &Vec<char>, c: char) -> (r: Option<usize>)
    ensures
        match r {
            Some(i) => find_char(s@, c) == i as int,
            None => find_char(s@, c) == -1,
        },
{
    let mut i: usize = 0;
    while i < s.len()
        invariant
            i <= s.len(),
            forall|j: int| 0 <= j < i ==> s@[j] != c,
        decreases s.len() - i,
    {
        if s[i] == c {
            proof {
                lemma_find_char_witness(s@, c, i as int);
            }
            return Some(i);
        }
        i += 1;
    }
    proof {
        lemma_find_char(s@, c);
        if find_char(s@, c) != -1 {
            assert(s@[find_char(s@, c)] == c);
        }
    }
    None
}

/// The pieces of `s` between occurrences of `sep`, in order.  A string
/// without a separator is a single piece; every separator introduces one
/// more piece, so the result is never empty.
pub open spec fn split_on(s: Seq<char>, sep: char) -> Seq<Seq<char>>
    decreases s.len(),
{
    let i = find_char(s, sep);
    if 0 <= i < s.len() {
        seq![s.subrange(0, i)] + split_on(s.subrange(i + 1, s.len() as int), sep)
    } else {
        seq![s]
    }
}

/// The pieces of `s` between occurrences of `sep`.
pub(crate) fn split_on_exec(s: &Vec<char>, sep: char) -> (r: Vec<Vec<char>>)
    ensures
        r@.len() == split_on(s@, sep).len(),
        forall|k: int| 0 <= k < r@.len() ==> r@[k]@ == split_on(s@, sep)[k],
    decreases s@.len(),
{
    proof {
        lemma_find_char(s@, sep);
    }
    match find_char_exec(s, sep) {
        None => {
            let mut r: Vec<Vec<char>> = Vec::new();
            r.push(subvec(s, 0, s.len()));
            proof {
                assert(s@.subrange(0, s@.len() as int) =~= s@);
            }
            r
        },
        Some(i) => {
            proof {
                assert(0 <= find_char(s@, sep) < s@.len());
            }
            let n = s.len();
            let head = subvec(s, 0, i);
            let tail = subvec(s, i + 1, n);
            let mut r = split_on_exec(&tail, sep);
            r.insert(0, head);
            proof {
                let full = split_on(s@, sep);
                assert(full == seq![s@.subrange(0, i as int)] + split_on(tail@, sep));
                assert forall|k: int| 0 <= k < r@.len() implies r@[k]@ == full[k] by {
                    if k > 0 {
                        assert(r@[k] == r@.subrange(1, r@.len() as int)[k - 1]);
                    }
                }
            }
            r
        },
    }
}

/// All characters of `s` are decimal digits.
pub open spec fn all_digits(s: Seq<char>) -> bool {
    forall|i: int| 0 <= i < s.len() ==> is_digit_char(s[i])
}

/// `s` is a non-empty run of decimal digits.
pub open spec fn is_dec(s: Seq<char>) -> bool {
    s.len() > 0 && all_digits(s)
}

/// Numeric value of a digit string, most significant digit first.
pub open spec fn dec_value(s: Seq<char>) -> int
    decreases s.len(),
{
    if s.len() == 0 {
        0
    } else {
        dec_value(s.drop_last()) * 10 + digit_val(s.last())
    }
}

/// A digit string has a non-negative value.
pub proof fn lemma_dec_value_nonneg(s: Seq<char>)
    requires
        all_digits(s),
    ensures
        dec_value(s) >= 0,
    decreases s.len(),
{
    if s.len() > 0 {
        assert(all_digits(s.drop_last()));
        lemma_dec_value_nonneg(s.drop_last());
    }
}

/// The value of a digit-string prefix never exceeds the value of a longer
/// prefix.
pub proof fn lemma_dec_value_prefix_le(s: Seq<char>, i: int, j: int)
    requires
        all_digits(s),
        0 <= i <= j <= s.len(),
    ensures
        dec_value(s.subrange(0, i)) <= dec_value(s.subrange(0, j)),
    decreases j - i,
{
    if i < j {
        lemma_dec_value_prefix_le(s, i, j - 1);
        let p = s.subrange(0, j);
        assert(p.drop_last() =~= s.subrange(0, j - 1));
        assert(all_digits(s.subrange(0, j - 1)));
        lemma_dec_value_nonneg(s.subrange(0, j - 1));
    }
}

/// Parse a digit string, accepting values up to `bound` only.
pub(crate) fn parse_dec_bounded(s: &Vec<char>, bound: u32) -> (r: Option<u32>)
    ensures
        match r {
            Some(v) => is_dec(s@) && dec_value(s@) == v && v <= bound,
            None => !(is_dec(s@) && dec_value(s@) <= bound),
        },
{
    if s.len() == 0 {
        return None;
    }
    let mut acc: u64 = 0;
    let mut i: usize = 0;
    while i < s.len()
        invariant
            i <= s.len(),
            all_digits(s@.subrange(0, i as int)),
            acc == dec_value(s@.subrange(0, i as int)),
            acc <= bound,
        decreases s.len() - i,
    {
        let c: char = s[i];
        let cu = c as u32;
        if cu < 48 || cu > 57 {
            return None;
        }
        let d: u64 = (cu - 48) as u64;
        proof {
            assert(s@.subrange(0, i + 1).drop_last() =~= s@.subrange(0, i as int));
            assert(s@.subrange(0, i + 1).last() == s@[i as int]);
            assert(is_digit_char(s@[i as int]));
            assert(digit_val(s@[i as int]) == d);
            assert(forall|j: int| 0 <= j < i + 1 ==> is_digit_char(#[trigger] s@.subrange(0, i + 1)[j]));
            assert(dec_value(s@.subrange(0, i + 1)) == acc * 10 + d);
        }
        let next: u64 = acc * 10 + d;
        if next > bound as u64 {
            proof {
                let ghost full = s@;
                if is_dec(full) {
                    lemma_dec_value_prefix_le(full, i + 1, full.len() as int);
                    assert(full.subrange(0, full.len() as int) =~= full);
                }
            }
            return None;
        }
        acc = next;
        i += 1;
    }
    proof {
        assert(s@.subrange(0, s@.len() as int) =~= s@);
    }
    Some(acc as u32)
}

/// `t` is a non-empty run of decimal digits.
pub(crate) fn is_dec_exec(t: &Vec<char>) -> (r: bool)
    ensures
        r == is_dec(t@),
{
    if t.len() == 0 {
        return false;
    }
    let mut i: usize = 0;
    while i < t.len()
        invariant
            i <= t.len(),
            forall|j: int| 0 <= j < i ==> is_digit_char(t@[j]),
        decreases t.len() - i,
    {
        let c: char = t[i];
        let cu = c as u32;
        if cu < 48 || cu > 57 {
            return false;
        }
        i += 1;
    }
    true
}

/// The decimal digit character for `d`.
pub open spec fn digit_char(d: int) -> char {
    if d == 0 {
        '0'
    } else if d == 1 {
        '1'
    } else if d == 2 {
        '2'
    } else if d == 3 {
        '3'
    } else if d == 4 {
        '4'
    } else if d == 5 {
        '5'
    } else if d == 6 {
        '6'
    } else if d == 7 {
        '7'
    } else if d == 8 {
        '8'
    } else {
        '9'
    }
}

/// Decimal rendering of a non-negative number, most significant digit
/// first, without leading zeros (a single zero for 0).
pub open spec fn dec_repr(n: nat) -> Seq<char>
    decreases n,
{
    if n < 10 {
        seq![digit_char(n as int)]
    } else {
        dec_repr(n / 10).push(digit_char(n as int % 10))
    }
}

/// Decimal rendering of a (possibly negative) number: a minus sign
/// followed by the magnitude.
pub open spec fn signed_dec_repr(n: int) -> Seq<char> {
    if n < 0 {
        seq!['-'] + dec_repr((-n) as nat)
    } else {
        dec_repr(n as nat)
    }
}

/// The decimal digit character for `d`.
pub(crate) fn digit_char_exec(d: u32) -> (c: char)
    requires
        d < 10,
    ensures
        c == digit_char(d as int),
{
    if d == 0 {
        '0'
    } else if d == 1 {
        '1'
    } else if d == 2 {
        '2'
    } else if d == 3 {
        '3'
    } else if d == 4 {
        '4'
    } else if d == 5 {
        '5'
    } else if d == 6 {
        '6'
    } else if d == 7 {
        '7'
    } else if d == 8 {
        '8'
    } else {
        '9'
    }
}

/// Decimal rendering of `n`.
pub(crate) fn render_u32(n: u32) -> (r: Vec<char>)
    ensures
        r@ == dec_repr(n as nat),
    decreases n,
{
    if n < 10 {
        let mut r: Vec<char> = Vec::new();
        r.push(digit_char_exec(n));
        proof {
            assert(r@ =~= seq![digit_char(n as int)]);
        }
        r
    } else {
        let mut r = render_u32(n / 10);
        r.push(digit_char_exec(n % 10));
        r
    }
}

/// Rendering a number and reading it back yields the same number.
pub proof fn lemma_dec_repr_value(n: nat)
    ensures
        is_dec(dec_repr(n)),
        dec_value(dec_repr(n)) == n,
    decreases n,
{
    if n < 10 {
        let s = dec_repr(n);
        assert(s.drop_last() =~= Seq::<char>::empty());
        assert(dec_value(Seq::<char>::empty()) == 0);
        assert(s.last() == digit_char(n as int));
        assert(dec_value(s) == digit_val(digit_char(n as int)));
    } else {
        lemma_dec_repr_value(n / 10);
        let p = dec_repr(n / 10);
        let s = dec_repr(n);
        assert(s == p.push(digit_char(n as int % 10)));
        assert(s.drop_last() =~= p);
        assert(s.last() == digit_char(n as int % 10));
        assert(dec_value(s) == dec_value(p) * 10 + digit_val(digit_char(n as int % 10)));
        assert(forall|i: int| 0 <= i < s.len() ==> is_digit_char(s[i]));
    }
}

/// A signed decimal string: an optional minus sign followed by digits.
/// The minus-sign form requires at least one digit after the sign.
pub open spec fn spec_parse_signed(s: Seq<char>) -> Option<int> {
    if s.len() > 0 && s[0] == '-' {
        if is_dec(s.drop_first()) {
            Some(-dec_value(s.drop_first()))
        } else {
            None
        }
    } else if is_dec(s) {
        Some(dec_value(s))
    } else {
        None
    }
}

/// Parse a signed decimal string whose magnitude fits in 32 bits.
pub(crate) fn parse_signed_exec(s: &Vec<char>) -> (r: Option<i64>)
    ensures
        match r {
            Some(v) => spec_parse_signed(s@) == Some(v as int) && -0xFFFF_FFFFi64 <= v
                <= 0xFFFF_FFFFi64,
            None => match spec_parse_signed(s@) {
                Some(n) => !(-0xFFFF_FFFF <= n <= 0xFFFF_FFFF),
                None => true,
            },
        },
{
    if s.len() > 0 && s[0] == '-' {
        let mag = subvec(s, 1, s.len());
        proof {
            assert(mag@ =~= s@.drop_first());
        }
        match parse_dec_bounded(&mag, u32::MAX) {
            Some(v) => Some(-(v as i64)),
            None => {
                proof {
                    if is_dec(s@.drop_first()) {
                        lemma_dec_value_nonneg(s@.drop_first());
                    }
                }
                None
            },
        }
    } else {
        match parse_dec_bounded(s, u32::MAX) {
            Some(v) => Some(v as i64),
            None => {
                proof {
                    if is_dec(s@) {
                        lemma_dec_value_nonneg(s@);
                    }
                }
                None
            },
        }
    }
}

/// Render a signed number whose magnitude fits in 32 bits.
pub(crate) fn render_signed(n: i64) -> (r: Vec<char>)
    requires
        -0xFFFF_FFFFi64 <= n <= 0xFFFF_FFFFi64,
    ensures
        r@ == signed_dec_repr(n as int),
{
    if n < 0 {
        let mut r: Vec<char> = Vec::new();
        r.push('-');
        let mut mag = render_u32((-n) as u32);
        r.append(&mut mag);
        proof {
            assert(r@ =~= seq!['-'] + dec_repr((-(n as int)) as nat));
        }
        r
    } else {
        render_u32(n as u32)
    }
}

/// Rendering a signed number and parsing it back yields the same number.
pub proof fn lemma_signed_repr_parse(n: int)
    requires
        -0xFFFF_FFFF <= n <= 0xFFFF_FFFF,
    ensures
        spec_parse_signed(signed_dec_repr(n)) == Some(n),
{
    if n < 0 {
        let s = signed_dec_repr(n);
        assert(s == seq!['-'] + dec_repr((-n) as nat));
        assert(s[0] == '-');
        assert(s.drop_first() =~= dec_repr((-n) as nat));
        lemma_dec_repr_value((-n) as nat);
    } else {
        lemma_dec_repr_value(n as nat);
        let s = dec_repr(n as nat);
        assert(is_digit_char(s[0]));
    }
}

/// Relies on `String::push`: appends the given character to the end of
/// the string.
#[verifier::external_body]
fn push_char(s: &mut String, c: char)
    ensures
        final(s)@ == old(s)@.push(c),
{
    s.push(c);
}

/// A `String` holding exactly the characters of `v`.
pub fn chars_to_string(v: &Vec<char>) -> (r: String)
    ensures
        r@ == v@,
{
    let mut r = String::new();
    let mut i: usize = 0;
    while i < v.len()
        invariant
            i <= v.len(),
            r@ == v@.subrange(0, i as int),
        decreases v.len() - i,
    {
        push_char(&mut r, v[i]);
        proof {
            assert(r@ =~= v@.subrange(0, i + 1));
        }
        i += 1;
    }
    proof {
        assert(v@.subrange(0, v@.len() as int) =~= v@);
    }
    r
}

} // verus!
