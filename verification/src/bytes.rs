//! Separated fields in byte strings.

use vstd::prelude::*;

verus! {

/// The index of the first `sep` at or behind `from`, or the length of `s`
/// where there is none.
pub open spec fn next_sep(s: Seq<u8>, sep: u8, from: int) -> int
    decreases s.len() - from,
{
    if from < 0 || from >= s.len() {
        s.len() as int
    } else if s[from] == sep {
        from
    } else {
        next_sep(s, sep, from + 1)
    }
}

/// Where field `k` of `s` begins, counting from zero: the first field at
/// the start, every other one behind the separator that ends the field
/// before it. Past the last field this is one more than the length.
pub open spec fn field_start(s: Seq<u8>, sep: u8, k: nat) -> int
    decreases k,
{
    if k == 0 {
        0
    } else {
        next_sep(s, sep, field_start(s, sep, (k - 1) as nat)) + 1
    }
}

/// Whether `s` has a field `k`: whether it holds at least `k` separators.
pub open spec fn has_field(s: Seq<u8>, sep: u8, k: nat) -> bool {
    field_start(s, sep, k) <= s.len()
}

/// Field `k` of `s`: the bytes from its start up to the next separator.
pub open spec fn field(s: Seq<u8>, sep: u8, k: nat) -> Seq<u8> {
    s.subrange(field_start(s, sep, k), next_sep(s, sep, field_start(s, sep, k)))
}

/// How often `b` occurs in `s`.
pub open spec fn count_byte(s: Seq<u8>, b: u8) -> nat
    decreases s.len(),
{
    if s.len() == 0 {
        0
    } else if s.last() == b {
        count_byte(s.drop_last(), b) + 1
    } else {
        count_byte(s.drop_last(), b)
    }
}

/// Whether `b` is an ASCII digit.
pub open spec fn is_digit(b: u8) -> bool {
    48 <= b <= 57
}

/// Whether the last byte of `s` is an ASCII digit.
pub open spec fn ends_in_digit(s: Seq<u8>) -> bool {
    s.len() > 0 && is_digit(s.last())
}

/// What `next_sep` finds: no separator lies between `from` and the result,
/// and the result is either a separator or the end.
pub proof fn lemma_next_sep(s: Seq<u8>, sep: u8, from: int)
    requires
        0 <= from <= s.len(),
    ensures
        from <= next_sep(s, sep, from) <= s.len(),
        forall|k: int| from <= k < next_sep(s, sep, from) ==> s[k] != sep,
        next_sep(s, sep, from) < s.len() ==> s[next_sep(s, sep, from)] == sep,
    decreases s.len() - from,
{
    if from < s.len() && s[from] != sep {
        lemma_next_sep(s, sep, from + 1);
    }
}

/// A field never begins before the start of the string, nor further
/// behind its end than one position.
pub proof fn lemma_field_start_bounds(s: Seq<u8>, sep: u8, k: nat)
    ensures
        0 <= field_start(s, sep, k) <= s.len() + 1,
    decreases k,
{
    if k > 0 {
        let before = field_start(s, sep, (k - 1) as nat);
        lemma_field_start_bounds(s, sep, (k - 1) as nat);
        if before <= s.len() {
            lemma_next_sep(s, sep, before);
        }
    }
}

/// A field holds no separator.
pub proof fn lemma_field_has_no_separator(s: Seq<u8>, sep: u8, k: nat)
    requires
        has_field(s, sep, k),
    ensures
        forall|i: int| 0 <= i < field(s, sep, k).len() ==> field(s, sep, k)[i] != sep,
{
    lemma_field_start_bounds(s, sep, k);
    lemma_next_sep(s, sep, field_start(s, sep, k));
}

/// A string that has a field has every field before it.
pub proof fn lemma_fields_are_consecutive(s: Seq<u8>, sep: u8, k: nat)
    requires
        k > 0,
        has_field(s, sep, k),
    ensures
        has_field(s, sep, (k - 1) as nat),
{
    let before = field_start(s, sep, (k - 1) as nat);
    lemma_field_start_bounds(s, sep, (k - 1) as nat);
    if before > s.len() {
        assert(next_sep(s, sep, before) == s.len());
    }
}

/// Finds the first `sep` at or behind `from`.
pub fn find_sep(s: &Vec<u8>, sep: u8, from: usize) -> (at: usize)
    requires
        from <= s@.len(),
    ensures
        at == next_sep(s@, sep, from as int),
        from <= at <= s@.len(),
{
    let mut i: usize = from;
    while i < s.len() && s[i] != sep
        invariant
            from <= i <= s@.len(),
            next_sep(s@, sep, from as int) == next_sep(s@, sep, i as int),
        decreases s@.len() - i,
    {
        i += 1;
    }
    i
}

/// Copies the bytes of `s` from `lo` up to `hi`.
pub fn copy_range(s: &Vec<u8>, lo: usize, hi: usize) -> (part: Vec<u8>)
    requires
        lo <= hi <= s@.len(),
    ensures
        part@ == s@.subrange(lo as int, hi as int),
{
    let mut out: Vec<u8> = Vec::new();
    let mut i: usize = lo;
    while i < hi
        invariant
            lo <= i <= hi <= s@.len(),
            out@ == s@.subrange(lo as int, i as int),
        decreases hi - i,
    {
        out.push(s[i]);
        assert(s@.subrange(lo as int, i + 1) =~= s@.subrange(lo as int, i as int).push(s@[i as int]));
        i += 1;
    }
    out
}

/// Counts how often `b` occurs in `s`.
pub fn count_occurrences(s: &Vec<u8>, b: u8) -> (n: usize)
    ensures
        n == count_byte(s@, b),
{
    let mut n: usize = 0;
    let mut i: usize = 0;
    while i < s.len()
        invariant
            i <= s@.len(),
            n == count_byte(s@.take(i as int), b),
            n <= i,
        decreases s@.len() - i,
    {
        assert(s@.take(i + 1).drop_last() =~= s@.take(i as int));
        if s[i] == b {
            n += 1;
        }
        i += 1;
    }
    assert(s@.take(s@.len() as int) =~= s@);
    n
}

/// Tells whether the last byte of `s` is an ASCII digit.
pub fn last_is_digit(s: &Vec<u8>) -> (yes: bool)
    ensures
        yes == ends_in_digit(s@),
{
    let n: usize = s.len();
    n > 0 && 48 <= s[n - 1] && s[n - 1] <= 57
}

} // verus!
