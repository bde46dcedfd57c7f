use vstd::prelude::*;
use crate::text::{
    chars_of, copy_range, is_trimmed, lemma_trim_is_trimmed, lemma_trim_of_trimmed,
    trim, trim_bounds,
};

verus! {

pub open spec fn starts_with(s: Seq<char>, p: Seq<char>) -> bool {
    p.len() <= s.len() && s.subrange(0, p.len() as int) == p
}

pub open spec fn ends_with(s: Seq<char>, p: Seq<char>) -> bool {
    p.len() <= s.len() && s.subrange(s.len() - p.len(), s.len() as int) == p
}

/// The marker that opens and closes a fenced code block.
pub open spec fn fence() -> Seq<char> {
    seq!['`', '`', '`']
}

/// Position of the first `c` in `s`, or -1.
pub open spec fn index_of(s: Seq<char>, c: char) -> int
    decreases s.len(),
{
    if s.len() == 0 {
        -1
    } else if s[0] == c {
        0
    } else {
        let k = index_of(s.drop_first(), c);
        if k < 0 {
            -1
        } else {
            k + 1
        }
    }
}

/// Position of the last `c` in `s`, or -1.
pub open spec fn last_index_of(s: Seq<char>, c: char) -> int
    decreases s.len(),
{
    if s.len() == 0 {
        -1
    } else if s.last() == c {
        s.len() - 1
    } else {
        last_index_of(s.drop_last(), c)
    }
}

pub open spec fn is_fenced(t: Seq<char>) -> bool {
    starts_with(t, fence()) && ends_with(t, fence())
}

pub open spec fn is_backticked(t: Seq<char>) -> bool {
    t.len() >= 2 && t[0] == '`' && t.last() == '`'
}

/// Removes one pair of single backticks around a trimmed text that is not
/// fence-shaped.
pub open spec fn unquote(t: Seq<char>) -> Seq<char> {
    if !is_fenced(t) && is_backticked(t) {
        trim(t.subrange(1, t.len() - 1))
    } else {
        t
    }
}

/// Length of the shell-language word that the text begins with (`sh `,
/// `bash ` or `shell `, tried in that order), or 0.
pub open spec fn shell_prefix_len(t: Seq<char>) -> int {
    if starts_with(t, seq!['s', 'h', ' ']) {
        3
    } else if starts_with(t, seq!['b', 'a', 's', 'h', ' ']) {
        5
    } else if starts_with(t, seq!['s', 'h', 'e', 'l', 'l', ' ']) {
        6
    } else {
        0
    }
}

/// The text has a fence marker at either end, or begins with a shell word.
pub open spec fn has_layer(t: Seq<char>) -> bool {
    starts_with(t, fence()) || ends_with(t, fence()) || shell_prefix_len(t) > 0
}

/// One layer taken off a text that has one. A fenced block keeps what lies
/// between its first and its last line break (nothing, when there is a
/// single one) or, without a line break, what lies between its markers. A
/// lone opening marker goes with the rest of its line (the language tag); a
/// lone closing marker goes. Otherwise the shell word goes.
pub open spec fn peel_layer(t: Seq<char>) -> Seq<char> {
    if is_fenced(t) {
        let a = index_of(t, '\n');
        let b = last_index_of(t, '\n');
        if a >= 0 {
            if a < b {
                t.subrange(a + 1, b)
            } else {
                Seq::empty()
            }
        } else if t.len() >= 6 {
            t.subrange(3, t.len() - 3)
        } else {
            Seq::empty()
        }
    } else if starts_with(t, fence()) {
        let a = index_of(t, '\n');
        if a >= 0 {
            t.subrange(a + 1, t.len() as int)
        } else {
            t.subrange(3, t.len() as int)
        }
    } else if ends_with(t, fence()) {
        t.subrange(0, t.len() - 3)
    } else {
        t.subrange(shell_prefix_len(t), t.len() as int)
    }
}

/// Takes layers off the text, trimming after each, until none is left.
pub open spec fn peel(t: Seq<char>) -> Seq<char>
    decreases t.len(),
    via peel_decreases
{
    if has_layer(t) {
        peel(trim(peel_layer(t)))
    } else {
        t
    }
}

#[via_fn]
proof fn peel_decreases(t: Seq<char>) {
    if has_layer(t) {
        lemma_peel_layer_shortens(t);
        lemma_trim_is_trimmed(peel_layer(t));
    }
}

/// The command held in a model's raw answer.
pub open spec fn sanitize(s: Seq<char>) -> Seq<char> {
    peel(unquote(trim(s)))
}

/// Text on which the sanitizer has nothing left to remove.
pub open spec fn is_clean(t: Seq<char>) -> bool {
    is_trimmed(t) && !has_layer(t) && !is_backticked(t)
}

/// Absolute position of the first `c` in the window `lo..hi` of `v`.
fn find_first(v: &Vec<char>, lo: usize, hi: usize, c: char) -> (r: Option<usize>)
    requires
        lo <= hi <= v@.len(),
    ensures
        match r {
            Some(i) => lo <= i < hi && index_of(v@.subrange(lo as int, hi as int), c) == i - lo,
            None => index_of(v@.subrange(lo as int, hi as int), c) == -1,
        },
{
    let mut i = lo;
    while i < hi
        invariant
            lo <= i <= hi <= v@.len(),
            index_of(v@.subrange(lo as int, hi as int), c) == (if index_of(
                v@.subrange(i as int, hi as int),
                c,
            ) < 0 {
                -1
            } else {
                index_of(v@.subrange(i as int, hi as int), c) + (i - lo)
            }),
        decreases hi - i,
    {
        if v[i] == c {
            return Some(i);
        }
        assert(v@.subrange(i as int, hi as int).drop_first() =~= v@.subrange(i + 1, hi as int));
        i = i + 1;
    }
    None
}

/// Absolute position of the last `c` in the window `lo..hi` of `v`.
fn find_last(v: &Vec<char>, lo: usize, hi: usize, c: char) -> (r: Option<usize>)
    requires
        lo <= hi <= v@.len(),
    ensures
        match r {
            Some(i) => lo <= i < hi && last_index_of(v@.subrange(lo as int, hi as int), c) == i
                - lo,
            None => last_index_of(v@.subrange(lo as int, hi as int), c) == -1,
        },
{
    let mut j = hi;
    while j > lo
        invariant
            lo <= j <= hi <= v@.len(),
            last_index_of(v@.subrange(lo as int, hi as int), c) == last_index_of(
                v@.subrange(lo as int, j as int),
                c,
            ),
        decreases j - lo,
    {
        if v[j - 1] == c {
            return Some(j - 1);
        }
        assert(v@.subrange(lo as int, j as int).drop_last() =~= v@.subrange(lo as int, j - 1));
        j = j - 1;
    }
    None
}

/// Whether the window `lo..hi` of `v` begins with `p`.
fn window_starts_with(v: &Vec<char>, lo: usize, hi: usize, p: &Vec<char>) -> (r: bool)
    requires
        lo <= hi <= v@.len(),
    ensures
        r == starts_with(v@.subrange(lo as int, hi as int), p@),
{
    if p.len() > hi - lo {
        return false;
    }
    let mut k: usize = 0;
    while k < p.len()
        invariant
            lo + p@.len() <= hi <= v@.len(),
            k <= p@.len(),
            forall|m: int| 0 <= m < k ==> v@[lo + m] == p@[m],
        decreases p@.len() - k,
    {
        if v[lo + k] != p[k] {
            assert(v@.subrange(lo as int, hi as int).subrange(0, p@.len() as int)[k as int]
                != p@[k as int]);
            return false;
        }
        k = k + 1;
    }
    assert(v@.subrange(lo as int, hi as int).subrange(0, p@.len() as int) =~= p@);
    true
}

/// Whether the window `lo..hi` of `v` ends with `p`.
fn window_ends_with(v: &Vec<char>, lo: usize, hi: usize, p: &Vec<char>) -> (r: bool)
    requires
        lo <= hi <= v@.len(),
    ensures
        r == ends_with(v@.subrange(lo as int, hi as int), p@),
{
    if p.len() > hi - lo {
        return false;
    }
    let start = hi - p.len();
    let r = window_starts_with(v, start, hi, p);
    assert(v@.subrange(lo as int, hi as int).subrange(start - lo, hi - lo) =~= v@.subrange(
        start as int,
        hi as int,
    ));
    assert(v@.subrange(start as int, hi as int).subrange(0, p@.len() as int) =~= v@.subrange(
        start as int,
        hi as int,
    ));
    r
}

/// The window that `unquote` leaves of the window `lo..hi`.
fn unquote_bounds(v: &Vec<char>, lo: usize, hi: usize) -> (r: (usize, usize))
    requires
        lo <= hi <= v@.len(),
    ensures
        lo <= r.0 <= r.1 <= hi,
        v@.subrange(r.0 as int, r.1 as int) == unquote(v@.subrange(lo as int, hi as int)),
{
    let ghost t = v@.subrange(lo as int, hi as int);
    let fence_marks: Vec<char> = vec!['`', '`', '`'];
    if window_starts_with(v, lo, hi, &fence_marks) && window_ends_with(v, lo, hi, &fence_marks) {
        (lo, hi)
    } else if hi - lo >= 2 && v[lo] == '`' && v[hi - 1] == '`' {
        assert(t.subrange(1, t.len() - 1) =~= v@.subrange(lo + 1, hi - 1));
        trim_bounds(v, lo + 1, hi - 1)
    } else {
        (lo, hi)
    }
}

/// Length of the shell-language word that the window `lo..hi` begins with.
fn shell_prefix_at(v: &Vec<char>, lo: usize, hi: usize) -> (r: usize)
    requires
        lo <= hi <= v@.len(),
    ensures
        r == shell_prefix_len(v@.subrange(lo as int, hi as int)),
        lo + r <= hi,
{
    if window_starts_with(v, lo, hi, &vec!['s', 'h', ' ']) {
        3
    } else if window_starts_with(v, lo, hi, &vec!['b', 'a', 's', 'h', ' ']) {
        5
    } else if window_starts_with(v, lo, hi, &vec!['s', 'h', 'e', 'l', 'l', ' ']) {
        6
    } else {
        0
    }
}

/// Whether the window `lo..hi` of `v` has a layer to take off.
fn has_layer_at(v: &Vec<char>, lo: usize, hi: usize) -> (r: bool)
    requires
        lo <= hi <= v@.len(),
    ensures
        r == has_layer(v@.subrange(lo as int, hi as int)),
{
    let fence_marks: Vec<char> = vec!['`', '`', '`'];
    window_starts_with(v, lo, hi, &fence_marks) || window_ends_with(v, lo, hi, &fence_marks)
        || shell_prefix_at(v, lo, hi) > 0
}

/// The window that `peel_layer` leaves of the window `lo..hi`.
fn peel_layer_bounds(v: &Vec<char>, lo: usize, hi: usize) -> (r: (usize, usize))
    requires
        lo <= hi <= v@.len(),
        has_layer(v@.subrange(lo as int, hi as int)),
    ensures
        lo <= r.0 <= r.1 <= hi,
        v@.subrange(r.0 as int, r.1 as int) == peel_layer(v@.subrange(lo as int, hi as int)),
{
    let ghost t = v@.subrange(lo as int, hi as int);
    let fence_marks: Vec<char> = vec!['`', '`', '`'];
    let opens = window_starts_with(v, lo, hi, &fence_marks);
    let closes = window_ends_with(v, lo, hi, &fence_marks);
    assert(v@.subrange(lo as int, lo as int) =~= Seq::<char>::empty());
    if opens && closes {
        match find_first(v, lo, hi, '\n') {
            Some(a) => match find_last(v, lo, hi, '\n') {
                Some(b) if a < b => {
                    assert(t.subrange(a - lo + 1, b - lo) =~= v@.subrange(a + 1, b as int));
                    (a + 1, b)
                },
                _ => (lo, lo),
            },
            None => if hi - lo >= 6 {
                assert(t.subrange(3, t.len() - 3) =~= v@.subrange(lo + 3, hi - 3));
                (lo + 3, hi - 3)
            } else {
                (lo, lo)
            },
        }
    } else if opens {
        match find_first(v, lo, hi, '\n') {
            Some(a) => {
                assert(t.subrange(a - lo + 1, t.len() as int) =~= v@.subrange(a + 1, hi as int));
                (a + 1, hi)
            },
            None => {
                assert(t.subrange(3, t.len() as int) =~= v@.subrange(lo + 3, hi as int));
                (lo + 3, hi)
            },
        }
    } else if closes {
        assert(t.subrange(0, t.len() - 3) =~= v@.subrange(lo as int, hi - 3));
        (lo, hi - 3)
    } else {
        let p = shell_prefix_at(v, lo, hi);
        assert(t.subrange(p as int, t.len() as int) =~= v@.subrange(lo + p, hi as int));
        (lo + p, hi)
    }
}

/// Strips incidental formatting from a model's answer so that only the
/// command remains: surrounding white space, one pair of backticks around
/// the whole, then fence markers (with the language tag of an opening one)
/// and leading `sh `, `bash ` or `shell ` words, until none is left.
pub fn sanitize_command(response: &str) -> (r: String)
    ensures
        r@ == sanitize(response@),
        is_trimmed(r@),
        !starts_with(r@, fence()),
        !ends_with(r@, fence()),
        shell_prefix_len(r@) == 0,
{
    proof {
        lemma_sanitize_output(response@);
    }
    let v = chars_of(response);
    let n = v.len();
    assert(v@.subrange(0, n as int) =~= v@);
    let (a0, b0) = trim_bounds(&v, 0, n);
    let (a1, b1) = unquote_bounds(&v, a0, b0);
    let ghost start = v@.subrange(a1 as int, b1 as int);
    let mut lo = a1;
    let mut hi = b1;
    while has_layer_at(&v, lo, hi)
        invariant
            lo <= hi <= n == v@.len(),
            peel(v@.subrange(lo as int, hi as int)) == peel(start),
        decreases hi - lo,
    {
        proof {
            lemma_peel_layer_shortens(v@.subrange(lo as int, hi as int));
        }
        let (l2, h2) = peel_layer_bounds(&v, lo, hi);
        let (l3, h3) = trim_bounds(&v, l2, h2);
        lo = l3;
        hi = h3;
    }
    copy_range(response, &v, lo, hi)
}

proof fn lemma_index_of_bound(s: Seq<char>, c: char)
    ensures
        -1 <= index_of(s, c) < s.len(),
    decreases s.len(),
{
    if s.len() > 0 && s[0] != c {
        lemma_index_of_bound(s.drop_first(), c);
    }
}

proof fn lemma_last_index_of_bound(s: Seq<char>, c: char)
    ensures
        -1 <= last_index_of(s, c) < s.len(),
    decreases s.len(),
{
    if s.len() > 0 && s.last() != c {
        lemma_last_index_of_bound(s.drop_last(), c);
    }
}

/// Taking a layer off makes the text strictly shorter.
proof fn lemma_peel_layer_shortens(t: Seq<char>)
    requires
        has_layer(t),
    ensures
        peel_layer(t).len() < t.len(),
{
    lemma_index_of_bound(t, '\n');
    lemma_last_index_of_bound(t, '\n');
}

/// Peeling never lengthens a text, keeps it trimmed, and leaves no layer.
proof fn lemma_peel(t: Seq<char>)
    ensures
        peel(t).len() <= t.len(),
        has_layer(t) ==> peel(t).len() < t.len(),
        is_trimmed(t) ==> is_trimmed(peel(t)),
        !has_layer(peel(t)),
    decreases t.len(),
{
    if has_layer(t) {
        lemma_peel_layer_shortens(t);
        lemma_trim_is_trimmed(peel_layer(t));
        lemma_peel(trim(peel_layer(t)));
    }
}

proof fn lemma_unquote(t: Seq<char>)
    ensures
        unquote(t).len() <= t.len(),
        !is_fenced(t) && is_backticked(t) ==> unquote(t).len() < t.len(),
        is_trimmed(t) ==> is_trimmed(unquote(t)),
{
    if !is_fenced(t) && is_backticked(t) {
        lemma_trim_is_trimmed(t.subrange(1, t.len() - 1));
    }
}

/// What the sanitizer returns has no white space at either end, no fence
/// marker at either end, and does not begin with a shell word.
pub proof fn lemma_sanitize_output(s: Seq<char>)
    ensures
        is_trimmed(sanitize(s)),
        !has_layer(sanitize(s)),
        sanitize(s).len() <= s.len(),
{
    lemma_trim_is_trimmed(s);
    lemma_unquote(trim(s));
    lemma_peel(unquote(trim(s)));
}

/// The texts that the sanitizer leaves unchanged are exactly the clean ones.
pub proof fn lemma_sanitize_fixed_points(s: Seq<char>)
    ensures
        sanitize(s) == s <==> is_clean(s),
{
    lemma_sanitize_output(s);
    if is_trimmed(s) {
        lemma_trim_of_trimmed(s);
        lemma_unquote(s);
        lemma_peel(unquote(s));
        if !is_clean(s) {
            assert(sanitize(s).len() < s.len());
        }
    }
}

/// Sanitizing is idempotent on every text whose sanitized form is not itself
/// wrapped in single backticks (one pair is removed per pass); by
/// `lemma_sanitize_fixed_points` these are the only texts on which it is.
pub proof fn lemma_sanitize_idempotent(s: Seq<char>)
    requires
        !is_backticked(sanitize(s)),
    ensures
        sanitize(sanitize(s)) == sanitize(s),
{
    lemma_sanitize_output(s);
    lemma_sanitize_fixed_points(sanitize(s));
}

} // verus!
