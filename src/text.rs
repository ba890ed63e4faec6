//! Text as sequences of characters: substring search and line splitting.
use vstd::prelude::*;

verus! {

broadcast use vstd::string::group_string_axioms;

/// `p` occurs in `s` starting at position `i`.
pub open spec fn occurs_at(s: Seq<char>, p: Seq<char>, i: int) -> bool {
    0 <= i && i + p.len() <= s.len() && s.subrange(i, i + p.len()) == p
}

/// `p` occurs somewhere in `s`.
pub open spec fn has_substring(s: Seq<char>, p: Seq<char>) -> bool {
    exists|i: int| occurs_at(s, p, i)
}

/// A line as `str::lines` yields it: one trailing carriage return is dropped.
pub open spec fn strip_cr(l: Seq<char>) -> Seq<char> {
    if l.len() > 0 && l.last() == '\r' {
        l.drop_last()
    } else {
        l
    }
}

/// Scanning `s` from the left: the lines closed by a newline so far, and the
/// characters of the line still open.
pub open spec fn line_scan(s: Seq<char>) -> (Seq<Seq<char>>, Seq<char>)
    decreases s.len(),
{
    if s.len() == 0 {
        (Seq::empty(), Seq::empty())
    } else {
        let (done, open) = line_scan(s.drop_last());
        if s.last() == '\n' {
            (done.push(strip_cr(open)), Seq::empty())
        } else {
            (done, open.push(s.last()))
        }
    }
}

/// The lines of `s`: split at each `\n`, a `\r` right before it dropped, and
/// no empty line after a final newline.
pub open spec fn lines_of(s: Seq<char>) -> Seq<Seq<char>> {
    let (done, open) = line_scan(s);
    if open.len() == 0 {
        done
    } else {
        done.push(open)
    }
}

/// The characters of a string slice, in order.
pub fn chars_of(s: &str) -> (r: Vec<char>)
    ensures
        r@ == s@,
{
    let mut v: Vec<char> = Vec::new();
    for c in it: s.chars()
        invariant
            it.seq() == s@,
            v@ == it.seq().take(it.index()),
    {
        v.push(c);
    }
    v
}

/// Relies on `String::from_iter` over `char`s: the string holds the
/// characters in the order given.
#[verifier::external_body]
pub(crate) fn string_from_chars(v: &Vec<char>) -> (r: String)
    ensures
        r@ == v@,
{
    String::from_iter(v.iter())
}

/// Whether two character sequences are equal.
pub fn same_chars(a: &Vec<char>, b: &Vec<char>) -> (r: bool)
    ensures
        r == (a@ == b@),
{
    if a.len() != b.len() {
        return false;
    }
    let mut i: usize = 0;
    while i < a.len()
        invariant
            i <= a@.len(),
            a@.len() == b@.len(),
            forall|j: int| 0 <= j < i ==> a@[j] == b@[j],
        decreases a.len() - i,
    {
        if a[i] != b[i] {
            return false;
        }
        i = i + 1;
    }
    assert(a@ =~= b@);
    true
}

/// Whether two string slices hold the same characters.
pub fn str_eq(a: &str, b: &str) -> (r: bool)
    ensures
        r == (a@ == b@),
{
    same_chars(&chars_of(a), &chars_of(b))
}

/// `s` begins with `p`.
pub open spec fn starts_with(s: Seq<char>, p: Seq<char>) -> bool {
    p.len() <= s.len() && s.take(p.len() as int) == p
}

/// Whether `s` begins with `p`.
pub fn starts_with_chars(s: &Vec<char>, p: &Vec<char>) -> (r: bool)
    ensures
        r == starts_with(s@, p@),
{
    let r = occurs_at_exec(s, p, 0);
    assert(s@.take(p@.len() as int) =~= s@.subrange(0, p@.len() as int));
    r
}

/// The characters of `s` after its first `n`.
pub fn drop_prefix(s: &Vec<char>, n: usize) -> (r: Vec<char>)
    requires
        n <= s@.len(),
    ensures
        r@ == s@.skip(n as int),
{
    let mut r: Vec<char> = Vec::new();
    let mut i: usize = n;
    while i < s.len()
        invariant
            n <= i <= s@.len(),
            r@ == s@.subrange(n as int, i as int),
        decreases s.len() - i,
    {
        assert(s@.subrange(n as int, i + 1) =~= s@.subrange(n as int, i as int).push(s@[i as int]));
        r.push(s[i]);
        i = i + 1;
    }
    assert(r@ =~= s@.skip(n as int));
    r
}

/// Whether `p` occurs in `s` at position `i`.
pub fn occurs_at_exec(s: &Vec<char>, p: &Vec<char>, i: usize) -> (r: bool)
    ensures
        r == occurs_at(s@, p@, i as int),
{
    if i > s.len() || p.len() > s.len() - i {
        return false;
    }
    let mut k: usize = 0;
    while k < p.len()
        invariant
            i + p.len() <= s.len(),
            k <= p.len(),
            forall|j: int| 0 <= j < k ==> s@[i + j] == p@[j],
        decreases p.len() - k,
    {
        if s[i + k] != p[k] {
            assert(s@.subrange(i as int, i + p.len())[k as int] != p@[k as int]);
            return false;
        }
        k = k + 1;
    }
    assert(s@.subrange(i as int, i + p.len()) =~= p@);
    true
}

/// Whether `p` occurs anywhere in `s`.
pub fn contains_chars(s: &Vec<char>, p: &Vec<char>) -> (r: bool)
    ensures
        r == has_substring(s@, p@),
{
    if p.len() > s.len() {
        return false;
    }
    let last = s.len() - p.len();
    let mut i: usize = 0;
    loop
        invariant
            i <= last,
            last + p@.len() == s@.len(),
            forall|j: int| 0 <= j < i ==> !occurs_at(s@, p@, j),
        ensures
            forall|j: int| 0 <= j <= last ==> !occurs_at(s@, p@, j),
        decreases last - i,
    {
        if occurs_at_exec(s, p, i) {
            return true;
        }
        if i == last {
            break;
        }
        i = i + 1;
    }
    assert forall|j: int| !occurs_at(s@, p@, j) by {
        if 0 <= j && j + p@.len() <= s@.len() {
            assert(j <= last);
        }
    }
    false
}

/// Whether the literal `p` occurs in `s`.
pub fn contains_str(s: &Vec<char>, p: &str) -> (r: bool)
    ensures
        r == has_substring(s@, p@),
{
    let pc = chars_of(p);
    contains_chars(s, &pc)
}

/// The lines of `s`, as `str::lines` splits them.
pub fn lines(s: &Vec<char>) -> (r: Vec<Vec<char>>)
    ensures
        r@.len() == lines_of(s@).len(),
        forall|i: int| 0 <= i < r@.len() ==> #[trigger] r@[i]@ == lines_of(s@)[i],
{
    let mut done: Vec<Vec<char>> = Vec::new();
    let mut open: Vec<char> = Vec::new();
    let mut i: usize = 0;
    while i < s.len()
        invariant
            i <= s.len(),
            done@.len() == line_scan(s@.take(i as int)).0.len(),
            forall|j: int| 0 <= j < done@.len() ==> #[trigger] done@[j]@ == line_scan(s@.take(i as int)).0[j],
            open@ == line_scan(s@.take(i as int)).1,
        decreases s.len() - i,
    {
        assert(s@.take(i + 1).drop_last() =~= s@.take(i as int));
        let c = s[i];
        if c == '\n' {
            let n = open.len();
            if n > 0 && open[n - 1] == '\r' {
                open.pop();
            }
            proof {
                let ghost o = line_scan(s@.take(i as int)).1;
                assert(open@ == strip_cr(o)) by {
                    if o.len() > 0 && o.last() == '\r' {
                        assert(open@ =~= o.drop_last());
                    }
                }
            }
            done.push(open);
            open = Vec::new();
        } else {
            open.push(c);
        }
        i = i + 1;
    }
    assert(s@.take(s@.len() as int) =~= s@);
    if open.len() > 0 {
        done.push(open);
    }
    done
}

} // verus!
