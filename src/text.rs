//! Character-level helpers: decimal rendering of identifiers and the
//! removal of the `/page` segment from continuation links.

use vstd::prelude::*;
use vstd::string::*;

verus! {

/// The digit character for `d`, where `d < 10`.
pub open spec fn digit_char(d: nat) -> char {
    seq!['0', '1', '2', '3', '4', '5', '6', '7', '8', '9'][d as int]
}

/// The decimal rendering of `n`, most significant digit first, without
/// leading zeros.
pub open spec fn decimal(n: nat) -> Seq<char>
    decreases n,
{
    if n < 10 {
        seq![digit_char(n)]
    } else {
        decimal(n / 10).push(digit_char(n % 10))
    }
}

/// The characters of `s` in order.
pub(crate) fn chars_of(s: &str) -> (r: Vec<char>)
    ensures
        r@ == s@,
{
    let mut out: Vec<char> = Vec::new();
    for c in it: s.chars()
        invariant
            it.seq() == s@,
            out@ == s@.take(it.index() as int),
    {
        out.push(c);
        proof {
            assert(out@ =~= s@.take(it.index() + 1));
        }
    }
    proof {
        assert(out@ =~= s@);
    }
    out
}

/// Relies on `String`'s `FromIterator<char>`: the string made of `cs` in order.
#[verifier::external_body]
pub(crate) fn string_of(cs: &Vec<char>) -> (r: String)
    ensures
        r@ == cs@,
{
    cs.iter().collect()
}

fn digit(d: u64) -> (c: char)
    requires
        d < 10,
    ensures
        c == digit_char(d as nat),
{
    let digits: Vec<char> = vec!['0', '1', '2', '3', '4', '5', '6', '7', '8', '9'];
    proof {
        assert(digits@ =~= seq!['0', '1', '2', '3', '4', '5', '6', '7', '8', '9']);
    }
    digits[d as usize]
}

fn push_decimal(n: u64, out: &mut Vec<char>)
    ensures
        final(out)@ == old(out)@ + decimal(n as nat),
    decreases n,
{
    if n >= 10 {
        push_decimal(n / 10, out);
    }
    out.push(digit(n % 10));
    proof {
        if n >= 10 {
            assert(final(out)@ =~= old(out)@ + decimal(n as nat));
        } else {
            assert(final(out)@ =~= old(out)@ + decimal(n as nat));
        }
    }
}

/// Renders `n` in decimal, as `format!("{n}")` does.
pub fn to_decimal(n: u64) -> (r: String)
    ensures
        r@ == decimal(n as nat),
{
    let mut cs: Vec<char> = Vec::new();
    push_decimal(n, &mut cs);
    proof {
        assert(cs@ =~= decimal(n as nat));
    }
    string_of(&cs)
}

/// The segment that continuation links carry and that is removed before reuse.
pub open spec fn page_segment() -> Seq<char> {
    seq!['/', 'p', 'a', 'g', 'e']
}

/// Whether the segment `/page` starts at position `i` of `s`.
pub open spec fn segment_at(s: Seq<char>, i: int) -> bool {
    &&& 0 <= i
    &&& i + 5 <= s.len()
    &&& s[i] == '/'
    &&& s[i + 1] == 'p'
    &&& s[i + 2] == 'a'
    &&& s[i + 3] == 'g'
    &&& s[i + 4] == 'e'
}

/// Whether `s` holds the segment `/page` anywhere.
pub open spec fn has_segment(s: Seq<char>) -> bool {
    exists|i: int| segment_at(s, i)
}

/// `s` with every occurrence of `/page` removed, scanning from the left,
/// as `str::replace(s, "/page", "")` does.
pub open spec fn strip_page(s: Seq<char>) -> Seq<char>
    decreases s.len(),
{
    if s.len() < 5 {
        s
    } else if segment_at(s, 0) {
        strip_page(s.subrange(5, s.len() as int))
    } else {
        seq![s[0]] + strip_page(s.subrange(1, s.len() as int))
    }
}

/// A link that holds no `/page` segment is left as it is.
pub proof fn lemma_strip_without_segment(s: Seq<char>)
    requires
        !has_segment(s),
    ensures
        strip_page(s) == s,
    decreases s.len(),
{
    if s.len() >= 5 {
        let t = s.subrange(1, s.len() as int);
        assert(!segment_at(s, 0));
        assert forall|i: int| !segment_at(t, i) by {
            if segment_at(t, i) {
                assert(segment_at(s, i + 1));
            }
        }
        lemma_strip_without_segment(t);
        assert(seq![s[0]] + t =~= s);
    }
}

/// A link that holds exactly one `/page` segment, that is `a + "/page" + b`
/// where neither `a` nor `b` holds one, loses that segment once and nothing
/// else.
pub proof fn lemma_strip_single_segment(a: Seq<char>, b: Seq<char>)
    requires
        !has_segment(a),
        !has_segment(b),
    ensures
        strip_page(a + page_segment() + b) == a + b,
    decreases a.len(),
{
    let s = a + page_segment() + b;
    if a.len() == 0 {
        assert(s =~= page_segment() + b);
        assert(segment_at(s, 0));
        assert(s.subrange(5, s.len() as int) =~= b);
        lemma_strip_without_segment(b);
        assert(a + b =~= b);
    } else {
        assert(s[a.len() as int] == '/');
        if a.len() >= 5 {
            assert(!segment_at(a, 0));
            assert(!segment_at(s, 0));
        } else {
            assert(!segment_at(s, 0));
        }
        let a1 = a.subrange(1, a.len() as int);
        assert forall|i: int| !segment_at(a1, i) by {
            if segment_at(a1, i) {
                assert(segment_at(a, i + 1));
            }
        }
        lemma_strip_single_segment(a1, b);
        assert(s.subrange(1, s.len() as int) =~= a1 + page_segment() + b);
        assert(seq![a[0]] + (a1 + b) =~= a + b);
    }
}

/// Removes every `/page` segment from `link`.
pub fn strip_page_segments(link: &str) -> (r: String)
    ensures
        r@ == strip_page(link@),
{
    let cs = chars_of(link);
    let n = cs.len();
    let mut out: Vec<char> = Vec::new();
    let mut i: usize = 0;
    proof {
        assert(cs@.subrange(0, n as int) =~= cs@);
        assert(out@ + cs@ =~= cs@);
    }
    while i < n
        invariant
            n == cs@.len(),
            i <= n,
            out@ + strip_page(cs@.subrange(i as int, n as int)) == strip_page(cs@),
        decreases n - i,
    {
        let rest = Ghost(cs@.subrange(i as int, n as int));
        if n - i >= 5 && cs[i] == '/' && cs[i + 1] == 'p' && cs[i + 2] == 'a' && cs[i + 3]
            == 'g' && cs[i + 4] == 'e' {
            proof {
                assert(segment_at(rest@, 0));
                assert(rest@.subrange(5, rest@.len() as int) =~= cs@.subrange(
                    i + 5,
                    n as int,
                ));
            }
            i = i + 5;
        } else if n - i >= 5 {
            proof {
                assert(!segment_at(rest@, 0));
                assert(rest@.subrange(1, rest@.len() as int) =~= cs@.subrange(
                    i + 1,
                    n as int,
                ));
            }
            out.push(cs[i]);
            i = i + 1;
        } else {
            proof {
                assert(out@ + rest@ == strip_page(cs@));
            }
            while i < n
                invariant
                    n == cs@.len(),
                    i <= n,
                    n < i + 5 || i == n,
                    out@ + cs@.subrange(i as int, n as int) == strip_page(cs@),
                decreases n - i,
            {
                let ghost before = out@;
                out.push(cs[i as usize]);
                proof {
                    assert(before + cs@.subrange(i as int, n as int) =~= out@ + cs@.subrange(
                        i + 1,
                        n as int,
                    ));
                }
                i = i + 1;
            }
            proof {
                assert(cs@.subrange(n as int, n as int) =~= Seq::<char>::empty());
                assert(out@ =~= strip_page(cs@));
                assert(strip_page(cs@.subrange(n as int, n as int)) =~= Seq::<char>::empty());
            }
        }
    }
    proof {
        assert(cs@.subrange(n as int, n as int) =~= Seq::<char>::empty());
        assert(out@ =~= strip_page(cs@));
    }
    string_of(&out)
}

} // verus!
