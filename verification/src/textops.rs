//! Character-level text operations: whitespace classification, greedy
//! left-to-right pattern replacement, whitespace splitting, and the
//! conversions between `&str` and `Vec<char>` that the rest of the crate
//! builds on.

use vstd::prelude::*;
use vstd::string::StrSliceExecFns;

verus! {

/// The characters with the Unicode `White_Space` property, the set that
/// `char::is_whitespace` recognises.
pub open spec fn is_ws(c: char) -> bool {
    ||| c == '\u{09}'
    ||| c == '\u{0A}'
    ||| c == '\u{0B}'
    ||| c == '\u{0C}'
    ||| c == '\u{0D}'
    ||| c == ' '
    ||| c == '\u{85}'
    ||| c == '\u{A0}'
    ||| c == '\u{1680}'
    ||| c == '\u{2000}'
    ||| c == '\u{2001}'
    ||| c == '\u{2002}'
    ||| c == '\u{2003}'
    ||| c == '\u{2004}'
    ||| c == '\u{2005}'
    ||| c == '\u{2006}'
    ||| c == '\u{2007}'
    ||| c == '\u{2008}'
    ||| c == '\u{2009}'
    ||| c == '\u{200A}'
    ||| c == '\u{2028}'
    ||| c == '\u{2029}'
    ||| c == '\u{202F}'
    ||| c == '\u{205F}'
    ||| c == '\u{3000}'
}

/// Decides [`is_ws`] on a concrete character.
pub fn is_ws_char(c: char) -> (b: bool)
    ensures
        b == is_ws(c),
{
    c == '\u{09}' || c == '\u{0A}' || c == '\u{0B}' || c == '\u{0C}' || c == '\u{0D}' || c == ' '
        || c == '\u{85}' || c == '\u{A0}' || c == '\u{1680}' || c == '\u{2000}' || c == '\u{2001}'
        || c == '\u{2002}' || c == '\u{2003}' || c == '\u{2004}' || c == '\u{2005}' || c == '\u{2006}'
        || c == '\u{2007}' || c == '\u{2008}' || c == '\u{2009}' || c == '\u{200A}' || c == '\u{2028}'
        || c == '\u{2029}' || c == '\u{202F}' || c == '\u{205F}' || c == '\u{3000}'
}

/// Replaces every occurrence of `pat` in `s` by `rep`, scanning left to
/// right and never rescanning replaced text — the behaviour of
/// `str::replace` with a non-empty pattern. An empty pattern leaves the
/// text unchanged.
pub open spec fn replace_all(s: Seq<char>, pat: Seq<char>, rep: Seq<char>) -> Seq<char>
    decreases s.len(),
{
    if pat.len() == 0 || s.len() < pat.len() {
        s
    } else if s.take(pat.len() as int) == pat {
        rep + replace_all(s.skip(pat.len() as int), pat, rep)
    } else {
        seq![s[0]] + replace_all(s.skip(1), pat, rep)
    }
}

/// True exactly when `pat` occurs in `s` at position `i`.
fn matches_at(s: &Vec<char>, i: usize, pat: &Vec<char>) -> (b: bool)
    requires
        i <= s.len(),
        pat.len() <= s.len() - i,
    ensures
        b == (s@.subrange(i as int, i as int + pat@.len()) == pat@),
{
    let mut j: usize = 0;
    while j < pat.len()
        invariant
            i + pat.len() <= s.len(),
            j <= pat.len(),
            forall|k: int| 0 <= k < j ==> s@[i + k] == pat@[k],
        decreases pat.len() - j,
    {
        if s[i + j] != pat[j] {
            proof {
                assert(s@.subrange(i as int, i as int + pat@.len())[j as int] != pat@[j as int]);
            }
            return false;
        }
        j += 1;
    }
    proof {
        assert(s@.subrange(i as int, i as int + pat@.len()) =~= pat@);
    }
    true
}

/// Computes [`replace_all`] on vectors of characters.
pub fn replace_all_exec(s: &Vec<char>, pat: &Vec<char>, rep: &Vec<char>) -> (r: Vec<char>)
    requires
        pat.len() >= 1,
    ensures
        r@ == replace_all(s@, pat@, rep@),
{
    let mut r: Vec<char> = Vec::new();
    let mut i: usize = 0;
    proof {
        assert(s@.skip(0) =~= s@);
        assert(Seq::<char>::empty() + replace_all(s@, pat@, rep@) =~= replace_all(s@, pat@, rep@));
    }
    while i < s.len()
        invariant
            pat@.len() >= 1,
            i <= s.len(),
            replace_all(s@, pat@, rep@) == r@ + replace_all(s@.skip(i as int), pat@, rep@),
        decreases s.len() - i,
    {
        let rest_len = s.len() - i;
        let ghost prev = r@;
        if pat.len() <= rest_len && matches_at(s, i, pat) {
            let mut j: usize = 0;
            while j < rep.len()
                invariant
                    j <= rep.len(),
                    r@ == prev + rep@.take(j as int),
                decreases rep.len() - j,
            {
                let c = rep[j];
                r.push(c);
                proof {
                    assert((prev + rep@.take(j as int)).push(rep@[j as int]) =~= prev + rep@.take(
                        j + 1,
                    ));
                }
                j += 1;
            }
            proof {
                assert(rep@.take(rep@.len() as int) =~= rep@);
                let tail = s@.skip(i as int);
                assert(tail.take(pat@.len() as int) =~= s@.subrange(i as int, i as int + pat@.len()));
                assert(tail.skip(pat@.len() as int) =~= s@.skip(i + pat@.len()));
                assert(replace_all(tail, pat@, rep@) == rep@ + replace_all(
                    s@.skip(i + pat@.len()),
                    pat@,
                    rep@,
                ));
                assert(prev + (rep@ + replace_all(s@.skip(i + pat@.len()), pat@, rep@)) =~= (prev
                    + rep@) + replace_all(s@.skip(i + pat@.len()), pat@, rep@));
            }
            i += pat.len();
        } else {
            let c = s[i];
            r.push(c);
            proof {
                let tail = s@.skip(i as int);
                assert(tail.skip(1) =~= s@.skip(i + 1));
                if pat@.len() <= rest_len {
                    assert(tail.take(pat@.len() as int) =~= s@.subrange(i as int, i as int + pat@.len()));
                    assert(tail.take(pat@.len() as int) != pat@);
                    assert(replace_all(tail, pat@, rep@) == seq![tail[0]] + replace_all(
                        s@.skip(i + 1),
                        pat@,
                        rep@,
                    ));
                } else {
                    assert(tail.len() < pat@.len());
                    assert(replace_all(tail, pat@, rep@) == tail);
                    assert(s@.skip(i + 1).len() < pat@.len());
                    assert(replace_all(s@.skip(i + 1), pat@, rep@) == s@.skip(i + 1));
                    assert(tail =~= seq![tail[0]] + s@.skip(i + 1));
                }
                assert(prev + (seq![s@[i as int]] + replace_all(s@.skip(i + 1), pat@, rep@)) =~= (
                prev + seq![s@[i as int]]) + replace_all(s@.skip(i + 1), pat@, rep@));
            }
            i += 1;
        }
    }
    proof {
        assert(s@.skip(s@.len() as int) =~= Seq::<char>::empty());
        assert(r@ + Seq::<char>::empty() =~= r@);
    }
    r
}

/// The characters of a string slice, in order.
pub fn str_to_chars(s: &str) -> (r: Vec<char>)
    ensures
        r@ == s@,
{
    let n = s.unicode_len();
    let mut r: Vec<char> = Vec::new();
    let mut i: usize = 0;
    while i < n
        invariant
            n == s@.len(),
            i <= n,
            r@ == s@.take(i as int),
        decreases n - i,
    {
        let c = s.get_char(i);
        r.push(c);
        proof {
            assert(s@.take(i as int).push(s@[i as int]) =~= s@.take(i + 1));
        }
        i += 1;
    }
    proof {
        assert(s@.take(n as int) =~= s@);
    }
    r
}

/// Relies on `String`'s `FromIterator<char>` implementation: collecting
/// characters in order yields the string whose characters are exactly the
/// collected sequence.
#[verifier::external_body]
pub fn chars_to_string(v: &Vec<char>) -> (r: String)
    ensures
        r@ == v@,
{
    v.iter().collect()
}

} // verus!
