//! Character-level text helpers the rest of the library is specified with:
//! whitespace trimming, string equality, case-insensitive matching and
//! substring search, each stated over the character sequences the strings
//! view to.

use vstd::prelude::*;
use vstd::string::StrSliceExecFns;

verus! {

/// Whether `c` has the Unicode `White_Space` property; the property that
/// `char::is_whitespace` tests.
pub uninterp spec fn is_unicode_space(c: char) -> bool;

/// Relies on `char::is_whitespace` from std: true exactly when the character
/// has the Unicode `White_Space` property, a function of the character alone.
pub assume_specification[ char::is_whitespace ](c: char) -> (r: bool)
    ensures
        r == is_unicode_space(c),
;

/// `s` with its leading whitespace removed.
pub open spec fn trim_start_spec(s: Seq<char>) -> Seq<char>
    decreases s.len(),
{
    if s.len() > 0 && is_unicode_space(s[0]) {
        trim_start_spec(s.drop_first())
    } else {
        s
    }
}

/// `s` with its trailing whitespace removed.
pub open spec fn trim_end_spec(s: Seq<char>) -> Seq<char>
    decreases s.len(),
{
    if s.len() > 0 && is_unicode_space(s[s.len() - 1]) {
        trim_end_spec(s.drop_last())
    } else {
        s
    }
}

/// `s` with leading and trailing whitespace removed; what `str::trim` returns.
pub open spec fn trim_spec(s: Seq<char>) -> Seq<char> {
    trim_end_spec(trim_start_spec(s))
}

proof fn lemma_trim_start_subrange(s: Seq<char>, a: int)
    requires
        0 <= a <= s.len(),
        forall|j: int| 0 <= j < a ==> is_unicode_space(s[j]),
        a == s.len() || !is_unicode_space(s[a]),
    ensures
        trim_start_spec(s) == s.subrange(a, s.len() as int),
    decreases a,
{
    if a == 0 {
        assert(s.subrange(0, s.len() as int) =~= s);
    } else {
        let t = s.drop_first();
        assert(forall|j: int| 0 <= j < a - 1 ==> is_unicode_space(#[trigger] t[j]));
        lemma_trim_start_subrange(t, a - 1);
        assert(t.subrange(a - 1, t.len() as int) =~= s.subrange(a, s.len() as int));
    }
}

proof fn lemma_trim_end_subrange(s: Seq<char>, b: int)
    requires
        0 <= b <= s.len(),
        forall|j: int| b <= j < s.len() ==> is_unicode_space(s[j]),
        b == 0 || !is_unicode_space(s[b - 1]),
    ensures
        trim_end_spec(s) == s.subrange(0, b),
    decreases s.len() - b,
{
    if b == s.len() {
        assert(s.subrange(0, s.len() as int) =~= s);
    } else {
        let t = s.drop_last();
        assert(forall|j: int| b <= j < t.len() ==> is_unicode_space(#[trigger] t[j]));
        lemma_trim_end_subrange(t, b);
        assert(t.subrange(0, b) =~= s.subrange(0, b));
    }
}

/// Remove leading and trailing whitespace, as `str::trim` does.
pub fn trim_str(s: &str) -> (r: String)
    ensures
        r@ == trim_spec(s@),
{
    let n = s.unicode_len();
    let mut a: usize = 0;
    while a < n && s.get_char(a).is_whitespace()
        invariant
            n == s@.len(),
            a <= n,
            forall|j: int| 0 <= j < a ==> is_unicode_space(s@[j]),
        decreases n - a,
    {
        a = a + 1;
    }
    let mut b: usize = n;
    while b > a && s.get_char(b - 1).is_whitespace()
        invariant
            n == s@.len(),
            a <= b <= n,
            forall|j: int| b <= j < n ==> is_unicode_space(s@[j]),
        decreases b,
    {
        b = b - 1;
    }
    let r = s.substring_char(a, b).to_owned();
    proof {
        lemma_trim_start_subrange(s@, a as int);
        let u = s@.subrange(a as int, s@.len() as int);
        assert(forall|j: int|
            b - a <= j < u.len() ==> is_unicode_space(#[trigger] u[j]));
        lemma_trim_end_subrange(u, b - a);
        assert(u.subrange(0, b - a) =~= s@.subrange(a as int, b as int));
    }
    r
}

/// Character-for-character string equality.
pub fn str_eq(a: &str, b: &str) -> (r: bool)
    ensures
        r == (a@ == b@),
{
    let n = a.unicode_len();
    if n != b.unicode_len() {
        return false;
    }
    let mut i: usize = 0;
    while i < n
        invariant
            n == a@.len(),
            n == b@.len(),
            i <= n,
            forall|j: int| 0 <= j < i ==> a@[j] == b@[j],
        decreases n - i,
    {
        if a.get_char(i) != b.get_char(i) {
            return false;
        }
        i = i + 1;
    }
    proof {
        assert(a@ =~= b@);
    }
    true
}

/// The ASCII lowering of `c`: an ASCII capital letter becomes its small form,
/// every other character is kept.
pub open spec fn lower_char_spec(c: char) -> char {
    if 'A' <= c && c <= 'Z' {
        ((c as u8) + 32) as char
    } else {
        c
    }
}

/// `s` with every ASCII capital letter lowered.
pub open spec fn lower_seq(s: Seq<char>) -> Seq<char> {
    s.map_values(|c: char| lower_char_spec(c))
}

/// Lower an ASCII capital letter; leave any other character unchanged.
pub fn lower_char(c: char) -> (r: char)
    ensures
        r == lower_char_spec(c),
{
    if 'A' <= c && c <= 'Z' {
        ((c as u8) + 32) as char
    } else {
        c
    }
}

/// Whether `p` occurs contiguously somewhere in `s`.
pub open spec fn has_substring(s: Seq<char>, p: Seq<char>) -> bool {
    exists|i: int| 0 <= i && i + p.len() <= s.len() && #[trigger] s.subrange(i, i + p.len()) == p
}

/// Whether the ASCII-lowered `s` contains `p` (so, for a lowercase ASCII
/// pattern, a case-insensitive substring test).
pub fn contains_lower(s: &str, p: &str) -> (r: bool)
    ensures
        r == has_substring(lower_seq(s@), p@),
{
    let n = s.unicode_len();
    let m = p.unicode_len();
    if m > n {
        return false;
    }
    if m == 0 {
        proof {
            assert(lower_seq(s@).subrange(0, 0 + p@.len() as int) =~= p@);
        }
        return true;
    }
    let mut i: usize = 0;
    while i <= n - m
        invariant
            n == s@.len(),
            m == p@.len(),
            1 <= m <= n,
            i <= n - m + 1,
            forall|k: int|
                0 <= k < i ==> #[trigger] lower_seq(s@).subrange(k, k + m) != p@,
        decreases n - m + 1 - i,
    {
        let mut j: usize = 0;
        let mut hit = true;
        while j < m
            invariant
                n == s@.len(),
                m == p@.len(),
                i + m <= n,
                j <= m,
                hit ==> forall|l: int| 0 <= l < j ==> lower_seq(s@)[i + l] == p@[l],
                !hit ==> lower_seq(s@).subrange(i as int, i + m) != p@,
            decreases m - j,
        {
            if lower_char(s.get_char(i + j)) != p.get_char(j) {
                proof {
                    let w = lower_seq(s@).subrange(i as int, i + m);
                    assert(w[j as int] == lower_seq(s@)[i + j]);
                }
                hit = false;
                j = m;
            } else {
                j = j + 1;
            }
        }
        if hit {
            proof {
                assert(lower_seq(s@).subrange(i as int, i + m) =~= p@);
            }
            return true;
        }
        i = i + 1;
    }
    proof {
        assert(forall|k: int|
            0 <= k && k + p@.len() <= lower_seq(s@).len() ==> #[trigger] lower_seq(s@).subrange(
                k,
                k + p@.len(),
            ) != p@);
    }
    false
}

/// Whether `s`, lowered, is exactly the word "exit" or the word "quit": the
/// chat-session termination keywords, matched without regard to ASCII case.
pub open spec fn is_termination_spec(s: Seq<char>) -> bool {
    lower_seq(s) == "exit"@ || lower_seq(s) == "quit"@
}

/// Whether the line is a chat-termination keyword: "exit" or "quit" in any
/// ASCII letter case.
pub fn is_termination_word(line: &str) -> (r: bool)
    ensures
        r == is_termination_spec(line@),
{
    proof {
        reveal_strlit("exit");
        reveal_strlit("quit");
    }
    let n = line.unicode_len();
    if n != 4 {
        proof {
            assert(lower_seq(line@).len() == line@.len());
        }
        return false;
    }
    let c0 = lower_char(line.get_char(0));
    let c1 = lower_char(line.get_char(1));
    let c2 = lower_char(line.get_char(2));
    let c3 = lower_char(line.get_char(3));
    let r = (c0 == 'e' && c1 == 'x' && c2 == 'i' && c3 == 't') || (c0 == 'q' && c1 == 'u' && c2
        == 'i' && c3 == 't');
    proof {
        if r {
            if c0 == 'e' {
                assert(lower_seq(line@) =~= "exit"@);
            } else {
                assert(lower_seq(line@) =~= "quit"@);
            }
        } else {
            assert(lower_seq(line@) != "exit"@ && lower_seq(line@) != "quit"@) by {
                if lower_seq(line@) == "exit"@ {
                    assert(lower_seq(line@)[0] == 'e' && lower_seq(line@)[1] == 'x' && lower_seq(
                        line@,
                    )[2] == 'i' && lower_seq(line@)[3] == 't');
                }
                if lower_seq(line@) == "quit"@ {
                    assert(lower_seq(line@)[0] == 'q' && lower_seq(line@)[1] == 'u' && lower_seq(
                        line@,
                    )[2] == 'i' && lower_seq(line@)[3] == 't');
                }
            }
        }
    }
    r
}

} // verus!
