//! Small verified text utilities: decimal rendering of unsigned integers,
//! character-exact string equality, and substring search.
//!
//! These back the human-readable messages of the error types and the
//! substring-based retryability predicate.
use vstd::prelude::*;

verus! {

/// The character for one decimal digit value.
pub open spec fn dec_digit(d: int) -> char {
    if d == 0 {
        '0'
    } else if d == 1 {
        '1'
    } else if d == 2 {
        '2'
    } else if d == 3 {
        '3'
    } else if d == 4 {
        '4'
    } else if d == 5 {
        '5'
    } else if d == 6 {
        '6'
    } else if d == 7 {
        '7'
    } else if d == 8 {
        '8'
    } else {
        '9'
    }
}

/// The usual decimal rendering of `n`, most significant digit first,
/// with no leading zeros (except for `n == 0` itself).
pub open spec fn dec_seq(n: nat) -> Seq<char>
    decreases n,
{
    if n < 10 {
        seq![dec_digit(n as int)]
    } else {
        dec_seq(n / 10).push(dec_digit((n % 10) as int))
    }
}

/// The single-character string for one decimal digit.
fn digit_str(d: u64) -> (s: &'static str)
    requires
        d < 10,
    ensures
        s@ == seq![dec_digit(d as int)],
{
    match d {
        0 => {
            proof {
                reveal_strlit("0");
            }
            assert("0"@ =~= seq![dec_digit(0)]);
            "0"
        },
        1 => {
            proof {
                reveal_strlit("1");
            }
            assert("1"@ =~= seq![dec_digit(1)]);
            "1"
        },
        2 => {
            proof {
                reveal_strlit("2");
            }
            assert("2"@ =~= seq![dec_digit(2)]);
            "2"
        },
        3 => {
            proof {
                reveal_strlit("3");
            }
            assert("3"@ =~= seq![dec_digit(3)]);
            "3"
        },
        4 => {
            proof {
                reveal_strlit("4");
            }
            assert("4"@ =~= seq![dec_digit(4)]);
            "4"
        },
        5 => {
            proof {
                reveal_strlit("5");
            }
            assert("5"@ =~= seq![dec_digit(5)]);
            "5"
        },
        6 => {
            proof {
                reveal_strlit("6");
            }
            assert("6"@ =~= seq![dec_digit(6)]);
            "6"
        },
        7 => {
            proof {
                reveal_strlit("7");
            }
            assert("7"@ =~= seq![dec_digit(7)]);
            "7"
        },
        8 => {
            proof {
                reveal_strlit("8");
            }
            assert("8"@ =~= seq![dec_digit(8)]);
            "8"
        },
        _ => {
            proof {
                reveal_strlit("9");
            }
            assert("9"@ =~= seq![dec_digit(9)]);
            "9"
        },
    }
}

/// Renders `n` in decimal.
pub fn u64_string(n: u64) -> (s: String)
    ensures
        s@ == dec_seq(n as nat),
    decreases n,
{
    if n < 10 {
        String::from_str(digit_str(n))
    } else {
        let mut s = u64_string(n / 10);
        s.append(digit_str(n % 10));
        assert(s@ =~= dec_seq(n as nat));
        s
    }
}

/// Character-exact equality of two string slices.
pub fn str_eq(a: &str, b: &str) -> (r: bool)
    ensures
        r == (a@ == b@),
{
    let la = a.unicode_len();
    let lb = b.unicode_len();
    if la != lb {
        return false;
    }
    let mut i: usize = 0;
    while i < la
        invariant
            la == a@.len(),
            la == b@.len(),
            i <= la,
            forall|j: int| 0 <= j < i ==> a@[j] == b@[j],
        decreases la - i,
    {
        if a.get_char(i) != b.get_char(i) {
            return false;
        }
        i = i + 1;
    }
    assert(a@ =~= b@);
    true
}

/// Whether `needle` occurs contiguously inside `hay`.
pub open spec fn contains_seq(hay: Seq<char>, needle: Seq<char>) -> bool {
    exists|i: int|
        0 <= i && i + needle.len() <= hay.len() && #[trigger] hay.subrange(
            i,
            i + needle.len() as int,
        ) == needle
}

/// Whether `needle` occurs in `hay` starting at position `i`.
fn matches_at(hay: &str, needle: &str, i: usize, hl: usize, nl: usize) -> (r: bool)
    requires
        hl == hay@.len(),
        nl == needle@.len(),
        i + nl <= hl,
    ensures
        r == (hay@.subrange(i as int, i + nl as int) == needle@),
{
    let mut j: usize = 0;
    while j < nl
        invariant
            hl == hay@.len(),
            nl == needle@.len(),
            i + nl <= hl,
            j <= nl,
            forall|k: int| 0 <= k < j ==> hay@[i + k] == needle@[k],
        decreases nl - j,
    {
        if hay.get_char(i + j) != needle.get_char(j) {
            assert(hay@.subrange(i as int, i + nl as int)[j as int] != needle@[j as int]);
            return false;
        }
        j = j + 1;
    }
    assert(hay@.subrange(i as int, i + nl as int) =~= needle@);
    true
}

/// Substring search, character by character.
pub fn str_contains(hay: &str, needle: &str) -> (r: bool)
    ensures
        r == contains_seq(hay@, needle@),
{
    let hl = hay.unicode_len();
    let nl = needle.unicode_len();
    if nl > hl {
        return false;
    }
    if nl == 0 {
        assert(contains_seq(hay@, needle@)) by {
            assert(hay@.subrange(0, 0 + needle@.len() as int) =~= needle@);
        }
        return true;
    }
    let mut i: usize = 0;
    while i <= hl - nl
        invariant
            hl == hay@.len(),
            nl == needle@.len(),
            0 < nl <= hl,
            i <= hl - nl + 1,
            forall|k: int|
                0 <= k < i ==> #[trigger] hay@.subrange(k, k + needle@.len() as int) != needle@,
        decreases hl + 1 - nl - i,
    {
        if matches_at(hay, needle, i, hl, nl) {
            return true;
        }
        i = i + 1;
    }
    false
}

/// ASCII whitespace, as configuration text understands it.
pub open spec fn is_space(c: char) -> bool {
    c == ' ' || c == '\t' || c == '\r' || c == '\n'
}

/// How many leading characters of `s` satisfy `p`.
pub open spec fn leading_count(s: Seq<char>, p: spec_fn(char) -> bool) -> int
    decreases s.len(),
{
    if s.len() == 0 || !p(s[0]) {
        0
    } else {
        1 + leading_count(s.drop_first(), p)
    }
}

/// How many trailing characters of `s` satisfy `p`.
pub open spec fn trailing_count(s: Seq<char>, p: spec_fn(char) -> bool) -> int
    decreases s.len(),
{
    if s.len() == 0 || !p(s.last()) {
        0
    } else {
        1 + trailing_count(s.drop_last(), p)
    }
}

/// `s` with the characters satisfying `p` stripped from both ends.
pub open spec fn strip(s: Seq<char>, p: spec_fn(char) -> bool) -> Seq<char> {
    let a = leading_count(s, p);
    let b = s.len() - trailing_count(s, p);
    if a < b {
        s.subrange(a, b)
    } else {
        Seq::empty()
    }
}

/// The characterization of `leading_count`: a maximal prefix.
pub proof fn lemma_leading_count(s: Seq<char>, p: spec_fn(char) -> bool)
    ensures
        0 <= leading_count(s, p) <= s.len(),
        forall|j: int| 0 <= j < leading_count(s, p) ==> p(#[trigger] s[j]),
        leading_count(s, p) < s.len() ==> !p(s[leading_count(s, p)]),
    decreases s.len(),
{
    if s.len() > 0 && p(s[0]) {
        lemma_leading_count(s.drop_first(), p);
        assert forall|j: int| 0 <= j < leading_count(s, p) implies p(#[trigger] s[j]) by {
            if j > 0 {
                assert(s.drop_first()[j - 1] == s[j]);
            }
        }
        if leading_count(s, p) < s.len() {
            assert(s.drop_first()[leading_count(s, p) - 1] == s[leading_count(s, p)]);
        }
    }
}

/// The characterization of `trailing_count`: a maximal suffix.
pub proof fn lemma_trailing_count(s: Seq<char>, p: spec_fn(char) -> bool)
    ensures
        0 <= trailing_count(s, p) <= s.len(),
        forall|j: int| s.len() - trailing_count(s, p) <= j < s.len() ==> p(#[trigger] s[j]),
        trailing_count(s, p) < s.len() ==> !p(s[s.len() - trailing_count(s, p) - 1]),
    decreases s.len(),
{
    if s.len() > 0 && p(s.last()) {
        lemma_trailing_count(s.drop_last(), p);
        assert forall|j: int|
            s.len() - trailing_count(s, p) <= j < s.len() implies p(#[trigger] s[j]) by {
            if j < s.len() - 1 {
                assert(s.drop_last()[j] == s[j]);
            }
        }
    }
}

/// Whether `c` is one of the stripped whitespace characters.
pub(crate) fn is_space_char(c: char) -> (r: bool)
    ensures
        r == is_space(c),
{
    c == ' ' || c == '\t' || c == '\r' || c == '\n'
}

/// `s` without leading and trailing whitespace.
pub fn trim_str<'a>(s: &'a str) -> (r: &'a str)
    ensures
        r@ == strip(s@, |c: char| is_space(c)),
{
    let ghost p = (|c: char| is_space(c));
    proof {
        lemma_leading_count(s@, p);
        lemma_trailing_count(s@, p);
    }
    let len = s.unicode_len();
    let mut a: usize = 0;
    while a < len && is_space_char(s.get_char(a))
        invariant
            len == s@.len(),
            a <= len,
            forall|j: int| 0 <= j < a ==> is_space(#[trigger] s@[j]),
        decreases len - a,
    {
        a = a + 1;
    }
    proof {
        let l = leading_count(s@, p);
        if a < l {
            assert(p(s@[a as int]));
        }
        if l < a {
            assert(is_space(s@[l]));
        }
        assert(a == l);
    }
    let mut b: usize = len;
    while b > 0 && is_space_char(s.get_char(b - 1))
        invariant
            len == s@.len(),
            b <= len,
            forall|j: int| b <= j < len ==> is_space(#[trigger] s@[j]),
        decreases b,
    {
        b = b - 1;
    }
    proof {
        let t = trailing_count(s@, p);
        if len - b < t {
            assert(p(s@[b - 1]));
        }
        if t < len - b {
            assert(is_space(s@[s@.len() - t - 1]));
        }
        assert(len - b == t);
    }
    if a < b {
        let r = s.substring_char(a, b);
        proof {
            assert(r@ =~= strip(s@, p));
        }
        r
    } else {
        proof {
            reveal_strlit("");
            assert(""@ =~= strip(s@, p));
        }
        ""
    }
}

/// `s` without leading and trailing occurrences of `m`.
pub fn trim_matching<'a>(s: &'a str, m: char) -> (r: &'a str)
    ensures
        r@ == strip(s@, |c: char| c == m),
{
    let ghost p = (|c: char| c == m);
    proof {
        lemma_leading_count(s@, p);
        lemma_trailing_count(s@, p);
    }
    let len = s.unicode_len();
    let mut a: usize = 0;
    while a < len && s.get_char(a) == m
        invariant
            len == s@.len(),
            a <= len,
            forall|j: int| 0 <= j < a ==> (#[trigger] s@[j]) == m,
        decreases len - a,
    {
        a = a + 1;
    }
    proof {
        let l = leading_count(s@, p);
        if a < l {
            assert(p(s@[a as int]));
        }
        if l < a {
            assert(s@[l] == m);
        }
        assert(a == l);
    }
    let mut b: usize = len;
    while b > 0 && s.get_char(b - 1) == m
        invariant
            len == s@.len(),
            b <= len,
            forall|j: int| b <= j < len ==> (#[trigger] s@[j]) == m,
        decreases b,
    {
        b = b - 1;
    }
    proof {
        let t = trailing_count(s@, p);
        if len - b < t {
            assert(p(s@[b - 1]));
        }
        if t < len - b {
            assert(s@[s@.len() - t - 1] == m);
        }
        assert(len - b == t);
    }
    if a < b {
        let r = s.substring_char(a, b);
        proof {
            assert(r@ =~= strip(s@, p));
        }
        r
    } else {
        proof {
            reveal_strlit("");
            assert(""@ =~= strip(s@, p));
        }
        ""
    }
}

/// The index of the first occurrence of `m` in `s`, or -1.
pub open spec fn find_idx(s: Seq<char>, m: char) -> int
    decreases s.len(),
{
    if s.len() == 0 {
        -1
    } else if s[0] == m {
        0
    } else {
        let rest = find_idx(s.drop_first(), m);
        if rest < 0 {
            -1
        } else {
            1 + rest
        }
    }
}

/// The characterization of `find_idx`: the first hit, if any.
pub proof fn lemma_find_idx(s: Seq<char>, m: char)
    ensures
        find_idx(s, m) >= 0 ==> 0 <= find_idx(s, m) < s.len() && s[find_idx(s, m)] == m,
        forall|j: int| 0 <= j < find_idx(s, m) ==> (#[trigger] s[j]) != m,
        find_idx(s, m) < 0 ==> forall|j: int| 0 <= j < s.len() ==> (#[trigger] s[j]) != m,
    decreases s.len(),
{
    if s.len() > 0 && s[0] != m {
        lemma_find_idx(s.drop_first(), m);
        let fr = find_idx(s.drop_first(), m);
        if fr >= 0 {
            assert(s[find_idx(s, m)] == s.drop_first()[fr]);
            assert forall|j: int| 0 <= j < find_idx(s, m) implies (#[trigger] s[j]) != m by {
                if j > 0 {
                    assert(s[j] == s.drop_first()[j - 1]);
                }
            }
        } else {
            assert forall|j: int| 0 <= j < s.len() implies (#[trigger] s[j]) != m by {
                if j > 0 {
                    assert(s[j] == s.drop_first()[j - 1]);
                }
            }
        }
    }
}

/// The position of the first `m` in `s`.
pub fn find_char(s: &str, m: char) -> (r: Option<usize>)
    ensures
        match r {
            Some(i) => i == find_idx(s@, m),
            None => find_idx(s@, m) < 0,
        },
{
    proof {
        lemma_find_idx(s@, m);
    }
    let len = s.unicode_len();
    let mut i: usize = 0;
    while i < len
        invariant
            len == s@.len(),
            i <= len,
            forall|j: int| 0 <= j < i ==> (#[trigger] s@[j]) != m,
        decreases len - i,
    {
        if s.get_char(i) == m {
            proof {
                lemma_find_idx(s@, m);
                let f = find_idx(s@, m);
                if f < 0 || f > i {
                    assert(s@[i as int] != m);
                }
                if 0 <= f < i {
                    assert(s@[f] != m);
                }
            }
            return Some(i);
        }
        i = i + 1;
    }
    proof {
        lemma_find_idx(s@, m);
        let f = find_idx(s@, m);
        if f >= 0 {
            assert(s@[f] != m);
        }
    }
    None
}

} // verus!
