//! Text helpers the record logic is built on: whitespace trimming, the
//! tag-list separators, substring search and decimal rendering of port
//! numbers, each specified over sequences of characters.

use vstd::prelude::*;
use vstd::string::StrSliceExecFns;
use vstd::string::StringExecFns;

verus! {

/// The characters `str::trim` removes: the Unicode white-space set.
pub open spec fn is_space_char(c: char) -> bool {
    ||| c == ' '
    ||| c == '\t'
    ||| c == '\n'
    ||| c == '\u{000B}'
    ||| c == '\u{000C}'
    ||| c == '\r'
    ||| c == '\u{0085}'
    ||| c == '\u{00A0}'
    ||| c == '\u{1680}'
    ||| ('\u{2000}' <= c && c <= '\u{200A}')
    ||| c == '\u{2028}'
    ||| c == '\u{2029}'
    ||| c == '\u{202F}'
    ||| c == '\u{205F}'
    ||| c == '\u{3000}'
}

/// Whether `c` separates two tags in a tag list.
pub open spec fn is_sep_char(c: char) -> bool {
    c == ',' || c == ';'
}

pub fn is_space(c: char) -> (r: bool)
    ensures
        r == is_space_char(c),
{
    c == ' ' || c == '\t' || c == '\n' || c == '\u{000B}' || c == '\u{000C}' || c == '\r' || c
        == '\u{0085}' || c == '\u{00A0}' || c == '\u{1680}' || ('\u{2000}' <= c && c <= '\u{200A}')
        || c == '\u{2028}' || c == '\u{2029}' || c == '\u{202F}' || c == '\u{205F}' || c
        == '\u{3000}'
}

pub fn is_sep(c: char) -> (r: bool)
    ensures
        r == is_sep_char(c),
{
    c == ',' || c == ';'
}

/// How many white-space characters the text starts with.
pub open spec fn count_leading_spaces(s: Seq<char>) -> int
    decreases s.len(),
{
    if s.len() == 0 {
        0
    } else if is_space_char(s[0]) {
        1 + count_leading_spaces(s.subrange(1, s.len() as int))
    } else {
        0
    }
}

/// How many white-space characters the text ends with.
pub open spec fn count_trailing_spaces(s: Seq<char>) -> int
    decreases s.len(),
{
    if s.len() == 0 {
        0
    } else if is_space_char(s[s.len() - 1]) {
        1 + count_trailing_spaces(s.drop_last())
    } else {
        0
    }
}

/// The text with leading and trailing white space removed.
pub open spec fn trimmed_view(s: Seq<char>) -> Seq<char> {
    let a = count_leading_spaces(s);
    if a == s.len() {
        Seq::<char>::empty()
    } else {
        s.subrange(a, s.len() - count_trailing_spaces(s))
    }
}

pub proof fn lemma_leading_spaces(s: Seq<char>)
    ensures
        0 <= count_leading_spaces(s) <= s.len(),
        forall|j: int| 0 <= j < count_leading_spaces(s) ==> is_space_char(#[trigger] s[j]),
        count_leading_spaces(s) < s.len() ==> !is_space_char(s[count_leading_spaces(s)]),
    decreases s.len(),
{
    if s.len() > 0 && is_space_char(s[0]) {
        let rest = s.subrange(1, s.len() as int);
        lemma_leading_spaces(rest);
        assert forall|j: int| 0 <= j < count_leading_spaces(s) implies is_space_char(
            #[trigger] s[j],
        ) by {
            if j > 0 {
                assert(s[j] == rest[j - 1]);
            }
        }
    }
}

pub proof fn lemma_trailing_spaces(s: Seq<char>)
    ensures
        0 <= count_trailing_spaces(s) <= s.len(),
        forall|j: int|
            s.len() - count_trailing_spaces(s) <= j < s.len() ==> is_space_char(#[trigger] s[j]),
        count_trailing_spaces(s) < s.len() ==> !is_space_char(
            s[s.len() - count_trailing_spaces(s) - 1],
        ),
    decreases s.len(),
{
    if s.len() > 0 && is_space_char(s[s.len() - 1]) {
        let dl = s.drop_last();
        lemma_trailing_spaces(dl);
        let c = count_trailing_spaces(s);
        assert forall|j: int| s.len() - c <= j < s.len() implies is_space_char(
            #[trigger] s[j],
        ) by {
            if j < s.len() - 1 {
                assert(s[j] == dl[j]);
            }
        }
        if c < s.len() {
            assert(s[s.len() - c - 1] == dl[dl.len() - (c - 1) - 1]);
        }
    }
}

/// Removes leading and trailing white space, as `str::trim` does.
pub fn trim_str(s: &str) -> (r: String)
    ensures
        r@ == trimmed_view(s@),
{
    proof {
        lemma_leading_spaces(s@);
        lemma_trailing_spaces(s@);
    }
    let n = s.unicode_len();
    let mut a: usize = 0;
    while a < n && is_space(s.get_char(a))
        invariant
            0 <= a <= n,
            n == s@.len(),
            forall|j: int| 0 <= j < a ==> is_space_char(#[trigger] s@[j]),
        decreases n - a,
    {
        a = a + 1;
    }
    if a == n {
        assert(count_leading_spaces(s@) == n);
        return String::new();
    }
    assert(a == count_leading_spaces(s@));
    let mut b: usize = n;
    while b > a && is_space(s.get_char(b - 1))
        invariant
            a <= b <= n,
            a < n,
            n == s@.len(),
            !is_space_char(s@[a as int]),
            forall|j: int| b <= j < n ==> is_space_char(#[trigger] s@[j]),
        decreases b,
    {
        b = b - 1;
    }
    assert(b > a);
    assert(!is_space_char(s@[b - 1]));
    proof {
        let ct = count_trailing_spaces(s@);
        if n - ct > b {
            assert(is_space_char(s@[n - ct - 1]));
        }
        if n - ct < b {
            assert(is_space_char(s@[b - 1]));
        }
        assert(n - ct == b);
    }
    s.substring_char(a, b).to_owned()
}

/// Whether two texts hold the same characters.
pub fn str_eq(a: &str, b: &str) -> (r: bool)
    ensures
        r == (a@ == b@),
{
    let oa = a.to_owned();
    let ob = b.to_owned();
    oa == ob
}

/// Whether the list holds the given text.
pub fn vec_contains_str(v: &Vec<String>, s: &str) -> (r: bool)
    ensures
        r == v.deep_view().contains(s@),
{
    let mut i: usize = 0;
    while i < v.len()
        invariant
            0 <= i <= v.len(),
            forall|j: int| 0 <= j < i ==> v.deep_view()[j] != s@,
        decreases v.len() - i,
    {
        if str_eq(v[i].as_str(), s) {
            assert(v.deep_view()[i as int] == s@);
            return true;
        }
        i = i + 1;
    }
    false
}

/// The needle occurs in the haystack starting at position `k`.
pub open spec fn matches_at(hay: Seq<char>, needle: Seq<char>, k: int) -> bool {
    &&& 0 <= k
    &&& k + needle.len() <= hay.len()
    &&& forall|j: int| 0 <= j < needle.len() ==> needle[j] == hay[k + j]
}

/// The needle occurs somewhere in the haystack.
pub open spec fn contains_seq(hay: Seq<char>, needle: Seq<char>) -> bool {
    exists|k: int| matches_at(hay, needle, k)
}

/// Substring search, as `str::contains` decides it.
pub fn contains_substr(hay: &str, needle: &str) -> (r: bool)
    ensures
        r == contains_seq(hay@, needle@),
{
    let hn = hay.unicode_len();
    let nn = needle.unicode_len();
    if nn == 0 {
        assert(matches_at(hay@, needle@, 0));
        return true;
    }
    if nn > hn {
        assert(!contains_seq(hay@, needle@));
        return false;
    }
    let mut k: usize = 0;
    while k <= hn - nn
        invariant
            0 <= k <= hn - nn + 1,
            0 < nn <= hn,
            hn == hay@.len(),
            nn == needle@.len(),
            forall|k0: int| 0 <= k0 < k ==> !matches_at(hay@, needle@, k0),
        decreases hn - nn + 1 - k,
    {
        let mut j: usize = 0;
        let mut ok = true;
        while j < nn && ok
            invariant
                0 <= j <= nn,
                k + nn <= hn,
                hn == hay@.len(),
                nn == needle@.len(),
                ok ==> forall|j0: int| 0 <= j0 < j ==> needle@[j0] == hay@[k + j0],
                !ok ==> !matches_at(hay@, needle@, k as int),
            decreases nn - j + (if ok {
                1int
            } else {
                0int
            }),
        {
            if needle.get_char(j) != hay.get_char(k + j) {
                ok = false;
                assert(needle@[j as int] != hay@[k + j]);
                assert(!matches_at(hay@, needle@, k as int));
            } else {
                j = j + 1;
            }
        }
        if ok {
            assert(matches_at(hay@, needle@, k as int));
            return true;
        }
        k = k + 1;
    }
    proof {
        if contains_seq(hay@, needle@) {
            let k0 = choose|k0: int| matches_at(hay@, needle@, k0);
            assert(!matches_at(hay@, needle@, k0));
        }
    }
    false
}

/// The character that writes the decimal digit `d`.
pub open spec fn dec_digit_char(d: int) -> char {
    if d == 0 {
        '0'
    } else if d == 1 {
        '1'
    } else if d == 2 {
        '2'
    } else if d == 3 {
        '3'
    } else if d == 4 {
        '4'
    } else if d == 5 {
        '5'
    } else if d == 6 {
        '6'
    } else if d == 7 {
        '7'
    } else if d == 8 {
        '8'
    } else {
        '9'
    }
}

/// The decimal writing of `n`, most significant digit first, without
/// leading zeros (a single zero for 0).
pub open spec fn dec_rep(n: int) -> Seq<char>
    decreases n,
{
    if n < 10 {
        seq![dec_digit_char(n)]
    } else {
        dec_rep(n / 10).push(dec_digit_char(n % 10))
    }
}

fn dec_digit_text(d: u16) -> (r: &'static str)
    requires
        d < 10,
    ensures
        r@ =~= seq![dec_digit_char(d as int)],
{
    proof {
        reveal_strlit("0");
        reveal_strlit("1");
        reveal_strlit("2");
        reveal_strlit("3");
        reveal_strlit("4");
        reveal_strlit("5");
        reveal_strlit("6");
        reveal_strlit("7");
        reveal_strlit("8");
        reveal_strlit("9");
    }
    match d {
        0 => "0",
        1 => "1",
        2 => "2",
        3 => "3",
        4 => "4",
        5 => "5",
        6 => "6",
        7 => "7",
        8 => "8",
        _ => "9",
    }
}

/// Writes a port number in decimal, as `u16::to_string` does.
pub fn u16_to_dec(n: u16) -> (r: String)
    ensures
        r@ == dec_rep(n as int),
    decreases n,
{
    if n < 10 {
        dec_digit_text(n).to_owned()
    } else {
        let mut s = u16_to_dec(n / 10);
        s.append(dec_digit_text(n % 10));
        proof {
            assert(dec_rep((n / 10) as int) + seq![dec_digit_char((n % 10) as int)] =~= dec_rep(
                n as int,
            ));
        }
        s
    }
}

} // verus!
