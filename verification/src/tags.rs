//! Tag lists: a comma- or semicolon-separated text becomes a list of
//! trimmed, non-empty, pairwise distinct tags, first occurrence first.

use vstd::prelude::*;
use vstd::string::StrSliceExecFns;

use crate::text::is_sep;
use crate::text::is_sep_char;
use crate::text::trim_str;
use crate::text::trimmed_view;
use crate::text::vec_contains_str;

verus! {

/// The position of the first separator, or the length when there is none.
pub open spec fn find_sep(s: Seq<char>) -> nat
    decreases s.len(),
{
    if s.len() == 0 {
        0
    } else if is_sep_char(s[0]) {
        0
    } else {
        1 + find_sep(s.subrange(1, s.len() as int))
    }
}

pub proof fn lemma_find_sep(s: Seq<char>)
    ensures
        find_sep(s) <= s.len(),
        forall|j: int| 0 <= j < find_sep(s) ==> !is_sep_char(#[trigger] s[j]),
        find_sep(s) < s.len() ==> is_sep_char(s[find_sep(s) as int]),
    decreases s.len(),
{
    if s.len() > 0 && !is_sep_char(s[0]) {
        let rest = s.subrange(1, s.len() as int);
        lemma_find_sep(rest);
        assert forall|j: int| 0 <= j < find_sep(s) implies !is_sep_char(#[trigger] s[j]) by {
            if j > 0 {
                assert(s[j] == rest[j - 1]);
            }
        }
    }
}

/// The pieces between separators, in order; a text without separators is
/// one piece, and every separator splits, so empty pieces appear where
/// two separators touch.
pub open spec fn split_segments(s: Seq<char>) -> Seq<Seq<char>>
    decreases s.len(),
{
    let k = find_sep(s);
    if k >= s.len() {
        seq![s]
    } else {
        seq![s.subrange(0, k as int)] + split_segments(
            s.subrange(k + 1 as int, s.len() as int),
        )
    }
}

/// Trims each piece, drops the empty ones, and keeps only the first
/// occurrence of each remaining tag.
pub open spec fn normalize_tags(pieces: Seq<Seq<char>>) -> Seq<Seq<char>>
    decreases pieces.len(),
{
    if pieces.len() == 0 {
        Seq::<Seq<char>>::empty()
    } else {
        let rest = normalize_tags(pieces.drop_last());
        let t = trimmed_view(pieces.last());
        if t.len() == 0 || rest.contains(t) {
            rest
        } else {
            rest.push(t)
        }
    }
}

/// What a tag text means: its pieces, trimmed, non-empty, without
/// repetition.
pub open spec fn parse_tags_view(s: Seq<char>) -> Seq<Seq<char>> {
    normalize_tags(split_segments(s))
}

/// Splits a text at every separator, keeping empty pieces.
fn split_at_seps(s: &str) -> (out: Vec<String>)
    ensures
        out.deep_view() == split_segments(s@),
    decreases s@.len(),
{
    proof {
        lemma_find_sep(s@);
    }
    let n = s.unicode_len();
    let mut k: usize = 0;
    while k < n && !is_sep(s.get_char(k))
        invariant
            0 <= k <= n,
            n == s@.len(),
            forall|j: int| 0 <= j < k ==> !is_sep_char(#[trigger] s@[j]),
        decreases n - k,
    {
        k = k + 1;
    }
    proof {
        if k < n {
            assert(is_sep_char(s@[k as int]));
        }
        assert(k == find_sep(s@));
    }
    if k == n {
        let mut out: Vec<String> = Vec::new();
        out.push(s.to_owned());
        proof {
            assert(out.deep_view() =~= split_segments(s@));
        }
        out
    } else {
        let head = s.substring_char(0, k).to_owned();
        let tail = s.substring_char(k + 1, n);
        let mut rest = split_at_seps(tail);
        let mut out: Vec<String> = Vec::new();
        out.push(head);
        out.append(&mut rest);
        proof {
            assert(out.deep_view() =~= split_segments(s@));
        }
        out
    }
}

/// Parses a tag text: pieces between commas or semicolons, each trimmed,
/// empty pieces dropped, repeats kept once; no text means no tags.
pub fn parse_tags(tags_str: Option<&String>) -> (out: Vec<String>)
    ensures
        match tags_str {
            Some(s) => out.deep_view() == parse_tags_view(s@),
            None => out.deep_view() == Seq::<Seq<char>>::empty(),
        },
{
    let s = match tags_str {
        Some(s) => s,
        None => {
            let out: Vec<String> = Vec::new();
            proof {
                assert(out.deep_view() =~= Seq::<Seq<char>>::empty());
            }
            return out;
        },
    };
    let pieces = split_at_seps(s.as_str());
    let ghost segs = split_segments(s@);
    let mut out: Vec<String> = Vec::new();
    let mut i: usize = 0;
    while i < pieces.len()
        invariant
            0 <= i <= pieces.len(),
            pieces.deep_view() == segs,
            out.deep_view() == normalize_tags(segs.take(i as int)),
        decreases pieces.len() - i,
    {
        let t = trim_str(pieces[i].as_str());
        proof {
            assert(pieces.deep_view()[i as int] == pieces@[i as int]@);
            assert(segs.take(i + 1 as int).drop_last() =~= segs.take(i as int));
            assert(segs.take(i + 1 as int).last() == segs[i as int]);
        }
        if !t.as_str().is_empty() && !vec_contains_str(&out, t.as_str()) {
            out.push(t);
            proof {
                assert(out.deep_view() =~= normalize_tags(segs.take(i as int)).push(
                    trimmed_view(segs[i as int]),
                ));
            }
        }
        i = i + 1;
    }
    proof {
        assert(segs.take(pieces.deep_view().len() as int) =~= segs);
    }
    out
}

} // verus!
