//! What the list, login and tag commands compute before anything is
//! printed or prompted: the one-line label of a record, the tag filter
//! over the stored records, and the edits a tag command makes.

use vstd::prelude::*;
use vstd::string::StrSliceExecFns;
use vstd::string::StringExecFns;

use crate::session::Session;
use crate::session::SessionView;
use crate::text::str_eq;
use crate::text::u16_to_dec;
use crate::text::dec_rep;
use crate::text::vec_contains_str;
use crate::tags::parse_tags;
use crate::tags::parse_tags_view;

verus! {

/// An upper-case ASCII letter turned lower case; every other character
/// kept.
pub open spec fn lower_char(c: char) -> char {
    if 'A' <= c && c <= 'Z' {
        ((c as u8) + 32) as char
    } else {
        c
    }
}

/// The text with its ASCII letters turned lower case.
pub open spec fn lower_ascii(s: Seq<char>) -> Seq<char> {
    s.map_values(|c: char| lower_char(c))
}

fn lower_char_exec(c: char) -> (r: char)
    ensures
        r == lower_char(c),
{
    if 'A' <= c && c <= 'Z' {
        ((c as u8) + 32) as char
    } else {
        c
    }
}

/// Whether the text, once its ASCII letters are lowered, equals the
/// target.
pub fn matches_lowered(s: &str, target: &str) -> (r: bool)
    ensures
        r == (lower_ascii(s@) == target@),
{
    let n = s.unicode_len();
    if n != target.unicode_len() {
        assert(lower_ascii(s@).len() == s@.len());
        return false;
    }
    let mut i: usize = 0;
    while i < n
        invariant
            0 <= i <= n,
            n == s@.len(),
            n == target@.len(),
            forall|j: int| 0 <= j < i ==> lower_char(#[trigger] s@[j]) == target@[j],
        decreases n - i,
    {
        if lower_char_exec(s.get_char(i)) != target.get_char(i) {
            assert(lower_ascii(s@)[i as int] != target@[i as int]);
            return false;
        }
        i = i + 1;
    }
    proof {
        assert(lower_ascii(s@) =~= target@);
    }
    true
}

/// What a tag command does: extend the tag list, shrink it, or only
/// show it.
#[derive(Clone, Copy, Debug, PartialEq, Eq, Structural)]
pub enum TagAction {
    Add,
    Remove,
    List,
}

/// Why a tag command was refused: an action word that is none of the
/// three, or an add or remove without any tags to add or remove.
#[derive(Clone, Copy, Debug, PartialEq, Eq, Structural)]
pub enum TagError {
    InvalidAction,
    TagsRequired,
}

/// The action a tag command's action word names, matched without regard
/// to ASCII case.
pub open spec fn tag_action_of(s: Seq<char>) -> Option<TagAction> {
    if lower_ascii(s) == "add"@ {
        Some(TagAction::Add)
    } else if lower_ascii(s) == "remove"@ {
        Some(TagAction::Remove)
    } else if lower_ascii(s) == "list"@ {
        Some(TagAction::List)
    } else {
        None
    }
}

/// Parses the action word of a tag command.
pub fn parse_tag_action(s: &str) -> (r: Option<TagAction>)
    ensures
        r == tag_action_of(s@),
{
    if matches_lowered(s, "add") {
        Some(TagAction::Add)
    } else if matches_lowered(s, "remove") {
        Some(TagAction::Remove)
    } else if matches_lowered(s, "list") {
        Some(TagAction::List)
    } else {
        None
    }
}

/// The tag list a tag command leaves behind: `None` when the command
/// only shows the list.
pub open spec fn tag_edit_view(
    current: Seq<Seq<char>>,
    action: TagAction,
    tags: Seq<Seq<char>>,
) -> Option<Seq<Seq<char>>> {
    match action {
        TagAction::Add => Some(current + tags.filter(|t: Seq<char>| !current.contains(t))),
        TagAction::Remove => Some(current.filter(|t: Seq<char>| !tags.contains(t))),
        TagAction::List => None,
    }
}

/// Carries out the edit a tag command asks for on a record's tag list:
/// `add` appends the named tags it does not hold yet, `remove` drops the
/// named ones, `list` changes nothing and hands back `None`. An unknown
/// action word is refused, as is an add or remove without tags.
pub fn updated_tags(current: &Vec<String>, action: &str, tags: Option<&String>) -> (r: Result<
    Option<Vec<String>>,
    TagError,
>)
    ensures
        match tag_action_of(action@) {
            None => r == Err::<Option<Vec<String>>, TagError>(TagError::InvalidAction),
            Some(act) => {
                if act != TagAction::List && tags is None {
                    r == Err::<Option<Vec<String>>, TagError>(TagError::TagsRequired)
                } else {
                    let parsed = match tags {
                        Some(t) => parse_tags_view(t@),
                        None => Seq::<Seq<char>>::empty(),
                    };
                    match r {
                        Ok(edit) => match (
                            tag_edit_view(current.deep_view(), act, parsed),
                            edit,
                        ) {
                            (Some(v), Some(out)) => out.deep_view() == v,
                            (None, None) => true,
                            _ => false,
                        },
                        Err(_) => false,
                    }
                }
            },
        },
{
    let act = match parse_tag_action(action) {
        Some(a) => a,
        None => {
            return Err(TagError::InvalidAction);
        },
    };
    match act {
        TagAction::List => Ok(None),
        TagAction::Add => {
            let tag_text = match tags {
                Some(t) => t,
                None => {
                    return Err(TagError::TagsRequired);
                },
            };
            let new_tags = parse_tags(Some(tag_text));
            let ghost parsed = new_tags.deep_view();
            let mut out = crate::session::clone_string_vec(current);
            let mut i: usize = 0;
            while i < new_tags.len()
                invariant
                    0 <= i <= new_tags.len(),
                    new_tags.deep_view() == parsed,
                    out.deep_view() == current.deep_view() + parsed.take(i as int).filter(
                        |t: Seq<char>| !current.deep_view().contains(t),
                    ),
                decreases new_tags.len() - i,
            {
                proof {
                    assert(parsed.take(i + 1 as int).drop_last() =~= parsed.take(i as int));
                    assert(parsed.take(i + 1 as int).last() == parsed[i as int]);
                    reveal_with_fuel(Seq::filter, 2);
                }
                if !vec_contains_str(current, new_tags[i].as_str()) {
                    let t = new_tags[i].clone();
                    out.push(t);
                    proof {
                        assert(new_tags.deep_view()[i as int] == new_tags@[i as int]@);
                        assert(out.deep_view() =~= (current.deep_view() + parsed.take(
                            i as int,
                        ).filter(|t: Seq<char>| !current.deep_view().contains(t))).push(
                            parsed[i as int],
                        ));
                        assert(out.deep_view() =~= current.deep_view() + parsed.take(
                            i as int,
                        ).filter(|t: Seq<char>| !current.deep_view().contains(t)).push(
                            parsed[i as int],
                        ));
                    }
                } else {
                    proof {
                        assert(out.deep_view() =~= current.deep_view() + parsed.take(
                            i + 1 as int,
                        ).filter(|t: Seq<char>| !current.deep_view().contains(t)));
                    }
                }
                i = i + 1;
            }
            proof {
                assert(parsed.take(parsed.len() as int) =~= parsed);
            }
            Ok(Some(out))
        },
        TagAction::Remove => {
            let tag_text = match tags {
                Some(t) => t,
                None => {
                    return Err(TagError::TagsRequired);
                },
            };
            let drop_tags = parse_tags(Some(tag_text));
            let ghost cur = current.deep_view();
            let mut out: Vec<String> = Vec::new();
            let mut i: usize = 0;
            while i < current.len()
                invariant
                    0 <= i <= current.len(),
                    current.deep_view() == cur,
                    drop_tags.deep_view() == parse_tags_view(tag_text@),
                    out.deep_view() == cur.take(i as int).filter(
                        |t: Seq<char>| !parse_tags_view(tag_text@).contains(t),
                    ),
                decreases current.len() - i,
            {
                proof {
                    assert(cur.take(i + 1 as int).drop_last() =~= cur.take(i as int));
                    assert(cur.take(i + 1 as int).last() == cur[i as int]);
                    reveal_with_fuel(Seq::filter, 2);
                }
                if !vec_contains_str(&drop_tags, current[i].as_str()) {
                    let t = current[i].clone();
                    out.push(t);
                    proof {
                        assert(out.deep_view() =~= cur.take(i as int).filter(
                            |t: Seq<char>| !parse_tags_view(tag_text@).contains(t),
                        ).push(cur[i as int]));
                    }
                }
                i = i + 1;
            }
            proof {
                assert(cur.take(cur.len() as int) =~= cur);
            }
            Ok(Some(out))
        },
    }
}

/// The tag lists share at least one tag.
pub open spec fn tags_intersect(a: Seq<Seq<char>>, b: Seq<Seq<char>>) -> bool {
    exists|t: Seq<char>| a.contains(t) && b.contains(t)
}

fn has_common_tag(a: &Vec<String>, b: &Vec<String>) -> (r: bool)
    ensures
        r == tags_intersect(a.deep_view(), b.deep_view()),
{
    let mut i: usize = 0;
    while i < a.len()
        invariant
            0 <= i <= a.len(),
            forall|j: int| 0 <= j < i ==> !b.deep_view().contains(#[trigger] a.deep_view()[j]),
        decreases a.len() - i,
    {
        if vec_contains_str(b, a[i].as_str()) {
            assert(a.deep_view().contains(a.deep_view()[i as int]));
            return true;
        }
        i = i + 1;
    }
    proof {
        if tags_intersect(a.deep_view(), b.deep_view()) {
            let t = choose|t: Seq<char>| a.deep_view().contains(t) && b.deep_view().contains(t);
            let w = choose|w: int| 0 <= w < a.deep_view().len() && a.deep_view()[w] == t;
            assert(!b.deep_view().contains(a.deep_view()[w]));
        }
    }
    false
}

/// The stored records that carry at least one of the filter tags, in
/// storage order.
pub fn sessions_with_any_tag<'a>(sessions: &'a Vec<Session>, filter: &Vec<String>) -> (r: Vec<
    &'a Session,
>)
    ensures
        r.deep_view() == sessions.deep_view().filter(
            |s: SessionView| tags_intersect(filter.deep_view(), s.tags),
        ),
{
    let ghost all = sessions.deep_view();
    let mut out: Vec<&Session> = Vec::new();
    let mut i: usize = 0;
    while i < sessions.len()
        invariant
            0 <= i <= sessions.len(),
            sessions.deep_view() == all,
            out.deep_view() == all.take(i as int).filter(
                |s: SessionView| tags_intersect(filter.deep_view(), s.tags),
            ),
        decreases sessions.len() - i,
    {
        proof {
            assert(all.take(i + 1 as int).drop_last() =~= all.take(i as int));
            assert(all.take(i + 1 as int).last() == all[i as int]);
            reveal_with_fuel(Seq::filter, 2);
        }
        if has_common_tag(filter, &sessions[i].tags) {
            out.push(&sessions[i]);
            proof {
                assert(out.deep_view() =~= all.take(i as int).filter(
                    |s: SessionView| tags_intersect(filter.deep_view(), s.tags),
                ).push(all[i as int]));
            }
        }
        i = i + 1;
    }
    proof {
        assert(all.take(all.len() as int) =~= all);
    }
    out
}

/// The tag list written as one text, the tags separated by a comma and
/// a space.
pub open spec fn joined_tags(tags: Seq<Seq<char>>) -> Seq<char>
    decreases tags.len(),
{
    if tags.len() == 0 {
        Seq::<char>::empty()
    } else if tags.len() == 1 {
        tags[0]
    } else {
        joined_tags(tags.drop_last()) + ", "@ + tags.last()
    }
}

/// Writes the tag list as one text, the tags separated by `", "`.
pub fn join_tags(tags: &Vec<String>) -> (r: String)
    ensures
        r@ == joined_tags(tags.deep_view()),
{
    let ghost all = tags.deep_view();
    let mut out = String::new();
    let mut i: usize = 0;
    while i < tags.len()
        invariant
            0 <= i <= tags.len(),
            tags.deep_view() == all,
            out@ == joined_tags(all.take(i as int)),
        decreases tags.len() - i,
    {
        proof {
            assert(all.take(i + 1 as int).drop_last() =~= all.take(i as int));
            assert(all.take(i + 1 as int).last() == all[i as int]);
        }
        if i > 0 {
            out.append(", ");
        }
        out.append(tags[i].as_str());
        proof {
            if i == 0 {
                assert(out@ =~= joined_tags(all.take(1)));
            }
        }
        i = i + 1;
    }
    proof {
        assert(all.take(all.len() as int) =~= all);
    }
    out
}

/// The suffix a record's label carries when it has tags: the joined
/// tags in square brackets, after a space.
pub open spec fn tag_suffix_view(tags: Seq<Seq<char>>) -> Seq<char> {
    if tags.len() == 0 {
        Seq::<char>::empty()
    } else {
        " ["@ + joined_tags(tags) + "]"@
    }
}

/// The one-line label of a record: name, then user, host and port in
/// parentheses, then the tags in brackets when there are any.
pub open spec fn session_label_view(s: SessionView) -> Seq<char> {
    s.name + " ("@ + s.user + "@"@ + s.host + ":"@ + dec_rep(s.port as int) + ")"@
        + tag_suffix_view(s.tags)
}

/// Writes the one-line label of a record, as the list and login
/// commands show it.
pub fn session_label(s: &Session) -> (r: String)
    ensures
        r@ == session_label_view(s@),
{
    let mut out = s.name.clone();
    out.append(" (");
    out.append(s.user.as_str());
    out.append("@");
    out.append(s.host.as_str());
    out.append(":");
    let port = u16_to_dec(s.port);
    out.append(port.as_str());
    out.append(")");
    if !s.tags.is_empty() {
        out.append(" [");
        let joined = join_tags(&s.tags);
        out.append(joined.as_str());
        out.append("]");
    }
    out
}

} // verus!
