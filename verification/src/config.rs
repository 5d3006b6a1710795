//! The in-memory store of connection records and templates, and the
//! operations a command performs on it: add, look up, search, update and
//! remove, each with the exact condition under which it succeeds.
//!
//! Reading the store from disk and writing it back are left to the caller;
//! this module only knows the path the store lives at.

use vstd::prelude::*;
use vstd::string::StringExecFns;

use crate::session::Session;
use crate::session::SessionView;
use crate::session::Template;
use crate::session::TemplateView;
use crate::text::contains_seq;
use crate::text::contains_substr;
use crate::text::str_eq;
use crate::text::vec_contains_str;

verus! {

/// Why a store operation was refused: the name was already taken, or
/// nothing under the name exists.
#[derive(Clone, Copy, Debug, PartialEq, Eq, Structural)]
pub enum ConfigError {
    SessionExists,
    SessionNotFound,
    TemplateExists,
    TemplateNotFound,
}

/// The mathematical content of the store.
pub struct ConfigView {
    pub sessions: Seq<SessionView>,
    pub templates: Seq<TemplateView>,
}

/// The stored records and templates.
pub struct Config {
    pub sessions: Vec<Session>,
    pub templates: Vec<Template>,
}

impl View for Config {
    type V = ConfigView;

    open spec fn view(&self) -> ConfigView {
        ConfigView { sessions: self.sessions.deep_view(), templates: self.templates.deep_view() }
    }
}

/// Some stored record carries this name.
pub open spec fn has_session_name(ss: Seq<SessionView>, name: Seq<char>) -> bool {
    exists|i: int| 0 <= i < ss.len() && ss[i].name == name
}

/// The first stored record with this name, searched front to back.
pub open spec fn find_session(ss: Seq<SessionView>, name: Seq<char>) -> Option<SessionView>
    decreases ss.len(),
{
    if ss.len() == 0 {
        None
    } else if ss[0].name == name {
        Some(ss[0])
    } else {
        find_session(ss.drop_first(), name)
    }
}

/// Some stored template carries this name.
pub open spec fn has_template_name(ts: Seq<TemplateView>, name: Seq<char>) -> bool {
    exists|i: int| 0 <= i < ts.len() && ts[i].name == name
}

/// The first stored template with this name, searched front to back.
pub open spec fn find_template(ts: Seq<TemplateView>, name: Seq<char>) -> Option<TemplateView>
    decreases ts.len(),
{
    if ts.len() == 0 {
        None
    } else if ts[0].name == name {
        Some(ts[0])
    } else {
        find_template(ts.drop_first(), name)
    }
}

pub proof fn lemma_find_session_some(ss: Seq<SessionView>, name: Seq<char>)
    ensures
        find_session(ss, name) is Some <==> has_session_name(ss, name),
    decreases ss.len(),
{
    if ss.len() > 0 {
        lemma_find_session_some(ss.drop_first(), name);
        if ss[0].name == name {
        } else {
            assert forall|i: int|
                0 <= i < ss.len() && ss[i].name == name implies has_session_name(
                ss.drop_first(),
                name,
            ) by {
                assert(ss.drop_first()[i - 1] == ss[i]);
            }
            assert forall|i: int|
                0 <= i < ss.drop_first().len() && ss.drop_first()[i].name
                    == name implies has_session_name(ss, name) by {
                assert(ss[i + 1] == ss.drop_first()[i]);
            }
        }
    }
}

pub proof fn lemma_find_template_some(ts: Seq<TemplateView>, name: Seq<char>)
    ensures
        find_template(ts, name) is Some <==> has_template_name(ts, name),
    decreases ts.len(),
{
    if ts.len() > 0 {
        lemma_find_template_some(ts.drop_first(), name);
        if ts[0].name == name {
        } else {
            assert forall|i: int|
                0 <= i < ts.len() && ts[i].name == name implies has_template_name(
                ts.drop_first(),
                name,
            ) by {
                assert(ts.drop_first()[i - 1] == ts[i]);
            }
            assert forall|i: int|
                0 <= i < ts.drop_first().len() && ts.drop_first()[i].name
                    == name implies has_template_name(ts, name) by {
                assert(ts[i + 1] == ts.drop_first()[i]);
            }
        }
    }
}

/// A record passes the search when its name or host contains the query
/// and, if a tag filter is given, it carries that tag.
pub open spec fn search_matches(s: SessionView, query: Seq<char>, tags: Seq<char>) -> bool {
    &&& (contains_seq(s.name, query) || contains_seq(s.host, query))
    &&& (tags.len() == 0 || s.tags.contains(tags))
}

impl Config {
    /// A store with nothing in it.
    pub fn new() -> (c: Config)
        ensures
            c@.sessions == Seq::<SessionView>::empty(),
            c@.templates == Seq::<TemplateView>::empty(),
    {
        let c = Config { sessions: Vec::new(), templates: Vec::new() };
        proof {
            assert(c@.sessions =~= Seq::<SessionView>::empty());
            assert(c@.templates =~= Seq::<TemplateView>::empty());
        }
        c
    }

    fn session_name_taken(&self, name: &str) -> (r: bool)
        ensures
            r == has_session_name(self@.sessions, name@),
    {
        let mut i: usize = 0;
        while i < self.sessions.len()
            invariant
                0 <= i <= self.sessions.len(),
                forall|j: int| 0 <= j < i ==> #[trigger] self@.sessions[j].name != name@,
            decreases self.sessions.len() - i,
        {
            if str_eq(self.sessions[i].name.as_str(), name) {
                assert(self@.sessions[i as int].name == name@);
                return true;
            }
            i = i + 1;
        }
        false
    }

    fn template_name_taken(&self, name: &str) -> (r: bool)
        ensures
            r == has_template_name(self@.templates, name@),
    {
        let mut i: usize = 0;
        while i < self.templates.len()
            invariant
                0 <= i <= self.templates.len(),
                forall|j: int| 0 <= j < i ==> #[trigger] self@.templates[j].name != name@,
            decreases self.templates.len() - i,
        {
            if str_eq(self.templates[i].name.as_str(), name) {
                assert(self@.templates[i as int].name == name@);
                return true;
            }
            i = i + 1;
        }
        false
    }

    /// Adds a record; a name that is already taken is refused and the
    /// store is left as it was.
    pub fn add_session(&mut self, session: Session) -> (r: Result<(), ConfigError>)
        ensures
            r is Ok <==> !has_session_name(old(self)@.sessions, session@.name),
            r is Ok ==> final(self)@.sessions == old(self)@.sessions.push(session@),
            r is Err ==> r->Err_0 == ConfigError::SessionExists && final(self)@ == old(self)@,
            final(self)@.templates == old(self)@.templates,
    {
        if self.session_name_taken(session.name.as_str()) {
            return Err(ConfigError::SessionExists);
        }
        self.sessions.push(session);
        proof {
            assert(self@.sessions =~= old(self)@.sessions.push(session@));
        }
        Ok(())
    }

    /// Removes every record with the name; an unknown name is refused and
    /// the store is left as it was.
    pub fn remove_session(&mut self, name: &str) -> (r: Result<(), ConfigError>)
        ensures
            r is Ok <==> has_session_name(old(self)@.sessions, name@),
            final(self)@.sessions == old(self)@.sessions.filter(
                |s: SessionView| s.name != name@,
            ),
            r is Err ==> r->Err_0 == ConfigError::SessionNotFound,
            final(self)@.templates == old(self)@.templates,
    {
        let ghost pre = self@.sessions;
        let mut kept: Vec<Session> = Vec::new();
        let mut found = false;
        let mut i: usize = 0;
        while i < self.sessions.len()
            invariant
                0 <= i <= self.sessions.len(),
                kept.deep_view() == pre.take(i as int).filter(|s: SessionView| s.name != name@),
                found == has_session_name(pre.take(i as int), name@),
                self@.sessions == pre,
            decreases self.sessions.len() - i,
        {
            proof {
                assert(pre.take(i + 1 as int).drop_last() =~= pre.take(i as int));
                assert(pre.take(i + 1 as int).last() == pre[i as int]);
                reveal_with_fuel(Seq::filter, 2);
            }
            if str_eq(self.sessions[i].name.as_str(), name) {
                found = true;
                proof {
                    assert(has_session_name(pre.take(i + 1 as int), name@));
                }
            } else {
                let s = self.sessions[i].clone();
                kept.push(s);
                proof {
                    if has_session_name(pre.take(i + 1 as int), name@) {
                        let w = choose|w: int|
                            0 <= w < pre.take(i + 1 as int).len() && (#[trigger] pre.take(
                                i + 1 as int,
                            )[w]).name == name@;
                        assert(0 <= w < i + 1);
                        if w < i {
                            assert(pre.take(i as int)[w].name == name@);
                        }
                    }
                }
            }
            i = i + 1;
        }
        proof {
            assert(pre.take(pre.len() as int) =~= pre);
        }
        self.sessions = kept;
        if found {
            Ok(())
        } else {
            Err(ConfigError::SessionNotFound)
        }
    }

    /// Hands back the first record with the name, if any.
    pub fn get_session(&self, name: &str) -> (r: Option<&Session>)
        ensures
            match r {
                Some(s) => find_session(self@.sessions, name@) == Some(s@),
                None => find_session(self@.sessions, name@) is None,
            },
    {
        let ghost all = self@.sessions;
        proof {
            assert(all.skip(0) =~= all);
        }
        let mut i: usize = 0;
        while i < self.sessions.len()
            invariant
                0 <= i <= self.sessions.len(),
                self@.sessions == all,
                find_session(all, name@) == find_session(all.skip(i as int), name@),
            decreases self.sessions.len() - i,
        {
            proof {
                assert(all.skip(i as int).drop_first() =~= all.skip(i + 1 as int));
                assert(all.skip(i as int)[0] == all[i as int]);
            }
            if str_eq(self.sessions[i].name.as_str(), name) {
                return Some(&self.sessions[i]);
            }
            i = i + 1;
        }
        proof {
            assert(all.skip(all.len() as int) =~= Seq::<SessionView>::empty());
        }
        None
    }

    /// Hands back the first template with the name, if any.
    pub fn get_template(&self, name: &str) -> (r: Option<&Template>)
        ensures
            match r {
                Some(t) => find_template(self@.templates, name@) == Some(t@),
                None => find_template(self@.templates, name@) is None,
            },
    {
        let ghost all = self@.templates;
        proof {
            assert(all.skip(0) =~= all);
        }
        let mut i: usize = 0;
        while i < self.templates.len()
            invariant
                0 <= i <= self.templates.len(),
                self@.templates == all,
                find_template(all, name@) == find_template(all.skip(i as int), name@),
            decreases self.templates.len() - i,
        {
            proof {
                assert(all.skip(i as int).drop_first() =~= all.skip(i + 1 as int));
                assert(all.skip(i as int)[0] == all[i as int]);
            }
            if str_eq(self.templates[i].name.as_str(), name) {
                return Some(&self.templates[i]);
            }
            i = i + 1;
        }
        proof {
            assert(all.skip(all.len() as int) =~= Seq::<TemplateView>::empty());
        }
        None
    }

    /// All records whose name or host contains the query and which carry
    /// the filter tag when one is given, in storage order.
    pub fn search_sessions(&self, query: &str, tags: &str) -> (r: Vec<&Session>)
        ensures
            r.deep_view() == self@.sessions.filter(
                |s: SessionView| search_matches(s, query@, tags@),
            ),
    {
        let ghost all = self@.sessions;
        let mut out: Vec<&Session> = Vec::new();
        let mut i: usize = 0;
        while i < self.sessions.len()
            invariant
                0 <= i <= self.sessions.len(),
                self@.sessions == all,
                out.deep_view() == all.take(i as int).filter(
                    |s: SessionView| search_matches(s, query@, tags@),
                ),
            decreases self.sessions.len() - i,
        {
            proof {
                assert(all.take(i + 1 as int).drop_last() =~= all.take(i as int));
                assert(all.take(i + 1 as int).last() == all[i as int]);
                reveal_with_fuel(Seq::filter, 2);
            }
            let s = &self.sessions[i];
            let hit = contains_substr(s.name.as_str(), query) || contains_substr(
                s.host.as_str(),
                query,
            );
            let tag_ok = tags.is_empty() || vec_contains_str(&s.tags, tags);
            if hit && tag_ok {
                out.push(s);
                proof {
                    assert(out.deep_view() =~= all.take(i as int).filter(
                        |s: SessionView| search_matches(s, query@, tags@),
                    ).push(all[i as int]));
                }
            }
            i = i + 1;
        }
        proof {
            assert(all.take(all.len() as int) =~= all);
        }
        out
    }

    /// Replaces the first record whose name equals the new record's name;
    /// an unknown name is refused and the store is left as it was.
    #[verifier::loop_isolation(false)]
    pub fn update_session(&mut self, session: Session) -> (r: Result<(), ConfigError>)
        ensures
            r is Ok <==> has_session_name(old(self)@.sessions, session@.name),
            r is Ok ==> exists|i: int|
                0 <= i < old(self)@.sessions.len() && old(self)@.sessions[i].name == session@.name
                    && (forall|j: int|
                    0 <= j < i ==> #[trigger] old(self)@.sessions[j].name != session@.name)
                    && final(self)@.sessions == old(self)@.sessions.update(i, session@),
            r is Err ==> r->Err_0 == ConfigError::SessionNotFound && final(self)@ == old(self)@,
            final(self)@.templates == old(self)@.templates,
    {
        let ghost pre = self@.sessions;
        let mut i: usize = 0;
        while i < self.sessions.len()
            invariant
                0 <= i <= self.sessions.len(),
                self@.sessions == pre,
                self@.templates == old(self)@.templates,
                forall|j: int| 0 <= j < i ==> #[trigger] pre[j].name != session@.name,
            decreases self.sessions.len() - i,
        {
            if str_eq(self.sessions[i].name.as_str(), session.name.as_str()) {
                proof {
                    assert(pre[i as int].name == session@.name);
                }
                self.sessions.set(i, session);
                proof {
                    assert(self@.sessions =~= pre.update(i as int, session@));
                    assert(has_session_name(old(self)@.sessions, session@.name));
                }
                return Ok(());
            }
            i = i + 1;
        }
        Err(ConfigError::SessionNotFound)
    }

    /// Adds a template; a template name that is already taken, or a
    /// session name that no record carries, is refused and the store is
    /// left as it was.
    pub fn add_template(&mut self, template: Template) -> (r: Result<(), ConfigError>)
        ensures
            r is Ok <==> !has_template_name(old(self)@.templates, template@.name)
                && has_session_name(old(self)@.sessions, template@.session),
            r is Ok ==> final(self)@.templates == old(self)@.templates.push(template@),
            r is Err ==> final(self)@ == old(self)@,
            r is Err ==> r->Err_0 == (if has_template_name(
                old(self)@.templates,
                template@.name,
            ) {
                ConfigError::TemplateExists
            } else {
                ConfigError::SessionNotFound
            }),
            final(self)@.sessions == old(self)@.sessions,
    {
        if self.template_name_taken(template.name.as_str()) {
            return Err(ConfigError::TemplateExists);
        }
        if !self.session_name_taken(template.session.as_str()) {
            return Err(ConfigError::SessionNotFound);
        }
        self.templates.push(template);
        proof {
            assert(self@.templates =~= old(self)@.templates.push(template@));
        }
        Ok(())
    }

    /// Removes every template with the name; an unknown name is refused
    /// and the store is left as it was.
    pub fn remove_template(&mut self, name: &str) -> (r: Result<(), ConfigError>)
        ensures
            r is Ok <==> has_template_name(old(self)@.templates, name@),
            final(self)@.templates == old(self)@.templates.filter(
                |t: TemplateView| t.name != name@,
            ),
            r is Err ==> r->Err_0 == ConfigError::TemplateNotFound,
            final(self)@.sessions == old(self)@.sessions,
    {
        let ghost pre = self@.templates;
        let mut kept: Vec<Template> = Vec::new();
        let mut found = false;
        let mut i: usize = 0;
        while i < self.templates.len()
            invariant
                0 <= i <= self.templates.len(),
                kept.deep_view() == pre.take(i as int).filter(|t: TemplateView| t.name != name@),
                found == has_template_name(pre.take(i as int), name@),
                self@.templates == pre,
            decreases self.templates.len() - i,
        {
            proof {
                assert(pre.take(i + 1 as int).drop_last() =~= pre.take(i as int));
                assert(pre.take(i + 1 as int).last() == pre[i as int]);
                reveal_with_fuel(Seq::filter, 2);
            }
            if str_eq(self.templates[i].name.as_str(), name) {
                found = true;
                proof {
                    assert(has_template_name(pre.take(i + 1 as int), name@));
                }
            } else {
                let t = self.templates[i].clone();
                kept.push(t);
                proof {
                    if has_template_name(pre.take(i + 1 as int), name@) {
                        let w = choose|w: int|
                            0 <= w < pre.take(i + 1 as int).len() && (#[trigger] pre.take(
                                i + 1 as int,
                            )[w]).name == name@;
                        assert(0 <= w < i + 1);
                        if w < i {
                            assert(pre.take(i as int)[w].name == name@);
                        }
                    }
                }
            }
            i = i + 1;
        }
        proof {
            assert(pre.take(pre.len() as int) =~= pre);
        }
        self.templates = kept;
        if found {
            Ok(())
        } else {
            Err(ConfigError::TemplateNotFound)
        }
    }


    /// Removes every record that carries the tag, keeping the rest in
    /// order; nothing happens when no record carries it.
    pub fn remove_sessions_with_tag(&mut self, tag: &str) -> (removed: Vec<String>)
        ensures
            final(self)@.sessions == old(self)@.sessions.filter(
                |s: SessionView| !s.tags.contains(tag@),
            ),
            removed.deep_view() == old(self)@.sessions.filter(
                |s: SessionView| s.tags.contains(tag@),
            ).map_values(|s: SessionView| s.name),
            final(self)@.templates == old(self)@.templates,
    {
        let ghost pre = self@.sessions;
        let mut kept: Vec<Session> = Vec::new();
        let mut removed: Vec<String> = Vec::new();
        let mut i: usize = 0;
        while i < self.sessions.len()
            invariant
                0 <= i <= self.sessions.len(),
                self@.sessions == pre,
                kept.deep_view() == pre.take(i as int).filter(
                    |s: SessionView| !s.tags.contains(tag@),
                ),
                removed.deep_view() == pre.take(i as int).filter(
                    |s: SessionView| s.tags.contains(tag@),
                ).map_values(|s: SessionView| s.name),
            decreases self.sessions.len() - i,
        {
            proof {
                assert(pre.take(i + 1 as int).drop_last() =~= pre.take(i as int));
                assert(pre.take(i + 1 as int).last() == pre[i as int]);
                reveal_with_fuel(Seq::filter, 2);
            }
            if vec_contains_str(&self.sessions[i].tags, tag) {
                let name = self.sessions[i].name.clone();
                removed.push(name);
                proof {
                    assert(removed.deep_view() =~= pre.take(i as int).filter(
                        |s: SessionView| s.tags.contains(tag@),
                    ).map_values(|s: SessionView| s.name).push(pre[i as int].name));
                    assert(pre.take(i + 1 as int).filter(
                        |s: SessionView| s.tags.contains(tag@),
                    ).map_values(|s: SessionView| s.name) =~= pre.take(i as int).filter(
                        |s: SessionView| s.tags.contains(tag@),
                    ).map_values(|s: SessionView| s.name).push(pre[i as int].name));
                }
            } else {
                let s = self.sessions[i].clone();
                kept.push(s);
                proof {
                    assert(kept.deep_view() =~= pre.take(i as int).filter(
                        |s: SessionView| !s.tags.contains(tag@),
                    ).push(pre[i as int]));
                    assert(pre.take(i + 1 as int).filter(
                        |s: SessionView| s.tags.contains(tag@),
                    ).map_values(|s: SessionView| s.name) =~= removed.deep_view());
                }
            }
            i = i + 1;
        }
        proof {
            assert(pre.take(pre.len() as int) =~= pre);
        }
        self.sessions = kept;
        removed
    }

    /// All stored templates, in storage order.
    pub fn list_templates(&self) -> (r: &Vec<Template>)
        ensures
            r.deep_view() == self@.templates,
    {
        &self.templates
    }
}

/// The store together with the path it is read from and written to.
pub struct ConfigManager {
    pub config_path: String,
    pub config: Config,
}

/// Where the store lives under the home directory.
pub open spec fn default_path_suffix() -> Seq<char> {
    "/.config/devlg.toml"@
}

/// Relies on dirs::home_dir for the home directory of the user the
/// process runs as; the directory, when there is one, is handed back as
/// plain text. The answer depends on the environment, so nothing more is
/// promised of it.
#[verifier::external_body]
fn home_dir_text() -> (r: Option<String>) {
    dirs::home_dir().map(|p| p.to_string_lossy().to_string())
}

impl ConfigManager {
    /// A manager over an empty store: at the given path, or at the
    /// standard place under the home directory when none is given.
    pub fn new(config_path: Option<String>) -> (m: ConfigManager)
        ensures
            m.config@.sessions == Seq::<SessionView>::empty(),
            m.config@.templates == Seq::<TemplateView>::empty(),
            match config_path {
                Some(p) => m.config_path@ == p@,
                None => exists|h: Seq<char>| m.config_path@ == h + default_path_suffix(),
            },
    {
        let path = match config_path {
            Some(p) => p,
            None => {
                let mut base = match home_dir_text() {
                    Some(h) => h,
                    None => String::new(),
                };
                proof {
                    reveal_strlit("/.config/devlg.toml");
                }
                let ghost h = base@;
                base.append("/.config/devlg.toml");
                proof {
                    assert(base@ == h + default_path_suffix());
                }
                base
            },
        };
        ConfigManager { config_path: path, config: Config::new() }
    }

    /// The path the store is read from and written to.
    pub fn get_config_path(&self) -> (r: String)
        ensures
            r@ == self.config_path@,
    {
        self.config_path.clone()
    }
}

} // verus!
