//! What the copy command computes before the copy tool runs: splitting
//! `name:path` arguments, turning record and path into a copy URI, and
//! the full copy plan with its argument list.

use vstd::prelude::*;
use vstd::string::StrSliceExecFns;
use vstd::string::StringExecFns;

use crate::config::Config;
use crate::config::find_session;
use crate::session::Session;
use crate::session::SessionView;
use crate::text::dec_rep;
use crate::text::u16_to_dec;

verus! {

/// The position of the first colon, or the length when there is none.
pub open spec fn find_colon(s: Seq<char>) -> nat
    decreases s.len(),
{
    if s.len() == 0 {
        0
    } else if s[0] == ':' {
        0
    } else {
        1 + find_colon(s.subrange(1, s.len() as int))
    }
}

pub proof fn lemma_find_colon(s: Seq<char>)
    ensures
        find_colon(s) <= s.len(),
        forall|j: int| 0 <= j < find_colon(s) ==> #[trigger] s[j] != ':',
        find_colon(s) < s.len() ==> s[find_colon(s) as int] == ':',
    decreases s.len(),
{
    if s.len() > 0 && s[0] != ':' {
        let rest = s.subrange(1, s.len() as int);
        lemma_find_colon(rest);
        assert forall|j: int| 0 <= j < find_colon(s) implies #[trigger] s[j] != ':' by {
            if j > 0 {
                assert(s[j] == rest[j - 1]);
            }
        }
    }
}

/// Splits a copy argument at its first colon: the part before names a
/// record, the part after is the path; an argument without a colon is a
/// plain local path.
pub fn parse_path(path: String) -> (r: (Option<String>, String))
    ensures
        ({
            let k = find_colon(path@);
            if k < path@.len() {
                r.0 == Some::<String>(r.0->0) && r.0->0@ == path@.subrange(0, k as int) && r.1@
                    == path@.subrange(k + 1 as int, path@.len() as int)
            } else {
                r.0 is None && r.1@ == path@
            }
        }),
{
    proof {
        lemma_find_colon(path@);
    }
    let n = path.as_str().unicode_len();
    let mut k: usize = 0;
    while k < n && path.as_str().get_char(k) != ':'
        invariant
            0 <= k <= n,
            n == path@.len(),
            forall|j: int| 0 <= j < k ==> #[trigger] path@[j] != ':',
        decreases n - k,
    {
        k = k + 1;
    }
    proof {
        assert(k == find_colon(path@));
    }
    if k == n {
        (None, path)
    } else {
        let name = path.as_str().substring_char(0, k).to_owned();
        let rest = path.as_str().substring_char(k + 1, n).to_owned();
        (Some(name), rest)
    }
}

/// The copy URI of a path on a record's host:
/// `scp://user@host:port/path`.
pub open spec fn scp_uri_view(s: SessionView, path: Seq<char>) -> Seq<char> {
    "scp://"@ + s.user + "@"@ + s.host + ":"@ + dec_rep(s.port as int) + "/"@ + path
}

/// Writes the copy URI of a path on a record's host.
pub fn generate_scp_uri(session: &Session, path: &str) -> (r: String)
    ensures
        r@ == scp_uri_view(session@, path@),
{
    let mut out = String::from_str("scp://");
    out.append(session.user.as_str());
    out.append("@");
    out.append(session.host.as_str());
    out.append(":");
    let port = u16_to_dec(session.port);
    out.append(port.as_str());
    out.append("/");
    out.append(path);
    out
}

/// Why no copy plan could be made: both ends name a record, or neither
/// does.
#[derive(Clone, Copy, Debug, PartialEq, Eq, Structural)]
pub enum CopyError {
    BothRemote,
    NoSession,
}

/// Everything the copy tool needs: the source and destination arguments
/// with the remote end written as a copy URI, the record the control
/// connection is opened over, and whether directories are copied.
#[derive(Debug)]
pub struct CopyPlan {
    pub sources: Vec<String>,
    pub destination: String,
    pub master: Session,
    pub recursive: bool,
}

/// The copy plan for the given ends. Exactly one end must name a
/// record: that record carries the control connection, its paths become
/// copy URIs, and the other end's paths pass through unchanged.
pub fn plan_copy(
    src_session: Option<&Session>,
    dst_session: Option<&Session>,
    src_paths: &Vec<String>,
    dst_path: &str,
    recursive: bool,
) -> (r: Result<CopyPlan, CopyError>)
    ensures
        src_session is Some && dst_session is Some ==> r == Err::<CopyPlan, CopyError>(
            CopyError::BothRemote,
        ),
        src_session is None && dst_session is None ==> r == Err::<CopyPlan, CopyError>(
            CopyError::NoSession,
        ),
        src_session is Some && dst_session is None ==> r is Ok && ({
            let plan = r->Ok_0;
            &&& plan.sources.deep_view() == Seq::new(
                src_paths.deep_view().len(),
                |i: int| scp_uri_view(src_session->0@, src_paths.deep_view()[i]),
            )
            &&& plan.destination@ == dst_path@
            &&& plan.master@ == src_session->0@
            &&& plan.recursive == recursive
        }),
        src_session is None && dst_session is Some ==> r is Ok && ({
            let plan = r->Ok_0;
            &&& plan.sources.deep_view() == src_paths.deep_view()
            &&& plan.destination@ == scp_uri_view(dst_session->0@, dst_path@)
            &&& plan.master@ == dst_session->0@
            &&& plan.recursive == recursive
        }),
{
    match (src_session, dst_session) {
        (Some(_), Some(_)) => Err(CopyError::BothRemote),
        (None, None) => Err(CopyError::NoSession),
        (Some(s), None) => {
            let mut sources: Vec<String> = Vec::new();
            let mut i: usize = 0;
            while i < src_paths.len()
                invariant
                    0 <= i <= src_paths.len(),
                    sources.deep_view() =~= Seq::new(
                        i as nat,
                        |j: int| scp_uri_view(s@, src_paths.deep_view()[j]),
                    ),
                decreases src_paths.len() - i,
            {
                let uri = generate_scp_uri(s, src_paths[i].as_str());
                sources.push(uri);
                proof {
                    assert(src_paths.deep_view()[i as int] == src_paths@[i as int]@);
                    assert(sources.deep_view() =~= Seq::new(
                        i as nat,
                        |j: int| scp_uri_view(s@, src_paths.deep_view()[j]),
                    ).push(scp_uri_view(s@, src_paths.deep_view()[i as int])));
                    assert(sources.deep_view() =~= Seq::new(
                        (i + 1) as nat,
                        |j: int| scp_uri_view(s@, src_paths.deep_view()[j]),
                    ));
                }
                i = i + 1;
            }
            Ok(
                CopyPlan {
                    sources,
                    destination: dst_path.to_owned(),
                    master: s.clone(),
                    recursive,
                },
            )
        },
        (None, Some(d)) => {
            let sources = crate::session::clone_string_vec(src_paths);
            let destination = generate_scp_uri(d, dst_path);
            Ok(CopyPlan { sources, destination, master: d.clone(), recursive })
        },
    }
}

/// Why the copy command rejected its arguments before any plan was
/// made.
#[derive(Clone, Copy, Debug, PartialEq, Eq, Structural)]
pub enum CpError {
    NeedTwoPaths,
    BothRemote,
    NoSession,
}

/// The record an optional name refers to, if the store holds one.
pub open spec fn named_session(c: Config, name: Option<String>) -> Option<SessionView> {
    match name {
        Some(n) => find_session(c@.sessions, n@),
        None => None,
    }
}

/// Plans the copy command: the last path is the destination, the ones
/// before are sources, and the named records, where the store holds
/// them, make one end remote.
pub fn handle_cp(
    config: &Config,
    paths: Vec<String>,
    src: Option<String>,
    dst: Option<String>,
    recursive: bool,
) -> (r: Result<CopyPlan, CpError>)
    ensures
        paths@.len() < 2 ==> r == Err::<CopyPlan, CpError>(CpError::NeedTwoPaths),
        paths@.len() >= 2 ==> ({
            let srcv = named_session(*config, src);
            let dstv = named_session(*config, dst);
            let n = paths.deep_view().len();
            &&& (srcv is Some && dstv is Some ==> r == Err::<CopyPlan, CpError>(
                CpError::BothRemote,
            ))
            &&& (srcv is None && dstv is None ==> r == Err::<CopyPlan, CpError>(
                CpError::NoSession,
            ))
            &&& (srcv is Some && dstv is None ==> r is Ok && ({
                let plan = r->Ok_0;
                &&& plan.sources.deep_view() == Seq::new(
                    (n - 1) as nat,
                    |i: int| scp_uri_view(srcv->0, paths.deep_view()[i]),
                )
                &&& plan.destination@ == paths.deep_view()[n - 1]
                &&& plan.master@ == srcv->0
                &&& plan.recursive == recursive
            }))
            &&& (srcv is None && dstv is Some ==> r is Ok && ({
                let plan = r->Ok_0;
                &&& plan.sources.deep_view() == paths.deep_view().take(n - 1)
                &&& plan.destination@ == scp_uri_view(dstv->0, paths.deep_view()[n - 1])
                &&& plan.master@ == dstv->0
                &&& plan.recursive == recursive
            }))
        }),
{
    if paths.len() < 2 {
        return Err(CpError::NeedTwoPaths);
    }
    let src_session = match src.as_ref() {
        Some(n) => config.get_session(n.as_str()),
        None => None,
    };
    let dst_session = match dst.as_ref() {
        Some(n) => config.get_session(n.as_str()),
        None => None,
    };
    let mut src_paths: Vec<String> = Vec::new();
    let mut i: usize = 0;
    while i < paths.len() - 1
        invariant
            0 <= i <= paths.len() - 1,
            paths.len() >= 2,
            src_paths.deep_view() =~= paths.deep_view().take(i as int),
        decreases paths.len() - 1 - i,
    {
        let p = paths[i].clone();
        src_paths.push(p);
        proof {
            assert(paths.deep_view()[i as int] == paths@[i as int]@);
            assert(src_paths.deep_view() =~= paths.deep_view().take(i as int).push(
                paths.deep_view()[i as int],
            ));
            assert(src_paths.deep_view() =~= paths.deep_view().take(i + 1 as int));
        }
        i = i + 1;
    }
    let dst_path = paths[paths.len() - 1].clone();
    proof {
        assert(paths.deep_view()[paths@.len() - 1] == paths@[paths@.len() - 1]@);
    }
    match plan_copy(src_session, dst_session, &src_paths, dst_path.as_str(), recursive) {
        Ok(plan) => Ok(plan),
        Err(CopyError::BothRemote) => Err(CpError::BothRemote),
        Err(CopyError::NoSession) => Err(CpError::NoSession),
    }
}


/// The whole argument list handed to the copy tool: the control path
/// of the master connection, the recursive flag when asked for, then
/// every source and the destination.
pub open spec fn scp_args_view(p: CopyPlan) -> Seq<Seq<char>> {
    seq!["-o"@, "ControlPath=~/.ssh/"@ + p.master@.name] + (if p.recursive {
        seq!["-r"@]
    } else {
        Seq::<Seq<char>>::empty()
    }) + p.sources.deep_view() + seq![p.destination@]
}

impl CopyPlan {
    /// Writes the copy tool's argument list for this plan.
    pub fn scp_args(&self) -> (r: Vec<String>)
        ensures
            r.deep_view() == scp_args_view(*self),
    {
        let mut args: Vec<String> = Vec::new();
        proof {
            assert(args.deep_view() =~= Seq::<Seq<char>>::empty());
        }
        args.push(String::from_str("-o"));
        let mut control = String::from_str("ControlPath=~/.ssh/");
        control.append(self.master.name.as_str());
        args.push(control);
        if self.recursive {
            args.push(String::from_str("-r"));
        }
        proof {
            assert(args.deep_view() =~= seq!["-o"@, "ControlPath=~/.ssh/"@ + self.master@.name]
                + (if self.recursive {
                seq!["-r"@]
            } else {
                Seq::<Seq<char>>::empty()
            }));
        }
        let ghost head = args.deep_view();
        let mut i: usize = 0;
        while i < self.sources.len()
            invariant
                0 <= i <= self.sources.len(),
                args.deep_view() == head + self.sources.deep_view().take(i as int),
            decreases self.sources.len() - i,
        {
            let s = self.sources[i].clone();
            args.push(s);
            proof {
                assert(self.sources.deep_view()[i as int] == self.sources@[i as int]@);
                assert(args.deep_view() =~= (head + self.sources.deep_view().take(i as int)).push(
                    self.sources.deep_view()[i as int],
                ));
                assert(args.deep_view() =~= head + self.sources.deep_view().take(i + 1 as int));
            }
            i = i + 1;
        }
        proof {
            assert(self.sources.deep_view().take(self.sources@.len() as int)
                =~= self.sources.deep_view());
        }
        args.push(self.destination.clone());
        proof {
            assert(args.deep_view() =~= (head + self.sources.deep_view()).push(
                self.destination@,
            ));
            assert(args.deep_view() =~= scp_args_view(*self));
        }
        args
    }
}

} // verus!
