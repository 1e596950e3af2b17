//! Remote repository references: rendering them as URLs and resolving
//! them from a short textual form.

use vstd::prelude::*;
use vstd::string::{StrSliceExecFns, StringExecFns};

use crate::text::{
    all_word_chars, seq_starts_with, str_find_char, str_len, str_starts_with, word_seq,
};

verus! {

/// Arguments of the subcommand that fetches an environment.
pub struct Args {
    /// URL or `<org>/<repo>` short form of the environment to grab.
    pub env: String,
}

/// A reference to a repository on a remote hosting provider. `org`,
/// `domain` and `protocol` fall back to fixed defaults when absent;
/// `repo` is always present.
#[derive(Debug)]
pub struct RemoteRepo {
    pub org: Option<String>,
    pub repo: String,
    pub domain: Option<String>,
    pub protocol: Option<String>,
}

/// The view of an optional string.
pub open spec fn opt_view(o: Option<String>) -> Option<Seq<char>> {
    match o {
        Some(s) => Some(s@),
        None => None,
    }
}

/// The contained sequence, or `d` when absent.
pub open spec fn opt_or(o: Option<Seq<char>>, d: Seq<char>) -> Seq<char> {
    match o {
        Some(s) => s,
        None => d,
    }
}

impl RemoteRepo {
    /// The invariant of a reference: the repository name is never
    /// empty. Absent fields fall back to defaults; the repo cannot.
    pub open spec fn wf(&self) -> bool {
        self.repo@.len() > 0
    }
}

/// The HTTPS form of a reference: `{protocol}{domain}/{org}/{repo}`,
/// with absent fields replaced by their documented defaults.
pub open spec fn url_of(r: RemoteRepo) -> Seq<char> {
    opt_or(opt_view(r.protocol), "https://"@) + opt_or(opt_view(r.domain), "github.com"@) + "/"@
        + opt_or(opt_view(r.org), "openteams-ai"@) + "/"@ + r.repo@
}

/// The SSH form of a reference: `git@{domain}:{org}/{repo}.git`, with
/// absent fields replaced by their documented defaults.
pub open spec fn ssh_url_of(r: RemoteRepo) -> Seq<char> {
    "git@"@ + opt_or(opt_view(r.domain), "github.com"@) + ":"@ + opt_or(
        opt_view(r.org),
        "openteams-ai"@,
    ) + "/"@ + r.repo@ + ".git"@
}

/// The recognized protocol prefix at the head of a reference, if any.
pub open spec fn proto_prefix_of(s: Seq<char>) -> Option<Seq<char>> {
    if seq_starts_with(s, "git+https://"@) {
        Some("git+https://"@)
    } else if seq_starts_with(s, "git+http://"@) {
        Some("git+http://"@)
    } else if seq_starts_with(s, "https://"@) {
        Some("https://"@)
    } else if seq_starts_with(s, "http://"@) {
        Some("http://"@)
    } else {
        None
    }
}

/// Splits off the optional `[protocol]domain/` head of a reference,
/// giving (protocol, domain, rest). A protocol not followed by the
/// recognized domain is malformed.
pub open spec fn head_split(s: Seq<char>) -> Option<
    (Option<Seq<char>>, Option<Seq<char>>, Seq<char>),
> {
    match proto_prefix_of(s) {
        Some(p) => {
            let after = s.skip(p.len() as int);
            if seq_starts_with(after, "github.com/"@) {
                Some(
                    (Some(p), Some("github.com"@), after.skip("github.com/"@.len() as int)),
                )
            } else {
                None
            }
        },
        None => {
            if seq_starts_with(s, "github.com/"@) {
                Some((None, Some("github.com"@), s.skip("github.com/"@.len() as int)))
            } else {
                Some((None, None, s))
            }
        },
    }
}

/// Splits the `[org/]repo` tail of a reference, giving (org, repo).
/// Both parts must be plain identifiers; the org is optional.
pub open spec fn tail_split(rest: Seq<char>) -> Option<(Option<Seq<char>>, Seq<char>)> {
    match rest.index_of_first('/') {
        Some(i) => {
            let org = rest.take(i);
            let repo = rest.skip(i + 1);
            if word_seq(org) && word_seq(repo) {
                Some((Some(org), repo))
            } else {
                None
            }
        },
        None => {
            if word_seq(rest) {
                Some((None, rest))
            } else {
                None
            }
        },
    }
}

/// The four parts of a well-formed reference
/// `[[protocol]domain/][org/]repo`, or nothing when `s` is not of that
/// shape.
pub open spec fn parse_spec(s: Seq<char>) -> Option<
    (Option<Seq<char>>, Option<Seq<char>>, Option<Seq<char>>, Seq<char>),
> {
    match head_split(s) {
        Some((proto, domain, rest)) => match tail_split(rest) {
            Some((org, repo)) => Some((proto, domain, org, repo)),
            None => None,
        },
        None => None,
    }
}

fn match_protocol(env: &str) -> (r: (usize, Option<String>))
    ensures
        opt_view(r.1) == proto_prefix_of(env@),
        r.1 is Some ==> r.0 == proto_prefix_of(env@)->0.len(),
        r.1 is None ==> r.0 == 0,
{
    if str_starts_with(env, "git+https://") {
        return (str_len("git+https://"), Some(String::from_str("git+https://")));
    }
    if str_starts_with(env, "git+http://") {
        return (str_len("git+http://"), Some(String::from_str("git+http://")));
    }
    if str_starts_with(env, "https://") {
        return (str_len("https://"), Some(String::from_str("https://")));
    }
    if str_starts_with(env, "http://") {
        return (str_len("http://"), Some(String::from_str("http://")));
    }
    (0, None)
}

fn parse_error_for(env: &str) -> (r: String)
    ensures
        r@ == "Unrecognized format for repo name or URL: "@ + env@ + "."@,
{
    let mut msg = String::from_str("Unrecognized format for repo name or URL: ");
    msg.append(env);
    msg.append(".");
    msg
}

/// Resolve a repository reference from its short textual form
/// `[[protocol]domain/][org/]repo`. The protocol and domain are
/// constrained to recognized values; the org is optional; the repo part
/// is mandatory and must be a plain identifier, so in particular the
/// empty string is refused.
pub fn parse_repo_arg(env: &str) -> (r: Result<RemoteRepo, String>)
    ensures
        r is Ok <==> parse_spec(env@) is Some,
        r is Ok ==> r->Ok_0.wf(),
        r is Ok ==> (({
            let parts = parse_spec(env@)->0;
            opt_view(r->Ok_0.protocol) == parts.0 && opt_view(r->Ok_0.domain) == parts.1
                && opt_view(r->Ok_0.org) == parts.2 && r->Ok_0.repo@ == parts.3
        })),
        r is Err ==> r->Err_0@ == "Unrecognized format for repo name or URL: "@ + env@ + "."@,
{
    let n = str_len(env);

    // The optional protocol prefix.
    let (proto_len, protocol) = match_protocol(env);
    let after = env.substring_char(proto_len, n);
    proof {
        assert(after@ =~= env@.skip(proto_len as int));
        if protocol is None {
            assert(env@.skip(0) =~= env@);
        }
    }

    // The optional domain; mandatory once a protocol was given.
    let has_domain = str_starts_with(after, "github.com/");
    let mut domain: Option<String> = None;
    let mut rest = after;
    if has_domain {
        let dlen = str_len("github.com/");
        let after_n = str_len(after);
        domain = Some(String::from_str("github.com"));
        rest = after.substring_char(dlen, after_n);
        proof {
            assert(rest@ =~= after@.skip("github.com/"@.len() as int));
        }
    } else if protocol.is_some() {
        proof {
            assert(head_split(env@) is None);
        }
        return Err(parse_error_for(env));
    }
    proof {
        assert(head_split(env@) == Some(
            (opt_view(protocol), opt_view(domain), rest@),
        ));
    }

    // The `[org/]repo` tail.
    let rest_n = str_len(rest);
    match str_find_char(rest, '/') {
        Some(i) => {
            let org_part = rest.substring_char(0, i);
            let repo_part = rest.substring_char(i + 1, rest_n);
            proof {
                crate::text::lemma_index_of_first_char(rest@, '/', i as int);
                assert(org_part@ =~= rest@.take(i as int));
                assert(repo_part@ =~= rest@.skip(i + 1));
            }
            if all_word_chars(org_part) && all_word_chars(repo_part) {
                Ok(RemoteRepo {
                    org: Some(String::from_str(org_part)),
                    repo: String::from_str(repo_part),
                    domain,
                    protocol,
                })
            } else {
                Err(parse_error_for(env))
            }
        },
        None => {
            proof {
                crate::text::lemma_index_of_first_char_none(rest@, '/');
            }
            if all_word_chars(rest) {
                Ok(RemoteRepo { org: None, repo: String::from_str(rest), domain, protocol })
            } else {
                Err(parse_error_for(env))
            }
        },
    }
}

impl RemoteRepo {
    /// Render the reference as a git URL.
    pub fn as_url(&self) -> (r: String)
        ensures
            r@ == url_of(*self),
    {
        let mut out = match &self.protocol {
            Some(p) => p.clone(),
            None => String::from_str("https://"),
        };
        match &self.domain {
            Some(d) => out.append(d.as_str()),
            None => out.append("github.com"),
        }
        out.append("/");
        match &self.org {
            Some(o) => out.append(o.as_str()),
            None => out.append("openteams-ai"),
        }
        out.append("/");
        out.append(self.repo.as_str());
        out
    }

    /// Render the reference as an SSH URL.
    pub fn as_ssh_url(&self) -> (r: String)
        ensures
            r@ == ssh_url_of(*self),
    {
        let mut out = String::from_str("git@");
        match &self.domain {
            Some(d) => out.append(d.as_str()),
            None => out.append("github.com"),
        }
        out.append(":");
        match &self.org {
            Some(o) => out.append(o.as_str()),
            None => out.append("openteams-ai"),
        }
        out.append("/");
        out.append(self.repo.as_str());
        out.append(".git");
        out
    }
}

} // verus!
