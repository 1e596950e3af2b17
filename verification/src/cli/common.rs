//! The lockspec unit and the staged transfer protocol around it.
//!
//! A lockspec is a directory owning exactly two files, a spec file and
//! a lock file; it is valid only while both exist. The functions here
//! decide everything about that unit — the file names it owns, whether
//! it is valid, what its metadata block looks like, what a staged clone
//! may do — while the caller carries out the filesystem and git work
//! and reports the outcomes back as plain values.

use vstd::prelude::*;
use vstd::string::{StrSliceExecFns, StringExecFns};

use crate::text::seq_starts_with;
use crate::toml_shape::{
    metadata_block_string, toml_check, toml_doc_ok, with_metadata, TomlMode,
};

verus! {

/// Environments directory kept under the user's home directory.
pub open spec fn envs_dir_of(home: Seq<char>) -> Seq<char> {
    home + "/.araki/envs"@
}

/// Shim directory kept under the user's home directory.
pub open spec fn bin_dir_of(home: Seq<char>) -> Seq<char> {
    home + "/.araki/bin"@
}

/// The environments directory for a user whose home directory the
/// caller has determined. Creating it when missing is the caller's part.
pub fn get_default_araki_envs_dir(home: &str) -> (r: String)
    ensures
        r@ == envs_dir_of(home@),
{
    let mut out = String::from_str(home);
    out.append("/.araki/envs");
    out
}

/// The shim directory for a user whose home directory the caller has
/// determined.
pub fn get_default_araki_bin_dir(home: &str) -> (r: String)
    ensures
        r@ == bin_dir_of(home@),
{
    let mut out = String::from_str(home);
    out.append("/.araki/bin");
    out
}

/// What a look at the disk reported about the two files of a lockspec
/// directory. Only the caller can look; it fills this in.
#[derive(Clone, Copy, Debug)]
pub struct LockSpecProbe {
    pub specfile_exists: bool,
    pub lockfile_exists: bool,
}

/// A versioned environment descriptor: a directory holding a spec file
/// and a lock file, tracked as a unit.
#[derive(Clone, Debug)]
pub struct LockSpec {
    pub path: String,
}

/// Path of the spec file inside a lockspec directory.
pub open spec fn specfile_of(path: Seq<char>) -> Seq<char> {
    path + "/pixi.toml"@
}

/// Path of the lock file inside a lockspec directory.
pub open spec fn lockfile_of(path: Seq<char>) -> Seq<char> {
    path + "/pixi.lock"@
}

/// Path of the renamed git-metadata directory inside a lockspec
/// directory.
pub open spec fn araki_git_dir_of(path: Seq<char>) -> Seq<char> {
    path + "/.araki-git"@
}

impl LockSpec {
    pub fn specfile(&self) -> (r: String)
        ensures
            r@ == specfile_of(self.path@),
    {
        let mut out = self.path.clone();
        out.append("/pixi.toml");
        out
    }

    pub fn lockfile(&self) -> (r: String)
        ensures
            r@ == lockfile_of(self.path@),
    {
        let mut out = self.path.clone();
        out.append("/pixi.lock");
        out
    }

    /// Whether the lockspec is valid: exactly the conjunction of its
    /// two files existing, as the caller reported them.
    pub fn files_exist(&self, probe: &LockSpecProbe) -> (r: bool)
        ensures
            r == (probe.specfile_exists && probe.lockfile_exists),
    {
        probe.lockfile_exists && probe.specfile_exists
    }

    /// Construct a lockspec from a candidate directory, given what the
    /// caller found on disk there. A directory missing either file is
    /// refused: partial presence is an error, never silently tolerated.
    pub fn from_path(path: String, probe: &LockSpecProbe) -> (r: Result<LockSpec, String>)
        ensures
            r is Ok <==> (probe.specfile_exists && probe.lockfile_exists),
            r is Ok ==> r->Ok_0.path@ == path@,
            r is Err ==> r->Err_0@ == "No lockspec files found in "@ + path@,
    {
        let ls = LockSpec { path };
        let probe_copy = *probe;
        if ls.files_exist(&probe_copy) {
            Ok(ls)
        } else {
            let mut msg = String::from_str("No lockspec files found in ");
            msg.append(ls.path.as_str());
            Err(msg)
        }
    }
}

/// Validity is exactly the conjunction of the two files existing:
/// deleting either file, whatever the other's state, flips a lockspec
/// to invalid.
pub proof fn lemma_deleting_either_file_invalidates(before: LockSpecProbe, after: LockSpecProbe)
    requires
        (!after.specfile_exists && after.lockfile_exists == before.lockfile_exists) || (
        !after.lockfile_exists && after.specfile_exists == before.specfile_exists),
    ensures
        !(after.specfile_exists && after.lockfile_exists),
{
}

/// The views of a sequence of strings: the contract-level picture of a
/// directory listing.
pub open spec fn views(s: Seq<String>) -> Seq<Seq<char>> {
    s.map_values(|x: String| x@)
}

/// Entry names fit for a staged copy into `target`: pairwise distinct,
/// and none of them already present, so that a rollback can restore the
/// target exactly by deleting what was copied.
pub open spec fn fresh_entries(target: Seq<Seq<char>>, entries: Seq<Seq<char>>) -> bool {
    (forall|i: int, j: int| 0 <= i < j < entries.len() ==> entries[i] != entries[j]) && (forall|
        i: int,
    |
        0 <= i < entries.len() ==> !target.contains(#[trigger] entries[i]))
}

proof fn lemma_views_push(s: Seq<String>, x: String)
    ensures
        views(s.push(x)) == views(s).push(x@),
{
    assert(views(s.push(x)) =~= views(s).push(x@));
}

proof fn lemma_filter_push<A>(s: Seq<A>, a: A, pred: spec_fn(A) -> bool)
    ensures
        (s.push(a)).filter(pred) == if pred(a) {
            s.filter(pred).push(a)
        } else {
            s.filter(pred)
        },
{
    reveal(Seq::filter);
    assert((s.push(a)).drop_last() =~= s);
}

proof fn lemma_filter_identity<A>(s: Seq<A>, pred: spec_fn(A) -> bool)
    requires
        forall|i: int| 0 <= i < s.len() ==> pred(#[trigger] s[i]),
    ensures
        s.filter(pred) == s,
    decreases s.len(),
{
    reveal(Seq::filter);
    if s.len() > 0 {
        lemma_filter_identity(s.drop_last(), pred);
        assert(s.drop_last().push(s.last()) =~= s);
    }
}

/// Whether `name` occurs among the strings of `v`.
pub fn contains_str(v: &Vec<String>, name: &str) -> (r: bool)
    ensures
        r == views(v@).contains(name@),
{
    let n = v.len();
    let mut i: usize = 0;
    while i < n
        invariant
            n == v@.len(),
            i <= n,
            forall|j: int| 0 <= j < i ==> views(v@)[j] != name@,
        decreases n - i,
    {
        if crate::text::str_eq(v[i].as_str(), name) {
            proof {
                assert(views(v@)[i as int] == name@);
            }
            return true;
        }
        i += 1;
    }
    false
}

/// Remove from the directory listing `target` every entry whose name is
/// in `files`; a name with nothing to remove is a no-op, never an error.
pub fn remove_files(target: &mut Vec<String>, files: &Vec<String>)
    ensures
        views(final(target)@) == views(old(target)@).filter(
            |e: Seq<char>| !views(files@).contains(e),
        ),
{
    let ghost pred = |e: Seq<char>| !views(files@).contains(e);
    let mut kept: Vec<String> = Vec::new();
    let n = target.len();
    let mut i: usize = 0;
    while i < n
        invariant
            n == target@.len(),
            i <= n,
            target@ == old(target)@,
            pred == (|e: Seq<char>| !views(files@).contains(e)),
            views(kept@) == views(target@.take(i as int)).filter(pred),
        decreases n - i,
    {
        proof {
            assert(target@.take(i + 1).drop_last() =~= target@.take(i as int));
            lemma_views_push(target@.take(i as int), target@[i as int]);
            assert(target@.take(i + 1) =~= target@.take(i as int).push(target@[i as int]));
            lemma_filter_push(views(target@.take(i as int)), target@[i as int]@, pred);
        }
        let keep = !contains_str(files, target[i].as_str());
        if keep {
            let item = target[i].clone();
            proof {
                lemma_views_push(kept@, item);
            }
            kept.push(item);
        }
        i += 1;
    }
    proof {
        assert(target@.take(n as int) =~= target@);
    }
    *target = kept;
}

/// One staged copy of a directory's entries into a target listing.
///
/// `copied_ok` reports, entry by entry, whether the caller managed to
/// copy that entry. The first failure rolls back by deleting everything
/// already copied before surfacing the error: the target ends in
/// exactly the state it started in, never partially populated.
pub fn copy_directory_contents(
    from: &str,
    to: &str,
    target: &mut Vec<String>,
    entries: &Vec<String>,
    copied_ok: &Vec<bool>,
) -> (r: Result<(), String>)
    requires
        copied_ok@.len() == entries@.len(),
        fresh_entries(views(old(target)@), views(entries@)),
    ensures
        r is Ok <==> (forall|i: int| 0 <= i < copied_ok@.len() ==> copied_ok@[i]),
        r is Ok ==> views(final(target)@) == views(old(target)@) + views(entries@),
        r is Err ==> views(final(target)@) == views(old(target)@),
        r is Err ==> r->Err_0@ == "Unknown issue copying "@ + from@ + " to "@ + to@ + "."@,
{
    let mut copied: Vec<String> = Vec::new();
    let n = entries.len();
    let mut i: usize = 0;
    while i < n
        invariant
            n == entries@.len(),
            copied_ok@.len() == entries@.len(),
            fresh_entries(views(old(target)@), views(entries@)),
            i <= n,
            forall|j: int| 0 <= j < i ==> copied_ok@[j],
            views(target@) == views(old(target)@) + views(entries@.take(i as int)),
            views(copied@) == views(entries@.take(i as int)),
        decreases n - i,
    {
        proof {
            lemma_views_push(entries@.take(i as int), entries@[i as int]);
            assert(entries@.take(i + 1) =~= entries@.take(i as int).push(entries@[i as int]));
        }
        if copied_ok[i] {
            proof {
                lemma_views_push(target@, entries@[i as int]);
                assert(views(old(target)@) + views(entries@.take(i as int)).push(
                    entries@[i as int]@,
                ) =~= (views(old(target)@) + views(entries@.take(i as int))).push(
                    entries@[i as int]@,
                ));
            }
            target.push(entries[i].clone());
            copied.push(entries[i].clone());
            i += 1;
        } else {
            proof {
                let ghost pred = |e: Seq<char>| !views(copied@).contains(e);
                let pre = views(old(target)@);
                let added = views(entries@.take(i as int));
                Seq::filter_distributes_over_add(pre, added, pred);
                assert forall|k: int| 0 <= k < pre.len() implies pred(#[trigger] pre[k]) by {
                    if views(copied@).contains(pre[k]) {
                        let w = choose|w: int|
                            0 <= w < added.len() && added[w] == pre[k];
                        assert(views(entries@)[w] == pre[k]);
                        assert(pre.contains(views(entries@)[w]));
                    }
                }
                lemma_filter_identity(pre, pred);
                assert forall|k: int| 0 <= k < added.len() implies !pred(#[trigger] added[k]) by {
                    assert(views(copied@)[k] == added[k]);
                }
                added.lemma_all_neg_filter_empty(pred);
                assert(pre.filter(pred) + added.filter(pred) =~= pre);
            }
            remove_files(target, &copied);
            let mut msg = String::from_str("Unknown issue copying ");
            msg.append(from);
            msg.append(" to ");
            msg.append(to);
            msg.append(".");
            return Err(msg);
        }
    }
    proof {
        assert(entries@.take(n as int) =~= entries@);
    }
    Ok(())
}

/// A staged recursive directory copy that creates `to`. A source that
/// is not a directory, or a target that already exists, is refused. On
/// a partial failure the freshly created target directory is deleted
/// whole; on success the returned listing holds exactly the copied
/// entries.
pub fn copy_directory(
    from: &str,
    to: &str,
    from_is_dir: bool,
    to_exists: bool,
    entries: &Vec<String>,
    copied_ok: &Vec<bool>,
) -> (r: Result<Vec<String>, String>)
    requires
        copied_ok@.len() == entries@.len(),
        forall|i: int, j: int|
            0 <= i < j < views(entries@).len() ==> views(entries@)[i] != views(entries@)[j],
    ensures
        !from_is_dir ==> r is Err && r->Err_0@ == from@ + " is not a directory"@,
        from_is_dir && to_exists ==> r is Err && r->Err_0@ == to@ + " already exists"@,
        from_is_dir && !to_exists ==> ((r is Ok) <==> (forall|i: int|
            0 <= i < copied_ok@.len() ==> copied_ok@[i])),
        from_is_dir && !to_exists && r is Ok ==> views(r->Ok_0@) == views(entries@),
        from_is_dir && !to_exists && r is Err ==> r->Err_0@ == "Unknown issue copying "@ + from@
            + " to "@ + to@ + "."@,
{
    if !from_is_dir {
        let mut msg = String::from_str(from);
        msg.append(" is not a directory");
        return Err(msg);
    }
    if to_exists {
        let mut msg = String::from_str(to);
        msg.append(" already exists");
        return Err(msg);
    }
    let mut created: Vec<String> = Vec::new();
    let result = copy_directory_contents(from, to, &mut created, entries, copied_ok);
    match result {
        Ok(()) => {
            proof {
                assert(views(Seq::<String>::empty()) =~= Seq::<Seq<char>>::empty());
                assert(Seq::<Seq<char>>::empty() + views(entries@) =~= views(entries@));
            }
            Ok(created)
        },
        Err(msg) => Err(msg),
    }
}

impl LockSpec {
    /// The spec-file content after making sure the tool's metadata
    /// block is present. The caller reads the spec file, hands its
    /// content in, and writes the result back only when it changed.
    /// Content that is not TOML-shaped is refused and must be left on
    /// disk as it is; content already carrying the top-level table is
    /// returned unchanged, never clobbered.
    pub fn ensure_araki_metadata(&self, content: &str, lockspec_name: &str) -> (r: Result<
        String,
        String,
    >)
        ensures
            (r is Ok) <==> toml_doc_ok(content@),
            r is Ok ==> r->Ok_0@ == with_metadata(content@, lockspec_name@),
            r is Err ==> r->Err_0@ == "Unable to parse "@ + specfile_of(self.path@)
                + " as valid toml."@,
    {
        let scan = toml_check(content);
        if scan.failed || !(matches!(scan.mode, TomlMode::LineStart)) || scan.depth != 0 {
            let mut msg = String::from_str("Unable to parse ");
            let sf = self.specfile();
            msg.append(sf.as_str());
            msg.append(" as valid toml.");
            return Err(msg);
        }
        if scan.found_araki {
            Ok(String::from_str(content))
        } else {
            let mut out = String::from_str(content);
            let block = metadata_block_string(lockspec_name);
            out.append(block.as_str());
            Ok(out)
        }
    }
}

/// Outcome of one removal attempt, as the caller reports it: removed,
/// already absent, or failed with the underlying error text.
#[derive(Debug)]
pub enum RemoveOutcome {
    Removed,
    Missing(String),
    Failed(String),
}

/// The message of the first hard failure among removal outcomes, if
/// any; a missing file is expected absence, not a failure.
pub open spec fn first_failure(s: Seq<RemoveOutcome>) -> Option<Seq<char>>
    decreases s.len(),
{
    if s.len() == 0 {
        None
    } else {
        match s[0] {
            RemoveOutcome::Failed(m) => Some(m@),
            _ => first_failure(s.drop_first()),
        }
    }
}

proof fn lemma_first_failure_none(s: Seq<RemoveOutcome>)
    requires
        forall|i: int| 0 <= i < s.len() ==> !(#[trigger] s[i] is Failed),
    ensures
        first_failure(s) is None,
    decreases s.len(),
{
    if s.len() > 0 {
        lemma_first_failure_none(s.drop_first());
    }
}

proof fn lemma_first_failure_at(s: Seq<RemoveOutcome>, i: int)
    requires
        0 <= i < s.len(),
        forall|j: int| 0 <= j < i ==> !(#[trigger] s[j] is Failed),
        s[i] is Failed,
    ensures
        first_failure(s) == Some(s[i]->Failed_0@),
    decreases s.len(),
{
    if i > 0 {
        lemma_first_failure_at(s.drop_first(), i - 1);
    }
}

impl LockSpec {
    /// The three paths a removal of this lockspec deletes: the spec
    /// file, the lock file, and the renamed git-metadata directory.
    pub fn removal_targets(&self) -> (r: Vec<String>)
        ensures
            r@.len() == 3,
            r@[0]@ == specfile_of(self.path@),
            r@[1]@ == lockfile_of(self.path@),
            r@[2]@ == araki_git_dir_of(self.path@),
    {
        let mut out: Vec<String> = Vec::new();
        out.push(self.specfile());
        out.push(self.lockfile());
        let mut git_dir = self.path.clone();
        git_dir.append("/.araki-git");
        out.push(git_dir);
        out
    }

    /// Judge a removal from what the caller's attempts reported, in
    /// target order. Absence is a no-op; the first hard failure is the
    /// error of the whole removal, and later targets were not touched.
    pub fn remove_files(&self, outcomes: &Vec<RemoveOutcome>) -> (r: Result<(), String>)
        ensures
            r is Ok <==> first_failure(outcomes@) is None,
            r is Err ==> Some(r->Err_0@) == first_failure(outcomes@),
    {
        let n = outcomes.len();
        let mut i: usize = 0;
        while i < n
            invariant
                n == outcomes@.len(),
                i <= n,
                forall|j: int| 0 <= j < i ==> !(#[trigger] outcomes@[j] is Failed),
            decreases n - i,
        {
            match &outcomes[i] {
                RemoveOutcome::Failed(m) => {
                    proof {
                        lemma_first_failure_at(outcomes@, i as int);
                    }
                    return Err(m.clone());
                },
                _ => {},
            }
            i += 1;
        }
        proof {
            lemma_first_failure_none(outcomes@);
        }
        Ok(())
    }
}

/// State of the SSH credential negotiation of one transfer: whether a
/// key has already been requested from the running agent. The git layer
/// calls the credential callback again when the server rejects the
/// first key; without this state that would loop forever.
pub struct SshAttempt {
    pub tried_agent: bool,
}

/// What one credential request decides: ask the agent for a key under
/// the given username, or fail with guidance text.
#[derive(Debug)]
pub enum CredDecision {
    UseAgent(String),
    Fail(String),
}

/// The view of an optional username handed in by the transport.
pub open spec fn uname_view(o: Option<&str>) -> Option<Seq<char>> {
    match o {
        Some(s) => Some(s@),
        None => None,
    }
}

/// Whether a credential request in the given state reaches the agent:
/// only the first SSH-key request with a usable username does.
pub open spec fn cred_agent_attempted(
    tried: bool,
    username: Option<Seq<char>>,
    is_ssh_key: bool,
) -> bool {
    username is Some && !tried && is_ssh_key
}

/// The tried-agent flag after one credential request.
pub open spec fn cred_next_tried(
    tried: bool,
    username: Option<Seq<char>>,
    is_ssh_key: bool,
) -> bool {
    tried || (username is Some && is_ssh_key)
}

impl SshAttempt {
    /// A fresh negotiation: the agent has not been asked yet.
    pub fn new() -> (r: SshAttempt)
        ensures
            !r.tried_agent,
    {
        SshAttempt { tried_agent: false }
    }

    /// Decide one credential callback invocation. A request without a
    /// username from the URL cannot be served; a request after the
    /// agent was already tried is exhausted and fails at once rather
    /// than retrying; a non-SSH-key request is refused with fixed
    /// guidance; only the first SSH-key request goes to the agent.
    pub fn on_credential_request(
        &mut self,
        username_from_url: Option<&str>,
        is_ssh_key: bool,
    ) -> (r: CredDecision)
        ensures
            final(self).tried_agent == cred_next_tried(
                old(self).tried_agent,
                uname_view(username_from_url),
                is_ssh_key,
            ),
            (r is UseAgent) <==> cred_agent_attempted(
                old(self).tried_agent,
                uname_view(username_from_url),
                is_ssh_key,
            ),
            r is UseAgent ==> r->UseAgent_0@ == username_from_url->0@,
            username_from_url is None ==> r is Fail && r->Fail_0@
                == "Unable to get the ssh username from the URL."@,
            username_from_url is Some && old(self).tried_agent ==> r is Fail && r->Fail_0@
                == "Unable to authenticate via ssh. Is ssh-agent running, and have you added the ssh key you use for git?"@,
            username_from_url is Some && !old(self).tried_agent && !is_ssh_key ==> r is Fail
                && r->Fail_0@
                == "araki only supports ssh for git interactions. Please configure ssh-agent."@,
    {
        let username = match username_from_url {
            Some(u) => u,
            None => {
                return CredDecision::Fail(
                    String::from_str("Unable to get the ssh username from the URL."),
                );
            },
        };
        if self.tried_agent {
            return CredDecision::Fail(
                String::from_str(
                    "Unable to authenticate via ssh. Is ssh-agent running, and have you added the ssh key you use for git?",
                ),
            );
        }
        if is_ssh_key {
            self.tried_agent = true;
            return CredDecision::UseAgent(String::from_str(username));
        }
        CredDecision::Fail(
            String::from_str(
                "araki only supports ssh for git interactions. Please configure ssh-agent.",
            ),
        )
    }
}

/// Once the agent has been tried, every further credential request of
/// the same transfer fails with guidance; the agent is never attempted
/// a second time, whatever the transport offers next.
pub proof fn lemma_no_second_agent_attempt(
    first_username: Option<Seq<char>>,
    first_ssh: bool,
    second_username: Option<Seq<char>>,
    second_ssh: bool,
)
    requires
        cred_agent_attempted(false, first_username, first_ssh),
    ensures
        !cred_agent_attempted(
            cred_next_tried(false, first_username, first_ssh),
            second_username,
            second_ssh,
        ),
{
}

/// The stages of the staged clone protocol, in order: allocate a fresh
/// staging directory, clone into it, rename its git-metadata directory
/// to the tool's alternate name, then copy the staged tree into the
/// real target.
#[derive(Clone, Copy, PartialEq, Eq, Structural, Debug)]
pub enum CloneStage {
    CreateStaging,
    CloneRemote,
    RenameGitDir,
    CopyToTarget,
    Done,
}

/// The stage that follows a successful step.
pub open spec fn next_stage(s: CloneStage) -> CloneStage {
    match s {
        CloneStage::CreateStaging => CloneStage::CloneRemote,
        CloneStage::CloneRemote => CloneStage::RenameGitDir,
        CloneStage::RenameGitDir => CloneStage::CopyToTarget,
        CloneStage::CopyToTarget => CloneStage::Done,
        CloneStage::Done => CloneStage::Done,
    }
}

/// The error a failure at each stage surfaces, wrapping the underlying
/// error text. Up to and including the clone stage the real target was
/// never touched; a copy failure has already been rolled back when it
/// reaches this message.
pub open spec fn clone_error_of(
    stage: CloneStage,
    repo: Seq<char>,
    staging: Seq<char>,
    target: Seq<char>,
    err: Seq<char>,
) -> Seq<char> {
    match stage {
        CloneStage::CreateStaging => "Unable to clone "@ + repo
            + " to a temporary directory at "@ + staging + ": "@ + err,
        CloneStage::CloneRemote => "Failed to clone "@ + repo + " to "@ + staging + ". Reason: "@
            + err,
        CloneStage::RenameGitDir => "Error modifying the cloned repo: "@ + err,
        CloneStage::CopyToTarget => "Error copying the clone repo from "@ + staging + " to "@
            + target + ": "@ + err,
        CloneStage::Done => err,
    }
}

/// Advance the clone protocol by one step: on success the next stage,
/// on failure the error of the stage that failed.
pub fn clone_advance(
    stage: CloneStage,
    ok: bool,
    repo: &str,
    staging: &str,
    target: &str,
    err: &str,
) -> (r: Result<CloneStage, String>)
    ensures
        ok ==> r is Ok && r->Ok_0 == next_stage(stage),
        !ok ==> r is Err && r->Err_0@ == clone_error_of(stage, repo@, staging@, target@, err@),
{
    if ok {
        return Ok(
            match stage {
                CloneStage::CreateStaging => CloneStage::CloneRemote,
                CloneStage::CloneRemote => CloneStage::RenameGitDir,
                CloneStage::RenameGitDir => CloneStage::CopyToTarget,
                CloneStage::CopyToTarget => CloneStage::Done,
                CloneStage::Done => CloneStage::Done,
            },
        );
    }
    let mut msg: String;
    match stage {
        CloneStage::CreateStaging => {
            msg = String::from_str("Unable to clone ");
            msg.append(repo);
            msg.append(" to a temporary directory at ");
            msg.append(staging);
            msg.append(": ");
            msg.append(err);
        },
        CloneStage::CloneRemote => {
            msg = String::from_str("Failed to clone ");
            msg.append(repo);
            msg.append(" to ");
            msg.append(staging);
            msg.append(". Reason: ");
            msg.append(err);
        },
        CloneStage::RenameGitDir => {
            msg = String::from_str("Error modifying the cloned repo: ");
            msg.append(err);
        },
        CloneStage::CopyToTarget => {
            msg = String::from_str("Error copying the clone repo from ");
            msg.append(staging);
            msg.append(" to ");
            msg.append(target);
            msg.append(": ");
            msg.append(err);
        },
        CloneStage::Done => {
            msg = String::from_str(err);
        },
    }
    Err(msg)
}

/// Relies on uuid::Uuid::new_v4 and Uuid's Display implementation: a
/// freshly drawn random identifier rendered in the 36-character
/// hyphenated form.
#[verifier::external_body]
fn fresh_uuid_string() -> (r: String)
    ensures
        r@.len() == 36,
{
    uuid::Uuid::new_v4().to_string()
}

/// A staging directory path under the given temporary root: the root
/// plus a freshly drawn, collision-free name of fixed width.
pub fn staging_dir_path(temp_root: &str) -> (r: String)
    ensures
        seq_starts_with(r@, temp_root@ + "/"@),
        r@.len() == temp_root@.len() + 37,
{
    let name = fresh_uuid_string();
    let mut out = String::from_str(temp_root);
    out.append("/");
    out.append(name.as_str());
    proof {
        reveal_strlit("/");
        assert(out@.subrange(0, (temp_root@ + "/"@).len() as int) =~= temp_root@ + "/"@);
    }
    out
}

/// Path of the git-metadata directory of a cloned tree, before the
/// rename step.
pub fn git_dir_path(tree: &str) -> (r: String)
    ensures
        r@ == tree@ + "/.git"@,
{
    let mut out = String::from_str(tree);
    out.append("/.git");
    out
}

/// Path the git-metadata directory is renamed to, so that ordinary git
/// invocations in the resulting tree do not operate on it unless
/// explicitly redirected.
pub fn araki_git_dir_path(tree: &str) -> (r: String)
    ensures
        r@ == araki_git_dir_of(tree@),
{
    let mut out = String::from_str(tree);
    out.append("/.araki-git");
    out
}

} // verus!
