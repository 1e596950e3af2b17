use araki::cli::checkout::resolve_ref_name;
use araki::cli::common::{
    clone_advance, copy_directory, copy_directory_contents, get_default_araki_bin_dir,
    get_default_araki_envs_dir, araki_git_dir_path, git_dir_path, remove_files, staging_dir_path,
    CloneStage, CredDecision, SshAttempt,
};
use araki::cli::init::{init_precheck, project_env_dir};
use araki::cli::push::push_refspecs;

fn names(items: &[&str]) -> Vec<String> {
    items.iter().map(|s| s.to_string()).collect()
}

#[test]
fn staged_copy_success_appends_all_entries() {
    let mut target = names(&["kept"]);
    let entries = names(&["a", "b", "c"]);
    let ok = vec![true, true, true];
    let r = copy_directory_contents("/stage", "/target", &mut target, &entries, &ok);
    assert!(r.is_ok());
    assert_eq!(target, names(&["kept", "a", "b", "c"]));
}

#[test]
fn staged_copy_partial_failure_rolls_back() {
    let mut target = names(&["kept", "other"]);
    let entries = names(&["a", "b", "c"]);
    let ok = vec![true, true, false];
    let r = copy_directory_contents("/stage", "/target", &mut target, &entries, &ok);
    assert_eq!(r.unwrap_err().as_str(), "Unknown issue copying /stage to /target.");
    assert_eq!(target, names(&["kept", "other"]));
}

#[test]
fn staged_copy_failure_on_first_entry_rolls_back() {
    let mut target = names(&["kept"]);
    let entries = names(&["a"]);
    let ok = vec![false];
    assert!(copy_directory_contents("/s", "/t", &mut target, &entries, &ok).is_err());
    assert_eq!(target, names(&["kept"]));
}

#[test]
fn remove_files_deletes_only_named_entries() {
    let mut target = names(&["a", "b", "c", "b"]);
    remove_files(&mut target, &names(&["b", "missing"]));
    assert_eq!(target, names(&["a", "c"]));
}

#[test]
fn copy_directory_refuses_bad_source_and_existing_target() {
    let entries = names(&["a"]);
    let ok = vec![true];
    let e = copy_directory("/src", "/dst", false, false, &entries, &ok).unwrap_err();
    assert_eq!(e.as_str(), "/src is not a directory");
    let e = copy_directory("/src", "/dst", true, true, &entries, &ok).unwrap_err();
    assert_eq!(e.as_str(), "/dst already exists");
}

#[test]
fn copy_directory_creates_exactly_the_entries() {
    let entries = names(&["a", "b"]);
    let created = copy_directory("/src", "/dst", true, false, &entries, &vec![true, true]).unwrap();
    assert_eq!(created, entries);
    assert!(copy_directory("/src", "/dst", true, false, &entries, &vec![true, false]).is_err());
}

#[test]
fn first_ssh_request_goes_to_the_agent() {
    let mut state = SshAttempt::new();
    match state.on_credential_request(Some("git"), true) {
        CredDecision::UseAgent(user) => assert_eq!(user.as_str(), "git"),
        CredDecision::Fail(m) => panic!("unexpected failure: {m}"),
    }
    assert!(state.tried_agent);
}

#[test]
fn second_ssh_request_fails_without_retrying_the_agent() {
    let mut state = SshAttempt::new();
    let first = state.on_credential_request(Some("git"), true);
    assert!(matches!(first, CredDecision::UseAgent(_)));
    match state.on_credential_request(Some("git"), true) {
        CredDecision::Fail(m) => assert_eq!(
            m.as_str(),
            "Unable to authenticate via ssh. Is ssh-agent running, and have you added the ssh key you use for git?"
        ),
        CredDecision::UseAgent(_) => panic!("agent must not be attempted twice"),
    }
    assert!(state.tried_agent);
}

#[test]
fn non_ssh_request_gets_fixed_guidance() {
    let mut state = SshAttempt::new();
    match state.on_credential_request(Some("git"), false) {
        CredDecision::Fail(m) => assert_eq!(
            m.as_str(),
            "araki only supports ssh for git interactions. Please configure ssh-agent."
        ),
        CredDecision::UseAgent(_) => panic!("non-ssh request must not reach the agent"),
    }
    assert!(!state.tried_agent);
}

#[test]
fn request_without_username_fails() {
    let mut state = SshAttempt::new();
    match state.on_credential_request(None, true) {
        CredDecision::Fail(m) => {
            assert_eq!(m.as_str(), "Unable to get the ssh username from the URL.")
        },
        CredDecision::UseAgent(_) => panic!("no username, no agent"),
    }
}

#[test]
fn clone_protocol_walks_its_stages_in_order() {
    let s = CloneStage::CreateStaging;
    let s = clone_advance(s, true, "r", "s", "t", "").unwrap();
    assert_eq!(s, CloneStage::CloneRemote);
    let s = clone_advance(s, true, "r", "s", "t", "").unwrap();
    assert_eq!(s, CloneStage::RenameGitDir);
    let s = clone_advance(s, true, "r", "s", "t", "").unwrap();
    assert_eq!(s, CloneStage::CopyToTarget);
    let s = clone_advance(s, true, "r", "s", "t", "").unwrap();
    assert_eq!(s, CloneStage::Done);
}

#[test]
fn clone_failures_name_their_stage() {
    let e = clone_advance(CloneStage::CreateStaging, false, "repo", "/tmp/x", "/t", "boom")
        .unwrap_err();
    assert_eq!(e.as_str(), "Unable to clone repo to a temporary directory at /tmp/x: boom");
    let e = clone_advance(CloneStage::CloneRemote, false, "repo", "/tmp/x", "/t", "boom")
        .unwrap_err();
    assert_eq!(e.as_str(), "Failed to clone repo to /tmp/x. Reason: boom");
    let e = clone_advance(CloneStage::RenameGitDir, false, "repo", "/tmp/x", "/t", "boom")
        .unwrap_err();
    assert_eq!(e.as_str(), "Error modifying the cloned repo: boom");
    let e = clone_advance(CloneStage::CopyToTarget, false, "repo", "/tmp/x", "/t", "boom")
        .unwrap_err();
    assert_eq!(e.as_str(), "Error copying the clone repo from /tmp/x to /t: boom");
}

#[test]
fn staging_paths_are_fresh_and_under_the_root() {
    let a = staging_dir_path("/tmp");
    let b = staging_dir_path("/tmp");
    assert!(a.starts_with("/tmp/"));
    assert_eq!(a.chars().count(), "/tmp".chars().count() + 37);
    assert_ne!(a, b);
}

#[test]
fn git_dir_names_for_the_rename_step() {
    assert_eq!(git_dir_path("/stage").as_str(), "/stage/.git");
    assert_eq!(araki_git_dir_path("/stage").as_str(), "/stage/.araki-git");
}

#[test]
fn latest_resolves_to_the_main_branch() {
    assert_eq!(resolve_ref_name("latest").as_str(), "refs/heads/main");
}

#[test]
fn other_tags_resolve_under_refs_tags() {
    assert_eq!(resolve_ref_name("v1.2").as_str(), "refs/tags/v1.2");
    assert_eq!(resolve_ref_name("no-such-tag").as_str(), "refs/tags/no-such-tag");
}

#[test]
fn push_sends_main_and_the_tag_together() {
    let (branch, tag) = push_refspecs("v1.2");
    assert_eq!(branch.as_str(), "refs/heads/main");
    assert_eq!(tag.as_str(), "refs/tags/v1.2");
}

#[test]
fn default_directories_live_under_home() {
    assert_eq!(get_default_araki_envs_dir("/home/u").as_str(), "/home/u/.araki/envs");
    assert_eq!(get_default_araki_bin_dir("/home/u").as_str(), "/home/u/.araki/bin");
}

#[test]
fn init_refuses_an_existing_environment() {
    let dir = project_env_dir("/home/u/.araki/envs", "demo");
    assert_eq!(dir.as_str(), "/home/u/.araki/envs/demo");
    assert!(init_precheck("demo", dir.as_str(), false).is_ok());
    let e = init_precheck("demo", dir.as_str(), true).unwrap_err();
    assert_eq!(e.as_str(), "Environment demo already exists! /home/u/.araki/envs/demo");
}
