use araki::cli::common::{LockSpec, LockSpecProbe, RemoveOutcome};

fn spec_at(path: &str) -> LockSpec {
    LockSpec { path: path.to_string() }
}

#[test]
fn specfile_and_lockfile_names() {
    let ls = spec_at("/envs/demo");
    assert_eq!(ls.specfile().as_str(), "/envs/demo/pixi.toml");
    assert_eq!(ls.lockfile().as_str(), "/envs/demo/pixi.lock");
}

#[test]
fn validity_is_conjunction_of_both_files() {
    let ls = spec_at("/envs/demo");
    let both = LockSpecProbe { specfile_exists: true, lockfile_exists: true };
    let no_spec = LockSpecProbe { specfile_exists: false, lockfile_exists: true };
    let no_lock = LockSpecProbe { specfile_exists: true, lockfile_exists: false };
    let neither = LockSpecProbe { specfile_exists: false, lockfile_exists: false };
    assert!(ls.files_exist(&both));
    assert!(!ls.files_exist(&no_spec));
    assert!(!ls.files_exist(&no_lock));
    assert!(!ls.files_exist(&neither));
}

#[test]
fn from_path_accepts_complete_pair() {
    let probe = LockSpecProbe { specfile_exists: true, lockfile_exists: true };
    let ls = LockSpec::from_path("/envs/demo".to_string(), &probe).unwrap();
    assert_eq!(ls.path.as_str(), "/envs/demo");
}

#[test]
fn from_path_rejects_partial_pair() {
    let probe = LockSpecProbe { specfile_exists: true, lockfile_exists: false };
    let e = LockSpec::from_path("/envs/demo".to_string(), &probe).unwrap_err();
    assert_eq!(e.as_str(), "No lockspec files found in /envs/demo");
}

#[test]
fn metadata_injection_adds_block_once() {
    let ls = spec_at("/envs/demo");
    let content = "[project]\nname = \"demo\"\n";
    let once = ls.ensure_araki_metadata(content, "demo").unwrap();
    assert_eq!(
        once.as_str(),
        "[project]\nname = \"demo\"\n\n[araki]\nlockspec_name = \"demo\"\n"
    );
}

#[test]
fn metadata_injection_is_idempotent() {
    let ls = spec_at("/envs/demo");
    let content = "[project]\nname = \"demo\"\n";
    let once = ls.ensure_araki_metadata(content, "demo").unwrap();
    let twice = ls.ensure_araki_metadata(once.as_str(), "demo").unwrap();
    assert_eq!(once, twice);
}

#[test]
fn metadata_injection_never_clobbers_existing_block() {
    let ls = spec_at("/envs/demo");
    let content = "[araki]\nlockspec_name = \"kept\"\n";
    let out = ls.ensure_araki_metadata(content, "demo").unwrap();
    assert_eq!(out.as_str(), content);
}

#[test]
fn metadata_detection_reads_headers_as_toml_does() {
    let ls = spec_at("/envs/demo");
    // Leading whitespace, a trailing comment, inner spaces, quoted and
    // dotted forms, and array-of-tables headers all name the table.
    for content in [
        "  [araki]\nlockspec_name = \"kept\"\n",
        "[araki]   # the tool's table\nlockspec_name = \"kept\"\n",
        "[ araki ]\n",
        "[\"araki\"]\n",
        "[araki.extra]\n",
        "[[araki]]\n",
    ] {
        let out = ls.ensure_araki_metadata(content, "demo").unwrap();
        assert_eq!(out.as_str(), content);
    }
}

#[test]
fn metadata_detection_sees_a_top_level_key() {
    let ls = spec_at("/envs/demo");
    let content = "araki = \"by hand\"\n";
    let out = ls.ensure_araki_metadata(content, "demo").unwrap();
    assert_eq!(out.as_str(), content);
    let dotted = "araki.lockspec_name = \"by hand\"\n";
    let out = ls.ensure_araki_metadata(dotted, "demo").unwrap();
    assert_eq!(out.as_str(), dotted);
}

#[test]
fn metadata_detection_ignores_nested_occurrences() {
    let ls = spec_at("/envs/demo");
    // A key under another table, and a deeper table, are not the
    // top-level araki table: the block is still added.
    for content in ["[tool]\naraki = 1\n", "[tool.araki]\nx = 1\n"] {
        let out = ls.ensure_araki_metadata(content, "demo").unwrap();
        assert!(out.starts_with(content));
        assert!(out.ends_with("\n[araki]\nlockspec_name = \"demo\"\n"));
    }
}

#[test]
fn metadata_detection_ignores_text_inside_strings() {
    let ls = spec_at("/envs/demo");
    let content = "note = \"\"\"\n[araki]\nlockspec_name = \\\"x\\\"\n\"\"\"\n";
    let out = ls.ensure_araki_metadata(content, "demo").unwrap();
    assert!(out.starts_with(content));
    assert!(out.ends_with("\n[araki]\nlockspec_name = \"demo\"\n"));
}

#[test]
fn metadata_injection_escapes_the_name() {
    let ls = spec_at("/envs/demo");
    let out = ls.ensure_araki_metadata("", "de\"mo\\x").unwrap();
    assert_eq!(out.as_str(), "\n[araki]\nlockspec_name = \"de\\\"mo\\\\x\"\n");
    let out = ls.ensure_araki_metadata("", "a\nb").unwrap();
    assert_eq!(out.as_str(), "\n[araki]\nlockspec_name = \"a\\u000Ab\"\n");
}

#[test]
fn metadata_injection_accepts_ordinary_spec_files() {
    let ls = spec_at("/envs/demo");
    let content = "[project]\nname = \"demo\" # inline\nchannels = [\n  \"conda-forge\",\n  \"bioconda\",\n]\n\n[dependencies]\npython = \">=3.10\"\n";
    let out = ls.ensure_araki_metadata(content, "demo").unwrap();
    assert!(out.ends_with("\n[araki]\nlockspec_name = \"demo\"\n"));
}

#[test]
fn metadata_injection_accepts_other_toml_shapes() {
    let ls = spec_at("/envs/demo");
    // Carriage returns, literal strings with backslashes, inline
    // tables and multi-line literal strings are all TOML shapes.
    for content in [
        "[project]\r\nname = \"demo\"\r\n",
        "path = 'c:\\envs\\demo'\n",
        "dep = { version = \"1\", optional = true }\n",
        "note = '''\nplain [text] here\n'''\n",
    ] {
        let out = ls.ensure_araki_metadata(content, "demo").unwrap();
        assert!(out.starts_with(content));
        assert!(out.ends_with("\n[araki]\nlockspec_name = \"demo\"\n"));
    }
}

#[test]
fn metadata_injection_refuses_unparseable_content() {
    let ls = spec_at("/envs/demo");
    for content in [
        "just words, no key\n",
        "a = \"unterminated\n",
        "items = [1, 2\n",
        "[unclosed\n",
        "a = 1 ] \n",
    ] {
        let e = ls.ensure_araki_metadata(content, "demo").unwrap_err();
        assert_eq!(e.as_str(), "Unable to parse /envs/demo/pixi.toml as valid toml.");
    }
}

#[test]
fn removal_targets_are_the_three_owned_paths() {
    let ls = spec_at("/envs/demo");
    let targets = ls.removal_targets();
    assert_eq!(targets.len(), 3);
    assert_eq!(targets[0].as_str(), "/envs/demo/pixi.toml");
    assert_eq!(targets[1].as_str(), "/envs/demo/pixi.lock");
    assert_eq!(targets[2].as_str(), "/envs/demo/.araki-git");
}

#[test]
fn remove_files_tolerates_absence() {
    let ls = spec_at("/envs/demo");
    let outcomes = vec![
        RemoveOutcome::Removed,
        RemoveOutcome::Missing("pixi.lock".to_string()),
        RemoveOutcome::Removed,
    ];
    assert!(ls.remove_files(&outcomes).is_ok());
}

#[test]
fn remove_files_surfaces_first_hard_failure() {
    let ls = spec_at("/envs/demo");
    let outcomes = vec![
        RemoveOutcome::Missing("pixi.toml".to_string()),
        RemoveOutcome::Failed("permission denied".to_string()),
    ];
    let e = ls.remove_files(&outcomes).unwrap_err();
    assert_eq!(e.as_str(), "permission denied");
}
