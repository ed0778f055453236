use hg_prompt::config::{HgBranchConfig, HgCommitConfig, HgStatusConfig};
use hg_prompt::hg_branch;
use hg_prompt::hg_commit;
use hg_prompt::hg_status;
use hg_prompt::layers::{CountLayer, HgCommitLayer, HgStatusLayer};
use hg_prompt::repo::{is_hg_repo, root_of_current_hg_repo, Context};
use hg_prompt::segment::{Module, SegmentConfig};

fn in_repo() -> Context {
    Context {
        current_dir: "/work/repo/sub".to_string(),
        hg_candidates: vec![
            ("/work/repo/sub/.hg".to_string(), false),
            ("/work/repo/.hg".to_string(), true),
            ("/work/.hg".to_string(), true),
            ("/.hg".to_string(), false),
        ],
    }
}

fn outside() -> Context {
    Context {
        current_dir: "/tmp".to_string(),
        hg_candidates: vec![("/tmp/.hg".to_string(), false), ("/.hg".to_string(), false)],
    }
}

fn values(m: &Module) -> Vec<(String, String)> {
    m.segments.iter().map(|s| (s.name.clone(), s.value.clone())).collect()
}

fn pair(a: &str, b: &str) -> (String, String) {
    (a.to_string(), b.to_string())
}

#[test]
fn nearest_repo_is_found() {
    assert_eq!(root_of_current_hg_repo(&in_repo()), Some("/work/repo/.hg".to_string()));
    assert!(is_hg_repo(&in_repo()));
}

#[test]
fn no_repo_up_to_the_root() {
    assert_eq!(root_of_current_hg_repo(&outside()), None);
    assert!(!is_hg_repo(&outside()));
}

#[test]
fn status_text_scenario_counts() {
    let c = hg_status::parse_status("A file1\nM file2\nM file3\n! file4\n");
    assert_eq!((c.added, c.deleted, c.modified, c.missing, c.untracked), (1, 0, 2, 1, 0));
}

#[test]
fn status_counts_ignore_whitespace_width_and_order() {
    let c = hg_status::parse_status("?    a b c\nR\tgone\nM x\n?\tnew\nA  y");
    assert_eq!((c.added, c.deleted, c.modified, c.missing, c.untracked), (1, 1, 1, 0, 2));
}

#[test]
fn unknown_letters_count_nowhere() {
    let c = hg_status::parse_status("C clean\nI ignored\nX odd\n\nM\nAB file\n  M lead\n");
    assert_eq!((c.added, c.deleted, c.modified, c.missing, c.untracked), (0, 0, 0, 0, 0));
}

#[test]
fn crlf_ends_a_line_before_any_whitespace() {
    let c = hg_status::parse_status("A\r\nM x\r\n! \r\nR\r");
    assert_eq!((c.added, c.deleted, c.modified, c.missing, c.untracked), (0, 1, 1, 1, 0));
}

#[test]
fn default_status_styles_are_unset() {
    let cfg = HgStatusConfig::new();
    assert!(cfg.added.style.is_none() && cfg.untracked.style.is_none());
    assert!(!cfg.added_count.enabled && cfg.added_count.style.is_none());
}

#[test]
fn status_module_segments_in_order() {
    let mut cfg = HgStatusConfig::new();
    cfg.modified_count.enabled = true;
    let out = b"? u\nM a\nA b\nR c\n! d\n".to_vec();
    let m = hg_status::module(&in_repo(), &cfg, Some(out)).expect("module");
    assert_eq!(
        values(&m),
        vec![
            pair("added", "+"),
            pair("deleted", "\u{2718}"),
            pair("modified", "\u{2713}"),
            pair("modified_count", "1"),
            pair("missing", "!"),
            pair("untracked", "?"),
        ]
    );
    assert_eq!(m.prefix.value, "[");
    assert_eq!(m.suffix.value, "] ");
}

#[test]
fn status_count_segment_is_decimal() {
    let mut cfg = HgStatusConfig::new();
    cfg.added_count.enabled = true;
    let mut text = String::new();
    for i in 0..12 {
        text.push_str(&format!("A f{}\n", i));
    }
    let m = hg_status::module(&in_repo(), &cfg, Some(text.into_bytes())).expect("module");
    assert_eq!(values(&m), vec![pair("added", "+"), pair("added_count", "12")]);
}

#[test]
fn clean_status_is_absent() {
    let cfg = HgStatusConfig::new();
    assert!(hg_status::module(&in_repo(), &cfg, Some(Vec::new())).is_none());
    assert!(hg_status::module(&in_repo(), &cfg, Some(b"C clean\n".to_vec())).is_none());
}

#[test]
fn status_absent_when_tool_fails_or_output_not_text() {
    let cfg = HgStatusConfig::new();
    assert!(hg_status::module(&in_repo(), &cfg, None).is_none());
    assert!(hg_status::module(&in_repo(), &cfg, Some(vec![b'A', b' ', 0xff, 0xfe])).is_none());
    assert!(hg_status::module(&outside(), &cfg, Some(b"A x\n".to_vec())).is_none());
    let mut off = HgStatusConfig::new();
    off.disabled = true;
    assert!(hg_status::module(&in_repo(), &off, Some(b"A x\n".to_vec())).is_none());
}

#[test]
fn branch_file_scenario() {
    let info = hg_branch::branch_info(None, Some("feature-x\n"));
    assert_eq!(info.name, "feature-x");
    assert!(!info.is_bookmark);
    assert_eq!(hg_branch::truncate("feature-x", 4, "\u{2026}"), "feat\u{2026}");
    let mut cfg = HgBranchConfig::new();
    cfg.disabled = false;
    cfg.truncation_length = 4;
    let m = hg_branch::module(&in_repo(), &cfg, None, Some("feature-x\n")).expect("module");
    assert_eq!(values(&m), vec![pair("symbol", "\u{e0a0} "), pair("name", "feat\u{2026}")]);
    assert_eq!(m.prefix.value, "on ");
}

#[test]
fn bookmark_wins_over_branch() {
    let info = hg_branch::branch_info(Some(" mark \n"), Some("stable\n"));
    assert_eq!(info.name, "mark");
    assert!(info.is_bookmark);
}

#[test]
fn missing_branch_file_means_default() {
    assert_eq!(hg_branch::get_hg_branch_name(None), "default");
    assert_eq!(hg_branch::branch_info(None, None).name, "default");
}

#[test]
fn non_positive_truncation_means_no_limit() {
    assert_eq!(hg_branch::effective_length(0), usize::MAX);
    assert_eq!(hg_branch::effective_length(-3), usize::MAX);
    assert_eq!(hg_branch::effective_length(7), 7);
    let mut cfg = HgBranchConfig::new();
    cfg.disabled = false;
    cfg.truncation_length = -1;
    let m = hg_branch::module(&in_repo(), &cfg, Some("long-bookmark-name"), None).expect("module");
    assert_eq!(m.segments[1].value, "long-bookmark-name");
}

#[test]
fn truncation_keeps_whole_graphemes() {
    assert_eq!(hg_branch::truncate("e\u{301}xy", 1, "\u{2026}"), "e\u{301}\u{2026}");
    assert_eq!(hg_branch::truncate("ab", 1, "\u{1f1e9}\u{1f1ea}z"), "a\u{1f1e9}\u{1f1ea}");
    assert_eq!(hg_branch::truncate("e\u{301}x", 2, "\u{2026}"), "e\u{301}x");
    assert_eq!(hg_branch::truncate("e\u{301}x", 9, "\u{2026}"), "e\u{301}x");
    assert_eq!(hg_branch::truncate("", 0, "\u{2026}"), "");
}

#[test]
fn branch_absent_outside_repo_or_disabled() {
    let mut cfg = HgBranchConfig::new();
    assert!(hg_branch::module(&in_repo(), &cfg, None, None).is_none());
    cfg.disabled = false;
    assert!(hg_branch::module(&outside(), &cfg, None, None).is_none());
}

#[test]
fn hash_slicing_is_clamped() {
    assert_eq!(hg_commit::truncate_hash("abcdef1234567890", 6), "abcdef");
    assert_eq!(hg_commit::truncate_hash("abcdef1234567890", 999), "abcdef1234567890");
    assert_eq!(hg_commit::truncate_hash("abcdef1234567890", 0), "");
    assert_eq!(hg_commit::truncate_hash("", 3), "");
}

#[test]
fn commit_scenario_lengths() {
    let mut cfg = HgCommitConfig::new();
    cfg.disabled = false;
    let out = b"abcdef1234567890\n".to_vec();
    let m = hg_commit::module(&in_repo(), &cfg, Some(out.clone())).expect("module");
    assert_eq!(values(&m), vec![pair("hash", "abcdef")]);
    assert_eq!(m.prefix.value, "(");
    assert_eq!(m.suffix.value, ") ");
    cfg.commit_hash_length = 999;
    let m = hg_commit::module(&in_repo(), &cfg, Some(out)).expect("module");
    assert_eq!(values(&m), vec![pair("hash", "abcdef1234567890")]);
}

#[test]
fn commit_empty_output_is_absent() {
    let mut cfg = HgCommitConfig::new();
    cfg.disabled = false;
    assert!(hg_commit::module(&in_repo(), &cfg, Some(Vec::new())).is_none());
    assert!(hg_commit::module(&in_repo(), &cfg, Some(b" \n\t\n".to_vec())).is_none());
    assert!(hg_commit::module(&in_repo(), &cfg, None).is_none());
    assert!(hg_commit::module(&in_repo(), &cfg, Some(vec![0xc3])).is_none());
    assert_eq!(hg_commit::get_hg_current_commit(b"  1a2b3c+ tip\n".to_vec()), Some("1a2b3c+ tip".to_string()));
}

#[test]
fn commit_disabled_by_default() {
    let cfg = HgCommitConfig::new();
    assert!(hg_commit::module(&in_repo(), &cfg, Some(b"abc\n".to_vec())).is_none());
}

#[test]
fn later_layers_win_per_field() {
    let mut l1 = HgCommitLayer::empty();
    l1.commit_hash_length = Some(8);
    l1.prefix = Some("<".to_string());
    let mut l2 = HgCommitLayer::empty();
    l2.commit_hash_length = Some(10);
    l2.disabled = Some(false);
    let r = HgCommitConfig::resolve(HgCommitConfig::new(), vec![l1, l2]);
    assert_eq!(r.commit_hash_length, 10);
    assert_eq!(r.prefix, "<");
    assert_eq!(r.suffix, ") ");
    assert!(!r.disabled);
}

#[test]
fn resolving_twice_changes_nothing() {
    let layers = || {
        let mut l = HgStatusLayer::empty();
        l.added = Some(SegmentConfig::new("A"));
        l.added_count = CountLayer { enabled: Some(true), style: None };
        l.prefix = Some("{".to_string());
        vec![l, HgStatusLayer::empty()]
    };
    let once = HgStatusConfig::resolve(HgStatusConfig::new(), layers());
    let twice = HgStatusConfig::resolve(HgStatusConfig::resolve(HgStatusConfig::new(), layers()), layers());
    assert_eq!(once.added.value, twice.added.value);
    assert_eq!(once.added.value, "A");
    assert_eq!(once.added_count.enabled, twice.added_count.enabled);
    assert!(once.added_count.enabled);
    assert_eq!(once.prefix, twice.prefix);
    assert_eq!(once.deleted.value, "\u{2718}");
}

#[test]
fn no_layers_keep_defaults() {
    let r = HgStatusConfig::resolve(HgStatusConfig::new(), Vec::new());
    assert_eq!(r.prefix, "[");
    assert!(!r.disabled);
}
