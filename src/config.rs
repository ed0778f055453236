//! Resolved configuration of the three modules, with their defaults.
use ansi_term::Style;
use vstd::prelude::*;

use ansi_term::Colour;

use crate::segment::SegmentConfig;

verus! {

/// Whether a status category also shows its count, and in which style.
#[derive(Clone, Copy)]
pub struct CountConfig {
    pub enabled: bool,
    pub style: Option<Style>,
}

impl CountConfig {
    pub fn new() -> (r: CountConfig)
        ensures
            !r.enabled,
            r.style is None,
    {
        CountConfig { enabled: false, style: None }
    }
}

pub struct HgBranchConfig {
    pub symbol: SegmentConfig,
    pub truncation_length: i64,
    pub truncation_symbol: String,
    pub branch_name: SegmentConfig,
    pub style: Style,
    pub disabled: bool,
}

impl HgBranchConfig {
    pub fn new() -> (r: HgBranchConfig)
        ensures
            r.symbol.value@ == "\u{e0a0} "@,
            r.symbol.style is None,
            r.truncation_length == i64::MAX,
            r.truncation_symbol@ == "\u{2026}"@,
            r.branch_name.value@ == ""@,
            r.branch_name.style is None,
            r.disabled,
    {
        HgBranchConfig {
            symbol: SegmentConfig::new("\u{e0a0} "),
            truncation_length: i64::MAX,
            truncation_symbol: "\u{2026}".to_string(),
            branch_name: SegmentConfig::new(""),
            style: Colour::Purple.bold(),
            disabled: true,
        }
    }
}

pub struct HgCommitConfig {
    pub commit_hash_length: usize,
    pub hash: SegmentConfig,
    pub prefix: String,
    pub suffix: String,
    pub style: Style,
    pub disabled: bool,
}

impl HgCommitConfig {
    pub fn new() -> (r: HgCommitConfig)
        ensures
            r.commit_hash_length == 6,
            r.hash.value@ == ""@,
            r.hash.style is None,
            r.prefix@ == "("@,
            r.suffix@ == ") "@,
            r.disabled,
    {
        HgCommitConfig {
            commit_hash_length: 6,
            hash: SegmentConfig::new(""),
            prefix: "(".to_string(),
            suffix: ") ".to_string(),
            style: Colour::Green.bold(),
            disabled: true,
        }
    }
}

pub struct HgStatusConfig {
    pub added: SegmentConfig,
    pub added_count: CountConfig,
    pub deleted: SegmentConfig,
    pub deleted_count: CountConfig,
    pub missing: SegmentConfig,
    pub missing_count: CountConfig,
    pub modified: SegmentConfig,
    pub modified_count: CountConfig,
    pub untracked: SegmentConfig,
    pub untracked_count: CountConfig,
    pub prefix: String,
    pub suffix: String,
    pub style: Style,
    pub disabled: bool,
}

impl HgStatusConfig {
    pub fn new() -> (r: HgStatusConfig)
        ensures
            r.added.value@ == "+"@,
            r.deleted.value@ == "\u{2718}"@,
            r.missing.value@ == "!"@,
            r.modified.value@ == "\u{2713}"@,
            r.untracked.value@ == "?"@,
            r.added.style is None && r.deleted.style is None && r.missing.style is None
                && r.modified.style is None && r.untracked.style is None,
            r.added_count.style is None && r.deleted_count.style is None
                && r.missing_count.style is None && r.modified_count.style is None
                && r.untracked_count.style is None,
            !r.added_count.enabled && !r.deleted_count.enabled && !r.missing_count.enabled
                && !r.modified_count.enabled && !r.untracked_count.enabled,
            r.prefix@ == "["@,
            r.suffix@ == "] "@,
            !r.disabled,
    {
        HgStatusConfig {
            added: SegmentConfig::new("+"),
            added_count: CountConfig::new(),
            deleted: SegmentConfig::new("\u{2718}"),
            deleted_count: CountConfig::new(),
            missing: SegmentConfig::new("!"),
            missing_count: CountConfig::new(),
            modified: SegmentConfig::new("\u{2713}"),
            modified_count: CountConfig::new(),
            untracked: SegmentConfig::new("?"),
            untracked_count: CountConfig::new(),
            prefix: "[".to_string(),
            suffix: "] ".to_string(),
            style: Colour::Red.bold(),
            disabled: false,
        }
    }
}

} // verus!
