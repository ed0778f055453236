//! Layered configuration: defaults, then each override layer in turn.
use ansi_term::Style;
use vstd::prelude::*;

use crate::config::{CountConfig, HgBranchConfig, HgCommitConfig, HgStatusConfig};
use crate::segment::SegmentConfig;

verus! {

/// `x`, replaced by the override when there is one.
pub open spec fn over<T>(x: T, o: Option<T>) -> T {
    match o {
        Some(v) => v,
        None => x,
    }
}

/// The value that the last layer setting it gives, or `d` when none does.
pub open spec fn last_set<L, T>(d: T, ls: Seq<L>, f: spec_fn(L) -> Option<T>) -> T
    decreases ls.len(),
{
    if ls.len() == 0 {
        d
    } else {
        over(last_set(d, ls.drop_last(), f), f(ls.last()))
    }
}

/// Of two layers the later wins, the earlier comes next, the default last.
pub proof fn lemma_later_layer_wins<L, T>(d: T, l1: L, l2: L, f: spec_fn(L) -> Option<T>)
    ensures
        last_set(d, seq![l1, l2], f) == over(over(d, f(l1)), f(l2)),
{
    let s1 = seq![l1];
    let s2 = seq![l1, l2];
    assert(s2.drop_last() =~= s1);
    assert(s1.drop_last() =~= Seq::<L>::empty());
    assert(last_set(d, Seq::<L>::empty(), f) == d);
    assert(last_set(d, s1, f) == over(d, f(l1)));
    assert(last_set(d, s2, f) == over(last_set(d, s1, f), f(l2)));
}

/// Applying the same layers again changes nothing.
pub proof fn lemma_last_set_idempotent<L, T>(d: T, ls: Seq<L>, f: spec_fn(L) -> Option<T>)
    ensures
        last_set(last_set(d, ls, f), ls, f) == last_set(d, ls, f),
    decreases ls.len(),
{
    if ls.len() > 0 {
        lemma_last_set_idempotent(d, ls.drop_last(), f);
        if f(ls.last()) is None {
            lemma_last_set_idempotent(last_set(d, ls.drop_last(), f), ls.drop_last(), f);
            lemma_last_set_unset(last_set(d, ls.drop_last(), f), ls, f);
        }
    }
}

proof fn lemma_last_set_unset<L, T>(d: T, ls: Seq<L>, f: spec_fn(L) -> Option<T>)
    requires
        ls.len() > 0,
        f(ls.last()) is None,
    ensures
        last_set(d, ls, f) == last_set(d, ls.drop_last(), f),
{
}

/// A partial override of whether and how a status count is shown.
#[derive(Clone, Copy)]
pub struct CountLayer {
    pub enabled: Option<bool>,
    pub style: Option<Option<Style>>,
}

impl CountLayer {
    pub fn empty() -> (r: CountLayer)
        ensures
            r.enabled is None,
            r.style is None,
    {
        CountLayer { enabled: None, style: None }
    }
}

pub open spec fn count_over(c: CountConfig, l: CountLayer) -> CountConfig {
    CountConfig { enabled: over(c.enabled, l.enabled), style: over(c.style, l.style) }
}

fn apply_count(c: CountConfig, l: CountLayer) -> (r: CountConfig)
    ensures
        r == count_over(c, l),
{
    let mut r = c;
    if let Some(e) = l.enabled {
        r.enabled = e;
    }
    if let Some(s) = l.style {
        r.style = s;
    }
    r
}

/// A partial override of `HgBranchConfig`: each field that is set replaces the
/// resolved value.
pub struct HgBranchLayer {
    pub symbol: Option<SegmentConfig>,
    pub truncation_length: Option<i64>,
    pub truncation_symbol: Option<String>,
    pub branch_name: Option<SegmentConfig>,
    pub style: Option<Style>,
    pub disabled: Option<bool>,
}

impl HgBranchLayer {
    pub fn empty() -> (r: HgBranchLayer)
        ensures
            r.symbol is None,
            r.truncation_length is None,
            r.truncation_symbol is None,
            r.branch_name is None,
            r.style is None,
            r.disabled is None,
    {
        HgBranchLayer {
            symbol: None,
            truncation_length: None,
            truncation_symbol: None,
            branch_name: None,
            style: None,
            disabled: None,
        }
    }
}

/// `d` with `ls` applied in order: each field as the last layer that sets
/// it gives it, else as in `d`.
pub open spec fn branch_resolved(d: HgBranchConfig, ls: Seq<HgBranchLayer>) -> HgBranchConfig {
    HgBranchConfig {
        symbol: last_set(d.symbol, ls, |l: HgBranchLayer| l.symbol),
        truncation_length: last_set(d.truncation_length, ls, |l: HgBranchLayer| l.truncation_length),
        truncation_symbol: last_set(d.truncation_symbol, ls, |l: HgBranchLayer| l.truncation_symbol),
        branch_name: last_set(d.branch_name, ls, |l: HgBranchLayer| l.branch_name),
        style: last_set(d.style, ls, |l: HgBranchLayer| l.style),
        disabled: last_set(d.disabled, ls, |l: HgBranchLayer| l.disabled),
    }
}

fn apply_branch(c: HgBranchConfig, l: HgBranchLayer) -> (r: HgBranchConfig)
    ensures
        r == (HgBranchConfig {
            symbol: over(c.symbol, l.symbol),
            truncation_length: over(c.truncation_length, l.truncation_length),
            truncation_symbol: over(c.truncation_symbol, l.truncation_symbol),
            branch_name: over(c.branch_name, l.branch_name),
            style: over(c.style, l.style),
            disabled: over(c.disabled, l.disabled),
        }),
{
    HgBranchConfig {
        symbol: match l.symbol {
            Some(v) => v,
            None => c.symbol,
        },
        truncation_length: match l.truncation_length {
            Some(v) => v,
            None => c.truncation_length,
        },
        truncation_symbol: match l.truncation_symbol {
            Some(v) => v,
            None => c.truncation_symbol,
        },
        branch_name: match l.branch_name {
            Some(v) => v,
            None => c.branch_name,
        },
        style: match l.style {
            Some(v) => v,
            None => c.style,
        },
        disabled: match l.disabled {
            Some(v) => v,
            None => c.disabled,
        },
    }
}

impl HgBranchConfig {
    /// Applies the override layers to the defaults, in order.
    pub fn resolve(defaults: HgBranchConfig, layers: Vec<HgBranchLayer>) -> (r: HgBranchConfig)
        ensures
            r == branch_resolved(defaults, layers@),
    {
        let ghost ls = layers@;
        let count: usize = layers.len();
        let mut rest = layers;
        let mut cfg = defaults;
        let mut i: usize = 0;
        while rest.len() > 0
            invariant
                i <= ls.len(),
                i + rest@.len() == ls.len(),
                ls.len() == count,
                rest@ == ls.skip(i as int),
                cfg == branch_resolved(defaults, ls.take(i as int)),
            decreases rest@.len(),
        {
            let layer = rest.remove(0);
            cfg = apply_branch(cfg, layer);
            proof {
                assert(ls.take(i + 1).drop_last() =~= ls.take(i as int));
                assert(rest@ =~= ls.skip(i + 1));
            }
            i = i + 1;
        }
        assert(ls.take(i as int) =~= ls);
        cfg
    }
}

/// Resolving again with the same layers in the same order changes nothing.
pub proof fn lemma_branch_resolve_idempotent(d: HgBranchConfig, ls: Seq<HgBranchLayer>)
    ensures
        branch_resolved(branch_resolved(d, ls), ls) == branch_resolved(d, ls),
{
    lemma_last_set_idempotent(d.symbol, ls, |l: HgBranchLayer| l.symbol);
    lemma_last_set_idempotent(d.truncation_length, ls, |l: HgBranchLayer| l.truncation_length);
    lemma_last_set_idempotent(d.truncation_symbol, ls, |l: HgBranchLayer| l.truncation_symbol);
    lemma_last_set_idempotent(d.branch_name, ls, |l: HgBranchLayer| l.branch_name);
    lemma_last_set_idempotent(d.style, ls, |l: HgBranchLayer| l.style);
    lemma_last_set_idempotent(d.disabled, ls, |l: HgBranchLayer| l.disabled);
}

/// A partial override of `HgCommitConfig`: each field that is set replaces the
/// resolved value.
pub struct HgCommitLayer {
    pub commit_hash_length: Option<usize>,
    pub hash: Option<SegmentConfig>,
    pub prefix: Option<String>,
    pub suffix: Option<String>,
    pub style: Option<Style>,
    pub disabled: Option<bool>,
}

impl HgCommitLayer {
    pub fn empty() -> (r: HgCommitLayer)
        ensures
            r.commit_hash_length is None,
            r.hash is None,
            r.prefix is None,
            r.suffix is None,
            r.style is None,
            r.disabled is None,
    {
        HgCommitLayer {
            commit_hash_length: None,
            hash: None,
            prefix: None,
            suffix: None,
            style: None,
            disabled: None,
        }
    }
}

/// `d` with `ls` applied in order: each field as the last layer that sets
/// it gives it, else as in `d`.
pub open spec fn commit_resolved(d: HgCommitConfig, ls: Seq<HgCommitLayer>) -> HgCommitConfig {
    HgCommitConfig {
        commit_hash_length: last_set(d.commit_hash_length, ls, |l: HgCommitLayer| l.commit_hash_length),
        hash: last_set(d.hash, ls, |l: HgCommitLayer| l.hash),
        prefix: last_set(d.prefix, ls, |l: HgCommitLayer| l.prefix),
        suffix: last_set(d.suffix, ls, |l: HgCommitLayer| l.suffix),
        style: last_set(d.style, ls, |l: HgCommitLayer| l.style),
        disabled: last_set(d.disabled, ls, |l: HgCommitLayer| l.disabled),
    }
}

fn apply_commit(c: HgCommitConfig, l: HgCommitLayer) -> (r: HgCommitConfig)
    ensures
        r == (HgCommitConfig {
            commit_hash_length: over(c.commit_hash_length, l.commit_hash_length),
            hash: over(c.hash, l.hash),
            prefix: over(c.prefix, l.prefix),
            suffix: over(c.suffix, l.suffix),
            style: over(c.style, l.style),
            disabled: over(c.disabled, l.disabled),
        }),
{
    HgCommitConfig {
        commit_hash_length: match l.commit_hash_length {
            Some(v) => v,
            None => c.commit_hash_length,
        },
        hash: match l.hash {
            Some(v) => v,
            None => c.hash,
        },
        prefix: match l.prefix {
            Some(v) => v,
            None => c.prefix,
        },
        suffix: match l.suffix {
            Some(v) => v,
            None => c.suffix,
        },
        style: match l.style {
            Some(v) => v,
            None => c.style,
        },
        disabled: match l.disabled {
            Some(v) => v,
            None => c.disabled,
        },
    }
}

impl HgCommitConfig {
    /// Applies the override layers to the defaults, in order.
    pub fn resolve(defaults: HgCommitConfig, layers: Vec<HgCommitLayer>) -> (r: HgCommitConfig)
        ensures
            r == commit_resolved(defaults, layers@),
    {
        let ghost ls = layers@;
        let count: usize = layers.len();
        let mut rest = layers;
        let mut cfg = defaults;
        let mut i: usize = 0;
        while rest.len() > 0
            invariant
                i <= ls.len(),
                i + rest@.len() == ls.len(),
                ls.len() == count,
                rest@ == ls.skip(i as int),
                cfg == commit_resolved(defaults, ls.take(i as int)),
            decreases rest@.len(),
        {
            let layer = rest.remove(0);
            cfg = apply_commit(cfg, layer);
            proof {
                assert(ls.take(i + 1).drop_last() =~= ls.take(i as int));
                assert(rest@ =~= ls.skip(i + 1));
            }
            i = i + 1;
        }
        assert(ls.take(i as int) =~= ls);
        cfg
    }
}

/// Resolving again with the same layers in the same order changes nothing.
pub proof fn lemma_commit_resolve_idempotent(d: HgCommitConfig, ls: Seq<HgCommitLayer>)
    ensures
        commit_resolved(commit_resolved(d, ls), ls) == commit_resolved(d, ls),
{
    lemma_last_set_idempotent(d.commit_hash_length, ls, |l: HgCommitLayer| l.commit_hash_length);
    lemma_last_set_idempotent(d.hash, ls, |l: HgCommitLayer| l.hash);
    lemma_last_set_idempotent(d.prefix, ls, |l: HgCommitLayer| l.prefix);
    lemma_last_set_idempotent(d.suffix, ls, |l: HgCommitLayer| l.suffix);
    lemma_last_set_idempotent(d.style, ls, |l: HgCommitLayer| l.style);
    lemma_last_set_idempotent(d.disabled, ls, |l: HgCommitLayer| l.disabled);
}

/// A partial override of `HgStatusConfig`: each field that is set replaces the
/// resolved value.
pub struct HgStatusLayer {
    pub added: Option<SegmentConfig>,
    pub added_count: CountLayer,
    pub deleted: Option<SegmentConfig>,
    pub deleted_count: CountLayer,
    pub missing: Option<SegmentConfig>,
    pub missing_count: CountLayer,
    pub modified: Option<SegmentConfig>,
    pub modified_count: CountLayer,
    pub untracked: Option<SegmentConfig>,
    pub untracked_count: CountLayer,
    pub prefix: Option<String>,
    pub suffix: Option<String>,
    pub style: Option<Style>,
    pub disabled: Option<bool>,
}

impl HgStatusLayer {
    pub fn empty() -> (r: HgStatusLayer)
        ensures
            r.added is None,
            r.added_count.enabled is None,
            r.added_count.style is None,
            r.deleted is None,
            r.deleted_count.enabled is None,
            r.deleted_count.style is None,
            r.missing is None,
            r.missing_count.enabled is None,
            r.missing_count.style is None,
            r.modified is None,
            r.modified_count.enabled is None,
            r.modified_count.style is None,
            r.untracked is None,
            r.untracked_count.enabled is None,
            r.untracked_count.style is None,
            r.prefix is None,
            r.suffix is None,
            r.style is None,
            r.disabled is None,
    {
        HgStatusLayer {
            added: None,
            added_count: CountLayer::empty(),
            deleted: None,
            deleted_count: CountLayer::empty(),
            missing: None,
            missing_count: CountLayer::empty(),
            modified: None,
            modified_count: CountLayer::empty(),
            untracked: None,
            untracked_count: CountLayer::empty(),
            prefix: None,
            suffix: None,
            style: None,
            disabled: None,
        }
    }
}

/// `d` with `ls` applied in order: each field as the last layer that sets
/// it gives it, else as in `d`.
pub open spec fn status_resolved(d: HgStatusConfig, ls: Seq<HgStatusLayer>) -> HgStatusConfig {
    HgStatusConfig {
        added: last_set(d.added, ls, |l: HgStatusLayer| l.added),
        added_count: CountConfig {
            enabled: last_set(d.added_count.enabled, ls, |l: HgStatusLayer| l.added_count.enabled),
            style: last_set(d.added_count.style, ls, |l: HgStatusLayer| l.added_count.style),
        },
        deleted: last_set(d.deleted, ls, |l: HgStatusLayer| l.deleted),
        deleted_count: CountConfig {
            enabled: last_set(d.deleted_count.enabled, ls, |l: HgStatusLayer| l.deleted_count.enabled),
            style: last_set(d.deleted_count.style, ls, |l: HgStatusLayer| l.deleted_count.style),
        },
        missing: last_set(d.missing, ls, |l: HgStatusLayer| l.missing),
        missing_count: CountConfig {
            enabled: last_set(d.missing_count.enabled, ls, |l: HgStatusLayer| l.missing_count.enabled),
            style: last_set(d.missing_count.style, ls, |l: HgStatusLayer| l.missing_count.style),
        },
        modified: last_set(d.modified, ls, |l: HgStatusLayer| l.modified),
        modified_count: CountConfig {
            enabled: last_set(d.modified_count.enabled, ls, |l: HgStatusLayer| l.modified_count.enabled),
            style: last_set(d.modified_count.style, ls, |l: HgStatusLayer| l.modified_count.style),
        },
        untracked: last_set(d.untracked, ls, |l: HgStatusLayer| l.untracked),
        untracked_count: CountConfig {
            enabled: last_set(d.untracked_count.enabled, ls, |l: HgStatusLayer| l.untracked_count.enabled),
            style: last_set(d.untracked_count.style, ls, |l: HgStatusLayer| l.untracked_count.style),
        },
        prefix: last_set(d.prefix, ls, |l: HgStatusLayer| l.prefix),
        suffix: last_set(d.suffix, ls, |l: HgStatusLayer| l.suffix),
        style: last_set(d.style, ls, |l: HgStatusLayer| l.style),
        disabled: last_set(d.disabled, ls, |l: HgStatusLayer| l.disabled),
    }
}

/// `c` with one layer applied.
pub open spec fn status_over(c: HgStatusConfig, l: HgStatusLayer) -> HgStatusConfig {
    HgStatusConfig {
        added: over(c.added, l.added),
        added_count: count_over(c.added_count, l.added_count),
        deleted: over(c.deleted, l.deleted),
        deleted_count: count_over(c.deleted_count, l.deleted_count),
        missing: over(c.missing, l.missing),
        missing_count: count_over(c.missing_count, l.missing_count),
        modified: over(c.modified, l.modified),
        modified_count: count_over(c.modified_count, l.modified_count),
        untracked: over(c.untracked, l.untracked),
        untracked_count: count_over(c.untracked_count, l.untracked_count),
        prefix: over(c.prefix, l.prefix),
        suffix: over(c.suffix, l.suffix),
        style: over(c.style, l.style),
        disabled: over(c.disabled, l.disabled),
    }
}

proof fn lemma_status_step(d: HgStatusConfig, ls: Seq<HgStatusLayer>, i: int)
    requires
        0 <= i < ls.len(),
    ensures
        status_resolved(d, ls.take(i + 1)) == status_over(status_resolved(d, ls.take(i)), ls[i]),
{
    let t = ls.take(i + 1);
    assert(t.drop_last() =~= ls.take(i));
    assert(t.last() == ls[i]);
}

fn apply_status(c: HgStatusConfig, l: HgStatusLayer) -> (r: HgStatusConfig)
    ensures
        r == status_over(c, l),
{
    HgStatusConfig {
        added: match l.added {
            Some(v) => v,
            None => c.added,
        },
        added_count: apply_count(c.added_count, l.added_count),
        deleted: match l.deleted {
            Some(v) => v,
            None => c.deleted,
        },
        deleted_count: apply_count(c.deleted_count, l.deleted_count),
        missing: match l.missing {
            Some(v) => v,
            None => c.missing,
        },
        missing_count: apply_count(c.missing_count, l.missing_count),
        modified: match l.modified {
            Some(v) => v,
            None => c.modified,
        },
        modified_count: apply_count(c.modified_count, l.modified_count),
        untracked: match l.untracked {
            Some(v) => v,
            None => c.untracked,
        },
        untracked_count: apply_count(c.untracked_count, l.untracked_count),
        prefix: match l.prefix {
            Some(v) => v,
            None => c.prefix,
        },
        suffix: match l.suffix {
            Some(v) => v,
            None => c.suffix,
        },
        style: match l.style {
            Some(v) => v,
            None => c.style,
        },
        disabled: match l.disabled {
            Some(v) => v,
            None => c.disabled,
        },
    }
}

impl HgStatusConfig {
    /// Applies the override layers to the defaults, in order.
    pub fn resolve(defaults: HgStatusConfig, layers: Vec<HgStatusLayer>) -> (r: HgStatusConfig)
        ensures
            r == status_resolved(defaults, layers@),
    {
        let ghost ls = layers@;
        let count: usize = layers.len();
        let mut rest = layers;
        let mut cfg = defaults;
        let mut i: usize = 0;
        while rest.len() > 0
            invariant
                i <= ls.len(),
                i + rest@.len() == ls.len(),
                ls.len() == count,
                rest@ == ls.skip(i as int),
                cfg == status_resolved(defaults, ls.take(i as int)),
            decreases rest@.len(),
        {
            let layer = rest.remove(0);
            cfg = apply_status(cfg, layer);
            proof {
                lemma_status_step(defaults, ls, i as int);
                assert(ls.take(i + 1).drop_last() =~= ls.take(i as int));
                assert(rest@ =~= ls.skip(i + 1));
            }
            i = i + 1;
        }
        assert(ls.take(i as int) =~= ls);
        cfg
    }
}

/// Resolving again with the same layers in the same order changes nothing.
pub proof fn lemma_status_resolve_idempotent(d: HgStatusConfig, ls: Seq<HgStatusLayer>)
    ensures
        status_resolved(status_resolved(d, ls), ls) == status_resolved(d, ls),
{
    lemma_last_set_idempotent(d.added, ls, |l: HgStatusLayer| l.added);
    lemma_last_set_idempotent(d.added_count.enabled, ls, |l: HgStatusLayer| l.added_count.enabled);
    lemma_last_set_idempotent(d.added_count.style, ls, |l: HgStatusLayer| l.added_count.style);
    lemma_last_set_idempotent(d.deleted, ls, |l: HgStatusLayer| l.deleted);
    lemma_last_set_idempotent(d.deleted_count.enabled, ls, |l: HgStatusLayer| l.deleted_count.enabled);
    lemma_last_set_idempotent(d.deleted_count.style, ls, |l: HgStatusLayer| l.deleted_count.style);
    lemma_last_set_idempotent(d.missing, ls, |l: HgStatusLayer| l.missing);
    lemma_last_set_idempotent(d.missing_count.enabled, ls, |l: HgStatusLayer| l.missing_count.enabled);
    lemma_last_set_idempotent(d.missing_count.style, ls, |l: HgStatusLayer| l.missing_count.style);
    lemma_last_set_idempotent(d.modified, ls, |l: HgStatusLayer| l.modified);
    lemma_last_set_idempotent(d.modified_count.enabled, ls, |l: HgStatusLayer| l.modified_count.enabled);
    lemma_last_set_idempotent(d.modified_count.style, ls, |l: HgStatusLayer| l.modified_count.style);
    lemma_last_set_idempotent(d.untracked, ls, |l: HgStatusLayer| l.untracked);
    lemma_last_set_idempotent(d.untracked_count.enabled, ls, |l: HgStatusLayer| l.untracked_count.enabled);
    lemma_last_set_idempotent(d.untracked_count.style, ls, |l: HgStatusLayer| l.untracked_count.style);
    lemma_last_set_idempotent(d.prefix, ls, |l: HgStatusLayer| l.prefix);
    lemma_last_set_idempotent(d.suffix, ls, |l: HgStatusLayer| l.suffix);
    lemma_last_set_idempotent(d.style, ls, |l: HgStatusLayer| l.style);
    lemma_last_set_idempotent(d.disabled, ls, |l: HgStatusLayer| l.disabled);
}

} // verus!
