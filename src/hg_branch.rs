//! The active bookmark, or else the branch, of the working copy.
use vstd::prelude::*;
use vstd::string::*;

use crate::config::HgBranchConfig;
use crate::repo::{is_hg_repo, Context};
use crate::segment::Module;
use crate::text::{first_graphemes, get_graphemes, grapheme_split, graphemes_len, trim, trimmed};

verus! {

/// The name shown for the working copy, and whether it is a bookmark.
pub struct BranchInfo {
    pub name: String,
    pub is_bookmark: bool,
}

/// The branch named by the contents of `.hg/branch`, or `default` when the
/// file could not be read.
pub fn get_hg_branch_name(branch_file: Option<&str>) -> (r: String)
    ensures
        match branch_file {
            Some(t) => r@ == trim(t@),
            None => r@ == "default"@,
        },
{
    match branch_file {
        Some(t) => trimmed(t),
        None => String::from_str("default"),
    }
}

/// The active bookmark named by the contents of `.hg/bookmarks.current`.
pub fn get_hg_current_bookmark(bookmark_file: Option<&str>) -> (r: Option<String>)
    ensures
        match bookmark_file {
            Some(t) => r is Some && r->0@ == trim(t@),
            None => r is None,
        },
{
    match bookmark_file {
        Some(t) => Some(trimmed(t)),
        None => None,
    }
}

/// The active bookmark when there is one, else the branch.
pub fn branch_info(bookmark_file: Option<&str>, branch_file: Option<&str>) -> (r: BranchInfo)
    ensures
        r.is_bookmark == bookmark_file is Some,
        r.name@ == match bookmark_file {
            Some(b) => trim(b@),
            None => match branch_file {
                Some(t) => trim(t@),
                None => "default"@,
            },
        },
{
    match get_hg_current_bookmark(bookmark_file) {
        Some(name) => BranchInfo { name, is_bookmark: true },
        None => BranchInfo { name: get_hg_branch_name(branch_file), is_bookmark: false },
    }
}

/// The number of graphemes a name is cut to: a non-positive setting means
/// no limit.
pub open spec fn truncation_limit(t: i64) -> nat {
    if t <= 0 || t as int > usize::MAX as int {
        usize::MAX as nat
    } else {
        t as nat
    }
}

pub fn effective_length(t: i64) -> (r: usize)
    ensures
        r == truncation_limit(t),
{
    if t <= 0 {
        usize::MAX
    } else if t as u64 as u128 > usize::MAX as u128 {
        usize::MAX
    } else {
        t as u64 as usize
    }
}

/// `name` cut to `len` graphemes, followed by the first grapheme of `symbol`
/// where something was cut.
pub open spec fn truncated(name: Seq<char>, len: nat, symbol: Seq<char>) -> Seq<char> {
    if len < grapheme_split(name).len() {
        first_graphemes(name, len) + first_graphemes(symbol, 1)
    } else {
        first_graphemes(name, len)
    }
}

pub fn truncate(name: &str, len: usize, symbol: &str) -> (r: String)
    ensures
        r@ == truncated(name@, len as nat, symbol@),
        len >= grapheme_split(name@).len() ==> r@ == name@,
{
    let mut out = get_graphemes(name, len);
    let count = graphemes_len(name);
    if len < count {
        let mark = get_graphemes(symbol, 1);
        out.append(mark.as_str());
    } else {
        assert(grapheme_split(name@).take(grapheme_split(name@).len() as int) =~= grapheme_split(
            name@,
        ));
    }
    out
}

/// Builds the branch module from the contents of `.hg/bookmarks.current`
/// and `.hg/branch` (`None` where a file could not be read). The module is
/// absent outside a repository and when disabled.
pub fn module(
    ctx: &Context,
    config: &HgBranchConfig,
    bookmark_file: Option<&str>,
    branch_file: Option<&str>,
) -> (r: Option<Module>)
    ensures
        r is Some <==> ctx.in_repo() && !config.disabled,
        r is Some ==> ({
            let m = r->0;
            let name = match bookmark_file {
                Some(b) => trim(b@),
                None => match branch_file {
                    Some(t) => trim(t@),
                    None => "default"@,
                },
            };
            &&& m.segments_view() == seq![
                ("symbol"@, config.symbol.value@, config.symbol.style),
                ("name"@, truncated(name, truncation_limit(config.truncation_length), config.truncation_symbol@), config.branch_name.style),
            ]
            &&& m.name@ == "hg_branch"@
            &&& m.style == config.style
            &&& m.prefix.value@ == "on "@
            &&& m.prefix.style is None
            &&& m.suffix.value@.len() == 0
            &&& m.suffix.style is None
            &&& truncation_limit(config.truncation_length) >= grapheme_split(name).len()
                ==> m.segments@[1].value@ == name
        }),
{
    if !is_hg_repo(ctx) || config.disabled {
        return None;
    }
    let mut m = Module::new("hg_branch", config.style);
    m.prefix.value = String::from_str("on ");
    m.create_segment("symbol", &config.symbol);
    let len = effective_length(config.truncation_length);
    let info = branch_info(bookmark_file, branch_file);
    let shown = truncate(info.name.as_str(), len, config.truncation_symbol.as_str());
    let seg = config.branch_name.with_value(shown.as_str());
    m.create_segment("name", &seg);
    assert(m.segments_view() =~= seq![
        ("symbol"@, config.symbol.value@, config.symbol.style),
        ("name"@, shown@, config.branch_name.style),
    ]);
    Some(m)
}

} // verus!
