//! Finding the `.hg` directory of the repository around the working directory.
use vstd::prelude::*;

verus! {

/// What a module knows of where it runs.
pub struct Context {
    pub current_dir: String,
    /// The `.hg` path in the working directory and in each of its ancestors,
    /// nearest first, each with whether it is a directory. A path that could
    /// not be examined counts as not a directory.
    pub hg_candidates: Vec<(String, bool)>,
}

impl Context {
    pub open spec fn in_repo(&self) -> bool {
        exists|i: int| 0 <= i < self.hg_candidates@.len() && self.hg_candidates@[i].1
    }
}

/// Returns the `.hg` directory of the repository that holds the working
/// directory, or `None` outside any.
pub fn root_of_current_hg_repo(ctx: &Context) -> (r: Option<String>)
    ensures
        match r {
            Some(p) => ctx.in_repo() && exists|i: int|
                0 <= i < ctx.hg_candidates@.len() && ctx.hg_candidates@[i].1 && p@
                    == ctx.hg_candidates@[i].0@ && forall|j: int|
                    0 <= j < i ==> !ctx.hg_candidates@[j].1,
            None => !ctx.in_repo(),
        },
{
    let mut i: usize = 0;
    while i < ctx.hg_candidates.len()
        invariant
            i <= ctx.hg_candidates@.len(),
            forall|j: int| 0 <= j < i ==> !ctx.hg_candidates@[j].1,
        decreases ctx.hg_candidates@.len() - i,
    {
        if ctx.hg_candidates[i].1 {
            return Some(ctx.hg_candidates[i].0.clone());
        }
        i = i + 1;
    }
    None
}

/// Whether the working directory lies inside a Mercurial repository.
pub fn is_hg_repo(ctx: &Context) -> (r: bool)
    ensures
        r == ctx.in_repo(),
{
    let mut i: usize = 0;
    while i < ctx.hg_candidates.len()
        invariant
            i <= ctx.hg_candidates@.len(),
            forall|j: int| 0 <= j < i ==> !ctx.hg_candidates@[j].1,
        decreases ctx.hg_candidates@.len() - i,
    {
        if ctx.hg_candidates[i].1 {
            return true;
        }
        i = i + 1;
    }
    false
}

} // verus!
