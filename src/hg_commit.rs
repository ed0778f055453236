//! The current commit's hash, from the text `hg id` prints.
use vstd::prelude::*;
use vstd::string::*;

use crate::config::HgCommitConfig;
use crate::repo::{is_hg_repo, Context};
use crate::segment::Module;
use crate::text::{decode_utf8, trim, trimmed, utf8_decoded};

verus! {

/// The commit named by the output of `hg id`: its trimmed text, if that is
/// valid UTF-8 and not empty.
pub open spec fn commit_of(out: Seq<u8>) -> Option<Seq<char>> {
    match utf8_decoded(out) {
        Some(t) => if trim(t).len() > 0 {
            Some(trim(t))
        } else {
            None
        },
        None => None,
    }
}

pub fn get_hg_current_commit(output: Vec<u8>) -> (r: Option<String>)
    ensures
        match r {
            Some(h) => commit_of(output@) == Some(h@),
            None => commit_of(output@) is None,
        },
{
    let text = decode_utf8(output)?;
    let result = trimmed(text.as_str());
    if result.unicode_len() == 0 {
        None
    } else {
        Some(result)
    }
}

/// The first `n` characters of `hash`, or all of it when it is shorter.
pub open spec fn hash_prefix(hash: Seq<char>, n: nat) -> Seq<char> {
    hash.take(if n < hash.len() { n as int } else { hash.len() as int })
}

pub fn truncate_hash(hash: &str, n: usize) -> (r: String)
    ensures
        r@ == hash_prefix(hash@, n as nat),
        r@.len() == if (n as nat) < hash@.len() { n as nat } else { hash@.len() },
{
    let len = hash.unicode_len();
    let end = if n < len { n } else { len };
    String::from_str(hash.substring_char(0, end))
}

/// Builds the commit module from the bytes that `hg id` printed (`None` when
/// it could not be run). The module is absent outside a repository, when
/// disabled, and when no commit could be read from the output.
pub fn module(ctx: &Context, config: &HgCommitConfig, id_output: Option<Vec<u8>>) -> (r: Option<
    Module,
>)
    ensures
        r is Some <==> ctx.in_repo() && !config.disabled && id_output is Some && commit_of(
            id_output->0@,
        ) is Some,
        r is Some ==> ({
            let m = r->0;
            &&& m.segments_view() == seq![
                ("hash"@, hash_prefix(commit_of(id_output->0@)->0, config.commit_hash_length as nat), config.hash.style),
            ]
            &&& m.name@ == "hg_commit"@
            &&& m.style == config.style
            &&& m.prefix.value@ == config.prefix@
            &&& m.prefix.style == Some(config.style)
            &&& m.suffix.value@ == config.suffix@
            &&& m.suffix.style == Some(config.style)
        }),
{
    if !is_hg_repo(ctx) || config.disabled {
        return None;
    }
    let bytes = match id_output {
        Some(b) => b,
        None => return None,
    };
    let head = match get_hg_current_commit(bytes) {
        Some(h) => h,
        None => return None,
    };
    let mut m = Module::new("hg_commit", config.style);
    m.prefix.value = config.prefix.clone();
    m.prefix.style = Some(config.style);
    m.suffix.value = config.suffix.clone();
    m.suffix.style = Some(config.style);
    let short = truncate_hash(head.as_str(), config.commit_hash_length);
    let seg = config.hash.with_value(short.as_str());
    m.create_segment("hash", &seg);
    assert(m.segments_view() =~= seq![
        ("hash"@, hash_prefix(head@, config.commit_hash_length as nat), config.hash.style),
    ]);
    Some(m)
}

} // verus!
