//! File-status counts of the working copy, from the text `hg status` prints.
use ansi_term::Style;
use vstd::prelude::*;
use vstd::string::*;

use crate::config::{CountConfig, HgStatusConfig};
use crate::repo::{is_hg_repo, Context};
use crate::segment::{Module, SegmentConfig};
use crate::text::{chars_of, decimal, decimal_text, decode_utf8, is_space, space, utf8_decoded};

verus! {

/// Number of files in each state that `hg status` reports.
#[derive(Clone, Copy)]
pub struct StatusCounts {
    pub added: usize,
    pub deleted: usize,
    pub modified: usize,
    pub missing: usize,
    pub untracked: usize,
}

/// Position `i` starts a line.
pub open spec fn line_start(s: Seq<char>, i: int) -> bool {
    0 <= i < s.len() && (i == 0 || s[i - 1] == '\n')
}

/// Position `i` ends a line: a `\n`, or a `\r` directly before one.
pub open spec fn line_end(s: Seq<char>, i: int) -> bool {
    s[i] == '\n' || (s[i] == '\r' && i + 1 < s.len() && s[i + 1] == '\n')
}

/// The line starting at `i` opens with a status letter: one non-whitespace
/// character followed by whitespace on the same line.
pub open spec fn marked(s: Seq<char>, i: int) -> bool {
    line_start(s, i) && i + 1 < s.len() && !is_space(s[i]) && is_space(s[i + 1]) && !line_end(
        s,
        i + 1,
    )
}

/// Number of lines among the first `n` positions whose status letter is `c`.
pub open spec fn count_letter(s: Seq<char>, n: int, c: char) -> nat
    decreases n,
{
    if n <= 0 {
        0
    } else {
        count_letter(s, n - 1, c) + if marked(s, n - 1) && s[n - 1] == c {
            1nat
        } else {
            0nat
        }
    }
}

/// Number of lines that start among the first `n` positions.
pub open spec fn count_lines(s: Seq<char>, n: int) -> nat
    decreases n,
{
    if n <= 0 {
        0
    } else {
        count_lines(s, n - 1) + if line_start(s, n - 1) {
            1nat
        } else {
            0nat
        }
    }
}

/// Number of lines of `s` whose status letter is `c`.
pub open spec fn status_count(s: Seq<char>, c: char) -> nat {
    count_letter(s, s.len() as int, c)
}

/// The counts agree with the text under Mercurial's status letters: `A`
/// added, `R` removed, `M` modified, `!` missing, `?` not tracked.
pub open spec fn counts_match(r: StatusCounts, s: Seq<char>) -> bool {
    r.added == status_count(s, 'A') && r.deleted == status_count(s, 'R') && r.modified
        == status_count(s, 'M') && r.missing == status_count(s, '!') && r.untracked
        == status_count(s, '?')
}

pub open spec fn total(r: StatusCounts) -> int {
    r.added + r.deleted + r.modified + r.missing + r.untracked
}

/// Counts the lines of `text` per status letter; lines without a known
/// letter are skipped.
pub fn parse_status(text: &str) -> (r: StatusCounts)
    ensures
        counts_match(r, text@),
{
    let cs = chars_of(text);
    let ghost s = text@;
    let mut r = StatusCounts { added: 0, deleted: 0, modified: 0, missing: 0, untracked: 0 };
    let mut i: usize = 0;
    while i < cs.len()
        invariant
            cs@ == s,
            i <= cs.len(),
            r.added == count_letter(s, i as int, 'A'),
            r.deleted == count_letter(s, i as int, 'R'),
            r.modified == count_letter(s, i as int, 'M'),
            r.missing == count_letter(s, i as int, '!'),
            r.untracked == count_letter(s, i as int, '?'),
            total(r) <= i,
        decreases cs.len() - i,
    {
        let at_start = i == 0 || cs[i - 1] == '\n';
        let marked_here = at_start && i + 1 < cs.len() && !space(cs[i]) && space(cs[i + 1])
            && cs[i + 1] != '\n' && !(cs[i + 1] == '\r' && i + 2 < cs.len() && cs[i + 2] == '\n');
        if marked_here {
            let c = cs[i];
            if c == 'A' {
                r.added = r.added + 1;
            } else if c == 'R' {
                r.deleted = r.deleted + 1;
            } else if c == 'M' {
                r.modified = r.modified + 1;
            } else if c == '!' {
                r.missing = r.missing + 1;
            } else if c == '?' {
                r.untracked = r.untracked + 1;
            }
        }
        i = i + 1;
    }
    r
}

/// Lines with a letter outside the table count nowhere: the five counts
/// together never exceed the number of lines.
pub proof fn lemma_total_within_lines(s: Seq<char>, n: int)
    ensures
        count_letter(s, n, 'A') + count_letter(s, n, 'R') + count_letter(s, n, 'M')
            + count_letter(s, n, '!') + count_letter(s, n, '?') <= count_lines(s, n),
    decreases n,
{
    if n > 0 {
        lemma_total_within_lines(s, n - 1);
    }
}

proof fn lemma_count_prefix(a: Seq<char>, b: Seq<char>, n: int, c: char)
    requires
        a.len() > 0,
        a.last() == '\n',
        0 <= n <= a.len(),
    ensures
        count_letter(a + b, n, c) == count_letter(a, n, c),
    decreases n,
{
    if n > 0 {
        lemma_count_prefix(a, b, n - 1, c);
        let s = a + b;
        let i = n - 1;
        assert(s[i] == a[i]);
        if i > 0 {
            assert(s[i - 1] == a[i - 1]);
        }
        if i + 1 < a.len() {
            assert(s[i + 1] == a[i + 1]);
            if i + 2 < a.len() {
                assert(s[i + 2] == a[i + 2]);
            }
        } else {
            assert(a[i] == '\n');
        }
        assert(marked(s, i) == marked(a, i));
    }
}

proof fn lemma_count_suffix(a: Seq<char>, b: Seq<char>, n: int, c: char)
    requires
        a.len() > 0,
        a.last() == '\n',
        0 <= n <= b.len(),
    ensures
        count_letter(a + b, a.len() + n, c) == count_letter(a, a.len() as int, c)
            + count_letter(b, n, c),
    decreases n,
{
    if n == 0 {
        lemma_count_prefix(a, b, a.len() as int, c);
    } else {
        lemma_count_suffix(a, b, n - 1, c);
        let s = a + b;
        let j = n - 1;
        let i = a.len() + j;
        assert(s[i] == b[j]);
        assert(s[i - 1] == if j == 0 { a.last() } else { b[j - 1] });
        if j + 1 < b.len() {
            assert(s[i + 1] == b[j + 1]);
            if j + 2 < b.len() {
                assert(s[i + 2] == b[j + 2]);
            }
        }
        assert(marked(s, i) == marked(b, j));
    }
}

/// Status counts add up over a text cut after a line ending.
pub proof fn lemma_count_concat(a: Seq<char>, b: Seq<char>, c: char)
    requires
        a.len() > 0,
        a.last() == '\n',
    ensures
        status_count(a + b, c) == status_count(a, c) + status_count(b, c),
{
    lemma_count_suffix(a, b, b.len() as int, c);
    assert((a + b).len() == a.len() + b.len());
}

/// Counting does not depend on the order of the lines: two blocks of whole
/// lines give the same counts in either order.
pub proof fn lemma_line_order_irrelevant(a: Seq<char>, b: Seq<char>, c: char)
    requires
        a.len() > 0,
        a.last() == '\n',
        b.len() > 0,
        b.last() == '\n',
    ensures
        status_count(a + b, c) == status_count(b + a, c),
{
    lemma_count_concat(a, b, c);
    lemma_count_concat(b, a, c);
}

proof fn lemma_line_head(l: Seq<char>, n: int, c: char)
    requires
        1 <= n <= l.len(),
        forall|k: int| 0 <= k < l.len() - 1 ==> l[k] != '\n',
    ensures
        count_letter(l, n, c) == if marked(l, 0) && l[0] == c {
            1nat
        } else {
            0nat
        },
    decreases n,
{
    if n > 1 {
        lemma_line_head(l, n - 1, c);
        assert(!line_start(l, n - 1));
    } else {
        assert(count_letter(l, 0, c) == 0);
    }
}

/// A line counts once for its status letter and nowhere else: what follows
/// the whitespace after the letter, and how wide that whitespace is, does not
/// matter.
pub proof fn lemma_line_counts_by_letter(l: Seq<char>, c: char)
    requires
        l.len() > 0,
        forall|k: int| 0 <= k < l.len() - 1 ==> l[k] != '\n',
    ensures
        status_count(l, c) == if marked(l, 0) && l[0] == c {
            1nat
        } else {
            0nat
        },
{
    lemma_line_head(l, l.len() as int, c);
}

/// What `parse_status` returns never counts more lines than the text has.
pub proof fn lemma_parsed_total_within_lines(r: StatusCounts, s: Seq<char>)
    requires
        counts_match(r, s),
    ensures
        total(r) <= count_lines(s, s.len() as int),
{
    lemma_total_within_lines(s, s.len() as int);
}

/// The segments of one category: its marker when the count is positive,
/// then the count itself when that is enabled.
pub open spec fn category_segments(
    name: Seq<char>,
    count: nat,
    seg: SegmentConfig,
    cc: CountConfig,
) -> Seq<(Seq<char>, Seq<char>, Option<Style>)> {
    if count == 0 {
        seq![]
    } else if cc.enabled {
        seq![(name, seg.value@, seg.style), (name + "_count"@, decimal(count), cc.style)]
    } else {
        seq![(name, seg.value@, seg.style)]
    }
}

/// All segments of the status module, in the order added, deleted,
/// modified, missing, untracked.
pub open spec fn status_segments(s: Seq<char>, c: HgStatusConfig) -> Seq<
    (Seq<char>, Seq<char>, Option<Style>),
> {
    category_segments("added"@, status_count(s, 'A'), c.added, c.added_count)
        + category_segments("deleted"@, status_count(s, 'R'), c.deleted, c.deleted_count)
        + category_segments("modified"@, status_count(s, 'M'), c.modified, c.modified_count)
        + category_segments("missing"@, status_count(s, '!'), c.missing, c.missing_count)
        + category_segments("untracked"@, status_count(s, '?'), c.untracked, c.untracked_count)
}

/// A status with nothing to report gives no segments, so no module.
pub proof fn lemma_clean_status_is_absent(s: Seq<char>, c: HgStatusConfig)
    requires
        status_count(s, 'A') == 0,
        status_count(s, 'R') == 0,
        status_count(s, 'M') == 0,
        status_count(s, '!') == 0,
        status_count(s, '?') == 0,
    ensures
        status_segments(s, c).len() == 0,
{
}

fn create_segment_with_count(
    module: &mut Module,
    name: &str,
    count: usize,
    config: &SegmentConfig,
    count_config: CountConfig,
)
    ensures
        final(module).segments_view() == old(module).segments_view() + category_segments(
            name@,
            count as nat,
            *config,
            count_config,
        ),
        final(module).name == old(module).name,
        final(module).style == old(module).style,
        final(module).prefix == old(module).prefix,
        final(module).suffix == old(module).suffix,
{
    let ghost before = module.segments_view();
    if count > 0 {
        module.create_segment(name, config);
        if count_config.enabled {
            let mut count_name = String::from_str(name);
            count_name.append("_count");
            let text = decimal_text(count);
            let seg = SegmentConfig::new(text.as_str()).with_style(count_config.style);
            module.create_segment(count_name.as_str(), &seg);
        }
    }
    assert(module.segments_view() =~= before + category_segments(
        name@,
        count as nat,
        *config,
        count_config,
    ));
}

/// Builds the status module from the bytes that `hg status` printed (`None`
/// when it could not be run). The module is absent outside a repository,
/// when disabled, when the output is not text, and when nothing is to report.
pub fn module(ctx: &Context, config: &HgStatusConfig, status_output: Option<Vec<u8>>) -> (r:
    Option<Module>)
    ensures
        r is Some <==> ctx.in_repo() && !config.disabled && status_output is Some
            && utf8_decoded(status_output->0@) is Some && status_segments(
            utf8_decoded(status_output->0@)->0,
            *config,
        ).len() > 0,
        r is Some ==> ({
            let m = r->0;
            &&& m.segments_view() == status_segments(utf8_decoded(status_output->0@)->0, *config)
            &&& m.name@ == "hg_status"@
            &&& m.style == config.style
            &&& m.prefix.value@ == config.prefix@
            &&& m.prefix.style == Some(config.style)
            &&& m.suffix.value@ == config.suffix@
            &&& m.suffix.style == Some(config.style)
        }),
{
    if !is_hg_repo(ctx) || config.disabled {
        return None;
    }
    let bytes = match status_output {
        Some(b) => b,
        None => return None,
    };
    let text = match decode_utf8(bytes) {
        Some(t) => t,
        None => return None,
    };
    let counts = parse_status(text.as_str());
    let mut m = Module::new("hg_status", config.style);
    m.prefix.value = config.prefix.clone();
    m.prefix.style = Some(config.style);
    m.suffix.value = config.suffix.clone();
    m.suffix.style = Some(config.style);
    create_segment_with_count(&mut m, "added", counts.added, &config.added, config.added_count);
    create_segment_with_count(&mut m, "deleted", counts.deleted, &config.deleted, config.deleted_count);
    create_segment_with_count(&mut m, "modified", counts.modified, &config.modified, config.modified_count);
    create_segment_with_count(&mut m, "missing", counts.missing, &config.missing, config.missing_count);
    create_segment_with_count(&mut m, "untracked", counts.untracked, &config.untracked, config.untracked_count);
    assert(m.segments_view() =~= status_segments(text@, *config));
    if m.is_empty() {
        return None;
    }
    Some(m)
}

} // verus!
