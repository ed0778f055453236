//! Character-level helpers: Unicode whitespace, trimming, decimal text and
//! grapheme clusters.
use unicode_segmentation::UnicodeSegmentation;
use vstd::prelude::*;
use vstd::string::*;

verus! {

/// The Unicode `White_Space` property, as `char::is_whitespace` reports it.
pub open spec fn is_space(c: char) -> bool {
    let u = c as u32;
    (0x09 <= u && u <= 0x0d) || u == 0x20 || u == 0x85 || u == 0xa0 || u == 0x1680
        || (0x2000 <= u && u <= 0x200a) || u == 0x2028 || u == 0x2029 || u == 0x202f
        || u == 0x205f || u == 0x3000
}

pub fn space(c: char) -> (r: bool)
    ensures
        r == is_space(c),
{
    let u = c as u32;
    (0x09 <= u && u <= 0x0d) || u == 0x20 || u == 0x85 || u == 0xa0 || u == 0x1680 || (0x2000
        <= u && u <= 0x200a) || u == 0x2028 || u == 0x2029 || u == 0x202f || u == 0x205f || u
        == 0x3000
}

/// `s` without its leading whitespace.
pub open spec fn trim_start(s: Seq<char>) -> Seq<char>
    decreases s.len(),
{
    if s.len() > 0 && is_space(s[0]) {
        trim_start(s.drop_first())
    } else {
        s
    }
}

/// `s` without its trailing whitespace.
pub open spec fn trim_end(s: Seq<char>) -> Seq<char>
    decreases s.len(),
{
    if s.len() > 0 && is_space(s.last()) {
        trim_end(s.drop_last())
    } else {
        s
    }
}

/// `s` without leading and trailing whitespace.
pub open spec fn trim(s: Seq<char>) -> Seq<char> {
    trim_end(trim_start(s))
}

proof fn lemma_trim_start_skip(s: Seq<char>, p: int)
    requires
        0 <= p <= s.len(),
        forall|k: int| 0 <= k < p ==> is_space(s[k]),
        p == s.len() || !is_space(s[p]),
    ensures
        trim_start(s) == s.skip(p),
    decreases p,
{
    if p > 0 {
        lemma_trim_start_skip(s.drop_first(), p - 1);
        assert(s.drop_first().skip(p - 1) =~= s.skip(p));
    } else {
        assert(s.skip(0) =~= s);
    }
}

proof fn lemma_trim_end_take(s: Seq<char>, q: int)
    requires
        0 <= q <= s.len(),
        forall|k: int| q <= k < s.len() ==> is_space(s[k]),
        q == 0 || !is_space(s[q - 1]),
    ensures
        trim_end(s) == s.take(q),
    decreases s.len() - q,
{
    if q < s.len() {
        lemma_trim_end_take(s.drop_last(), q);
        assert(s.drop_last().take(q) =~= s.take(q));
    } else {
        assert(s.take(q) =~= s);
    }
}

/// `s` without leading and trailing whitespace, as `str::trim` gives it.
pub fn trimmed(s: &str) -> (r: String)
    ensures
        r@ == trim(s@),
{
    let n = s.unicode_len();
    let mut p: usize = 0;
    while p < n && space(s.get_char(p))
        invariant
            n == s@.len(),
            p <= n,
            forall|k: int| 0 <= k < p ==> is_space(s@[k]),
        decreases n - p,
    {
        p = p + 1;
    }
    let mut q: usize = n;
    while q > p && space(s.get_char(q - 1))
        invariant
            n == s@.len(),
            p <= q <= n,
            forall|k: int| q <= k < n ==> is_space(s@[k]),
        decreases q,
    {
        q = q - 1;
    }
    proof {
        lemma_trim_start_skip(s@, p as int);
        let t = s@.skip(p as int);
        if q == p && p < n {
            assert(!is_space(s@[p as int]));
        }
        lemma_trim_end_take(t, q - p);
        assert(t.take(q - p) =~= s@.subrange(p as int, q as int));
    }
    String::from_str(s.substring_char(p, q))
}

/// The decimal digits of `n`, most significant first, without leading zeros.
pub open spec fn decimal(n: nat) -> Seq<char>
    decreases n,
{
    let d = ((n % 10) + ('0' as nat)) as char;
    if n < 10 {
        seq![d]
    } else {
        decimal(n / 10).push(d)
    }
}

/// Relies on `usize::to_string`: the decimal representation of the number.
#[verifier::external_body]
pub(crate) fn decimal_text(n: usize) -> (r: String)
    ensures
        r@ == decimal(n as nat),
{
    n.to_string()
}

/// The extended grapheme clusters of a text, in order.
pub uninterp spec fn grapheme_split(s: Seq<char>) -> Seq<Seq<char>>;

/// The concatenation of a sequence of strings.
pub open spec fn concat(parts: Seq<Seq<char>>) -> Seq<char>
    decreases parts.len(),
{
    if parts.len() == 0 {
        Seq::empty()
    } else {
        concat(parts.drop_last()) + parts.last()
    }
}

/// Relies on `UnicodeSegmentation::graphemes` with extended clusters: the
/// clusters partition the text into non-empty pieces, so joined they give it
/// back.
#[verifier::external_body]
pub(crate) fn graphemes(s: &str) -> (r: Vec<String>)
    ensures
        r@.map_values(|g: String| g@) == grapheme_split(s@),
        concat(r@.map_values(|g: String| g@)) == s@,
        forall|k: int| 0 <= k < r@.len() ==> r@[k]@.len() > 0,
{
    s.graphemes(true).map(|g| g.to_string()).collect()
}

/// The text that the bytes encode, if they are valid UTF-8.
pub uninterp spec fn utf8_decoded(b: Seq<u8>) -> Option<Seq<char>>;

/// Relies on `String::from_utf8`: the decoded text, or nothing for bytes that
/// are not UTF-8; no bytes decode to the empty text.
#[verifier::external_body]
pub(crate) fn decode_utf8(b: Vec<u8>) -> (r: Option<String>)
    ensures
        match r {
            Some(s) => utf8_decoded(b@) == Some(s@),
            None => utf8_decoded(b@) is None,
        },
        b@.len() == 0 ==> r is Some && r->0@.len() == 0,
{
    String::from_utf8(b).ok()
}

/// The first `n` grapheme clusters of `s`, joined (all of them when `n` is
/// larger than their number).
pub open spec fn first_graphemes(s: Seq<char>, n: nat) -> Seq<char> {
    let g = grapheme_split(s);
    concat(g.take(if n < g.len() { n as int } else { g.len() as int }))
}

pub fn get_graphemes(text: &str, length: usize) -> (r: String)
    ensures
        r@ == first_graphemes(text@, length as nat),
        concat(grapheme_split(text@)) == text@,
{
    let gs = graphemes(text);
    let ghost g = grapheme_split(text@);
    let mut out = String::new();
    let mut i: usize = 0;
    while i < gs.len() && i < length
        invariant
            gs@.map_values(|x: String| x@) == g,
            i <= gs.len(),
            i <= length,
            out@ == concat(g.take(i as int)),
        decreases gs.len() - i,
    {
        let piece = gs[i].as_str();
        out.append(piece);
        proof {
            assert(g.take(i + 1).drop_last() =~= g.take(i as int));
            assert(g[i as int] == gs@[i as int]@);
        }
        i = i + 1;
    }
    proof {
        let k = if (length as nat) < g.len() { length as int } else { g.len() as int };
        assert(i == k);
    }
    out
}

pub fn graphemes_len(text: &str) -> (r: usize)
    ensures
        r == grapheme_split(text@).len(),
{
    let gs = graphemes(text);
    gs.len()
}

} // verus!

verus! {

/// The characters of the text, in order.
pub fn chars_of(s: &str) -> (r: Vec<char>)
    ensures
        r@ == s@,
{
    let n = s.unicode_len();
    let mut r: Vec<char> = Vec::new();
    let mut i: usize = 0;
    while i < n
        invariant
            n == s@.len(),
            i <= n,
            r@ == s@.take(i as int),
        decreases n - i,
    {
        r.push(s.get_char(i));
        i = i + 1;
        assert(r@ =~= s@.take(i as int));
    }
    assert(s@.take(n as int) =~= s@);
    r
}

} // verus!
