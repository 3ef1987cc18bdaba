//! Capability strings and the privilege matcher.
//!
//! A capability string is a five-segment, colon-delimited action descriptor
//! (universe, service, entity scope, resource, action).  An entity's granted
//! patterns are capability-shaped texts with wildcards; the matcher decides
//! whether any of them authorizes a requested capability.
//!
//! The per-segment rule is kept exactly as the service has always applied
//! it: a granted segment longer than the requested one rejects the pattern;
//! equal segments match; otherwise the characters are scanned in step, a
//! wildcard accepts the whole segment, a literal match rejects the whole
//! pattern, and a literal mismatch merely moves one position on.

use vstd::prelude::*;
use vstd::string::StrSliceExecFns;
use vstd::string::StringExecFns;

use crate::api_response::ApiError;

verus! {

/// One plain split of `s` on the delimiter: every segment kept, empty
/// segments included.
pub open spec fn split_plain(s: Seq<char>) -> Seq<Seq<char>>
    decreases s.len(),
{
    if s.len() == 0 {
        seq![Seq::<char>::empty()]
    } else if s[0] == ':' {
        seq![Seq::<char>::empty()] + split_plain(s.drop_first())
    } else {
        let rest = split_plain(s.drop_first());
        seq![seq![s[0]] + rest[0]] + rest.drop_first()
    }
}

pub proof fn lemma_split_plain_nonempty(s: Seq<char>)
    ensures
        split_plain(s).len() >= 1,
    decreases s.len(),
{
    if s.len() > 0 {
        lemma_split_plain_nonempty(s.drop_first());
    }
}

/// The segments of `s`: the plain split, with a single trailing empty
/// segment dropped (a text ending in the delimiter yields the same segments
/// as one without it, and an empty text yields no segments).
pub open spec fn split_term(s: Seq<char>) -> Seq<Seq<char>> {
    let p = split_plain(s);
    if p.last().len() == 0 {
        p.drop_last()
    } else {
        p
    }
}

/// The character scan of one aligned segment pair from position `p` on,
/// assuming the granted segment `g` is no longer than the requested one
/// `r`: a wildcard accepts the segment, a literal match rejects the whole
/// pattern, a literal mismatch moves one position on, and a scan that runs
/// out of granted characters accepts.
pub open spec fn scan_accepts(g: Seq<char>, r: Seq<char>, p: int) -> bool
    decreases g.len() - p,
{
    if p < 0 || p >= g.len() {
        true
    } else if g[p] == '*' {
        true
    } else if p < r.len() && g[p] == r[p] {
        false
    } else {
        scan_accepts(g, r, p + 1)
    }
}

/// Whether granted segment `g` accepts requested segment `r`.
pub open spec fn segment_accepts(g: Seq<char>, r: Seq<char>) -> bool {
    g.len() <= r.len() && (g == r || scan_accepts(g, r, 0))
}

/// Whether a parsed granted pattern authorizes the parsed requested
/// capability: all five aligned segment pairs accept.
pub open spec fn pattern_authorizes(gsegs: Seq<Seq<char>>, rsegs: Seq<Seq<char>>) -> bool {
    forall|i: int| 0 <= i < 5 ==> segment_accepts(#[trigger] gsegs[i], rsegs[i])
}

/// Whether some granted pattern in `patterns` authorizes the requested
/// segments.  Patterns that do not split into exactly five segments are
/// skipped, never an error.
pub open spec fn authorize_spec(rsegs: Seq<Seq<char>>, patterns: Seq<Seq<char>>) -> bool {
    exists|j: int|
        0 <= j < patterns.len() && split_term(#[trigger] patterns[j]).len() == 5
            && pattern_authorizes(split_term(patterns[j]), rsegs)
}

/// A parsed capability string: exactly five colon-delimited segments.
pub struct CapabilityString {
    segments: Vec<String>,
}

impl View for CapabilityString {
    type V = Seq<Seq<char>>;

    closed spec fn view(&self) -> Seq<Seq<char>> {
        self.segments.deep_view()
    }
}

impl CapabilityString {
    /// The invariant of a parsed capability string.
    pub open spec fn well_formed(&self) -> bool {
        self@.len() == 5
    }
}

/// Prepending a partial first segment onto the segments of the remaining
/// text.
spec fn glue(cur: Seq<char>, parts: Seq<Seq<char>>) -> Seq<Seq<char>> {
    seq![cur + parts[0]] + parts.drop_first()
}

/// Splits `text` on the delimiter, as the segment rule reads it.
pub fn split_segments(text: &str) -> (segs: Vec<String>)
    ensures
        segs.deep_view() == split_term(text@),
{
    let n = text.unicode_len();
    let mut segs: Vec<String> = Vec::new();
    let mut start: usize = 0;
    let mut i: usize = 0;
    proof {
        lemma_split_plain_nonempty(text@);
        let p = split_plain(text@);
        assert(text@.skip(0) =~= text@);
        assert(text@.subrange(0, 0) =~= Seq::<char>::empty());
        assert(Seq::<char>::empty() + p[0] =~= p[0]);
        assert(glue(Seq::<char>::empty(), p) =~= p);
        assert(segs.deep_view() =~= Seq::<Seq<char>>::empty());
        assert(segs.deep_view() + glue(
            text@.subrange(0, 0),
            split_plain(text@.skip(0)),
        ) =~= p);
    }
    while i < n
        invariant
            n == text@.len(),
            0 <= start <= i <= n,
            segs.deep_view() + glue(
                text@.subrange(start as int, i as int),
                split_plain(text@.skip(i as int)),
            ) == split_plain(text@),
        decreases n - i,
    {
        let ghost cur = text@.subrange(start as int, i as int);
        let ghost suffix = text@.skip(i as int);
        let ghost suffix2 = text@.skip(i as int + 1);
        proof {
            lemma_split_plain_nonempty(suffix2);
            assert(suffix.len() > 0);
            assert(suffix[0] == text@[i as int]);
            assert(suffix.drop_first() =~= suffix2);
        }
        let c = text.get_char(i);
        if c == ':' {
            let part = text.substring_char(start, i);
            let ghost old_deep = segs.deep_view();
            segs.push(String::from_str(part));
            proof {
                assert(segs.deep_view() =~= old_deep + seq![cur]);
                // the suffix begins with the delimiter, so its first segment
                // is empty and the glued prefix closes the current segment
                assert(split_plain(suffix) =~= seq![Seq::<char>::empty()] + split_plain(
                    suffix2,
                ));
                assert(glue(cur, split_plain(suffix)) =~= seq![cur] + split_plain(suffix2));
                assert(glue(Seq::<char>::empty(), split_plain(suffix2)) =~= split_plain(suffix2));
                assert(text@.subrange(i as int + 1, i as int + 1) =~= Seq::<char>::empty());
                assert(segs.deep_view() + glue(
                    text@.subrange(i as int + 1, i as int + 1),
                    split_plain(suffix2),
                ) =~= split_plain(text@));
            }
            start = i + 1;
        } else {
            proof {
                let rest = split_plain(suffix2);
                assert(split_plain(suffix) =~= seq![seq![suffix[0]] + rest[0]]
                    + rest.drop_first());
                assert(cur + (seq![text@[i as int]] + rest[0]) =~= (cur + seq![text@[i as int]])
                    + rest[0]);
                assert(glue(cur, split_plain(suffix)) =~= glue(
                    cur + seq![text@[i as int]],
                    rest,
                ));
                assert(text@.subrange(start as int, i as int + 1) =~= cur + seq![suffix[0]]);
            }
        }
        i += 1;
    }
    let ghost cur = text@.subrange(start as int, n as int);
    proof {
        assert(text@.skip(n as int) =~= Seq::<char>::empty());
        assert(split_plain(Seq::<char>::empty()) =~= seq![Seq::<char>::empty()]);
        assert(cur + Seq::<char>::empty() =~= cur);
        assert(glue(cur, split_plain(text@.skip(n as int))) =~= seq![cur]);
        assert(split_plain(text@) =~= segs.deep_view() + seq![cur]);
        assert(split_plain(text@).last() == cur);
        lemma_split_plain_nonempty(text@);
    }
    if start < n {
        let part = text.substring_char(start, n);
        let ghost old_deep = segs.deep_view();
        segs.push(String::from_str(part));
        proof {
            assert(cur.len() > 0);
            assert(segs.deep_view() =~= old_deep + seq![cur]);
            assert(segs.deep_view() =~= split_term(text@));
        }
    } else {
        proof {
            assert(cur.len() == 0);
            assert(split_term(text@) =~= split_plain(text@).drop_last());
            assert(segs.deep_view() =~= split_plain(text@).drop_last());
        }
    }
    segs
}

impl CapabilityString {
    /// Parses `text`: succeeds iff splitting on the delimiter yields exactly
    /// five segments (wildcards are permitted anywhere in a segment);
    /// anything else is malformed.
    pub fn parse(text: &str) -> (r: Result<CapabilityString, ApiError>)
        ensures
            split_term(text@).len() == 5 ==> (r matches Ok(c) && c@ == split_term(text@)
                && c.well_formed()),
            split_term(text@).len() != 5 ==> (r matches Err(e) && e
                == ApiError::MalformedCapability),
    {
        let segs = split_segments(text);
        proof {
            assert(segs.deep_view().len() == segs@.len());
        }
        if segs.len() == 5 {
            Ok(CapabilityString { segments: segs })
        } else {
            Err(ApiError::MalformedCapability)
        }
    }
}

/// Whether granted segment `g` accepts requested segment `r`, by the
/// segment rule.
pub fn segment_matches(g: &String, r: &String) -> (b: bool)
    ensures
        b == segment_accepts(g@, r@),
{
    let glen = g.as_str().unicode_len();
    let rlen = r.as_str().unicode_len();
    if glen > rlen {
        return false;
    }
    if *g == *r {
        return true;
    }
    let mut y: usize = 0;
    while y < glen
        invariant
            glen == g@.len(),
            rlen == r@.len(),
            glen <= rlen,
            0 <= y <= glen,
            g@ != r@,
            scan_accepts(g@, r@, 0) == scan_accepts(g@, r@, y as int),
        decreases glen - y,
    {
        let cg = g.as_str().get_char(y);
        if cg == '*' {
            return true;
        }
        let cr = r.as_str().get_char(y);
        if cg == cr {
            return false;
        }
        proof {
            assert(scan_accepts(g@, r@, y as int) == scan_accepts(g@, r@, y as int + 1));
        }
        y += 1;
    }
    true
}

/// Whether the granted pattern text authorizes the requested capability:
/// the pattern splits into exactly five segments and every aligned segment
/// pair accepts.  A pattern that does not split into five segments never
/// authorizes; it is skipped, not an error.
pub fn pattern_grants(pattern: &String, requested: &CapabilityString) -> (b: bool)
    requires
        requested.well_formed(),
    ensures
        b == (split_term(pattern@).len() == 5 && pattern_authorizes(
            split_term(pattern@),
            requested@,
        )),
{
    let gsegs = split_segments(pattern.as_str());
    proof {
        assert(gsegs.deep_view().len() == gsegs@.len());
        assert(requested.segments.deep_view().len() == requested.segments@.len());
    }
    if gsegs.len() != 5 {
        return false;
    }
    let mut i: usize = 0;
    while i < 5
        invariant
            gsegs@.len() == 5,
            requested.segments@.len() == 5,
            gsegs.deep_view() == split_term(pattern@),
            requested.well_formed(),
            0 <= i <= 5,
            forall|k: int|
                0 <= k < i ==> segment_accepts(#[trigger] gsegs.deep_view()[k], requested@[k]),
        decreases 5 - i,
    {
        if !segment_matches(&gsegs[i], &requested.segments[i]) {
            proof {
                assert(gsegs.deep_view()[i as int] == gsegs@[i as int]@);
                assert(requested@[i as int] == requested.segments@[i as int]@);
            }
            return false;
        }
        i += 1;
    }
    true
}

/// Tries each granted pattern in stored order; the first that authorizes
/// wins.
pub fn authorize(requested: &CapabilityString, patterns: &Vec<String>) -> (b: bool)
    requires
        requested.well_formed(),
    ensures
        b == authorize_spec(requested@, patterns.deep_view()),
{
    proof {
        assert(patterns.deep_view().len() == patterns@.len());
    }
    let mut j: usize = 0;
    while j < patterns.len()
        invariant
            requested.well_formed(),
            patterns.deep_view().len() == patterns@.len(),
            0 <= j <= patterns@.len(),
            forall|k: int|
                0 <= k < j ==> !(split_term(#[trigger] patterns.deep_view()[k]).len() == 5
                    && pattern_authorizes(split_term(patterns.deep_view()[k]), requested@)),
        decreases patterns@.len() - j,
    {
        if pattern_grants(&patterns[j], requested) {
            proof {
                assert(patterns.deep_view()[j as int] == patterns@[j as int]@);
            }
            return true;
        }
        proof {
            assert(patterns.deep_view()[j as int] == patterns@[j as int]@);
        }
        j += 1;
    }
    false
}

/// If some granted pattern is textually identical to the requested
/// capability text, and that text is a valid five-segment capability, the
/// request is authorized.
pub proof fn lemma_identical_pattern_authorizes(
    requested_text: Seq<char>,
    patterns: Seq<Seq<char>>,
    j: int,
)
    requires
        0 <= j < patterns.len(),
        patterns[j] == requested_text,
        split_term(requested_text).len() == 5,
    ensures
        authorize_spec(split_term(requested_text), patterns),
{
    let rsegs = split_term(requested_text);
    assert forall|i: int| 0 <= i < 5 implies segment_accepts(#[trigger] rsegs[i], rsegs[i]) by {
        assert(rsegs[i].len() <= rsegs[i].len());
    }
    assert(pattern_authorizes(split_term(patterns[j]), rsegs));
}

/// With no granted patterns at all, no request is authorized.
pub proof fn lemma_no_patterns_no_authorization(rsegs: Seq<Seq<char>>)
    ensures
        !authorize_spec(rsegs, Seq::<Seq<char>>::empty()),
{
}

/// A granted segment longer than the aligned requested segment rejects the
/// whole pattern.
pub proof fn lemma_longer_segment_rejects(gsegs: Seq<Seq<char>>, rsegs: Seq<Seq<char>>, i: int)
    requires
        0 <= i < 5,
        gsegs[i].len() > rsegs[i].len(),
    ensures
        !pattern_authorizes(gsegs, rsegs),
{
    assert(!segment_accepts(gsegs[i], rsegs[i]));
}

} // verus!
