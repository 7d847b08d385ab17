//! HTTP-related utilities: route templating and trace header propagation.
use vstd::prelude::*;
use vstd::std_specs::iter::IteratorSpec;
use vstd::string::*;
use crate::context::{
    current_context, header_entries, inject_context, is_trace_header, with_trace_headers,
    TraceContext, HEADER_NAME_LIMIT,
};

verus! {

broadcast use vstd::string::group_string_axioms;

/// An ASCII decimal digit.
pub open spec fn is_digit(c: char) -> bool {
    '0' <= c && c <= '9'
}

/// A segment holding no digit at all.
pub open spec fn has_no_digit(seg: Seq<char>) -> bool {
    forall|i: int| 0 <= i < seg.len() ==> !is_digit(#[trigger] seg[i])
}

/// A version marker: exactly `v` followed by one or more digits.
pub open spec fn is_version(seg: Seq<char>) -> bool {
    &&& seg.len() >= 2
    &&& seg[0] == 'v'
    &&& forall|i: int| 1 <= i < seg.len() ==> is_digit(#[trigger] seg[i])
}

/// A segment that is kept as it is in a route template.
pub open spec fn is_static(seg: Seq<char>) -> bool {
    has_no_digit(seg) || is_version(seg)
}

/// The token that stands for a dynamic segment.
pub open spec fn placeholder() -> Seq<char> {
    seq!['?']
}

/// What a segment becomes in a route template.
pub open spec fn classify(seg: Seq<char>) -> Seq<char> {
    if is_static(seg) {
        seg
    } else {
        placeholder()
    }
}

/// Index of the first `/` in `s`, or its length when there is none.
pub open spec fn first_slash(s: Seq<char>) -> nat
    decreases s.len(),
{
    if s.len() == 0 {
        0
    } else if s[0] == '/' {
        0
    } else {
        1 + first_slash(s.drop_first())
    }
}

/// The pieces of `s` between `/` separators, empty ones included.
pub open spec fn segments(s: Seq<char>) -> Seq<Seq<char>>
    decreases s.len(),
{
    if first_slash(s) < s.len() {
        seq![s.take(first_slash(s) as int)] + segments(s.skip(first_slash(s) + 1int))
    } else {
        seq![s]
    }
}

/// The segments put back together with `/` between neighbours.
pub open spec fn join(segs: Seq<Seq<char>>) -> Seq<char>
    decreases segs.len(),
{
    if segs.len() == 0 {
        Seq::empty()
    } else if segs.len() == 1 {
        segs[0]
    } else {
        segs[0] + seq!['/'] + join(segs.drop_first())
    }
}

/// The segments of a path, each one classified.
pub open spec fn classified(path: Seq<char>) -> Seq<Seq<char>> {
    segments(path).map_values(|seg: Seq<char>| classify(seg))
}

/// The route template of a path: every dynamic segment becomes `?`.
pub open spec fn template(path: Seq<char>) -> Seq<char> {
    join(classified(path))
}

/// A sequence without any `/`.
pub open spec fn slash_free(s: Seq<char>) -> bool {
    forall|j: int| 0 <= j < s.len() ==> #[trigger] s[j] != '/'
}

proof fn lemma_first_slash(s: Seq<char>)
    ensures
        first_slash(s) <= s.len(),
        forall|j: int| 0 <= j < first_slash(s) ==> #[trigger] s[j] != '/',
        first_slash(s) < s.len() ==> s[first_slash(s) as int] == '/',
    decreases s.len(),
{
    if s.len() > 0 && s[0] != '/' {
        lemma_first_slash(s.drop_first());
        assert forall|j: int| 0 <= j < first_slash(s) implies #[trigger] s[j] != '/' by {
            if j > 0 {
                assert(s[j] == s.drop_first()[j - 1]);
            }
        }
    }
}

proof fn lemma_first_slash_at(s: Seq<char>, k: int)
    requires
        0 <= k <= s.len(),
        forall|j: int| 0 <= j < k ==> #[trigger] s[j] != '/',
        k == s.len() || s[k] == '/',
    ensures
        first_slash(s) == k,
    decreases k,
{
    if k > 0 {
        let t = s.drop_first();
        assert forall|j: int| 0 <= j < k - 1 implies #[trigger] t[j] != '/' by {
            assert(t[j] == s[j + 1]);
        }
        lemma_first_slash_at(t, k - 1);
    }
}

proof fn lemma_segments_nonempty(s: Seq<char>)
    ensures
        segments(s).len() >= 1,
    decreases s.len(),
{
    lemma_first_slash(s);
}

/// Unfolds the template at the first `/`, found at index `k`.
proof fn lemma_template_step(s: Seq<char>, k: int)
    requires
        0 <= k < s.len(),
        s[k] == '/',
        forall|j: int| 0 <= j < k ==> #[trigger] s[j] != '/',
    ensures
        template(s) == classify(s.take(k)) + seq!['/'] + template(s.skip(k + 1)),
{
    lemma_first_slash_at(s, k);
    let rest = s.skip(k + 1);
    lemma_segments_nonempty(rest);
    let mapped = classified(s);
    assert(segments(s) == seq![s.take(k)] + segments(rest));
    assert(mapped.drop_first() =~= classified(rest));
    assert(mapped[0] == classify(s.take(k)));
}

/// The template of a path without `/` is its one classified segment.
proof fn lemma_template_last(s: Seq<char>)
    requires
        slash_free(s),
    ensures
        template(s) == classify(s),
{
    lemma_first_slash_at(s, s.len() as int);
}

proof fn lemma_segments_slash_free(s: Seq<char>)
    ensures
        forall|k: int| 0 <= k < segments(s).len() ==> slash_free(#[trigger] segments(s)[k]),
    decreases s.len(),
{
    lemma_first_slash(s);
    let fs = first_slash(s) as int;
    if fs < s.len() {
        let rest = s.skip(fs + 1);
        lemma_segments_slash_free(rest);
        assert forall|k: int| 0 <= k < segments(s).len() implies slash_free(
            #[trigger] segments(s)[k],
        ) by {
            if k == 0 {
                assert(segments(s)[0] == s.take(fs));
            } else {
                assert(segments(s)[k] == segments(rest)[k - 1]);
            }
        }
    }
}

/// Splitting undoes joining, as long as no segment holds a `/`.
proof fn lemma_segments_join(segs: Seq<Seq<char>>)
    requires
        segs.len() >= 1,
        forall|k: int| 0 <= k < segs.len() ==> slash_free(#[trigger] segs[k]),
    ensures
        segments(join(segs)) == segs,
    decreases segs.len(),
{
    let head = segs[0];
    assert(slash_free(head));
    if segs.len() == 1 {
        lemma_first_slash_at(head, head.len() as int);
        assert(segments(join(segs)) =~= segs);
    } else {
        let tail = segs.drop_first();
        assert forall|k: int| 0 <= k < tail.len() implies slash_free(#[trigger] tail[k]) by {
            assert(tail[k] == segs[k + 1]);
        }
        lemma_segments_join(tail);
        let s = join(segs);
        assert(s == head + seq!['/'] + join(tail));
        let k = head.len() as int;
        assert forall|j: int| 0 <= j < k implies #[trigger] s[j] != '/' by {
            assert(s[j] == head[j]);
        }
        lemma_first_slash_at(s, k);
        assert(s.take(k) =~= head);
        assert(s.skip(k + 1) =~= join(tail));
        assert(segments(s) =~= segs);
    }
}

/// The classified segments of a path: none is empty of segments, none holds `/`.
proof fn lemma_classified_segments(path: Seq<char>)
    ensures
        classified(path).len() >= 1,
        forall|k: int| 0 <= k < classified(path).len() ==> slash_free(#[trigger] classified(path)[k]),
        segments(template(path)) == classified(path),
{
    let mapped = classified(path);
    lemma_segments_nonempty(path);
    lemma_segments_slash_free(path);
    assert forall|k: int| 0 <= k < mapped.len() implies slash_free(#[trigger] mapped[k]) by {
        assert(slash_free(segments(path)[k]));
        if !is_static(segments(path)[k]) {
            assert(mapped[k] == placeholder());
        }
    }
    lemma_segments_join(mapped);
}

/// Templating keeps the number of segments: the template of a path has as
/// many `/`-separated segments as the path itself.
pub proof fn lemma_template_segment_count(path: Seq<char>)
    ensures
        segments(template(path)).len() == segments(path).len(),
{
    lemma_classified_segments(path);
}

/// Templating is idempotent: the template of a template is itself.
pub proof fn lemma_template_idempotent(path: Seq<char>)
    ensures
        template(template(path)) == template(path),
{
    lemma_classified_segments(path);
    let f = |seg: Seq<char>| classify(seg);
    let mapped = classified(path);
    assert forall|k: int| 0 <= k < mapped.len() implies #[trigger] classify(mapped[k])
        == mapped[k] by {
        if !is_static(segments(path)[k]) {
            assert(mapped[k] == placeholder());
            assert(has_no_digit(placeholder()));
        }
    }
    assert(mapped.map_values(f) =~= mapped);
}

/// The characters of `s`, in order.
fn chars_of(s: &str) -> (v: Vec<char>)
    ensures
        v@ == s@,
{
    let n = s.unicode_len();
    let mut it = s.chars();
    let mut v: Vec<char> = Vec::new();
    let mut i: usize = 0;
    while i < n
        invariant
            n == s@.len(),
            i <= n,
            v@ == s@.take(i as int),
            it.remaining() == s@.skip(i as int),
            it.obeys_prophetic_iter_laws(),
        decreases n - i,
    {
        let c = it.next();
        if let Some(c) = c {
            v.push(c);
        }
        proof {
            assert(s@.take(i + 1) == s@.take(i as int).push(s@[i as int]));
            assert(s@.skip(i as int).drop_first() =~= s@.skip(i + 1));
        }
        i = i + 1;
    }
    assert(s@.take(n as int) =~= s@);
    v
}

/// Whether `chars[lo..hi]` is a static segment.
fn range_is_static(chars: &Vec<char>, lo: usize, hi: usize) -> (r: bool)
    requires
        lo <= hi <= chars@.len(),
    ensures
        r == is_static(chars@.subrange(lo as int, hi as int)),
{
    let ghost seg = chars@.subrange(lo as int, hi as int);
    let mut no_digit = true;
    let mut all_digits_after_first = true;
    let mut i: usize = lo;
    while i < hi
        invariant
            lo <= i <= hi <= chars@.len(),
            seg == chars@.subrange(lo as int, hi as int),
            no_digit == (forall|j: int| 0 <= j < i - lo ==> !is_digit(#[trigger] seg[j])),
            all_digits_after_first == (forall|j: int|
                1 <= j < i - lo ==> is_digit(#[trigger] seg[j])),
        decreases hi - i,
    {
        let c = chars[i];
        let d = '0' <= c && c <= '9';
        proof {
            assert(seg[i - lo] == c);
        }
        if d {
            no_digit = false;
        } else if i > lo {
            all_digits_after_first = false;
        }
        i = i + 1;
    }
    let version = hi - lo >= 2 && chars[lo] == 'v' && all_digits_after_first;
    proof {
        if hi - lo >= 1 {
            assert(seg[0] == chars@[lo as int]);
        }
    }
    no_digit || version
}

/// Whether a path segment is static: it holds no digit, or it is exactly
/// `v` followed by one or more digits.
pub fn is_static_segment(segment: &str) -> (r: bool)
    ensures
        r == is_static(segment@),
{
    let chars = chars_of(segment);
    assert(chars@.subrange(0, chars@.len() as int) =~= chars@);
    range_is_static(&chars, 0, chars.len())
}

/// Returns the route template of a request path: each segment between `/`
/// separators that holds a digit, and is not a version marker such as `v1`,
/// becomes `?`. Empty segments, and so leading and trailing `/`, are kept.
pub fn path_group(path: &str) -> (r: String)
    ensures
        r@ == template(path@),
{
    let chars = chars_of(path);
    let n = chars.len();
    let mut out = String::new();
    let mut start: usize = 0;
    let mut i: usize = 0;
    proof {
        reveal_strlit("?");
        reveal_strlit("/");
        assert(path@.skip(0) =~= path@);
    }
    while i < n
        invariant
            chars@ == path@,
            n == path@.len(),
            start <= i <= n,
            forall|j: int| start <= j < i ==> #[trigger] path@[j] != '/',
            out@ + template(path@.skip(start as int)) == template(path@),
        decreases n - i,
    {
        if chars[i] == '/' {
            let ghost rest = path@.skip(start as int);
            proof {
                assert forall|j: int| 0 <= j < i - start implies #[trigger] rest[j] != '/' by {
                    assert(rest[j] == path@[start + j]);
                }
                lemma_template_step(rest, i - start);
                assert(rest.take(i - start) =~= path@.subrange(start as int, i as int));
                assert(rest.skip(i - start + 1) =~= path@.skip(i + 1));
                assert(chars@.subrange(start as int, i as int) =~= path@.subrange(start as int, i as int));
            }
            let ghost before = out@;
            proof {
                reveal_strlit("?");
                reveal_strlit("/");
            }
            if range_is_static(&chars, start, i) {
                let seg = path.substring_char(start, i);
                out.append(seg);
            } else {
                out.append("?");
            }
            out.append("/");
            proof {
                assert(out@ == before + classify(path@.subrange(start as int, i as int)) + seq!['/']);
                assert(out@ + template(path@.skip(i + 1)) =~= before + template(rest));
            }
            start = i + 1;
        }
        i = i + 1;
    }
    let ghost rest = path@.skip(start as int);
    proof {
        assert forall|j: int| 0 <= j < rest.len() implies #[trigger] rest[j] != '/' by {
            assert(rest[j] == path@[start + j]);
        }
        lemma_template_last(rest);
        assert(rest =~= path@.subrange(start as int, n as int));
        assert(chars@.subrange(start as int, n as int) =~= rest);
        reveal_strlit("?");
    }
    if range_is_static(&chars, start, n) {
        let seg = path.substring_char(start, n);
        out.append(seg);
    } else {
        out.append("?");
    }
    out
}

/// Attaches the current span's trace context to outbound headers, in the
/// W3C and the Datadog format, so that the far side can continue the trace.
/// Either the headers are left as they were (no span is current, or the map
/// is too large to grow), or the trace headers of some non-empty context
/// are written; no other header changes.
pub fn attach_tracing_headers(headers: &mut http::HeaderMap)
    ensures
        header_entries(*final(headers)) == header_entries(*old(headers)) || exists|
            ctx: TraceContext,
        |
            !ctx.is_empty() && header_entries(*final(headers)) == #[trigger] with_trace_headers(
                header_entries(*old(headers)),
                ctx,
            ),
        forall|name: Seq<char>|
            !is_trace_header(name) ==> (#[trigger] header_entries(*final(headers)).contains_key(
                name,
            ) == header_entries(*old(headers)).contains_key(name) && (header_entries(
                *old(headers),
            ).contains_key(name) ==> header_entries(*final(headers))[name] == header_entries(
                *old(headers),
            )[name])),
{
    let ctx = current_context();
    inject_context(headers, ctx);
    proof {
        let e = header_entries(*old(headers));
        if !ctx.is_empty() && e.dom().len() < HEADER_NAME_LIMIT {
            assert(header_entries(*headers) == with_trace_headers(e, ctx));
        }
    }
}

} // verus!
