use vstd::prelude::*;
use vstd::string::*;
use vstd::utf8::{encode_scalar, encode_utf8};

verus! {

/// The grapheme clusters of a text (UAX #29; extended clusters when `extended` holds).
pub uninterp spec fn grapheme_clusters(text: Seq<char>, extended: bool) -> Seq<Seq<char>>;

/// `UnicodeSegmentation::graphemes`: splits a text into its grapheme clusters, in order.
/// The iterator in `unicode-segmentation` hands out consecutive, non-empty slices of the
/// text from its first to its last byte, so the clusters are non-empty and together spell
/// the text.
/// Where the cluster boundaries fall is named, not stated.
#[verifier::external_body]
fn graphemes(text: &str, extended: bool) -> (clusters: Vec<String>)
    ensures
        clusters@.map_values(|g: String| g@) == grapheme_clusters(text@, extended),
        clusters@.map_values(|g: String| g@).flatten_alt() == text@,
        forall|i: int| 0 <= i < clusters@.len() ==> (#[trigger] clusters@[i])@.len() > 0,
{
    unicode_segmentation::UnicodeSegmentation::graphemes(text, extended).map(String::from).collect()
}

/// Unicode White_Space: the characters that `char::is_whitespace` accepts.
pub open spec fn is_white_space(c: char) -> bool {
    let v = c as u32;
    ||| 0x09 <= v <= 0x0D
    ||| v == 0x20
    ||| v == 0x85
    ||| v == 0xA0
    ||| v == 0x1680
    ||| 0x2000 <= v <= 0x200A
    ||| v == 0x2028
    ||| v == 0x2029
    ||| v == 0x202F
    ||| v == 0x205F
    ||| v == 0x3000
}

/// Whether `c` is white space in the sense of Unicode's White_Space property.
pub fn char_is_white_space(c: char) -> (res: bool)
    ensures
        res == is_white_space(c),
{
    let v = c as u32;
    (0x09 <= v && v <= 0x0D) || v == 0x20 || v == 0x85 || v == 0xA0 || v == 0x1680 || (0x2000
        <= v && v <= 0x200A) || v == 0x2028 || v == 0x2029 || v == 0x202F || v == 0x205F || v
        == 0x3000
}

/// The text without its leading white space.
pub open spec fn trim_start(s: Seq<char>) -> Seq<char>
    decreases s.len(),
{
    if s.len() > 0 && is_white_space(s[0]) {
        trim_start(s.drop_first())
    } else {
        s
    }
}

/// The text without its trailing white space.
pub open spec fn trim_end(s: Seq<char>) -> Seq<char>
    decreases s.len(),
{
    if s.len() > 0 && is_white_space(s.last()) {
        trim_end(s.drop_last())
    } else {
        s
    }
}

/// The text without its leading and trailing white space, as `str::trim` gives it.
pub open spec fn trimmed(s: Seq<char>) -> Seq<char> {
    trim_end(trim_start(s))
}

/// Number of bytes of the UTF-8 encoding of a text.
pub open spec fn utf8_len(s: Seq<char>) -> nat {
    encode_utf8(s).len()
}

/// A grapheme cluster that takes one or two bytes in UTF-8.
pub open spec fn is_narrow(g: Seq<char>) -> bool {
    utf8_len(g) == 1 || utf8_len(g) == 2
}

/// The narrow clusters of a sequence of clusters, joined in order.
pub open spec fn narrow_text(clusters: Seq<Seq<char>>) -> Seq<char>
    decreases clusters.len(),
{
    if clusters.len() == 0 {
        Seq::empty()
    } else if is_narrow(clusters.last()) {
        narrow_text(clusters.drop_last()) + clusters.last()
    } else {
        narrow_text(clusters.drop_last())
    }
}

/// What is left of a text once every grapheme cluster of three or more UTF-8 bytes is dropped
/// and the white space at both ends is trimmed.
pub open spec fn without_wide_graphemes(text: Seq<char>) -> Seq<char> {
    trimmed(narrow_text(grapheme_clusters(text, true)))
}

proof fn lemma_trim_start_skip(s: Seq<char>, i: int)
    requires
        0 <= i <= s.len(),
        forall|k: int| 0 <= k < i ==> is_white_space(#[trigger] s[k]),
    ensures
        trim_start(s) == trim_start(s.subrange(i, s.len() as int)),
    decreases i,
{
    if i > 0 {
        assert(s.drop_first() == s.subrange(1, s.len() as int));
        lemma_trim_start_skip(s.drop_first(), i - 1);
        assert(s.drop_first().subrange(i - 1, s.drop_first().len() as int) == s.subrange(
            i,
            s.len() as int,
        ));
    } else {
        assert(s.subrange(0, s.len() as int) == s);
    }
}

proof fn lemma_trim_end_skip(s: Seq<char>, j: int)
    requires
        0 <= j <= s.len(),
        forall|k: int| j <= k < s.len() ==> is_white_space(#[trigger] s[k]),
    ensures
        trim_end(s) == trim_end(s.subrange(0, j)),
    decreases s.len() - j,
{
    if j < s.len() {
        assert(s.drop_last() == s.subrange(0, s.len() - 1));
        lemma_trim_end_skip(s.drop_last(), j);
        assert(s.drop_last().subrange(0, j) == s.subrange(0, j));
    } else {
        assert(s.subrange(0, j) == s);
    }
}

/// The text with the white space at both ends removed.
pub fn trim(text: &str) -> (res: String)
    ensures
        res@ == trimmed(text@),
{
    let n = text.unicode_len();
    let mut start: usize = 0;
    while start < n && char_is_white_space(text.get_char(start))
        invariant
            n == text@.len(),
            start <= n,
            forall|k: int| 0 <= k < start ==> is_white_space(#[trigger] text@[k]),
        decreases n - start,
    {
        start = start + 1;
    }
    let ghost rest = text@.subrange(start as int, n as int);
    proof {
        lemma_trim_start_skip(text@, start as int);
        if start < n {
            assert(rest[0] == text@[start as int]);
        }
    }
    assert(trim_start(text@) == rest);
    let mut end: usize = n;
    while end > start && char_is_white_space(text.get_char(end - 1))
        invariant
            n == text@.len(),
            start <= end <= n,
            rest == text@.subrange(start as int, n as int),
            forall|k: int| end - start <= k < rest.len() ==> is_white_space(#[trigger] rest[k]),
        decreases end,
    {
        end = end - 1;
    }
    proof {
        lemma_trim_end_skip(rest, end - start);
        let kept = rest.subrange(0, end - start);
        if end > start {
            assert(kept.last() == text@[end - 1]);
        }
        assert(kept == text@.subrange(start as int, end as int));
    }
    String::from_str(text.substring_char(start, end))
}

proof fn lemma_scalar_width(c: char)
    ensures
        (c as u32) < 0x80 ==> encode_scalar(c as u32).len() == 1,
        0x80 <= (c as u32) < 0x800 ==> encode_scalar(c as u32).len() == 2,
        0x800 <= (c as u32) ==> encode_scalar(c as u32).len() >= 3,
{
}

proof fn lemma_utf8_len_at_least_chars(s: Seq<char>)
    ensures
        utf8_len(s) >= s.len(),
    decreases s.len(),
{
    if s.len() > 0 {
        lemma_scalar_width(s[0]);
        lemma_utf8_len_at_least_chars(s.drop_first());
    }
}

/// A cluster takes one or two UTF-8 bytes exactly when it is one character below U+0800 or
/// two characters below U+0080.
proof fn lemma_narrow_by_chars(g: Seq<char>)
    ensures
        is_narrow(g) <==> (g.len() == 1 && (g[0] as u32) < 0x800) || (g.len() == 2 && (g[0] as u32)
            < 0x80 && (g[1] as u32) < 0x80),
{
    if g.len() > 0 {
        let rest = g.drop_first();
        lemma_scalar_width(g[0]);
        lemma_utf8_len_at_least_chars(rest);
        assert(encode_utf8(g) == encode_scalar(g[0] as u32) + encode_utf8(rest));
        if rest.len() > 0 {
            lemma_scalar_width(rest[0]);
            lemma_utf8_len_at_least_chars(rest.drop_first());
            assert(encode_utf8(rest) == encode_scalar(rest[0] as u32) + encode_utf8(
                rest.drop_first(),
            ));
        } else {
            assert(encode_utf8(rest).len() == 0);
        }
    } else {
        assert(encode_utf8(g).len() == 0);
    }
}

/// Whether a cluster takes one or two bytes in UTF-8.
fn is_narrow_cluster(g: &str) -> (res: bool)
    ensures
        res == is_narrow(g@),
{
    proof {
        lemma_narrow_by_chars(g@);
    }
    let n = g.unicode_len();
    if n == 1 {
        (g.get_char(0) as u32) < 0x800
    } else if n == 2 {
        (g.get_char(0) as u32) < 0x80 && (g.get_char(1) as u32) < 0x80
    } else {
        false
    }
}

/// Joins the clusters of one or two UTF-8 bytes, in order, dropping all others, and trims
/// the white space at both ends of the result.
pub fn join_narrow_graphemes(clusters: &Vec<String>) -> (res: String)
    ensures
        res@ == trimmed(narrow_text(clusters@.map_values(|g: String| g@))),
{
    let ghost views = clusters@.map_values(|g: String| g@);
    let mut joined = String::new();
    let mut i: usize = 0;
    while i < clusters.len()
        invariant
            i <= clusters@.len(),
            views == clusters@.map_values(|g: String| g@),
            joined@ == narrow_text(views.subrange(0, i as int)),
        decreases clusters.len() - i,
    {
        let g = clusters[i].as_str();
        let narrow = is_narrow_cluster(g);
        proof {
            let prefix = views.subrange(0, i + 1);
            assert(prefix.drop_last() == views.subrange(0, i as int));
            assert(prefix.last() == g@);
        }
        let ghost before = joined@;
        if narrow {
            joined.append(g);
        }
        proof {
            let prefix = views.subrange(0, i + 1);
            assert(narrow_text(prefix) == if is_narrow(g@) {
                before + g@
            } else {
                before
            });
        }
        i = i + 1;
    }
    assert(views.subrange(0, clusters@.len() as int) == views);
    trim(joined.as_str())
}

proof fn lemma_trim_start_shape(s: Seq<char>) -> (i: int)
    ensures
        0 <= i <= s.len(),
        trim_start(s) == s.subrange(i, s.len() as int),
        i < s.len() ==> !is_white_space(s[i]),
        forall|k: int| 0 <= k < i ==> is_white_space(#[trigger] s[k]),
    decreases s.len(),
{
    if s.len() > 0 && is_white_space(s[0]) {
        let k = lemma_trim_start_shape(s.drop_first());
        assert(s.drop_first().subrange(k, s.drop_first().len() as int) == s.subrange(
            k + 1,
            s.len() as int,
        ));
        assert forall|m: int| 0 <= m < k + 1 implies is_white_space(#[trigger] s[m]) by {
            if m > 0 {
                assert(s[m] == s.drop_first()[m - 1]);
            }
        }
        k + 1
    } else {
        assert(s.subrange(0, s.len() as int) == s);
        0
    }
}

proof fn lemma_trim_end_shape(s: Seq<char>) -> (j: int)
    ensures
        0 <= j <= s.len(),
        trim_end(s) == s.subrange(0, j),
        j > 0 ==> !is_white_space(s[j - 1]),
        forall|k: int| j <= k < s.len() ==> is_white_space(#[trigger] s[k]),
    decreases s.len(),
{
    if s.len() > 0 && is_white_space(s.last()) {
        let k = lemma_trim_end_shape(s.drop_last());
        assert(s.drop_last().subrange(0, k) == s.subrange(0, k));
        assert forall|m: int| k <= m < s.len() implies is_white_space(#[trigger] s[m]) by {
            if m < s.len() - 1 {
                assert(s[m] == s.drop_last()[m]);
            }
        }
        k
    } else {
        assert(s.subrange(0, s.len() as int) == s);
        s.len() as int
    }
}

/// Trimming leaves a piece of the text that neither starts nor ends with white space.
pub proof fn law_trimmed_is_inner_piece(s: Seq<char>)
    ensures
        exists|i: int, j: int| 0 <= i <= j <= s.len() && trimmed(s) == s.subrange(i, j),
        trimmed(s).len() > 0 ==> !is_white_space(trimmed(s)[0]) && !is_white_space(
            trimmed(s).last(),
        ),
{
    let i = lemma_trim_start_shape(s);
    let t = trim_start(s);
    let j = lemma_trim_end_shape(t);
    assert(trimmed(s) == s.subrange(i, i + j));
    if trimmed(s).len() > 0 {
        assert(trimmed(s)[0] == t[0]);
        assert(trimmed(s).last() == t[j - 1]);
    }
}

/// Trimming twice trims no more than trimming once.
pub proof fn law_trim_idempotent(s: Seq<char>)
    ensures
        trimmed(trimmed(s)) == trimmed(s),
{
    let t = trimmed(s);
    law_trimmed_is_inner_piece(s);
    if t.len() > 0 {
        assert(!is_white_space(t[0]));
        assert(trim_start(t) == t);
        assert(!is_white_space(t.last()));
        assert(trim_end(t) == t);
    } else {
        assert(trim_start(t) == t);
        assert(trim_end(t) == t);
    }
}

/// When every cluster is narrow, joining the narrow clusters joins them all.
pub proof fn law_narrow_clusters_are_kept(clusters: Seq<Seq<char>>)
    requires
        forall|i: int| 0 <= i < clusters.len() ==> is_narrow(#[trigger] clusters[i]),
    ensures
        narrow_text(clusters) == clusters.flatten_alt(),
    decreases clusters.len(),
{
    if clusters.len() > 0 {
        let rest = clusters.drop_last();
        assert forall|i: int| 0 <= i < rest.len() implies is_narrow(#[trigger] rest[i]) by {
            assert(rest[i] == clusters[i]);
        }
        law_narrow_clusters_are_kept(rest);
        assert(is_narrow(clusters[clusters.len() - 1]));
    }
}

/// Every character of the joined narrow clusters is a character of the clusters.
pub proof fn law_narrow_text_chars_come_from_clusters(clusters: Seq<Seq<char>>)
    ensures
        forall|k: int|
            0 <= k < narrow_text(clusters).len() ==> clusters.flatten_alt().contains(
                #[trigger] narrow_text(clusters)[k],
            ),
    decreases clusters.len(),
{
    if clusters.len() > 0 {
        let rest = clusters.drop_last();
        let last = clusters.last();
        law_narrow_text_chars_come_from_clusters(rest);
        let all = clusters.flatten_alt();
        assert(all == rest.flatten_alt() + last);
        assert forall|k: int| 0 <= k < narrow_text(clusters).len() implies all.contains(
            #[trigger] narrow_text(clusters)[k],
        ) by {
            let n = narrow_text(rest);
            if k < n.len() {
                assert(narrow_text(clusters)[k] == n[k]);
                let w = choose|w: int| 0 <= w < rest.flatten_alt().len() && rest.flatten_alt()[w] == n[k];
                assert(all[w] == n[k]);
            } else {
                let w = rest.flatten_alt().len() + (k - n.len());
                assert(all[w] == narrow_text(clusters)[k]);
            }
        }
    }
}

proof fn lemma_utf8_len_concat(a: Seq<char>, b: Seq<char>)
    ensures
        utf8_len(a + b) == utf8_len(a) + utf8_len(b),
    decreases a.len(),
{
    if a.len() > 0 {
        assert((a + b)[0] == a[0]);
        assert((a + b).drop_first() == a.drop_first() + b);
        lemma_utf8_len_concat(a.drop_first(), b);
    } else {
        assert(a + b == b);
    }
}

proof fn lemma_utf8_len_piece(s: Seq<char>, i: int, j: int)
    requires
        0 <= i <= j <= s.len(),
    ensures
        utf8_len(s.subrange(i, j)) <= utf8_len(s),
{
    let pre = s.subrange(0, i);
    let mid = s.subrange(i, j);
    let post = s.subrange(j, s.len() as int);
    assert(s == pre + mid + post);
    lemma_utf8_len_concat(pre + mid, post);
    lemma_utf8_len_concat(pre, mid);
}

/// Joining only the narrow clusters never takes more UTF-8 bytes than joining them all.
pub proof fn law_narrow_text_no_longer(clusters: Seq<Seq<char>>)
    ensures
        utf8_len(narrow_text(clusters)) <= utf8_len(clusters.flatten_alt()),
    decreases clusters.len(),
{
    if clusters.len() > 0 {
        let rest = clusters.drop_last();
        law_narrow_text_no_longer(rest);
        lemma_utf8_len_concat(rest.flatten_alt(), clusters.last());
        lemma_utf8_len_concat(narrow_text(rest), clusters.last());
    }
}

/// Every character of the joined narrow clusters lies below U+0800, so it takes at most two
/// UTF-8 bytes.
pub proof fn law_narrow_text_chars_are_narrow(clusters: Seq<Seq<char>>)
    ensures
        forall|k: int|
            0 <= k < narrow_text(clusters).len() ==> (#[trigger] narrow_text(clusters)[k] as u32)
                < 0x800,
    decreases clusters.len(),
{
    if clusters.len() > 0 {
        let rest = clusters.drop_last();
        let last = clusters.last();
        law_narrow_text_chars_are_narrow(rest);
        lemma_narrow_by_chars(last);
        assert forall|k: int| 0 <= k < narrow_text(clusters).len() implies (
        #[trigger] narrow_text(clusters)[k] as u32) < 0x800 by {
            let n = narrow_text(rest);
            if k < n.len() {
                assert(narrow_text(clusters)[k] == n[k]);
            } else {
                assert(narrow_text(clusters)[k] == last[k - n.len()]);
            }
        }
    }
}

/// Trimming removes exactly the white space at both ends: what is left is a piece of the
/// text, everything before it and after it is white space, and the piece neither starts nor
/// ends with white space.
pub proof fn law_trim_removes_exactly_outer_white_space(s: Seq<char>)
    ensures
        exists|i: int, j: int|
            #![trigger s.subrange(i, j)]
            0 <= i <= j <= s.len() && trimmed(s) == s.subrange(i, j) && (forall|k: int|
                0 <= k < i ==> is_white_space(#[trigger] s[k])) && (forall|k: int|
                j <= k < s.len() ==> is_white_space(#[trigger] s[k])) && (i < j ==> !is_white_space(
                s[i],
            ) && !is_white_space(s[j - 1])),
{
    let i = lemma_trim_start_shape(s);
    let t = trim_start(s);
    let j = lemma_trim_end_shape(t);
    assert(trimmed(s) == s.subrange(i, i + j));
    assert forall|k: int| i + j <= k < s.len() implies is_white_space(#[trigger] s[k]) by {
        assert(s[k] == t[k - i]);
    }
    if j > 0 {
        assert(t[0] == s[i]);
        assert(t[j - 1] == s[i + j - 1]);
    }
}

/// Joining the narrow clusters of two runs of clusters joins the narrow clusters of each.
pub proof fn law_narrow_text_of_concat(a: Seq<Seq<char>>, b: Seq<Seq<char>>)
    ensures
        narrow_text(a + b) == narrow_text(a) + narrow_text(b),
    decreases b.len(),
{
    if b.len() == 0 {
        assert(a + b == a);
    } else {
        law_narrow_text_of_concat(a, b.drop_last());
        assert((a + b).drop_last() == a + b.drop_last());
        assert((a + b).last() == b.last());
    }
}

/// A single cluster is kept whole when it takes one or two UTF-8 bytes, and dropped
/// otherwise.
pub proof fn law_narrow_text_of_one_cluster(g: Seq<char>)
    ensures
        narrow_text(seq![g]) == if utf8_len(g) == 1 || utf8_len(g) == 2 {
            g
        } else {
            Seq::<char>::empty()
        },
{
    assert(seq![g].drop_last() == Seq::<Seq<char>>::empty());
    assert(seq![g].last() == g);
    assert(narrow_text(Seq::<Seq<char>>::empty()) == Seq::<char>::empty());
    assert(Seq::<char>::empty() + g == g);
}

/// Dropping is decided cluster by cluster: a cluster of three or more UTF-8 bytes drops
/// only itself, whatever stands around it, and a narrow cluster stays between its
/// neighbours.
pub proof fn law_each_cluster_decided_alone(prefix: Seq<Seq<char>>, g: Seq<char>, suffix: Seq<Seq<char>>)
    ensures
        narrow_text(prefix + seq![g] + suffix) == narrow_text(prefix) + (if utf8_len(g) == 1
            || utf8_len(g) == 2 {
            g
        } else {
            Seq::<char>::empty()
        }) + narrow_text(suffix),
{
    law_narrow_text_of_concat(prefix + seq![g], suffix);
    law_narrow_text_of_concat(prefix, seq![g]);
    law_narrow_text_of_one_cluster(g);
}

/// Removing wide clusters from a text keeps its clusters of one or two UTF-8 bytes, joined
/// in order, and trims white space at both ends of what is joined.
pub proof fn law_removal_keeps_narrow_clusters(text: Seq<char>)
    ensures
        without_wide_graphemes(text) == trimmed(narrow_text(grapheme_clusters(text, true))),
{
}

/// Removes from a text every grapheme cluster that takes more than two bytes in UTF-8
/// (emoji among them), then trims the white space at both ends.
pub fn remove_emoji_graphemes(input_str: &str) -> (res: String)
    ensures
        res@ == without_wide_graphemes(input_str@),
        res@ == trimmed(narrow_text(grapheme_clusters(input_str@, true))),
        forall|k: int| 0 <= k < res@.len() ==> input_str@.contains(#[trigger] res@[k]),
        (forall|i: int|
            0 <= i < grapheme_clusters(input_str@, true).len() ==> is_narrow(
                #[trigger] grapheme_clusters(input_str@, true)[i],
            )) ==> res@ == trimmed(input_str@),
        grapheme_clusters(input_str@, true).flatten_alt() == input_str@,
        utf8_len(res@) <= utf8_len(input_str@),
        forall|k: int| 0 <= k < res@.len() ==> (#[trigger] res@[k] as u32) < 0x800,
        res@.len() > 0 ==> !is_white_space(res@[0]) && !is_white_space(res@.last()),
{
    let clusters = graphemes(input_str, true);
    let res = join_narrow_graphemes(&clusters);
    proof {
        let views = grapheme_clusters(input_str@, true);
        let joined = narrow_text(views);
        law_narrow_text_chars_come_from_clusters(views);
        law_trimmed_is_inner_piece(joined);
        let (i, j) = choose|i: int, j: int|
            0 <= i <= j <= joined.len() && trimmed(joined) == joined.subrange(i, j);
        assert forall|k: int| 0 <= k < res@.len() implies input_str@.contains(#[trigger] res@[k]) by {
            assert(res@[k] == joined[i + k]);
        }
        if forall|i: int| 0 <= i < views.len() ==> is_narrow(#[trigger] views[i]) {
            law_narrow_clusters_are_kept(views);
        }
        law_narrow_text_no_longer(views);
        lemma_utf8_len_piece(joined, i, j);
        law_narrow_text_chars_are_narrow(views);
        assert forall|k: int| 0 <= k < res@.len() implies (#[trigger] res@[k] as u32) < 0x800 by {
            assert(res@[k] == joined[i + k]);
        }
    }
    res
}

} // verus!
