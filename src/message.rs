use vstd::prelude::*;
use vstd::string::*;
use unicode_segmentation::UnicodeSegmentation;
use unicode_width::UnicodeWidthStr;
use unicode_truncate::UnicodeTruncateStr;

verus! {

/// The Unicode `White_Space` property, which `char::is_whitespace` tests.
pub open spec fn is_white_space(c: char) -> bool {
    let u = c as u32;
    (0x9 <= u && u <= 0xd) || u == 0x20 || u == 0x85 || u == 0xa0 || u == 0x1680 || (0x2000 <= u
        && u <= 0x200a) || u == 0x2028 || u == 0x2029 || u == 0x202f || u == 0x205f || u == 0x3000
}

/// `s` without its leading white space.
pub open spec fn trim_front(s: Seq<char>) -> Seq<char>
    decreases s.len(),
{
    if s.len() > 0 && is_white_space(s[0]) {
        trim_front(s.drop_first())
    } else {
        s
    }
}

/// `s` without its trailing white space.
pub open spec fn trim_back(s: Seq<char>) -> Seq<char>
    decreases s.len(),
{
    if s.len() > 0 && is_white_space(s.last()) {
        trim_back(s.drop_last())
    } else {
        s
    }
}

/// `s` without white space at either end.
pub open spec fn trim(s: Seq<char>) -> Seq<char> {
    trim_back(trim_front(s))
}

/// Number of characters before the first line feed (all of them if there is none).
pub open spec fn line_len(s: Seq<char>) -> nat
    decreases s.len(),
{
    if s.len() == 0 || s[0] == '\n' {
        0
    } else {
        1 + line_len(s.drop_first())
    }
}

/// The first line of `s`, without its line ending (`\n` or `\r\n`).
pub open spec fn first_line(s: Seq<char>) -> Seq<char> {
    let k = line_len(s);
    if k < s.len() && k > 0 && s[k - 1] == '\r' {
        s.take(k - 1)
    } else {
        s.take(k as int)
    }
}

/// The extended grapheme clusters of `s`, in order.
pub uninterp spec fn graphemes_of(s: Seq<char>) -> Seq<Seq<char>>;

/// Display width of `s` in terminal columns, as `unicode-width` measures a string.
pub uninterp spec fn str_width(s: Seq<char>) -> nat;

/// Relies on `UnicodeSegmentation::graphemes` (extended clusters): the clusters are
/// non-empty and together make up the whole text.
#[verifier::external_body]
fn grapheme_clusters(s: &str) -> (r: Vec<String>)
    ensures
        r@.map_values(|g: String| g@) == graphemes_of(s@),
        r@.map_values(|g: String| g@).flatten() == s@,
        forall|i: int| 0 <= i < r@.len() ==> (#[trigger] r@[i])@.len() > 0,
{
    s.graphemes(true).map(String::from).collect()
}

/// Relies on `UnicodeWidthStr::width`.
#[verifier::external_body]
fn text_width(s: &str) -> (r: usize)
    ensures
        r as nat == str_width(s@),
{
    s.width()
}

/// Total width of the first `n` clusters, each measured on its own.
pub open spec fn clusters_width(gs: Seq<Seq<char>>, n: int) -> nat
    decreases n,
{
    if n <= 0 {
        0
    } else {
        clusters_width(gs, n - 1) + str_width(gs[n - 1])
    }
}

/// Display width of `s`: the widths of its grapheme clusters added up, so that a wide
/// character or a cluster is never split.
pub open spec fn display_width(s: Seq<char>) -> nat {
    clusters_width(graphemes_of(s), graphemes_of(s).len() as int)
}

/// Number of leading clusters, from `n` on, that still fit in `limit` columns.
pub open spec fn fit_from(gs: Seq<Seq<char>>, limit: nat, n: int) -> int
    decreases gs.len() - n,
{
    if 0 <= n < gs.len() && clusters_width(gs, n + 1) <= limit {
        fit_from(gs, limit, n + 1)
    } else {
        n
    }
}

/// Number of leading clusters of `s` that fit in `limit` columns.
pub open spec fn fit_count(s: Seq<char>, limit: nat) -> int {
    fit_from(graphemes_of(s), limit, 0)
}

/// The longest run of leading grapheme clusters of `s` whose width is at most `limit`.
pub open spec fn truncated(s: Seq<char>, limit: nat) -> Seq<char> {
    graphemes_of(s).take(fit_count(s, limit)).flatten()
}

/// Width of what `truncated` keeps.
pub open spec fn truncated_width(s: Seq<char>, limit: nat) -> nat {
    clusters_width(graphemes_of(s), fit_count(s, limit))
}

/// Relies on `UnicodeTruncateStr::unicode_truncate`: it adds up the widths of the leading
/// grapheme clusters and keeps those that fit in `limit`. Its debug check asserts that the
/// kept clusters' widths add up to the width of the kept text, which `requires` holds to.
#[verifier::external_body]
fn unicode_truncate(s: &str, limit: usize) -> (r: String)
    requires
        str_width(truncated(s@, limit as nat)) == truncated_width(s@, limit as nat),
    ensures
        r@ == truncated(s@, limit as nat),
{
    s.unicode_truncate(limit).0.to_string()
}

proof fn lemma_flatten_take_push(gs: Seq<Seq<char>>, i: int)
    requires
        0 <= i < gs.len(),
    ensures
        gs.take(i + 1).flatten() == gs.take(i).flatten() + gs[i],
{
    gs.take(i + 1).lemma_flatten_and_flatten_alt_are_equivalent();
    gs.take(i).lemma_flatten_and_flatten_alt_are_equivalent();
    assert(gs.take(i + 1).drop_last() =~= gs.take(i));
}

/// Cuts `s` to the longest run of whole grapheme clusters that fits in `limit` columns,
/// through `unicode_truncate` wherever the width of the kept text is the sum of its clusters'
/// widths (elsewhere, as for Arabic lam-alef, that crate's debug check would fail). Where the
/// two widths agree, the kept text is at most `limit` columns wide.
pub fn truncate_to_width(s: &str, limit: usize) -> (r: String)
    ensures
        r@ == truncated(s@, limit as nat),
        str_width(r@) == truncated_width(s@, limit as nat) ==> str_width(r@) <= limit,
        truncated_width(s@, limit as nat) <= limit,
        display_width(s@) <= limit ==> r@ == s@,
        r@.len() <= s@.len(),
        r@ == s@.take(r@.len() as int),
{
    let gs = grapheme_clusters(s);
    let ghost g = graphemes_of(s@);
    let n = gs.len();
    assert forall|j: int| 0 <= j < n implies (#[trigger] gs@[j])@ == g[j] by {
        assert(gs@.map_values(|x: String| x@)[j] == gs@[j]@);
    }
    let mut out = String::new();
    let mut total: usize = 0;
    let mut i: usize = 0;
    let mut full = false;
    assert(g.take(0).flatten() =~= Seq::<char>::empty());
    while i < n && !full
        invariant
            n == gs@.len(),
            n == g.len(),
            g == graphemes_of(s@),
            forall|j: int| 0 <= j < n ==> (#[trigger] gs@[j])@ == g[j],
            i <= n,
            total as nat == clusters_width(g, i as int),
            total <= limit,
            out@ == g.take(i as int).flatten(),
            fit_from(g, limit as nat, 0) == fit_from(g, limit as nat, i as int),
            full ==> i < n && clusters_width(g, i + 1) > limit,
        decreases n - i + (if full { 0int } else { 1int }),
    {
        let w = text_width(gs[i].as_str());
        if w > limit - total {
            full = true;
        } else {
            total = total + w;
            out.append(gs[i].as_str());
            proof {
                lemma_flatten_take_push(g, i as int);
            }
            i = i + 1;
        }
    }
    assert(fit_from(g, limit as nat, i as int) == i as int);
    proof {
        if display_width(s@) <= limit {
            assert(i == n) by {
                if i < n {
                    lemma_clusters_width_monotone(g, i + 1, n as int);
                }
            }
        }
        if i == n {
            assert(g.take(n as int) =~= g);
        }
        lemma_flatten_split(g, i as int);
        assert(s@ == out@ + g.skip(i as int).flatten());
        assert(s@.take(out@.len() as int) =~= out@);
    }
    let w = text_width(out.as_str());
    if w == total {
        unicode_truncate(s, limit)
    } else {
        out
    }
}

proof fn lemma_flatten_split(g: Seq<Seq<char>>, i: int)
    requires
        0 <= i <= g.len(),
    ensures
        g.flatten() == g.take(i).flatten() + g.skip(i).flatten(),
    decreases i,
{
    if i == 0 {
        assert(g.take(0).flatten() =~= Seq::<char>::empty());
        assert(g.skip(0) =~= g);
        assert(g.flatten() =~= Seq::<char>::empty() + g.flatten());
    } else {
        let d = g.drop_first();
        lemma_flatten_split(d, i - 1);
        assert(g.take(i).drop_first() =~= d.take(i - 1));
        assert(g.take(i).first() == g.first());
        assert(g.skip(i) =~= d.skip(i - 1));
        assert(g.flatten() =~= g.take(i).flatten() + g.skip(i).flatten());
    }
}

proof fn lemma_fit_from_fits(gs: Seq<Seq<char>>, limit: nat, n: int)
    requires
        0 <= n <= gs.len(),
        clusters_width(gs, n) <= limit,
    ensures
        clusters_width(gs, fit_from(gs, limit, n)) <= limit,
    decreases gs.len() - n,
{
    if n < gs.len() && clusters_width(gs, n + 1) <= limit {
        lemma_fit_from_fits(gs, limit, n + 1);
    }
}

/// With a limit, the grapheme clusters that a formatted message keeps never take more
/// columns than the limit, whatever the message.
pub proof fn law_formatted_fits(msg: Seq<char>, limit: usize)
    ensures
        truncated_width(first_line(trim(msg)), limit as nat) <= limit,
{
    lemma_fit_from_fits(graphemes_of(first_line(trim(msg))), limit as nat, 0);
}

proof fn lemma_clusters_width_monotone(gs: Seq<Seq<char>>, a: int, b: int)
    requires
        0 <= a <= b <= gs.len(),
    ensures
        clusters_width(gs, a) <= clusters_width(gs, b),
    decreases b - a,
{
    if a < b {
        lemma_clusters_width_monotone(gs, a, b - 1);
    }
}

/// A message as it is shown: trimmed; with a limit, only its first line, cut to
/// `limit` display columns.
pub open spec fn formatted(msg: Seq<char>, limit: Option<usize>) -> Seq<char> {
    match limit {
        None => trim(msg),
        Some(l) => truncated(first_line(trim(msg)), l as nat),
    }
}

/// Tests the Unicode `White_Space` property.
pub fn is_white_space_char(c: char) -> (r: bool)
    ensures
        r == is_white_space(c),
{
    let u = c as u32;
    (0x9 <= u && u <= 0xd) || u == 0x20 || u == 0x85 || u == 0xa0 || u == 0x1680 || (0x2000 <= u
        && u <= 0x200a) || u == 0x2028 || u == 0x2029 || u == 0x202f || u == 0x205f || u == 0x3000
}

/// Removes white space at both ends of `s`.
pub fn trim_text(s: &str) -> (r: &str)
    ensures
        r@ == trim(s@),
{
    let n = s.unicode_len();
    let mut i: usize = 0;
    assert(s@.subrange(0, n as int) =~= s@);
    while i < n && is_white_space_char(s.get_char(i))
        invariant
            n == s@.len(),
            i <= n,
            trim_front(s@) == trim_front(s@.subrange(i as int, n as int)),
        decreases n - i,
    {
        assert(s@.subrange(i as int, n as int).drop_first() =~= s@.subrange(i + 1, n as int));
        i = i + 1;
    }
    assert(trim_front(s@.subrange(i as int, n as int)) == s@.subrange(i as int, n as int));
    let mut j: usize = n;
    while j > i && is_white_space_char(s.get_char(j - 1))
        invariant
            n == s@.len(),
            i <= j <= n,
            trim(s@) == trim_back(s@.subrange(i as int, j as int)),
        decreases j,
    {
        assert(s@.subrange(i as int, j as int).drop_last() =~= s@.subrange(i as int, j - 1));
        j = j - 1;
    }
    s.substring_char(i, j)
}

/// Length in characters of the first line of `s`, line feed excluded.
fn first_line_len(s: &str) -> (r: usize)
    ensures
        r == line_len(s@),
{
    let n = s.unicode_len();
    let mut i: usize = 0;
    assert(s@.subrange(0, n as int) =~= s@);
    while i < n && s.get_char(i) != '\n'
        invariant
            n == s@.len(),
            i <= n,
            line_len(s@) == i + line_len(s@.subrange(i as int, n as int)),
        decreases n - i,
    {
        assert(s@.subrange(i as int, n as int).drop_first() =~= s@.subrange(i + 1, n as int));
        i = i + 1;
    }
    i
}

/// The first line of `s`, without its line ending.
pub fn first_line_of(s: &str) -> (r: &str)
    ensures
        r@ == first_line(s@),
{
    let k = first_line_len(s);
    let n = s.unicode_len();
    proof {
        lemma_line_len_bound(s@);
    }
    if k < n && k > 0 && s.get_char(k - 1) == '\r' {
        s.substring_char(0, k - 1)
    } else {
        s.substring_char(0, k)
    }
}

proof fn lemma_line_len_bound(s: Seq<char>)
    ensures
        line_len(s) <= s.len(),
        !s.contains('\n') ==> line_len(s) == s.len(),
    decreases s.len(),
{
    if s.len() > 0 && s[0] != '\n' {
        lemma_line_len_bound(s.drop_first());
        if !s.contains('\n') {
            assert forall|i: int| 0 <= i < s.drop_first().len() implies s.drop_first()[i]
                != '\n' by {
                assert(s[i + 1] == s.drop_first()[i]);
            }
        }
    } else if s.len() > 0 {
        assert(s.contains('\n')) by {
            assert(s[0] == '\n');
        }
    }
}

proof fn lemma_first_line_no_feed(s: Seq<char>)
    ensures
        !first_line(s).contains('\n'),
        first_line(s).len() <= s.len(),
{
    lemma_line_len_bound(s);
    lemma_line_len_no_feed(s);
    let f = first_line(s);
    assert forall|j: int| 0 <= j < f.len() implies f[j] != '\n' by {
        assert(f[j] == s[j]);
    }
}

proof fn lemma_line_len_no_feed(s: Seq<char>)
    ensures
        forall|j: int| 0 <= j < line_len(s) ==> s[j] != '\n',
    decreases s.len(),
{
    if s.len() > 0 && s[0] != '\n' {
        lemma_line_len_no_feed(s.drop_first());
        lemma_line_len_bound(s);
        assert forall|j: int| 0 <= j < line_len(s) implies s[j] != '\n' by {
            if j > 0 {
                assert(s[j] == s.drop_first()[j - 1]);
            }
        }
    }
}

/// Shapes a raw commit message for display. Without a limit the message is only trimmed;
/// with one, its first line is kept and cut to the longest run of whole grapheme clusters
/// that fits in `limit` columns. That run never exceeds the limit, holds no line feed, and
/// a message whose trimmed text is a single line that already fits is left as it is
/// without a limit.
pub fn format_message(msg: &str, limit: Option<usize>) -> (r: String)
    ensures
        r@ == formatted(msg@, limit),
        limit matches Some(l) ==> r@ == first_line(trim(msg@)).take(r@.len() as int) && r@.len()
            <= first_line(trim(msg@)).len() && !r@.contains('\n'),
        limit matches Some(l) ==> (!trim(msg@).contains('\n') && display_width(trim(msg@)) <= l
            ==> r@ == formatted(msg@, None)),
{
    let t = trim_text(msg);
    match limit {
        None => String::from_str(t),
        Some(l) => {
            let line = first_line_of(t);
            let cut = truncate_to_width(line, l);
            proof {
                law_formatted_fits(msg@, l);
                lemma_first_line_no_feed(t@);
                if cut@.contains('\n') {
                    let j = choose|j: int| 0 <= j < cut@.len() && cut@[j] == '\n';
                    assert(line@[j] == '\n');
                }
                if !t@.contains('\n') {
                    lemma_line_len_bound(t@);
                    assert(t@.take(t@.len() as int) =~= t@);
                }
            }
            cut
        },
    }
}

} // verus!
