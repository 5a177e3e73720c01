use std::ops::Range;
use vstd::prelude::*;
use vstd::string::StrSliceExecFns;
use vstd::string::StringSliceAdditionalSpecFns;
use vstd::string::StringExecFns;
use vstd::utf8::*;
use vstd::seq_lib::lemma_flatten_concat;
use crate::editor::text::{push_char, strings_view};
use unicode_segmentation::UnicodeSegmentation;
use unicode_width::UnicodeWidthStr;

verus! {

broadcast use vstd::utf8::group_utf8_lib;

/// The smaller of two integers.
pub open spec fn min_int(a: int, b: int) -> int {
    if a <= b {
        a
    } else {
        b
    }
}

/// What `get(start..end)` gives back for a line holding `chars`: the
/// characters whose UTF-8 bytes lie between the byte offsets `start` and
/// `end`, with `end` cut down to the byte length of the line. When `start`
/// lies past that end, or either offset falls inside a character, the
/// result is empty.
pub open spec fn byte_range_chars(chars: Seq<char>, start: int, end: int) -> Seq<char> {
    let bytes = encode_utf8(chars);
    let e = min_int(end, bytes.len() as int);
    if start <= e && is_char_boundary(bytes, start) && is_char_boundary(bytes, e) {
        decode_utf8(bytes.subrange(start, e))
    } else {
        Seq::empty()
    }
}

/// The extended grapheme clusters of a text, as
/// `unicode_segmentation::UnicodeSegmentation::graphemes(s, true)` gives them.
pub uninterp spec fn grapheme_clusters(s: Seq<char>) -> Seq<Seq<char>>;

/// The display width of a text, as `unicode_width::UnicodeWidthStr::width`
/// gives it.
pub uninterp spec fn grapheme_width(g: Seq<char>) -> nat;

/// Splits a text into its extended grapheme clusters: a call of
/// `UnicodeSegmentation::graphemes(s, true)`, each cluster copied into a
/// `String`. The iterator hands out consecutive non-empty slices from the
/// start of the text to its end, so the clusters joined give the text back.
#[verifier::external_body]
fn split_graphemes(s: &str) -> (clusters: Vec<String>)
    ensures
        strings_view(clusters@) == grapheme_clusters(s@),
        strings_view(clusters@).flatten() == s@,
        forall|i: int| 0 <= i < clusters@.len() ==> #[trigger] clusters@[i]@.len() > 0,
{
    s.graphemes(true).map(String::from).collect()
}

/// The display width of a grapheme: a call of `UnicodeWidthStr::width`.
#[verifier::external_body]
fn display_width(g: &str) -> (w: usize)
    ensures
        w == grapheme_width(g@),
{
    g.width()
}

/// `a + b`, stopping at `usize::MAX`.
pub open spec fn sat_add(a: int, b: int) -> int {
    min_int(a + b, usize::MAX as int)
}

/// The columns a grapheme takes on the screen: two when its display width
/// is two or more, else one.
pub open spec fn rendered_width(g: Seq<char>) -> int {
    if grapheme_width(g) <= 1 {
        1
    } else {
        2
    }
}

/// The columns that a run of graphemes takes.
pub open spec fn widths_sum(gs: Seq<Seq<char>>) -> int
    decreases gs.len(),
{
    if gs.len() == 0 {
        0
    } else {
        widths_sum(gs.drop_last()) + rendered_width(gs.last())
    }
}

/// The number of graphemes of a line.
pub open spec fn grapheme_count_spec(chars: Seq<char>) -> int {
    grapheme_clusters(chars).len() as int
}

/// The columns taken by the first `grapheme_index` graphemes of a line
/// (all of them when the index lies past the end).
pub open spec fn width_until_spec(chars: Seq<char>, grapheme_index: int) -> int {
    let gs = grapheme_clusters(chars);
    widths_sum(gs.take(min_int(grapheme_index, gs.len() as int)))
}

/// What the graphemes `gs`, the first of which starts at column `pos`, show
/// within the columns `start..end`: a grapheme wholly inside shows as
/// itself, one cut by either edge as `'⋯'`, the others not at all.
pub open spec fn visible_from(gs: Seq<Seq<char>>, pos: int, start: int, end: int) -> Seq<char>
    decreases gs.len(),
{
    if gs.len() == 0 || pos >= end {
        Seq::empty()
    } else {
        let fragment_end = sat_add(pos, rendered_width(gs[0]));
        let piece = if fragment_end > start {
            if fragment_end > end || pos < start {
                seq!['⋯']
            } else {
                gs[0]
            }
        } else {
            Seq::empty()
        };
        piece + visible_from(gs.drop_first(), fragment_end, start, end)
    }
}

/// The text a line shows in the columns `start..end`.
pub open spec fn visible_graphemes(chars: Seq<char>, start: int, end: int) -> Seq<char> {
    if start >= end {
        Seq::empty()
    } else {
        visible_from(grapheme_clusters(chars), 0, start, end)
    }
}

/// The line after `character` is put before grapheme `grapheme_index`, or
/// at the end when the index lies at or past the end.
pub open spec fn insert_char_spec(chars: Seq<char>, character: char, grapheme_index: int) -> Seq<
    char,
> {
    let gs = grapheme_clusters(chars);
    if 0 <= grapheme_index < gs.len() {
        gs.take(grapheme_index).flatten() + seq![character] + gs.skip(grapheme_index).flatten()
    } else {
        chars.push(character)
    }
}

/// The running sum of grapheme widths never goes down.
proof fn lemma_widths_sum_prefix(gs: Seq<Seq<char>>, j: int, k: int)
    requires
        0 <= j <= k <= gs.len(),
    ensures
        widths_sum(gs.take(j)) <= widths_sum(gs.take(k)),
    decreases k - j,
{
    if j < k {
        lemma_widths_sum_prefix(gs, j, k - 1);
        assert(gs.take(k).drop_last() =~= gs.take(k - 1));
    }
}

/// A range from the start of the line to its end or beyond gives the whole
/// line.
pub proof fn lemma_get_whole_line(chars: Seq<char>, end: int)
    requires
        end >= encode_utf8(chars).len(),
    ensures
        byte_range_chars(chars, 0, end) == chars,
{
    let bytes = encode_utf8(chars);
    assert(bytes.subrange(0, bytes.len() as int) =~= bytes);
}

/// The width of a run of graphemes is the width of its first grapheme and
/// the width of the rest.
proof fn lemma_widths_sum_first(gs: Seq<Seq<char>>)
    requires
        gs.len() > 0,
    ensures
        widths_sum(gs) == rendered_width(gs[0]) + widths_sum(gs.drop_first()),
    decreases gs.len(),
{
    if gs.len() > 1 {
        lemma_widths_sum_first(gs.drop_last());
        assert(gs.drop_last().drop_first() =~= gs.drop_first().drop_last());
        assert(gs.drop_first().last() == gs.last());
        assert(gs.drop_last()[0] == gs[0]);
        assert(widths_sum(gs.drop_first()) == widths_sum(gs.drop_first().drop_last())
            + rendered_width(gs.drop_first().last()));
        assert(widths_sum(gs) == widths_sum(gs.drop_last()) + rendered_width(gs.last()));
    } else {
        assert(gs.drop_first().len() == 0);
        assert(gs.drop_last().len() == 0);
        assert(widths_sum(gs.drop_last()) == 0);
        assert(widths_sum(gs.drop_first()) == 0);
        assert(gs.last() == gs[0]);
    }
}

/// Graphemes that all lie inside the shown columns show as themselves,
/// every character of each.
proof fn lemma_visible_from_inside(gs: Seq<Seq<char>>, pos: int, end: int)
    requires
        0 <= pos,
        pos + widths_sum(gs) <= end <= usize::MAX,
    ensures
        visible_from(gs, pos, 0, end) == gs.flatten(),
    decreases gs.len(),
{
    if gs.len() > 0 {
        lemma_widths_sum_first(gs);
        lemma_widths_sum_prefix(gs.drop_first(), 0, gs.drop_first().len() as int);
        assert(gs.drop_first().take(0) =~= Seq::<Seq<char>>::empty());
        assert(gs.drop_first().take(gs.drop_first().len() as int) =~= gs.drop_first());
        let w = rendered_width(gs[0]);
        lemma_visible_from_inside(gs.drop_first(), pos + w, end);
    }
}

/// A line shown from its first column on a screen at least as wide as the
/// line shows whole: every grapheme with all of its characters.
pub proof fn lemma_visible_whole_line(chars: Seq<char>, end: int)
    requires
        grapheme_clusters(chars).flatten() == chars,
        width_until_spec(chars, grapheme_clusters(chars).len() as int) <= end <= usize::MAX,
    ensures
        visible_graphemes(chars, 0, end) == chars,
{
    let gs = grapheme_clusters(chars);
    assert(gs.take(gs.len() as int) =~= gs);
    lemma_visible_from_inside(gs, 0, end);
    if end <= 0 {
        // no columns: the line has no graphemes
        if gs.len() > 0 {
            lemma_widths_sum_first(gs);
            lemma_widths_sum_prefix(gs.drop_first(), 0, gs.drop_first().len() as int);
            assert(gs.drop_first().take(0) =~= Seq::<Seq<char>>::empty());
            assert(gs.drop_first().take(gs.drop_first().len() as int) =~= gs.drop_first());
        }
        assert(gs.flatten() =~= Seq::<char>::empty());
    }
}

/// Inserting a character puts it into the text of the line at the start of
/// grapheme `grapheme_index` (at the end when the index lies past the
/// last grapheme); everything else stays.
pub proof fn lemma_insert_char_adds_one(chars: Seq<char>, character: char, grapheme_index: int)
    requires
        0 <= grapheme_index,
        grapheme_clusters(chars).flatten() == chars,
    ensures
        ({
            let gs = grapheme_clusters(chars);
            let at = gs.take(min_int(grapheme_index, gs.len() as int)).flatten().len() as int;
            &&& 0 <= at <= chars.len()
            &&& insert_char_spec(chars, character, grapheme_index) == chars.take(at) + seq![character]
                + chars.skip(at)
        }),
{
    let gs = grapheme_clusters(chars);
    let k = min_int(grapheme_index, gs.len() as int);
    assert(gs =~= gs.take(k) + gs.skip(k));
    lemma_flatten_concat(gs.take(k), gs.skip(k));
    let at = gs.take(k).flatten().len() as int;
    assert(chars.take(at) =~= gs.take(k).flatten());
    assert(chars.skip(at) =~= gs.skip(k).flatten());
    if k == gs.len() {
        assert(gs.skip(k).flatten() =~= Seq::<char>::empty());
        assert(gs.take(k) =~= gs);
    }
}

/// Inside valid UTF-8, the bytes between two character boundaries are valid
/// UTF-8, and a boundary between them is a boundary of that slice.
proof fn lemma_slice_boundary(bytes: Seq<u8>, lo: int, hi: int, i: int)
    requires
        valid_utf8(bytes),
        0 <= lo <= i <= hi <= bytes.len(),
        is_char_boundary(bytes, lo),
        is_char_boundary(bytes, hi),
        is_char_boundary(bytes, i),
    ensures
        valid_utf8(bytes.subrange(lo, hi)),
        is_char_boundary(bytes.subrange(lo, hi), i - lo),
{
    let head = bytes.subrange(0, hi);
    valid_utf8_split(bytes, hi);
    if lo < hi {
        assert(head[lo] == bytes[lo]);
        is_char_boundary_iff_not_is_continuation_byte(bytes, lo);
        is_char_boundary_iff_not_is_continuation_byte(head, lo);
    } else {
        is_char_boundary_start_end_of_seq(head);
    }
    valid_utf8_split(head, lo);
    let sub = bytes.subrange(lo, hi);
    assert(head.subrange(lo, head.len() as int) =~= sub);
    if i == lo {
        is_char_boundary_start_end_of_seq(sub);
    } else if i == hi {
        is_char_boundary_start_end_of_seq(sub);
    } else {
        assert(sub[i - lo] == bytes[i]);
        is_char_boundary_iff_not_is_continuation_byte(bytes, i);
        is_char_boundary_iff_not_is_continuation_byte(sub, i - lo);
    }
}

/// Adjacent byte ranges join: for character boundaries `a <= b <= c` within
/// the line, the slice `a..b` followed by the slice `b..c` is the slice
/// `a..c`.
pub proof fn lemma_get_adjacent_ranges_join(chars: Seq<char>, a: int, b: int, c: int)
    requires
        0 <= a <= b <= c <= encode_utf8(chars).len(),
        is_char_boundary(encode_utf8(chars), a),
        is_char_boundary(encode_utf8(chars), b),
        is_char_boundary(encode_utf8(chars), c),
    ensures
        byte_range_chars(chars, a, b) + byte_range_chars(chars, b, c) == byte_range_chars(
            chars,
            a,
            c,
        ),
{
    let bytes = encode_utf8(chars);
    let sub = bytes.subrange(a, c);
    lemma_slice_boundary(bytes, a, c, b);
    decode_utf8_split(sub, b - a);
    assert(sub.subrange(0, b - a) =~= bytes.subrange(a, b));
    assert(sub.subrange(b - a, sub.len() as int) =~= bytes.subrange(b, c));
}

/// One grapheme of a line and the columns it takes.
struct TextFragment {
    grapheme: String,
    rendered_width: usize,
}

/// The graphemes of a run of fragments.
spec fn fragment_graphemes(fragments: Seq<TextFragment>) -> Seq<Seq<char>> {
    fragments.map_values(|f: TextFragment| f.grapheme@)
}

/// The fragments hold the graphemes of `text` in order, each with its
/// width; the graphemes are not empty and join to `text`.
spec fn fragments_of_text(fragments: Seq<TextFragment>, text: Seq<char>) -> bool {
    let gs = grapheme_clusters(text);
    &&& fragment_graphemes(fragments) == gs
    &&& forall|i: int| 0 <= i < fragments.len() ==> #[trigger] fragments[i].rendered_width
        == rendered_width(gs[i])
    &&& forall|i: int| 0 <= i < gs.len() ==> #[trigger] gs[i].len() > 0
    &&& gs.flatten() == text
}

/// Splits `text` into fragments: its graphemes with their widths.
fn text_fragments(text: &str) -> (fragments: Vec<TextFragment>)
    ensures
        fragments_of_text(fragments@, text@),
{
    let graphemes = split_graphemes(text);
    let mut fragments: Vec<TextFragment> = Vec::new();
    let mut i: usize = 0;
    while i < graphemes.len()
        invariant
            i <= graphemes.len(),
            strings_view(graphemes@) == grapheme_clusters(text@),
            fragment_graphemes(fragments@) =~= strings_view(graphemes@).take(i as int),
            forall|j: int| 0 <= j < i ==> #[trigger] fragments@[j].rendered_width == rendered_width(
                grapheme_clusters(text@)[j],
            ),
        decreases graphemes.len() - i,
    {
        let width = display_width(graphemes[i].as_str());
        let rendered = if width <= 1 {
            1
        } else {
            2
        };
        let grapheme = graphemes[i].clone();
        fragments.push(TextFragment { grapheme, rendered_width: rendered });
        assert(strings_view(graphemes@).take(i + 1) =~= strings_view(graphemes@).take(
            i as int,
        ).push(graphemes@[i as int]@));
        assert(fragment_graphemes(fragments@) =~= fragment_graphemes(fragments@).take(i as int).push(graphemes@[i as int]@));
        i += 1;
    }
    assert(strings_view(graphemes@).take(i as int) =~= strings_view(graphemes@));
    fragments
}

/// One line of text, with its graphemes and their widths.
pub struct Line {
    string: String,
    fragments: Vec<TextFragment>,
}

impl View for Line {
    type V = Seq<char>;

    closed spec fn view(&self) -> Seq<char> {
        self.string@
    }
}

impl Line {
    /// The fragments of the line are the graphemes of its text, with their
    /// widths.
    pub closed spec fn wf(&self) -> bool {
        fragments_of_text(self.fragments@, self.string@)
    }

    /// A line that is well formed has no more graphemes than `usize` counts,
    /// and its graphemes join to its text.
    pub proof fn lemma_wf(&self)
        requires
            self.wf(),
        ensures
            grapheme_clusters(self@).len() <= usize::MAX,
            grapheme_clusters(self@).flatten() == self@,
    {
        assert(fragment_graphemes(self.fragments@).len() == self.fragments@.len());
        vstd::std_specs::vec::axiom_spec_len(&self.fragments);
    }

    /// Makes a line holding the characters of `line_str`.
    pub fn from(line_str: &str) -> (line: Self)
        ensures
            line@ == line_str@,
            line.wf(),
    {
        Self { string: line_str.to_owned(), fragments: text_fragments(line_str) }
    }
    /// Returns the substring from byte `range.start` to byte `range.end`
    /// (exclusive). If `range.end` exceeds the line length, the slice is
    /// silently cut at the end of the line; a range that does not fall on
    /// character boundaries gives the empty string.
    pub fn get(&self, range: Range<usize>) -> (res: String)
        ensures
            res@ == byte_range_chars(self@, range.start as int, range.end as int),
    {
        let s = self.string.as_str();
        let byte_len = s.as_bytes().len();
        let start = range.start;
        let end = if range.end < byte_len {
            range.end
        } else {
            byte_len
        };
        if start <= end && s.is_char_boundary(start) && s.is_char_boundary(end) {
            let ghost bytes = s.spec_bytes();
            let (head, _) = s.split_at(end);
            proof {
                assert(head.spec_bytes() =~= bytes.subrange(0, end as int));
                let hb = head.spec_bytes();
                valid_utf8_split(bytes, end as int);
                if start < end {
                    assert(hb[start as int] == bytes[start as int]);
                    is_char_boundary_iff_not_is_continuation_byte(bytes, start as int);
                    is_char_boundary_iff_not_is_continuation_byte(hb, start as int);
                } else {
                    is_char_boundary_start_end_of_seq(hb);
                }
            }
            let (_, mid) = head.split_at(start);
            proof {
                assert(mid.spec_bytes() =~= bytes.subrange(start as int, end as int));
            }
            mid.to_owned()
        } else {
            String::new()
        }
    }

    /// The length of the line in bytes.
    pub fn len(&self) -> (n: usize)
        ensures
            n == encode_utf8(self@).len(),
    {
        self.string.as_str().as_bytes().len()
    }

    /// The number of graphemes in the line.
    pub fn grapheme_count(&self) -> (n: usize)
        requires
            self.wf(),
        ensures
            n == grapheme_count_spec(self@),
    {
        self.fragments.len()
    }

    /// The columns taken by the first `grapheme_index` graphemes, or `None`
    /// when that sum does not fit in `usize`.
    pub fn checked_width_until(&self, grapheme_index: usize) -> (width: Option<usize>)
        requires
            self.wf(),
        ensures
            match width {
                Some(w) => w == width_until_spec(self@, grapheme_index as int),
                None => width_until_spec(self@, grapheme_index as int) > usize::MAX,
            },
    {
        let ghost gs = grapheme_clusters(self@);
        let n = self.fragments.len();
        let k = if grapheme_index < n {
            grapheme_index
        } else {
            n
        };
        let mut sum: usize = 0;
        let mut i: usize = 0;
        assert(gs.take(0) =~= Seq::<Seq<char>>::empty());
        while i < k
            invariant
                self.wf(),
                gs == grapheme_clusters(self@),
                n == self.fragments@.len() == gs.len(),
                k <= n,
                k == min_int(grapheme_index as int, gs.len() as int),
                i <= k,
                sum == widths_sum(gs.take(i as int)),
            decreases k - i,
        {
            assert(gs.take(i + 1).drop_last() =~= gs.take(i as int));
            assert(fragment_graphemes(self.fragments@)[i as int] == gs[i as int]);
            let w = self.fragments[i].rendered_width;
            if sum > usize::MAX - w {
                proof {
                    lemma_widths_sum_prefix(gs, i + 1, k as int);
                }
                return None;
            }
            sum = sum + w;
            i += 1;
        }
        Some(sum)
    }

    /// The columns taken by the first `grapheme_index` graphemes.
    pub fn width_until(&self, grapheme_index: usize) -> (width: usize)
        requires
            self.wf(),
            width_until_spec(self@, grapheme_index as int) <= usize::MAX,
        ensures
            width == width_until_spec(self@, grapheme_index as int),
    {
        match self.checked_width_until(grapheme_index) {
            Some(w) => w,
            None => 0,
        }
    }

    /// The text the line shows in the columns `range.start..range.end`: each
    /// grapheme wholly inside as itself, each one cut by an edge as `'⋯'`.
    pub fn get_visible_graphemes(&self, range: Range<usize>) -> (res: String)
        requires
            self.wf(),
        ensures
            res@ == visible_graphemes(self@, range.start as int, range.end as int),
    {
        if range.start >= range.end {
            return String::new();
        }
        let ghost gs = grapheme_clusters(self@);
        let n = self.fragments.len();
        let mut result = String::new();
        let mut current_pos: usize = 0;
        let mut i: usize = 0;
        assert(gs.skip(0) =~= gs);
        while i < n && current_pos < range.end
            invariant
                self.wf(),
                gs == grapheme_clusters(self@),
                n == self.fragments@.len() == gs.len(),
                i <= n,
                range.start < range.end,
                visible_from(gs, 0, range.start as int, range.end as int) == result@ + visible_from(
                    gs.skip(i as int),
                    current_pos as int,
                    range.start as int,
                    range.end as int,
                ),
            decreases n - i,
        {
            let ghost rest = gs.skip(i as int);
            assert(rest[0] == gs[i as int]);
            assert(rest.drop_first() =~= gs.skip(i + 1));
            assert(fragment_graphemes(self.fragments@)[i as int] == gs[i as int]);
            let fragment = &self.fragments[i];
            let fragment_end = fragment.rendered_width.saturating_add(current_pos);
            let ghost before = result@;
            if fragment_end > range.start {
                if fragment_end > range.end || current_pos < range.start {
                    push_char(&mut result, '⋯');
                } else {
                    result.append(fragment.grapheme.as_str());
                }
            }
            assert(before + visible_from(rest, current_pos as int, range.start as int, range.end as int)
                =~= result@ + visible_from(gs.skip(i + 1), fragment_end as int, range.start as int, range.end as int));
            current_pos = fragment_end;
            i += 1;
        }
        assert(visible_from(gs.skip(i as int), current_pos as int, range.start as int, range.end as int) =~= Seq::<char>::empty());
        result
    }

    /// Puts `character` before grapheme `grapheme_index`, or at the end of
    /// the line when the index lies at or past the end; the graphemes are
    /// then found again.
    pub fn insert_char(&mut self, character: char, grapheme_index: usize)
        requires
            old(self).wf(),
        ensures
            final(self)@ == insert_char_spec(old(self)@, character, grapheme_index as int),
            final(self).wf(),
    {
        let ghost gs = grapheme_clusters(self@);
        let n = self.fragments.len();
        let mut result = String::new();
        let mut i: usize = 0;
        assert(gs.take(0) =~= Seq::<Seq<char>>::empty());
        while i < n
            invariant
                self.wf(),
                gs == grapheme_clusters(self@),
                n == self.fragments@.len() == gs.len(),
                i <= n,
                result@ == if (grapheme_index as int) < (i as int) {
                    gs.take(grapheme_index as int).flatten() + seq![character] + gs.subrange(
                        grapheme_index as int,
                        i as int,
                    ).flatten()
                } else {
                    gs.take(i as int).flatten()
                },
            decreases n - i,
        {
            assert(fragment_graphemes(self.fragments@)[i as int] == gs[i as int]);
            if i == grapheme_index {
                push_char(&mut result, character);
            }
            result.append(self.fragments[i].grapheme.as_str());
            proof {
                assert(gs.take(i + 1) =~= gs.take(i as int).push(gs[i as int]));
                gs.take(i as int).lemma_flatten_push(gs[i as int]);
                if (grapheme_index as int) <= (i as int) {
                    assert(gs.subrange(grapheme_index as int, i + 1) =~= gs.subrange(
                        grapheme_index as int,
                        i as int,
                    ).push(gs[i as int]));
                    gs.subrange(grapheme_index as int, i as int).lemma_flatten_push(gs[i as int]);
                }
                if (grapheme_index as int) == (i as int) {
                    assert(gs.subrange(grapheme_index as int, i as int) =~= Seq::<Seq<char>>::empty());
                }
            }
            i += 1;
        }
        if grapheme_index >= n {
            push_char(&mut result, character);
            assert(gs.take(n as int) =~= gs);
        } else {
            assert(gs.subrange(grapheme_index as int, n as int) =~= gs.skip(grapheme_index as int));
        }
        self.fragments = text_fragments(result.as_str());
        self.string = result;
    }
}

} // verus!
