//! One line of text, segmented into grapheme clusters with display-width
//! classification.  All cell arithmetic and window clipping is verified; the
//! Unicode tables themselves are supplied by outside crates behind trusted
//! wrappers.
use crate::strfmt::push_char;
use core::ops::Range;
use unicode_segmentation::UnicodeSegmentation;
use unicode_width::UnicodeWidthStr;
use vstd::prelude::*;

verus! {

/// How many display cells a grapheme cluster occupies: one (half width) or
/// two (full width).
#[derive(Debug, Clone, Copy, PartialEq, Eq, Structural)]
pub enum GraphemeWidth {
    Half,
    Full,
}

pub open spec fn cell_span(w: GraphemeWidth) -> nat {
    match w {
        GraphemeWidth::Half => 1,
        GraphemeWidth::Full => 2,
    }
}

/// The grapheme clusters of a string, in order.  This names what the
/// segmenter returns; it is a function of the characters alone.
pub uninterp spec fn grapheme_segments(s: Seq<char>) -> Seq<Seq<char>>;

/// The displayed width of a string in terminal columns, as the width tables
/// give it; a function of the characters alone.
pub uninterp spec fn display_width(s: Seq<char>) -> nat;

/// Concatenation of a sequence of character sequences, in order.
pub open spec fn concat_segments(segs: Seq<Seq<char>>) -> Seq<char>
    decreases segs.len(),
{
    if segs.len() == 0 {
        Seq::empty()
    } else {
        segs[0] + concat_segments(segs.drop_first())
    }
}

/// Relies on unicode_segmentation's `graphemes` (extended grapheme
/// clusters, UAX #29): the clusters depend on the characters alone, are
/// nonempty, and concatenated in order they reproduce the input.
#[verifier::external_body]
fn split_graphemes(s: &str) -> (segs: Vec<String>)
    ensures
        segs.deep_view() == grapheme_segments(s@),
        concat_segments(segs.deep_view()) == s@,
        forall|i: int| 0 <= i < segs.deep_view().len() ==> (#[trigger] segs.deep_view()[i]).len() >= 1,
{
    UnicodeSegmentation::graphemes(s, true).map(|g| g.to_string()).collect()
}

/// Relies on unicode_width's `width` for `str`: a pure table lookup over the
/// string's characters.
#[verifier::external_body]
fn measure_width(s: &str) -> (w: usize)
    ensures
        w as nat == display_width(s@),
{
    UnicodeWidthStr::width(s)
}

/// One grapheme cluster tagged with its width class and, for zero-width
/// clusters, the visible replacement marker.
#[derive(Debug)]
pub struct TextFragment {
    pub grapheme: String,
    pub rendered_width: GraphemeWidth,
    pub replacement: Option<char>,
}

/// Width class assigned to a cluster of displayed width `w`: zero-width and
/// single-cell clusters are half width, anything wider is full width.
pub open spec fn width_class_of(w: nat) -> GraphemeWidth {
    if w <= 1 {
        GraphemeWidth::Half
    } else {
        GraphemeWidth::Full
    }
}

/// Zero-width clusters are shown as a visible middle-dot marker, so every
/// cluster occupies at least one cell.
pub open spec fn replacement_of(w: nat) -> Option<char> {
    if w == 0 {
        Some('·')
    } else {
        None
    }
}

pub open spec fn fragment_matches(f: TextFragment, g: Seq<char>) -> bool {
    &&& f.grapheme@ == g
    &&& f.rendered_width == width_class_of(display_width(g))
    &&& f.replacement == replacement_of(display_width(g))
}

/// The character a fragment paints: its replacement if it has one, else the
/// first character of the cluster.
pub open spec fn display_char_of(f: TextFragment) -> char {
    match f.replacement {
        Some(c) => c,
        None => if f.grapheme@.len() == 0 {
            ' '
        } else {
            f.grapheme@[0]
        },
    }
}

impl TextFragment {
    /// The character actually rendered for this fragment.
    pub fn display_char(&self) -> (c: char)
        ensures
            c == display_char_of(*self),
    {
        match self.replacement {
            Some(c) => c,
            None => {
                if self.grapheme.as_str().unicode_len() == 0 {
                    ' '
                } else {
                    self.grapheme.as_str().get_char(0)
                }
            },
        }
    }
}

/// Total display width, in cells, of the first `k` fragments.
pub open spec fn width_prefix(frags: Seq<TextFragment>, k: int) -> nat
    decreases k,
{
    if k <= 0 {
        0
    } else {
        width_prefix(frags, k - 1) + cell_span(frags[k - 1].rendered_width)
    }
}

pub proof fn lemma_width_prefix_le(frags: Seq<TextFragment>, j: int, k: int)
    requires
        0 <= j <= k,
    ensures
        width_prefix(frags, j) <= width_prefix(frags, k),
    decreases k,
{
    if j < k {
        lemma_width_prefix_le(frags, j, k - 1);
    }
}

pub proof fn lemma_width_prefix_bound(frags: Seq<TextFragment>, k: int)
    requires
        0 <= k,
    ensures
        width_prefix(frags, k) <= 2 * k,
    decreases k,
{
    if k > 0 {
        lemma_width_prefix_bound(frags, k - 1);
    }
}

pub proof fn lemma_concat_segments_count(segs: Seq<Seq<char>>)
    requires
        forall|i: int| 0 <= i < segs.len() ==> (#[trigger] segs[i]).len() >= 1,
    ensures
        concat_segments(segs).len() >= segs.len(),
    decreases segs.len(),
{
    if segs.len() > 0 {
        assert forall|i: int|
            0 <= i < segs.drop_first().len() implies (#[trigger] segs.drop_first()[i]).len()
            >= 1 by {
            assert(segs.drop_first()[i] == segs[i + 1]);
        }
        lemma_concat_segments_count(segs.drop_first());
    }
}

/// One line of text plus its precomputed display fragments.  The fragments
/// are the grapheme clusters of the text, in order, each classified by its
/// displayed width.
pub struct Line {
    string: String,
    fragments: Vec<TextFragment>,
}

impl Line {
    /// The characters of the line's source text.
    pub closed spec fn text(&self) -> Seq<char> {
        self.string@
    }

    /// The line's display fragments.
    pub closed spec fn spec_fragments(&self) -> Seq<TextFragment> {
        self.fragments@
    }

    /// Total display width of the line in cells.
    pub open spec fn spec_cell_length(&self) -> nat {
        width_prefix(self.spec_fragments(), self.spec_fragments().len() as int)
    }

    #[verifier::type_invariant]
    spec fn wf(self) -> bool {
        let segs = grapheme_segments(self.string@);
        &&& self.fragments@.len() == segs.len()
        &&& forall|i: int|
            0 <= i < segs.len() ==> fragment_matches(#[trigger] self.fragments@[i], segs[i])
        &&& concat_segments(segs) == self.string@
        &&& forall|i: int| 0 <= i < segs.len() ==> (#[trigger] segs[i]).len() >= 1
        &&& width_prefix(self.fragments@, self.fragments@.len() as int) <= usize::MAX
    }

    /// Segments `line_str` into classified fragments.  The length bound is a
    /// machine limit: the line's total cell width must fit in `usize`.
    pub fn from(line_str: &str) -> (line: Line)
        requires
            line_str@.len() <= usize::MAX / 2,
        ensures
            line.text() == line_str@,
            line.spec_fragments().len() == grapheme_segments(line_str@).len(),
            forall|i: int|
                0 <= i < line.spec_fragments().len() ==> fragment_matches(
                    #[trigger] line.spec_fragments()[i],
                    grapheme_segments(line_str@)[i],
                ),
            concat_segments(grapheme_segments(line_str@)) == line_str@,
            forall|i: int|
                0 <= i < line.spec_fragments().len() ==> (#[trigger] grapheme_segments(
                    line_str@,
                )[i]).len() >= 1,
            line.spec_cell_length() <= usize::MAX,
    {
        let segs = split_graphemes(line_str);
        let mut fragments: Vec<TextFragment> = Vec::new();
        let mut i: usize = 0;
        while i < segs.len()
            invariant
                i <= segs@.len(),
                segs.deep_view() == grapheme_segments(line_str@),
                fragments@.len() == i,
                forall|j: int|
                    0 <= j < i ==> fragment_matches(
                        #[trigger] fragments@[j],
                        grapheme_segments(line_str@)[j],
                    ),
            decreases segs@.len() - i,
        {
            let g = &segs[i];
            let w = measure_width(g.as_str());
            let rendered_width: GraphemeWidth;
            let replacement: Option<char>;
            if w == 0 {
                rendered_width = GraphemeWidth::Half;
                replacement = Some('·');
            } else if w == 1 {
                rendered_width = GraphemeWidth::Half;
                replacement = None;
            } else {
                rendered_width = GraphemeWidth::Full;
                replacement = None;
            }
            let frag = TextFragment { grapheme: g.clone(), rendered_width, replacement };
            proof {
                assert(segs.deep_view()[i as int] == segs@[i as int]@);
                assert(fragment_matches(frag, grapheme_segments(line_str@)[i as int]));
            }
            fragments.push(frag);
            i = i + 1;
        }
        proof {
            lemma_concat_segments_count(grapheme_segments(line_str@));
            lemma_width_prefix_bound(fragments@, fragments@.len() as int);
        }
        Line { string: String::from_str(line_str), fragments }
    }

    /// Number of grapheme clusters in the line.
    pub fn fragment_len(&self) -> (n: usize)
        ensures
            n == self.spec_fragments().len(),
    {
        self.fragments.len()
    }

    /// True when the line holds no text.
    pub fn is_empty(&self) -> (r: bool)
        ensures
            r == (self.text().len() == 0),
    {
        proof {
            use_type_invariant(self);
            lemma_concat_segments_count(grapheme_segments(self.string@));
        }
        self.fragments.len() == 0
    }

    /// Cumulative display width, in cells, of the fragments before
    /// `grapheme_offset`.  The unit is display cells, not raw bytes.
    pub fn get_byte_offset(&self, grapheme_offset: usize) -> (cells: usize)
        ensures
            cells == width_prefix(
                self.spec_fragments(),
                if grapheme_offset <= self.spec_fragments().len() {
                    grapheme_offset as int
                } else {
                    self.spec_fragments().len() as int
                },
            ),
    {
        proof {
            use_type_invariant(self);
        }
        let mut cur_pos: usize = 0;
        let mut cnt: usize = 0;
        while cnt < self.fragments.len()
            invariant
                cnt <= self.spec_fragments().len(),
                cnt <= grapheme_offset,
                cur_pos == width_prefix(self.spec_fragments(), cnt as int),
            decreases self.spec_fragments().len() - cnt,
        {
            proof {
                use_type_invariant(self);
                lemma_width_prefix_le(
                    self.spec_fragments(),
                    cnt + 1,
                    self.spec_fragments().len() as int,
                );
            }
            if cnt == grapheme_offset {
                return cur_pos;
            }
            let frag = &self.fragments[cnt];
            let w: usize = match frag.rendered_width {
                GraphemeWidth::Half => 1,
                GraphemeWidth::Full => 2,
            };
            cur_pos = cur_pos + w;
            cnt = cnt + 1;
        }
        cur_pos
    }

    /// Total display width of the line, in cells.
    pub fn cell_length(&self) -> (cells: usize)
        ensures
            cells == self.spec_cell_length(),
    {
        let n = self.fragment_len();
        self.get_byte_offset(n)
    }
}

/// Index of the grapheme cluster owning cell `x`, or the cluster count when
/// `x` lies past the end of the line.
pub open spec fn grapheme_at_cell(frags: Seq<TextFragment>, x: int) -> int
    decreases frags.len(),
{
    if frags.len() == 0 {
        0
    } else if x < cell_span(frags[0].rendered_width) {
        0
    } else {
        1 + grapheme_at_cell(frags.drop_first(), x - cell_span(frags[0].rendered_width))
    }
}

impl Line {
    /// The grapheme index owning screen cell `loc_x`.
    pub fn get_grapheme_offset(&self, loc_x: usize) -> (g: usize)
        ensures
            g == grapheme_at_cell(self.spec_fragments(), loc_x as int),
    {
        proof {
            use_type_invariant(self);
        }
        let ghost frags = self.spec_fragments();
        proof {
            assert(frags.skip(0) =~= frags);
        }
        let mut cnt: usize = 0;
        let mut cur_pos: usize = 0;
        while cnt < self.fragments.len()
            invariant
                cnt <= frags.len(),
                frags == self.spec_fragments(),
                cur_pos == width_prefix(frags, cnt as int),
                cur_pos <= loc_x,
                grapheme_at_cell(frags, loc_x as int) == cnt + grapheme_at_cell(
                    frags.skip(cnt as int),
                    loc_x - cur_pos,
                ),
            decreases frags.len() - cnt,
        {
            proof {
                use_type_invariant(self);
                lemma_width_prefix_le(frags, cnt + 1, frags.len() as int);
                assert(frags.skip(cnt as int)[0] == frags[cnt as int]);
            }
            let frag = &self.fragments[cnt];
            let w: usize = match frag.rendered_width {
                GraphemeWidth::Half => 1,
                GraphemeWidth::Full => 2,
            };
            let frag_end = cur_pos + w;
            if loc_x < frag_end {
                return cnt;
            }
            proof {
                assert(frags.skip(cnt as int).drop_first() =~= frags.skip(cnt + 1));
            }
            cur_pos = frag_end;
            cnt = cnt + 1;
        }
        proof {
            assert(frags.skip(frags.len() as int) =~= Seq::empty());
        }
        cnt
    }
}

/// The truncation marker shown in place of a full-width glyph whose cell
/// span straddles a window boundary.
pub open spec fn truncation_marker() -> char {
    '·'
}

/// What one fragment contributes to the display slice `[start, end)` when
/// its own cell span is `[fs, fs + span)`: nothing when it lies outside the
/// window, its display character when it lies wholly inside, and a single
/// truncation marker when it is full width and straddles a boundary.
pub open spec fn frag_render(f: TextFragment, fs: int, start: int, end: int) -> Seq<char> {
    let fe = fs + cell_span(f.rendered_width);
    if fs >= end || fe <= start {
        Seq::empty()
    } else if f.rendered_width == GraphemeWidth::Full && fs < start {
        seq![truncation_marker()]
    } else if fs >= start && fe <= end {
        seq![display_char_of(f)]
    } else if f.rendered_width == GraphemeWidth::Full && fe > end {
        seq![truncation_marker()]
    } else {
        Seq::empty()
    }
}

/// The characters of the display slice `[start, end)` over `frags`, the
/// first fragment starting at cell `fs`.
pub open spec fn render_slice(frags: Seq<TextFragment>, fs: int, start: int, end: int) -> Seq<char>
    decreases frags.len(),
{
    if frags.len() == 0 || fs >= end {
        Seq::empty()
    } else {
        frag_render(frags[0], fs, start, end) + render_slice(
            frags.drop_first(),
            fs + cell_span(frags[0].rendered_width),
            start,
            end,
        )
    }
}

/// The display slice of a whole line: empty for an empty line or an empty
/// window, else the fragments clipped to `[start, end)`.
pub open spec fn display_slice_spec(line: Line, start: int, end: int) -> Seq<char> {
    if line.text().len() == 0 || start >= end {
        Seq::empty()
    } else {
        render_slice(line.spec_fragments(), 0, start, end)
    }
}

pub proof fn lemma_width_prefix_drop_first(frags: Seq<TextFragment>, k: int)
    requires
        0 <= k < frags.len(),
    ensures
        width_prefix(frags.drop_first(), k) + cell_span(frags[0].rendered_width) == width_prefix(
            frags,
            k + 1,
        ),
    decreases k,
{
    if k > 0 {
        lemma_width_prefix_drop_first(frags, k - 1);
        assert(frags.drop_first()[k - 1] == frags[k]);
    } else {
        assert(width_prefix(frags.drop_first(), 0) == 0);
        assert(width_prefix(frags, 0) == 0);
    }
}

/// A window that covers the cell span of every fragment renders each one as
/// its display character.
pub proof fn lemma_render_all_inside(frags: Seq<TextFragment>, fs: int, start: int, end: int)
    requires
        0 <= start <= fs,
        fs + width_prefix(frags, frags.len() as int) <= end,
    ensures
        render_slice(frags, fs, start, end) == frags.map_values(
            |f: TextFragment| display_char_of(f),
        ),
    decreases frags.len(),
{
    let m = |f: TextFragment| display_char_of(f);
    if frags.len() == 0 {
        assert(render_slice(frags, fs, start, end) =~= frags.map_values(m));
    } else {
        let span = cell_span(frags[0].rendered_width) as int;
        lemma_width_prefix_le(frags, 1, frags.len() as int);
        lemma_width_prefix_drop_first(frags, frags.len() - 1);
        lemma_render_all_inside(frags.drop_first(), fs + span, start, end);
        assert(frag_render(frags[0], fs, start, end) =~= seq![display_char_of(frags[0])]);
        assert(frags.map_values(m) =~= seq![display_char_of(frags[0])] + frags.drop_first()
            .map_values(m));
    }
}

/// Law: slicing over the whole cell range of a fragment list reproduces its
/// rendering exactly: one display character per grapheme cluster, in order,
/// zero-width clusters appearing as their visible replacement marker.
pub proof fn lemma_full_slice_renders_all(frags: Seq<TextFragment>)
    ensures
        render_slice(frags, 0, 0, width_prefix(frags, frags.len() as int) as int)
            == frags.map_values(|f: TextFragment| display_char_of(f)),
{
    lemma_render_all_inside(frags, 0, 0, width_prefix(frags, frags.len() as int) as int);
}

/// Law: for a line whose fragments match its text's segmentation — what the
/// constructor guarantees — slicing over the whole cell range reproduces the
/// original rendering, one display character per grapheme cluster, modulo
/// the explicit zero-width replacements.
pub proof fn lemma_line_full_slice(line: Line)
    requires
        line.spec_fragments().len() == grapheme_segments(line.text()).len(),
        forall|i: int|
            0 <= i < line.spec_fragments().len() ==> fragment_matches(
                #[trigger] line.spec_fragments()[i],
                grapheme_segments(line.text())[i],
            ),
        concat_segments(grapheme_segments(line.text())) == line.text(),
        forall|i: int|
            0 <= i < line.spec_fragments().len() ==> (#[trigger] grapheme_segments(
                line.text(),
            )[i]).len() >= 1,
    ensures
        display_slice_spec(line, 0, line.spec_cell_length() as int) == line.spec_fragments()
            .map_values(|f: TextFragment| display_char_of(f)),
{
    let frags = line.spec_fragments();
    let m = |f: TextFragment| display_char_of(f);
    if line.text().len() == 0 {
        lemma_concat_segments_count(grapheme_segments(line.text()));
        assert(frags.len() == 0);
        assert(display_slice_spec(line, 0, line.spec_cell_length() as int) =~= frags.map_values(
            m,
        ));
    } else if line.spec_cell_length() == 0 {
        lemma_concat_segments_count(grapheme_segments(line.text()));
        assert(frags.len() > 0);
        lemma_width_prefix_le(frags, 1, frags.len() as int);
        assert(false);
    } else {
        lemma_full_slice_renders_all(frags);
    }
}

/// Law: a full-width fragment whose cell span overlaps the window but
/// straddles one of its boundaries is never split: it contributes exactly
/// one truncation marker.
pub proof fn lemma_straddle_single_marker(f: TextFragment, fs: int, start: int, end: int)
    requires
        f.rendered_width == GraphemeWidth::Full,
        fs < end,
        fs + 2 > start,
        fs < start || fs + 2 > end,
    ensures
        frag_render(f, fs, start, end) == seq![truncation_marker()],
{
}

/// Each fragment's contribution to a slice stands on its own: the slice is
/// the concatenation, in order, of what each fragment renders at its own
/// cell position.
pub proof fn lemma_render_slice_pointwise(frags: Seq<TextFragment>, fs: int, start: int, end: int)
    ensures
        render_slice(frags, fs, start, end) == Seq::new(
            frags.len(),
            |i: int| frag_render(frags[i], fs + width_prefix(frags, i), start, end),
        ).flatten(),
    decreases frags.len(),
{
    let contribs = Seq::new(
        frags.len(),
        |i: int| frag_render(frags[i], fs + width_prefix(frags, i), start, end),
    );
    if frags.len() == 0 {
        assert(render_slice(frags, fs, start, end) =~= contribs.flatten());
    } else {
        let span = cell_span(frags[0].rendered_width) as int;
        lemma_render_slice_pointwise(frags.drop_first(), fs + span, start, end);
        let tail_contribs = Seq::new(
            frags.drop_first().len(),
            |i: int| frag_render(
                frags.drop_first()[i],
                fs + span + width_prefix(frags.drop_first(), i),
                start,
                end,
            ),
        );
        assert forall|i: int| 0 <= i < tail_contribs.len() implies tail_contribs[i]
            == contribs.drop_first()[i] by {
            lemma_width_prefix_drop_first(frags, i);
            assert(frags.drop_first()[i] == frags[i + 1]);
        }
        assert(contribs.drop_first() =~= tail_contribs);
        if fs >= end {
            assert forall|i: int| 0 <= i < contribs.len() implies contribs[i]
                =~= Seq::<char>::empty() by {
                lemma_width_prefix_le(frags, 0, i);
            }
            assert(contribs.flatten() =~= contribs.first() + contribs.drop_first().flatten());
            assert(render_slice(frags, fs, start, end) =~= contribs.flatten());
        } else {
            assert(contribs.flatten() =~= contribs.first() + contribs.drop_first().flatten());
            assert(render_slice(frags, fs, start, end) =~= contribs.flatten());
        }
    }
}

impl Line {
    /// The text shown for cells `[range.start, range.end)`: fragments inside
    /// the window render their display character, a full-width fragment
    /// straddling either boundary renders as one truncation marker, and
    /// fragments outside the window are skipped.
    pub fn get_display_string(&self, range: Range<usize>) -> (r: String)
        ensures
            r@ == display_slice_spec(*self, range.start as int, range.end as int),
    {
        proof {
            use_type_invariant(self);
        }
        let start = range.start;
        let end = range.end;
        if self.is_empty() {
            return String::new();
        }
        if start >= end {
            return String::new();
        }
        let ghost frags = self.spec_fragments();
        proof {
            assert(frags.skip(0) =~= frags);
        }
        let mut result = String::new();
        let mut cur_pos: usize = 0;
        let mut i: usize = 0;
        while i < self.fragments.len() && cur_pos < end
            invariant
                i <= frags.len(),
                frags == self.spec_fragments(),
                start < end,
                cur_pos == width_prefix(frags, i as int),
                result@ + render_slice(
                    frags.skip(i as int),
                    cur_pos as int,
                    start as int,
                    end as int,
                ) == render_slice(frags, 0, start as int, end as int),
            decreases frags.len() - i,
        {
            proof {
                use_type_invariant(self);
                lemma_width_prefix_le(frags, i + 1, frags.len() as int);
                assert(frags.skip(i as int)[0] == frags[i as int]);
                assert(frags.skip(i as int).drop_first() =~= frags.skip(i + 1));
            }
            let frag = &self.fragments[i];
            let w: usize = match frag.rendered_width {
                GraphemeWidth::Half => 1,
                GraphemeWidth::Full => 2,
            };
            let frag_start = cur_pos;
            let frag_end = cur_pos + w;
            let is_full = match frag.rendered_width {
                GraphemeWidth::Half => false,
                GraphemeWidth::Full => true,
            };
            let ghost result_pre = result@;
            if frag_end > start {
                if is_full && frag_start < start {
                    push_char(&mut result, '·');
                } else if frag_start >= start && frag_end <= end {
                    let c = frag.display_char();
                    push_char(&mut result, c);
                } else if is_full && frag_end > end {
                    push_char(&mut result, '·');
                }
            }
            proof {
                assert(result@ =~= result_pre + frag_render(
                    frags[i as int],
                    cur_pos as int,
                    start as int,
                    end as int,
                ));
                assert(render_slice(frags.skip(i as int), cur_pos as int, start as int, end as int)
                    == frag_render(frags[i as int], cur_pos as int, start as int, end as int)
                    + render_slice(
                    frags.skip(i + 1),
                    cur_pos + cell_span(frags[i as int].rendered_width),
                    start as int,
                    end as int,
                ));
            }
            cur_pos = frag_end;
            i = i + 1;
        }
        proof {
            assert(render_slice(frags.skip(i as int), cur_pos as int, start as int, end as int)
                =~= Seq::<char>::empty());
        }
        result
    }
}

} // verus!
