use super::line::{grapheme_clusters, insert_char_spec, lemma_insert_char_adds_one, min_int, Line};
use super::text_fits;
use super::Location;
use crate::editor::text::{push_char, split_lines, strings_view, text_lines};
use vstd::prelude::*;

verus! {

/// The characters of each line.
pub open spec fn lines_view(lines: Seq<Line>) -> Seq<Seq<char>> {
    lines.map_values(|l: Line| l@)
}

/// The text after `character` is typed at `location`: into the line there,
/// or as a new line when the location is just past the last line; a
/// location further down changes nothing.
pub open spec fn insert_into_text(text: Seq<Seq<char>>, character: char, location: Location) -> Seq<
    Seq<char>,
> {
    let li = location.line_index as int;
    if li > text.len() {
        text
    } else if li == text.len() {
        text.push(seq![character])
    } else {
        text.update(li, insert_char_spec(text[li], character, location.grapheme_index as int))
    }
}

/// Typing a character at a location on a line, or just past the last line,
/// adds exactly that character: one line gains one character (a new line
/// of just that character past the last line, even in an empty text), and
/// every other line stays as it was.
pub proof fn lemma_insert_adds_one_character(text: Seq<Seq<char>>, character: char, location: Location)
    requires
        location.line_index <= text.len(),
        forall|i: int| 0 <= i < text.len() ==> #[trigger] grapheme_clusters(text[i]).flatten() == text[i],
    ensures
        ({
            let r = insert_into_text(text, character, location);
            let li = location.line_index as int;
            &&& r.len() == text.len() + (if li == text.len() { 1int } else { 0int })
            &&& forall|i: int| 0 <= i < text.len() && i != li ==> #[trigger] r[i] == text[i]
            &&& r[li].len() == (if li < text.len() { text[li].len() as int } else { 0int }) + 1
            &&& exists|k: int| 0 <= k < r[li].len() && r[li][k] == character
        }),
{
    let li = location.line_index as int;
    let r = insert_into_text(text, character, location);
    if li < text.len() {
        let chars = text[li];
        lemma_insert_char_adds_one(chars, character, location.grapheme_index as int);
        let gs = grapheme_clusters(chars);
        let at = gs.take(min_int(location.grapheme_index as int, gs.len() as int)).flatten().len() as int;
        assert(r[li][at] == character);
    } else {
        assert(r[li][0] == character);
    }
}

/// The lines of a loaded file.
pub struct Buffer {
    pub lines: Vec<Line>,
}

impl Default for Buffer {
    /// A buffer with no lines.
    fn default() -> (b: Self)
        ensures
            b.text() == Seq::<Seq<char>>::empty(),
            b.wf(),
    {
        let b = Buffer { lines: Vec::new() };
        assert(b.text() =~= Seq::<Seq<char>>::empty());
        b
    }
}

impl Buffer {
    /// The characters of each line.
    pub open spec fn text(&self) -> Seq<Seq<char>> {
        lines_view(self.lines@)
    }

    /// Every line is well formed.
    pub open spec fn wf(&self) -> bool {
        forall|i: int| 0 <= i < self.lines@.len() ==> #[trigger] self.lines@[i].wf()
    }

    /// The text of a well-formed buffer fits in `usize`: its lines, and the
    /// graphemes of each line, can be counted in `usize`.
    pub proof fn lemma_text_fits(&self)
        requires
            self.wf(),
        ensures
            text_fits(self.text()),
    {
        vstd::std_specs::vec::axiom_spec_len(&self.lines);
        assert forall|i: int| 0 <= i < self.text().len() implies #[trigger] grapheme_clusters(
            self.text()[i],
        ).len() <= usize::MAX by {
            self.lines@[i].lemma_wf();
        }
    }

    /// A buffer holding the lines of `text`, split as `str::lines` does.
    pub fn from_text(text: &str) -> (b: Self)
        ensures
            b.text() == split_lines(text@),
            b.wf(),
    {
        let strings = text_lines(text);
        let mut lines: Vec<Line> = Vec::new();
        for i in 0..strings.len()
            invariant
                lines_view(lines@) =~= strings_view(strings@).take(i as int),
                forall|j: int| 0 <= j < lines@.len() ==> #[trigger] lines@[j].wf(),
        {
            let line = Line::from(strings[i].as_str());
            lines.push(line);
            assert(strings_view(strings@).take(i + 1) =~= strings_view(strings@).take(
                i as int,
            ).push(strings@[i as int]@));
        }
        assert(strings_view(strings@).take(strings.len() as int) =~= strings_view(strings@));
        Buffer { lines }
    }

    /// Types `character` at `location`: into the line there, or as a new
    /// line when the location is just past the last line. A location further
    /// down changes nothing.
    pub fn insert_char(&mut self, character: char, location: &Location)
        requires
            old(self).wf(),
        ensures
            final(self).wf(),
            final(self).text() == insert_into_text(old(self).text(), character, *location),
    {
        if location.line_index > self.lines.len() {
            return;
        }
        let ghost before = self.text();
        if location.line_index == self.lines.len() {
            let mut s = String::new();
            push_char(&mut s, character);
            self.lines.push(Line::from(s.as_str()));
            assert(self.text() =~= before.push(seq![character]));
        } else {
            self.lines[location.line_index].insert_char(character, location.grapheme_index);
            assert(self.text() =~= before.update(
                location.line_index as int,
                insert_char_spec(before[location.line_index as int], character, location.grapheme_index as int),
            ));
        }
    }
}

} // verus!
