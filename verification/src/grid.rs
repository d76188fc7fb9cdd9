//! Character grids: the text form of one rasterized frame.

use vstd::prelude::*;
use vstd::string::StringExecFns;

verus! {

/// The line-structured text of a grid: every line followed by one newline.
pub open spec fn text_of(lines: Seq<Seq<char>>) -> Seq<char>
    decreases lines.len(),
{
    if lines.len() == 0 {
        Seq::empty()
    } else {
        lines[0] + seq!['\n'] + text_of(lines.drop_first())
    }
}

/// Appending a line at the end appends its text and a newline.
pub proof fn lemma_text_of_push(lines: Seq<Seq<char>>, line: Seq<char>)
    ensures
        text_of(lines.push(line)) == text_of(lines) + line + seq!['\n'],
    decreases lines.len(),
{
    if lines.len() == 0 {
        assert(lines.push(line).drop_first() =~= lines);
        assert(text_of(lines.push(line)) =~= text_of(lines) + line + seq!['\n']);
    } else {
        lemma_text_of_push(lines.drop_first(), line);
        assert(lines.push(line).drop_first() =~= lines.drop_first().push(line));
        assert(lines.push(line)[0] == lines[0]);
        assert(text_of(lines.push(line)) =~= text_of(lines) + line + seq!['\n']);
    }
}

/// Relies on String::push: appends exactly one character at the end.
#[verifier::external_body]
pub(crate) fn push_char(s: &mut String, c: char)
    ensures
        final(s)@ == old(s)@ + seq![c],
{
    s.push(c);
}

/// An ordered sequence of text lines, each drawn from the quantizer's ramp,
/// derived from exactly one frame and a scale factor.
pub struct CharacterGrid {
    lines: Vec<String>,
}

impl View for CharacterGrid {
    type V = Seq<Seq<char>>;

    closed spec fn view(&self) -> Seq<Seq<char>> {
        self.lines@.map_values(|l: String| l@)
    }
}

impl CharacterGrid {
    /// A grid with no lines at all.
    pub fn new() -> (g: CharacterGrid)
        ensures
            g@ == Seq::<Seq<char>>::empty(),
    {
        let g = CharacterGrid { lines: Vec::new() };
        proof {
            assert(g@ =~= Seq::<Seq<char>>::empty());
        }
        g
    }

    /// Appends one line at the bottom of the grid.
    pub fn push_line(&mut self, line: String)
        ensures
            final(self)@ == old(self)@.push(line@),
    {
        self.lines.push(line);
        proof {
            assert(self@ =~= old(self)@.push(line@));
        }
    }

    /// How many lines the grid holds.
    pub fn line_count(&self) -> (n: usize)
        ensures
            n == self@.len(),
    {
        self.lines.len()
    }

    /// True on a grid with no lines: such a grid is rendered as nothing.
    pub fn is_empty(&self) -> (b: bool)
        ensures
            b == (self@.len() == 0),
    {
        self.lines.len() == 0
    }

    /// The line at a row index, topmost first.
    pub fn line(&self, i: usize) -> (line: &String)
        requires
            i < self@.len(),
        ensures
            line@ == self@[i as int],
    {
        &self.lines[i]
    }

    /// The whole grid as one text, every line followed by a newline.
    pub fn to_text(&self) -> (t: String)
        ensures
            t@ == text_of(self@),
    {
        let mut t = String::new();
        proof {
            reveal_strlit("\n");
            assert("\n"@ =~= seq!['\n']);
        }
        let n = self.lines.len();
        let mut i: usize = 0;
        while i < n
            invariant
                n == self@.len(),
                i <= n,
                t@ == text_of(self@.take(i as int)),
            decreases n - i,
        {
            proof {
                reveal_strlit("\n");
            }
            t.append(self.lines[i].as_str());
            t.append("\n");
            proof {
                assert(self@.take(i + 1) =~= self@.take(i as int).push(self@[i as int]));
                lemma_text_of_push(self@.take(i as int), self@[i as int]);
                assert("\n"@ =~= seq!['\n']);
                assert(self@[i as int] == self.lines@[i as int]@);
            }
            i = i + 1;
        }
        proof {
            assert(self@.take(n as int) =~= self@);
        }
        t
    }
}

} // verus!
