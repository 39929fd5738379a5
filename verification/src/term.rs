//! The state of the terminal that messages are written to: the colour in
//! force, and whether the next byte starts a line.
//!
//! Output is coloured one line at a time, since some terminals drop the
//! colour at the end of a line. This module plans the writes; the caller
//! performs them on the stream.

use vstd::prelude::*;

verus! {

/// A colour of the terminal.
#[derive(Copy, Clone, Debug, PartialEq, Eq, Structural)]
pub enum Color {
    Black,
    Blue,
    Green,
    Red,
    Cyan,
    Magenta,
    Yellow,
    White,
    Ansi256(u8),
    Rgb(u8, u8, u8),
}

/// How text is shown: in bold or not, and in which colour.
#[derive(Copy, Clone, Debug, PartialEq, Eq)]
pub struct ColorSpec {
    pub bold: bool,
    pub fg: Option<Color>,
}

impl ColorSpec {
    /// Plain text: not bold, in the terminal's own colour.
    pub fn new() -> (r: Self)
        ensures
            r == (ColorSpec { bold: false, fg: None }),
    {
        ColorSpec { bold: false, fg: None }
    }

    /// Whether text is shown plain.
    pub open spec fn plain(self) -> bool {
        !self.bold && self.fg is None
    }

    /// Whether text is shown plain.
    pub fn is_none(&self) -> (r: bool)
        ensures
            r == self.plain(),
    {
        !self.bold && self.fg.is_none()
    }

    /// Whether two specifications show text alike.
    pub fn same(&self, other: &ColorSpec) -> (r: bool)
        ensures
            r == (*self == *other),
    {
        self.bold == other.bold && match (self.fg, other.fg) {
            (None, None) => true,
            (Some(a), Some(b)) => a == b,
            _ => false,
        }
    }
}

/// One write: the bytes of the buffer from `start` up to `end`.
#[derive(Copy, Clone, Debug, PartialEq, Eq, Structural)]
pub struct Segment {
    pub start: usize,
    pub end: usize,
    /// Whether the colour is set on the stream before the write.
    pub colored: bool,
    /// Whether the segment ends a line.
    pub ends_line: bool,
}

/// How a buffer is written.
#[derive(Debug)]
pub enum Plan {
    /// In one write of the whole buffer, without a colour. The stream may
    /// take only a part of it.
    Plain,
    /// Segment by segment, each written in full.
    Lines(Vec<Segment>),
}

/// Where the line that holds position `from` ends: behind its line feed,
/// or at the end of the buffer.
pub open spec fn line_end(buf: Seq<u8>, from: int) -> int
    decreases buf.len() - from,
{
    if from >= buf.len() {
        buf.len() as int
    } else if buf[from] == 10u8 {
        from + 1
    } else {
        line_end(buf, from + 1)
    }
}

/// The segments in which the buffer is written from position `from` on:
/// one for each line, the last of which may lack its line feed. The colour
/// is set before the first if it starts a line, and before each of the
/// others.
pub open spec fn segments(buf: Seq<u8>, from: int, start_of_line: bool) -> Seq<Segment>
    decreases buf.len() - from,
{
    if from < 0 || from >= buf.len() {
        Seq::empty()
    } else {
        let end = line_end(buf, from);
        if from < end <= buf.len() {
            seq![
                Segment {
                    start: from as usize,
                    end: end as usize,
                    colored: start_of_line,
                    ends_line: buf[end - 1] == 10u8,
                },
            ] + segments(buf, end, true)
        } else {
            Seq::empty()
        }
    }
}

/// The bytes that the segments cover, one segment after the other.
pub open spec fn written(buf: Seq<u8>, segs: Seq<Segment>) -> Seq<u8>
    decreases segs.len(),
{
    if segs.len() == 0 {
        Seq::empty()
    } else {
        buf.subrange(segs[0].start as int, segs[0].end as int) + written(buf, segs.skip(1))
    }
}

proof fn lemma_line_end(buf: Seq<u8>, from: int)
    requires
        0 <= from < buf.len(),
    ensures
        from < line_end(buf, from) <= buf.len(),
        forall|k: int| from <= k < line_end(buf, from) - 1 ==> buf[k] != 10u8,
        line_end(buf, from) < buf.len() ==> buf[line_end(buf, from) - 1] == 10u8,
    decreases buf.len() - from,
{
    if buf[from] != 10u8 {
        if from + 1 < buf.len() {
            lemma_line_end(buf, from + 1);
        } else {
            assert(line_end(buf, from + 1) == buf.len());
        }
    }
}

proof fn lemma_segments_cover(buf: Seq<u8>, from: int, start_of_line: bool)
    requires
        0 <= from <= buf.len(),
        buf.len() <= usize::MAX,
    ensures
        written(buf, segments(buf, from, start_of_line)) == buf.skip(from),
    decreases buf.len() - from,
{
    let segs = segments(buf, from, start_of_line);
    if from >= buf.len() {
        assert(buf.skip(from) =~= Seq::<u8>::empty());
    } else {
        lemma_line_end(buf, from);
        let end = line_end(buf, from);
        lemma_segments_cover(buf, end, true);
        assert(segs.skip(1) =~= segments(buf, end, true));
        assert(buf.subrange(from, end) + buf.skip(end) =~= buf.skip(from));
    }
}

/// The terminal's state.
#[derive(Debug)]
pub struct Term {
    /// How text is shown at present.
    pub spec: ColorSpec,
    /// Whether the next byte written starts a line.
    pub start_of_line: bool,
}

impl Term {
    /// A terminal at the start of a line, showing plain text.
    pub fn new() -> (r: Self)
        ensures
            r.spec.plain(),
            r.start_of_line,
    {
        Term { spec: ColorSpec::new(), start_of_line: true }
    }

    /// Changes how text is shown. A change takes effect as if a new line
    /// began; the same specification again changes nothing.
    pub fn set_color(&mut self, spec: &ColorSpec)
        ensures
            final(self).spec == *spec,
            final(self).start_of_line == (old(self).start_of_line || old(self).spec != *spec),
    {
        if !self.spec.same(spec) {
            self.spec = *spec;
            self.start_of_line = true;
        }
    }

    /// Shows text plain again. The caller resets the stream.
    pub fn reset(&mut self)
        ensures
            final(self).spec.plain(),
            final(self).start_of_line == old(self).start_of_line,
    {
        self.spec = ColorSpec::new();
    }

    /// Plans the write of a buffer: in one piece where text is shown plain,
    /// else line by line. The segments cover the buffer, each byte once and
    /// in order.
    pub fn plan(&self, buf: &[u8]) -> (r: Plan)
        ensures
            match r {
                Plan::Plain => self.spec.plain(),
                Plan::Lines(segs) => {
                    &&& !self.spec.plain()
                    &&& segs@ == segments(buf@, 0, self.start_of_line)
                    &&& written(buf@, segs@) == buf@
                },
            },
    {
        let len: usize = buf.len();
        proof {
            assert(buf@.len() == len);
            lemma_segments_cover(buf@, 0, self.start_of_line);
            assert(buf@.skip(0) =~= buf@);
        }
        if self.spec.is_none() {
            return Plan::Plain;
        }
        let mut segs: Vec<Segment> = Vec::new();
        let mut start: usize = 0;
        let mut colored = self.start_of_line;
        while start < buf.len()
            invariant
                start <= buf.len(),
                segments(buf@, 0, self.start_of_line) == segs@ + segments(
                    buf@,
                    start as int,
                    colored,
                ),
            decreases buf.len() - start,
        {
            let mut end: usize = start;
            while end < buf.len() && buf[end] != 10u8
                invariant
                    start <= end <= buf.len(),
                    line_end(buf@, start as int) == line_end(buf@, end as int),
                    forall|k: int| start <= k < end ==> buf@[k] != 10u8,
                decreases buf.len() - end,
            {
                end = end + 1;
            }
            let ends_line = end < buf.len();
            let ghost stop = end as int;
            if ends_line {
                end = end + 1;
            }
            proof {
                lemma_line_end(buf@, start as int);
                assert(line_end(buf@, stop) == end);
            }
            let ghost before = segs@;
            let seg = Segment { start, end, colored, ends_line };
            segs.push(seg);
            proof {
                assert(segments(buf@, start as int, colored) == seq![seg] + segments(
                    buf@,
                    end as int,
                    true,
                ));
                assert(segs@ + segments(buf@, end as int, true) =~= before + (seq![seg] + segments(
                    buf@,
                    end as int,
                    true,
                )));
            }
            start = end;
            colored = true;
        }
        assert(segs@ =~= segments(buf@, 0, self.start_of_line));
        Plan::Lines(segs)
    }

    /// Takes note that a segment was written: the next byte starts a line
    /// if the segment ended one.
    pub fn advance(&mut self, segment: &Segment)
        ensures
            final(self).spec == old(self).spec,
            final(self).start_of_line == segment.ends_line,
    {
        self.start_of_line = segment.ends_line;
    }
}

/// Shows the text that follows in bold.
pub fn bold(term: &mut Term)
    ensures
        final(term).spec == (ColorSpec { bold: true, fg: None }),
        final(term).start_of_line == (old(term).start_of_line || old(term).spec != (ColorSpec { bold: true, fg: None })),
{
    term.set_color(&ColorSpec { bold: true, fg: None });
}

/// Shows the text that follows in the given colour.
pub fn color(term: &mut Term, color: Color)
    ensures
        final(term).spec == (ColorSpec { bold: false, fg: Some(color) }),
        final(term).start_of_line == (old(term).start_of_line || old(term).spec != (ColorSpec { bold: false, fg: Some(color) })),
{
    term.set_color(&ColorSpec { bold: false, fg: Some(color) });
}

/// Shows the text that follows in bold and in the given colour.
pub fn bold_color(term: &mut Term, color: Color)
    ensures
        final(term).spec == (ColorSpec { bold: true, fg: Some(color) }),
        final(term).start_of_line == (old(term).start_of_line || old(term).spec != (ColorSpec { bold: true, fg: Some(color) })),
{
    term.set_color(&ColorSpec { bold: true, fg: Some(color) });
}

/// Shows the text that follows plain again. The caller resets the stream.
pub fn reset(term: &mut Term)
    ensures
        final(term).spec.plain(),
        final(term).start_of_line == old(term).start_of_line,
{
    term.reset();
}

} // verus!
