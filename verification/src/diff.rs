//! The difference between an expected and an actual text, shown only where
//! the two are alike enough for a difference to be of use.

use crate::text::same_text;
use vstd::prelude::*;
use vstd::string::StringSliceAdditionalSpecFns;

verus! {

/// A piece of one side of a difference, as it is shown.
#[derive(Copy, Clone, Debug, PartialEq, Eq)]
pub enum Render<'a> {
    /// Text that both sides hold.
    Common(&'a str),
    /// Text that only the side shown holds.
    Unique(&'a str),
}

/// A piece of one side of a difference, as a plain value.
pub enum RenderText {
    Common(Seq<char>),
    Unique(Seq<char>),
}

impl<'a> View for Render<'a> {
    type V = RenderText;

    open spec fn view(&self) -> RenderText {
        match self {
            Render::Common(s) => RenderText::Common(s@),
            Render::Unique(s) => RenderText::Unique(s@),
        }
    }
}

/// A run of text in a difference.
#[derive(Copy, Clone, Debug, PartialEq, Eq)]
pub enum Chunk<'a> {
    /// Text that both sides hold.
    Equal(&'a str),
    /// Text that only the expected side holds.
    Delete(&'a str),
    /// Text that only the actual side holds.
    Insert(&'a str),
}

/// A run of text in a difference, as a plain value.
pub enum ChunkText {
    Equal(Seq<char>),
    Delete(Seq<char>),
    Insert(Seq<char>),
}

impl<'a> View for Chunk<'a> {
    type V = ChunkText;

    open spec fn view(&self) -> ChunkText {
        match self {
            Chunk::Equal(s) => ChunkText::Equal(s@),
            Chunk::Delete(s) => ChunkText::Delete(s@),
            Chunk::Insert(s) => ChunkText::Insert(s@),
        }
    }
}

/// The chunks that a sequence holds, as plain values.
pub open spec fn chunk_texts(chunks: Seq<Chunk>) -> Seq<ChunkText> {
    chunks.map_values(|c: Chunk| c@)
}

/// The pieces that a sequence holds, as plain values.
pub open spec fn render_texts(pieces: Seq<Render>) -> Seq<RenderText> {
    pieces.map_values(|r: Render| r@)
}

/// The chunks into which `dissimilar::diff` divides two texts.
pub uninterp spec fn diff_chunks(expected: Seq<char>, actual: Seq<char>) -> Seq<ChunkText>;

/// `dissimilar::diff`, with each chunk of the outside crate turned into
/// the chunk of the same kind and text of this one. The call is taken to
/// return for every pair of texts, and the chunks to depend on the two
/// texts alone; nothing more is claimed of them here.
#[verifier::external_body]
fn diff<'a>(expected: &'a str, actual: &'a str) -> (r: Vec<Chunk<'a>>)
    ensures
        chunk_texts(r@) == diff_chunks(expected@, actual@),
{
    dissimilar::diff(expected, actual).into_iter().map(
        |chunk| match chunk {
            dissimilar::Chunk::Equal(s) => Chunk::Equal(s),
            dissimilar::Chunk::Delete(s) => Chunk::Delete(s),
            dissimilar::Chunk::Insert(s) => Chunk::Insert(s),
        },
    ).collect()
}

/// The greatest combined length of two texts, in bytes, for which a
/// difference is computed.
pub const SIZE_CEILING: usize = 2048;

/// The length of a text in bytes, as it is encoded.
pub open spec fn byte_len(s: Seq<char>) -> nat {
    vstd::utf8::encode_utf8(s).len()
}

/// The combined length, in bytes, of the chunks that both sides hold.
pub open spec fn common_len(chunks: Seq<ChunkText>) -> nat
    decreases chunks.len(),
{
    if chunks.len() == 0 {
        0
    } else {
        common_len(chunks.drop_last()) + match chunks.last() {
            ChunkText::Equal(s) => byte_len(s),
            _ => 0,
        }
    }
}

/// Whether a difference is worth showing: what the two sides have in
/// common makes up at least four fifths of the longer one.
pub open spec fn worth_printing(chunks: Seq<ChunkText>, expected: Seq<char>, actual: Seq<char>) -> bool {
    let bigger_len = if byte_len(expected) >= byte_len(actual) {
        byte_len(expected)
    } else {
        byte_len(actual)
    };
    5 * common_len(chunks) >= 4 * bigger_len
}

/// The pieces shown for one side: the common chunks, and those that only
/// this side holds.
pub open spec fn rendered(chunks: Seq<ChunkText>, expected_side: bool, actual_side: bool) -> Seq<
    RenderText,
>
    decreases chunks.len(),
{
    if chunks.len() == 0 {
        Seq::empty()
    } else {
        let before = rendered(chunks.drop_last(), expected_side, actual_side);
        match chunks.last() {
            ChunkText::Equal(s) => before.push(RenderText::Common(s)),
            ChunkText::Delete(s) => if expected_side {
                before.push(RenderText::Unique(s))
            } else {
                before
            },
            ChunkText::Insert(s) => if actual_side {
                before.push(RenderText::Unique(s))
            } else {
                before
            },
        }
    }
}

/// A difference between an expected and an actual text.
#[derive(Debug)]
pub struct Diff<'a> {
    pub expected: &'a str,
    pub actual: &'a str,
    pub diff: Vec<Chunk<'a>>,
}

impl<'a> Diff<'a> {
    /// The difference between the two texts, unless they are too long
    /// together or too unlike for a difference to be of use.
    pub fn compute(expected: &'a str, actual: &'a str) -> (r: Option<Self>)
        ensures
            byte_len(expected@) + byte_len(actual@) > SIZE_CEILING ==> r is None,
            r is Some <==> byte_len(expected@) + byte_len(actual@) <= SIZE_CEILING
                && worth_printing(diff_chunks(expected@, actual@), expected@, actual@),
            r matches Some(d) ==> d.expected@ == expected@ && d.actual@ == actual@ && chunk_texts(
                d.diff@,
            ) == diff_chunks(expected@, actual@),
    {
        let el = expected.as_bytes().len();
        let al = actual.as_bytes().len();
        if el > SIZE_CEILING || al > SIZE_CEILING || el + al > SIZE_CEILING {
            return None;
        }
        let chunks = diff(expected, actual);
        Self::gate(expected, actual, chunks)
    }

    /// The difference that the given chunks make up, unless the two texts
    /// are too unlike: what they have in common, by the chunks, makes up
    /// less than four fifths of the longer one.
    pub fn gate(expected: &'a str, actual: &'a str, chunks: Vec<Chunk<'a>>) -> (r: Option<Self>)
        ensures
            r is Some <==> worth_printing(chunk_texts(chunks@), expected@, actual@),
            r matches Some(d) ==> d.expected@ == expected@ && d.actual@ == actual@ && d.diff
                == chunks,
    {
        let mut common: usize = 0;
        assert(chunk_texts(chunks@).take(0) =~= Seq::<ChunkText>::empty());
        for i in 0..chunks.len()
            invariant
                common as nat == if common_len(chunk_texts(chunks@).take(i as int)) <= usize::MAX {
                    common_len(chunk_texts(chunks@).take(i as int))
                } else {
                    usize::MAX as nat
                },
        {
            let ghost upto = chunk_texts(chunks@).take(i + 1);
            assert(upto.drop_last() =~= chunk_texts(chunks@).take(i as int));
            assert(upto.last() == chunks@[i as int]@);
            if let Chunk::Equal(text) = chunks[i] {
                common = common.saturating_add(text.as_bytes().len());
            }
        }
        assert(chunk_texts(chunks@).take(chunks@.len() as int) =~= chunk_texts(chunks@));
        let el = expected.as_bytes().len();
        let al = actual.as_bytes().len();
        let bigger_len = if el >= al {
            el
        } else {
            al
        };
        let worth = 5 * (common as u128) >= 4 * (bigger_len as u128);
        if !worth {
            return None;
        }
        Some(Diff { expected, actual, diff: chunks })
    }

    /// The pieces to show for the side whose text is `input`: the common
    /// chunks, and those that only that side holds. For a text that is
    /// neither side's, the common chunks alone.
    pub fn iter(&self, input: &str) -> (r: Vec<Render<'a>>)
        ensures
            render_texts(r@) == rendered(
                chunk_texts(self.diff@),
                input@ == self.expected@,
                input@ == self.actual@,
            ),
    {
        let expected = same_text(input, self.expected);
        let actual = same_text(input, self.actual);
        let mut out: Vec<Render<'a>> = Vec::new();
        assert(chunk_texts(self.diff@).take(0) =~= Seq::<ChunkText>::empty());
        assert(render_texts(out@) =~= Seq::<RenderText>::empty());
        for i in 0..self.diff.len()
            invariant
                expected == (input@ == self.expected@),
                actual == (input@ == self.actual@),
                render_texts(out@) == rendered(
                    chunk_texts(self.diff@).take(i as int),
                    expected,
                    actual,
                ),
        {
            let ghost upto = chunk_texts(self.diff@).take(i + 1);
            assert(upto.drop_last() =~= chunk_texts(self.diff@).take(i as int));
            assert(upto.last() == self.diff@[i as int]@);
            let ghost before = render_texts(out@);
            match self.diff[i] {
                Chunk::Equal(common) => {
                    out.push(Render::Common(common));
                    assert(render_texts(out@) =~= before.push(RenderText::Common(common@)));
                },
                Chunk::Delete(unique) => {
                    if expected {
                        out.push(Render::Unique(unique));
                        assert(render_texts(out@) =~= before.push(RenderText::Unique(unique@)));
                    }
                },
                Chunk::Insert(unique) => {
                    if actual {
                        out.push(Render::Unique(unique));
                        assert(render_texts(out@) =~= before.push(RenderText::Unique(unique@)));
                    }
                },
            }
        }
        assert(chunk_texts(self.diff@).take(self.diff@.len() as int) =~= chunk_texts(self.diff@));
        out
    }
}

} // verus!
