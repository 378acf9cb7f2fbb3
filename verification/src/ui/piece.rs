//! Styled text, before it is drawn.

use vstd::prelude::*;

verus! {

/// The colours that every terminal has.
#[derive(Debug, Clone, Copy, PartialEq, Eq, Structural)]
pub enum Shade {
    Default,
    Green,
    Cyan,
    Yellow,
    Red,
    DarkGray,
}

/// How a piece of text is shown.
#[derive(Debug, Clone, Copy, PartialEq, Eq, Structural)]
pub struct Tone {
    pub shade: Shade,
    pub bold: bool,
    pub reversed: bool,
}

pub open spec fn plain_tone() -> Tone {
    Tone { shade: Shade::Default, bold: false, reversed: false }
}

pub open spec fn bold_tone() -> Tone {
    Tone { shade: Shade::Default, bold: true, reversed: false }
}

pub open spec fn shaded(shade: Shade) -> Tone {
    Tone { shade, bold: false, reversed: false }
}

/// A piece of text of one style.
#[derive(Debug)]
pub struct Piece {
    pub text: String,
    pub tone: Tone,
}

/// The model of a [`Piece`].
#[verifier::ext_equal]
pub struct PieceModel {
    pub text: Seq<char>,
    pub tone: Tone,
}

impl View for Piece {
    type V = PieceModel;

    open spec fn view(&self) -> PieceModel {
        PieceModel { text: self.text@, tone: self.tone }
    }
}

/// The model of a line.
pub open spec fn line_view(line: Seq<Piece>) -> Seq<PieceModel> {
    line.map_values(|p: Piece| p@)
}

/// The model of a block of lines.
pub open spec fn block_view(lines: Seq<Vec<Piece>>) -> Seq<Seq<PieceModel>> {
    lines.map_values(|line: Vec<Piece>| line_view(line@))
}

pub open spec fn plain_piece(text: Seq<char>) -> PieceModel {
    PieceModel { text, tone: plain_tone() }
}

pub open spec fn toned(text: Seq<char>, tone: Tone) -> PieceModel {
    PieceModel { text, tone }
}

/// A line of one style.
pub open spec fn one(text: Seq<char>, tone: Tone) -> Seq<PieceModel> {
    seq![toned(text, tone)]
}

impl Piece {
    pub fn new(text: &str, tone: Tone) -> (r: Piece)
        ensures
            r@ == toned(text@, tone),
    {
        Piece { text: text.to_owned(), tone }
    }

    pub fn plain(text: &str) -> (r: Piece)
        ensures
            r@ == plain_piece(text@),
    {
        Piece {
            text: text.to_owned(),
            tone: Tone { shade: Shade::Default, bold: false, reversed: false },
        }
    }

    pub fn bold(text: &str) -> (r: Piece)
        ensures
            r@ == toned(text@, bold_tone()),
    {
        Piece {
            text: text.to_owned(),
            tone: Tone { shade: Shade::Default, bold: true, reversed: false },
        }
    }

    pub fn colored(text: &str, shade: Shade) -> (r: Piece)
        ensures
            r@ == toned(text@, shaded(shade)),
    {
        Piece { text: text.to_owned(), tone: Tone { shade, bold: false, reversed: false } }
    }
}

/// Appends a piece to a line.
pub fn push_piece(line: &mut Vec<Piece>, p: Piece)
    ensures
        line_view(final(line)@) == line_view(old(line)@).push(p@),
{
    let ghost before = line_view(line@);
    line.push(p);
    assert(line_view(line@) =~= before.push(p@));
}

/// A line of one piece.
pub fn single(p: Piece) -> (r: Vec<Piece>)
    ensures
        line_view(r@) == seq![p@],
{
    let mut line: Vec<Piece> = Vec::new();
    line.push(p);
    assert(line_view(line@) =~= seq![p@]);
    line
}

/// A line of two pieces.
pub fn pair(a: Piece, b: Piece) -> (r: Vec<Piece>)
    ensures
        line_view(r@) == seq![a@, b@],
{
    let mut line: Vec<Piece> = Vec::new();
    line.push(a);
    line.push(b);
    assert(line_view(line@) =~= seq![a@, b@]);
    line
}

/// Appends a line to a block.
pub fn push_line(block: &mut Vec<Vec<Piece>>, line: Vec<Piece>)
    ensures
        block_view(final(block)@) == block_view(old(block)@).push(line_view(line@)),
        final(block)@.len() == old(block)@.len() + 1,
{
    let ghost before = block_view(block@);
    block.push(line);
    assert(block_view(block@) =~= before.push(line_view(line@)));
}

/// The text of a line, without its styles.
pub open spec fn line_text(line: Seq<PieceModel>) -> Seq<char>
    decreases line.len(),
{
    if line.len() == 0 {
        Seq::empty()
    } else {
        line_text(line.drop_last()) + line.last().text
    }
}

/// The text of a line, without its styles.
pub fn text_of(line: &Vec<Piece>) -> (r: String)
    ensures
        r@ == line_text(line_view(line@)),
{
    let ghost all = line_view(line@);
    let mut out: String = String::new();
    let mut i: usize = 0;
    assert(out@ =~= line_text(all.take(0)));
    while i < line.len()
        invariant
            all == line_view(line@),
            i <= line@.len(),
            out@ == line_text(all.take(i as int)),
        decreases line.len() - i,
    {
        assert(all.take(i + 1).drop_last() =~= all.take(i as int));
        assert(all.take(i + 1).last() == line@[i as int]@);
        out.append(line[i].text.as_str());
        i += 1;
    }
    assert(all.take(i as int) =~= all);
    out
}

} // verus!
