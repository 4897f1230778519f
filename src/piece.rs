use vstd::prelude::*;

verus! {

/// The integer that stands for `PieceColor::White` at an integer-only boundary.
pub const WHITE_DISCRIMINANT: i32 = 1;

/// The integer that stands for `PieceColor::Black` at an integer-only boundary.
pub const BLACK_DISCRIMINANT: i32 = 2;

/// The side a chess piece belongs to.
#[derive(Clone, Copy, Debug, PartialEq, Eq, Structural)]
pub enum PieceColor {
    White,
    Black,
}

/// The canonical one-character code of a color.
pub open spec fn code_of(c: PieceColor) -> Seq<char> {
    match c {
        PieceColor::White => seq!['w'],
        PieceColor::Black => seq!['b'],
    }
}

/// The reserved discriminant of a color.
pub open spec fn discriminant_of(c: PieceColor) -> int {
    match c {
        PieceColor::White => WHITE_DISCRIMINANT as int,
        PieceColor::Black => BLACK_DISCRIMINANT as int,
    }
}

/// The color whose reserved discriminant is `d`, if there is one.
pub open spec fn color_of(d: int) -> Option<PieceColor> {
    if d == WHITE_DISCRIMINANT as int {
        Some(PieceColor::White)
    } else if d == BLACK_DISCRIMINANT as int {
        Some(PieceColor::Black)
    } else {
        None
    }
}

impl PieceColor {
    /// The one-character code: `"w"` for white, `"b"` for black.
    pub fn to_code(&self) -> (r: String)
        ensures
            r@ == code_of(*self),
            *self == PieceColor::White ==> r@ == seq!['w'],
            *self == PieceColor::Black ==> r@ == seq!['b'],
    {
        match self {
            PieceColor::White => {
                proof {
                    reveal_strlit("w");
                }
                "w".to_owned()
            },
            PieceColor::Black => {
                proof {
                    reveal_strlit("b");
                }
                "b".to_owned()
            },
        }
    }

    /// The reserved discriminant of this color.
    pub fn discriminant(&self) -> (r: i32)
        ensures
            r as int == discriminant_of(*self),
    {
        match self {
            PieceColor::White => WHITE_DISCRIMINANT,
            PieceColor::Black => BLACK_DISCRIMINANT,
        }
    }

    /// The color whose reserved discriminant is `value`; `None` for any
    /// other integer.
    pub fn from_discriminant(value: i32) -> (r: Option<PieceColor>)
        ensures
            r == color_of(value as int),
            value == WHITE_DISCRIMINANT ==> r == Some(PieceColor::White),
            value == BLACK_DISCRIMINANT ==> r == Some(PieceColor::Black),
            value != WHITE_DISCRIMINANT && value != BLACK_DISCRIMINANT ==> r is None,
    {
        if value == WHITE_DISCRIMINANT {
            Some(PieceColor::White)
        } else if value == BLACK_DISCRIMINANT {
            Some(PieceColor::Black)
        } else {
            None
        }
    }
}

/// The code of the color whose discriminant is `p`, as an owned string;
/// `None` where `p` is no color's discriminant.
pub fn color_string(p: i32) -> (r: Option<String>)
    ensures
        r is Some <==> color_of(p as int) is Some,
        r is Some ==> r->0@ == code_of(color_of(p as int)->0),
{
    match PieceColor::from_discriminant(p) {
        Some(c) => Some(c.to_code()),
        None => None,
    }
}

/// Mapping a reserved discriminant to its color and back gives the same
/// discriminant.
pub proof fn lemma_discriminant_round_trip(d: int)
    requires
        d == WHITE_DISCRIMINANT as int || d == BLACK_DISCRIMINANT as int,
    ensures
        color_of(d) is Some,
        discriminant_of(color_of(d)->0) == d,
{
}

/// Mapping a color to its discriminant and back gives the same color.
pub proof fn lemma_color_round_trip(c: PieceColor)
    ensures
        color_of(discriminant_of(c)) == Some(c),
{
}

/// An integer that is neither reserved discriminant stands for no color,
/// and no color has it as its discriminant.
pub proof fn lemma_unreserved_has_no_color(d: int)
    requires
        d != WHITE_DISCRIMINANT as int,
        d != BLACK_DISCRIMINANT as int,
    ensures
        color_of(d) is None,
        forall|c: PieceColor| discriminant_of(c) != d,
{
}

} // verus!
