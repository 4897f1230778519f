//! The color of a chess piece, its one-character code, and the integer
//! discriminant that carries it across an integer-only boundary.

mod piece;

pub use piece::{
    code_of, color_of, color_string, discriminant_of, lemma_color_round_trip,
    lemma_discriminant_round_trip, lemma_unreserved_has_no_color, PieceColor,
    BLACK_DISCRIMINANT, WHITE_DISCRIMINANT,
};
