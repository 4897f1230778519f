use piece_color::{color_string, PieceColor, BLACK_DISCRIMINANT, WHITE_DISCRIMINANT};

#[test]
fn white_code_is_w() {
    assert_eq!(PieceColor::White.to_code(), "w");
}

#[test]
fn black_code_is_b() {
    assert_eq!(PieceColor::Black.to_code(), "b");
}

#[test]
fn reserved_discriminants_give_their_colors() {
    assert_eq!(PieceColor::from_discriminant(1), Some(PieceColor::White));
    assert_eq!(PieceColor::from_discriminant(2), Some(PieceColor::Black));
    assert_eq!(WHITE_DISCRIMINANT, 1);
    assert_eq!(BLACK_DISCRIMINANT, 2);
}

#[test]
fn other_integers_give_no_color() {
    for x in [0, 3, 99, -1, -2, i32::MIN, i32::MAX] {
        assert_eq!(PieceColor::from_discriminant(x), None);
    }
}

#[test]
fn discriminant_of_each_color() {
    assert_eq!(PieceColor::White.discriminant(), 1);
    assert_eq!(PieceColor::Black.discriminant(), 2);
}

#[test]
fn discriminant_round_trip() {
    for d in [1, 2] {
        let c = PieceColor::from_discriminant(d).unwrap();
        assert_eq!(c.discriminant(), d);
    }
}

#[test]
fn color_round_trip() {
    for c in [PieceColor::White, PieceColor::Black] {
        assert_eq!(PieceColor::from_discriminant(c.discriminant()), Some(c));
    }
}

#[test]
fn color_string_scenario() {
    assert_eq!(color_string(1), Some("w".to_string()));
    assert_eq!(color_string(2), Some("b".to_string()));
    assert_eq!(color_string(0), None);
    assert_eq!(color_string(99), None);
}

#[test]
fn colors_are_distinct() {
    assert_ne!(PieceColor::White, PieceColor::Black);
    assert_ne!(PieceColor::White.to_code(), PieceColor::Black.to_code());
}
