use athena::position::{File, Rank, Square};

const SQUARES: [Square; 64] = [
    Square::A1, Square::B1, Square::C1, Square::D1, Square::E1, Square::F1, Square::G1, Square::H1,
    Square::A2, Square::B2, Square::C2, Square::D2, Square::E2, Square::F2, Square::G2, Square::H2,
    Square::A3, Square::B3, Square::C3, Square::D3, Square::E3, Square::F3, Square::G3, Square::H3,
    Square::A4, Square::B4, Square::C4, Square::D4, Square::E4, Square::F4, Square::G4, Square::H4,
    Square::A5, Square::B5, Square::C5, Square::D5, Square::E5, Square::F5, Square::G5, Square::H5,
    Square::A6, Square::B6, Square::C6, Square::D6, Square::E6, Square::F6, Square::G6, Square::H6,
    Square::A7, Square::B7, Square::C7, Square::D7, Square::E7, Square::F7, Square::G7, Square::H7,
    Square::A8, Square::B8, Square::C8, Square::D8, Square::E8, Square::F8, Square::G8, Square::H8,
];

#[test]
fn square_new_keeps_the_index() {
    for n in 0u8..64 {
        assert_eq!(Square::new(n).to_index(), n);
    }
}

#[test]
fn square_named_constants_have_their_index() {
    assert_eq!(Square::A1.to_index(), 0);
    assert_eq!(Square::D1.to_index(), 3);
    assert_eq!(Square::H8.to_index(), 63);
    assert_eq!(Square::E4.to_index(), 28);
    assert_eq!(Square::H1.to_index(), 7);
    assert_eq!(Square::A2.to_index(), 8);
    assert_eq!(Square::A8.to_index(), 56);
}

#[test]
fn square_every_named_constant_is_the_square_of_its_index() {
    for n in 0u8..64 {
        assert_eq!(SQUARES[n as usize], Square::new(n));
        assert_eq!(SQUARES[n as usize].to_index(), n);
    }
    assert_eq!(Square::new(3), Square::D1);
}

#[test]
fn square_from_intersection_is_eight_ranks_plus_file() {
    for r in 0u8..8 {
        for f in 0u8..8 {
            let square = Square::from_intersection(Rank::from_index(r), File::from_index(f));
            assert_eq!(square.to_index(), r * 8 + f);
            assert_eq!(square.to_index(), (r << 3) | f);
        }
    }
    assert_eq!(Square::from_intersection(Rank::Fourth, File::E), Square::E4);
    assert_eq!(Square::from_intersection(Rank::First, File::A), Square::A1);
    assert_eq!(Square::from_intersection(Rank::Eighth, File::H), Square::H8);
    assert_eq!(Square::from_intersection(Rank::First, File::H), Square::H1);
    assert_eq!(Square::from_intersection(Rank::Eighth, File::A), Square::A8);
}

#[test]
fn square_rank_and_file_are_the_upper_and_lower_bits() {
    for n in 0u8..64 {
        let square = Square::new(n);
        assert_eq!(square.get_rank().to_index(), n >> 3);
        assert_eq!(square.get_file().to_index(), n & 7);
        assert_eq!(square.get_rank_and_file(), (square.get_rank(), square.get_file()));
    }
    assert_eq!(Square::E4.get_rank(), Rank::Fourth);
    assert_eq!(Square::E4.get_file(), File::E);
    assert_eq!(Square::H1.get_rank_and_file(), (Rank::First, File::H));
    assert_eq!(Square::A8.get_rank_and_file(), (Rank::Eighth, File::A));
}

#[test]
fn square_rank_and_file_round_trip() {
    for square in SQUARES {
        assert_eq!(
            Square::from_intersection(square.get_rank(), square.get_file()),
            square
        );
    }
}

#[test]
fn square_navigation_examples() {
    assert!(Square::H1.right().is_none());
    assert_ne!(Square::H1.right(), Some(Square::A2));
    assert_eq!(Square::A1.up(), Some(Square::A2));
    assert_eq!(Square::D4.left(), Some(Square::C4));
    assert_eq!(Square::D4.right(), Some(Square::E4));
    assert_eq!(Square::D4.up(), Some(Square::D5));
    assert_eq!(Square::D4.down(), Some(Square::D3));
}

#[test]
fn square_steps_are_absent_on_the_edges() {
    for square in SQUARES {
        assert_eq!(square.up().is_none(), square.get_rank() == Rank::Eighth);
        assert_eq!(square.down().is_none(), square.get_rank() == Rank::First);
        assert_eq!(square.right().is_none(), square.get_file() == File::H);
        assert_eq!(square.left().is_none(), square.get_file() == File::A);
    }
    assert!(Square::A2.left().is_none());
    assert!(Square::H8.right().is_none());
    assert!(Square::H8.up().is_none());
    assert!(Square::E8.up().is_none());
    assert!(Square::A1.down().is_none());
    assert!(Square::A1.left().is_none());
}

#[test]
fn square_steps_move_by_one_or_by_eight() {
    for square in SQUARES {
        let n: u8 = square.to_index();
        if let Some(next) = square.up() {
            assert_eq!(next.to_index(), n + 8);
            assert_eq!(next.get_file(), square.get_file());
        }
        if let Some(next) = square.down() {
            assert_eq!(next.to_index(), n - 8);
            assert_eq!(next.get_file(), square.get_file());
        }
        if let Some(next) = square.right() {
            assert_eq!(next.to_index(), n + 1);
            assert_eq!(next.get_rank(), square.get_rank());
        }
        if let Some(next) = square.left() {
            assert_eq!(next.to_index(), n - 1);
            assert_eq!(next.get_rank(), square.get_rank());
        }
    }
}

#[test]
fn square_opposite_steps_undo_each_other() {
    for square in SQUARES {
        if let Some(next) = square.up() {
            assert_eq!(next.down(), Some(square));
        }
        if let Some(next) = square.down() {
            assert_eq!(next.up(), Some(square));
        }
        if let Some(next) = square.right() {
            assert_eq!(next.left(), Some(square));
        }
        if let Some(next) = square.left() {
            assert_eq!(next.right(), Some(square));
        }
    }
}

#[test]
fn square_order_follows_the_index() {
    for n in 0usize..63 {
        assert!(SQUARES[n] < SQUARES[n + 1]);
    }
}
