use athena::board::Board;
use athena::position::{BitBoard, Position, Square};
use athena::{Color, Piece, NUM_COLORS, NUM_PIECES};

#[test]
fn bitboard_and_is_intersection() {
    let a = BitBoard(0b1010);
    let b = BitBoard(0b0110);
    assert_eq!(a & b, BitBoard(0b0010));
}

#[test]
fn bitboard_or_is_union() {
    let a = BitBoard(0b1010);
    let b = BitBoard(0b0110);
    assert_eq!(a | b, BitBoard(0b1110));
}

#[test]
fn bitboard_xor_takes_both_operands() {
    let a = BitBoard(0b1010);
    let b = BitBoard(0b0110);
    assert_eq!(a ^ b, BitBoard(0b1100));
    assert_eq!(a ^ a, BitBoard(0));
    assert_ne!(a ^ b, a ^ a);
    assert_eq!(BitBoard(u64::MAX) ^ BitBoard(1), BitBoard(u64::MAX - 1));
}

#[test]
fn bitboard_not_flips_all_64_bits() {
    let a = BitBoard(0b1010);
    assert_eq!(!a, BitBoard(0xFFFF_FFFF_FFFF_FFF5));
    assert_eq!(!BitBoard(0), BitBoard(u64::MAX));
    assert_eq!(!BitBoard(u64::MAX), BitBoard(0));
    assert_eq!(!!a, a);
    assert_eq!((!a).0, !a.0);
}

#[test]
fn bitboard_in_place_operators_agree_with_the_binary_ones() {
    let pairs: [(u64, u64); 4] = [
        (0b1010, 0b0110),
        (0, u64::MAX),
        (0xFF00_0000_0000_00FF, 0x0F0F_0F0F_0F0F_0F0F),
        (1 << 63, 1),
    ];
    for (x, y) in pairs {
        let a = BitBoard(x);
        let b = BitBoard(y);
        let mut and = a;
        and &= b;
        assert_eq!(and, a & b);
        assert_eq!(and, BitBoard(x & y));
        let mut or = a;
        or |= b;
        assert_eq!(or, a | b);
        assert_eq!(or, BitBoard(x | y));
        let mut xor = a;
        xor ^= b;
        assert_eq!(xor, a ^ b);
        assert_eq!(xor, BitBoard(x ^ y));
    }
}

#[test]
fn bitboard_in_place_examples() {
    let mut a = BitBoard(0b1010);
    a &= BitBoard(0b0110);
    assert_eq!(a, BitBoard(0b0010));
    let mut b = BitBoard(0b1010);
    b |= BitBoard(0b0110);
    assert_eq!(b, BitBoard(0b1110));
    let mut c = BitBoard(0b1010);
    c ^= BitBoard(0b0110);
    assert_eq!(c, BitBoard(0b1100));
}

#[test]
fn bitboard_shift_examples() {
    assert_eq!(BitBoard(1) << BitBoard(3), BitBoard(8));
    assert_eq!(BitBoard(8) >> BitBoard(3), BitBoard(1));
}

#[test]
fn bitboard_shifts_fill_with_zeros() {
    assert_eq!(BitBoard(u64::MAX) << BitBoard(63), BitBoard(1 << 63));
    assert_eq!(BitBoard(u64::MAX) >> BitBoard(63), BitBoard(1));
    assert_eq!(BitBoard(1 << 63) << BitBoard(1), BitBoard(0));
    assert_eq!(BitBoard(1) >> BitBoard(1), BitBoard(0));
    assert_eq!(BitBoard(0b1010) << BitBoard(0), BitBoard(0b1010));
    assert_eq!(BitBoard(0b1010) >> BitBoard(0), BitBoard(0b1010));
}

#[test]
fn bitboard_in_place_shifts_agree_with_the_binary_ones() {
    for k in 0u64..64 {
        let a = BitBoard(0x8000_0000_0000_0001 | (1 << 17));
        let mut left = a;
        left <<= BitBoard(k);
        assert_eq!(left, a << BitBoard(k));
        assert_eq!(left.0, a.0 << k);
        let mut right = a;
        right >>= BitBoard(k);
        assert_eq!(right, a >> BitBoard(k));
        assert_eq!(right.0, a.0 >> k);
    }
}

#[test]
fn bitboard_shift_moves_a_square_up_the_board() {
    let e4 = BitBoard(1 << Square::E4.to_index());
    let e5 = BitBoard(1 << Square::E5.to_index());
    assert_eq!(e4 << BitBoard(8), e5);
    assert_eq!(e5 >> BitBoard(8), e4);
}

#[test]
fn bitboard_algebra_on_single_bits() {
    for i in 0u64..64 {
        let bit = BitBoard(1 << i);
        assert_eq!(bit & !bit, BitBoard(0));
        assert_eq!(bit | !bit, BitBoard(u64::MAX));
        assert_eq!(bit ^ bit, BitBoard(0));
        assert_eq!(BitBoard(1) << BitBoard(i), bit);
        assert_eq!(bit >> BitBoard(i), BitBoard(1));
    }
}

#[test]
fn color_not_gives_the_other_color() {
    assert_eq!(!Color::White, Color::Black);
    assert_eq!(!Color::Black, Color::White);
    assert_eq!(!!Color::White, Color::White);
    assert_eq!(!!Color::Black, Color::Black);
}

#[test]
fn board_and_position_hold_a_bitboard_for_each_piece() {
    assert_eq!(NUM_PIECES, 6);
    assert_eq!(NUM_COLORS, 2);
    assert_eq!(Piece::King as usize + 1, NUM_PIECES);
    let board = Board {
        pieces_positions: [BitBoard(0); NUM_PIECES],
        color_positions: [BitBoard(0); NUM_COLORS],
        color_to_move: Color::White,
    };
    assert_eq!(board.pieces_positions.len(), 6);
    assert_eq!(board.color_positions.len(), 2);
    assert_eq!(board.color_to_move, Color::White);
    let position = Position {
        white_pieces: [BitBoard(0xFF00); NUM_PIECES],
        black_pieces: [BitBoard(0); NUM_PIECES],
        side_to_move: !board.color_to_move,
    };
    assert_eq!(position.white_pieces[0] & position.black_pieces[0], BitBoard(0));
    assert_eq!(position.side_to_move, Color::Black);
}
