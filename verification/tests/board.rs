use chess_core::board::{Chessman, Coordinate, Error, Piece, Team, BOARD_LENGTH, NUM_TILES};

#[test]
fn test_piece() {
    for team in [Team::White, Team::Black] {
        for chessman in [
            Chessman::King,
            Chessman::Pawn,
            Chessman::Knight,
            Chessman::Bishop,
            Chessman::Queen,
            Chessman::Rook,
        ] {
            let piece = Piece::new(Some((team, chessman)));

            assert_eq!(piece.data(), Some((team, chessman)));
        }
    }

    let piece = Piece::new(None);
    assert_eq!(piece.data(), None);
}

#[test]
fn test_coordinate() {
    for file in 0..=BOARD_LENGTH {
        for rank in 0..=BOARD_LENGTH {
            let file: u8 = file as u8;
            let rank: u8 = rank as u8;

            let test_coord = Coordinate::from_rank_file(rank, file);

            if file < BOARD_LENGTH as u8 && rank < BOARD_LENGTH as u8 {
                let test_coord = test_coord.expect("try_from failed");
                assert_eq!(test_coord.rank(), rank);
                assert_eq!(test_coord.file(), file);
            } else {
                assert_eq!(test_coord, Err(Error::OutOfBoundsAxis));
            }

            let index: u8 = (rank * BOARD_LENGTH as u8) | file;
            let test_coord = Coordinate::from_index(index);

            if index < NUM_TILES as u8 {
                let test_coord = test_coord.expect("try_from failed");
                // just comparing to rank/file doesnt work because adding too high file to not too big rank might not be out of range
                assert_eq!(test_coord.rank(), index / BOARD_LENGTH as u8);
                assert_eq!(test_coord.file(), index % BOARD_LENGTH as u8);
            } else {
                assert_eq!(test_coord, Err(Error::OutOfBoundsIndex))
            }
        }
    }
}

#[test]
fn white_pawn_round_trip() {
    let piece = Piece::new(Some((Team::White, Chessman::Pawn)));
    assert_eq!(piece.data(), Some((Team::White, Chessman::Pawn)));
}

#[test]
fn black_king_round_trip() {
    let piece = Piece::new(Some((Team::Black, Chessman::King)));
    assert_eq!(piece.data(), Some((Team::Black, Chessman::King)));
}

#[test]
fn empty_round_trip() {
    let piece = Piece::new(None);
    assert_eq!(piece.data(), None);
}

#[test]
fn default_piece_is_white_king_not_empty() {
    let piece = Piece::default();
    assert_eq!(piece.data(), Some((Team::White, Chessman::King)));
}

#[test]
fn corner_pair_is_valid() {
    let coord = Coordinate::from_rank_file(7, 7).expect("corner pair rejected");
    assert_eq!(coord.rank(), 7);
    assert_eq!(coord.file(), 7);
}

#[test]
fn out_of_range_rank_is_axis_error() {
    assert_eq!(Coordinate::from_rank_file(8, 0), Err(Error::OutOfBoundsAxis));
}

#[test]
fn out_of_range_file_is_axis_error() {
    assert_eq!(Coordinate::from_rank_file(0, 8), Err(Error::OutOfBoundsAxis));
}

#[test]
fn last_index_is_valid() {
    let coord = Coordinate::from_index(63).expect("last index rejected");
    assert_eq!(coord.rank(), 7);
    assert_eq!(coord.file(), 7);
}

#[test]
fn past_last_index_is_index_error() {
    assert_eq!(Coordinate::from_index(64), Err(Error::OutOfBoundsIndex));
}
