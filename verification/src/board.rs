//! Board-state vocabulary: teams, chessmen, the packed [`Piece`] encoding,
//! validated [`Coordinate`] indices, move descriptors, and the [`Board`]
//! capability contract.

use vstd::prelude::*;

verus! {

/// The primary trait used to represent current board state.
///
/// This crate supplies only the contract; concrete representations
/// (array-of-squares, bitboard, ...) implement it elsewhere.
pub trait Board {
    /// The occupant a representation stores at each square.
    spec fn piece_at(&self, coord: Coordinate) -> Piece;

    /// Set the piece for a tile, leaving every other tile unchanged.
    fn set_tile(&mut self, coord: Coordinate, piece: Piece)
        ensures
            final(self).piece_at(coord) == piece,
            forall|other: Coordinate|
                other != coord ==> #[trigger] final(self).piece_at(other) == old(
                    self,
                ).piece_at(other),
    ;

    /// Clear a tile: afterwards the tile holds no occupant, and every other
    /// tile is unchanged, as if the empty piece had been set there.
    fn clear_tile(&mut self, coord: Coordinate)
        ensures
            final(self).piece_at(coord).occupant() == None::<(Team, Chessman)>,
            forall|other: Coordinate|
                other != coord ==> #[trigger] final(self).piece_at(other) == old(
                    self,
                ).piece_at(other),
    ;

    /// Get the available legal moves. The ordering of the returned moves is
    /// implementation-defined; legality itself is the implementation's rule.
    fn get_moves(&self) -> Vec<Move>;
}

/// Kinds of available moves.
pub enum MoveKind {
    QuietMove,
    DoublePawnPush,
    KingCastle,
    QueenCastle,
    Capture,
    EPCapture,
    KnightPromotion,
    BishopPromotion,
    RookPromotion,
    QueenPromotion,
    KnightPromotionCapture,
    BishopPromotionCapture,
    RookPromotionCapture,
    QueenPromotionCapture,
}

/// Information for a move: its classification, the squares involved, the
/// moving piece, and the captured piece. The captured piece is meaningful
/// only for the capture-family kinds.
pub struct Move {
    kind: MoveKind,
    origin: Coordinate,
    target: Coordinate,
    piece: Piece,
    capture: Piece,
}

/// Errors for the board: each fallible coordinate constructor has its own
/// error kind, reported on the inputs it validates.
#[derive(Debug, PartialEq, Eq)]
pub enum Error {
    OutOfBoundsAxis,
    OutOfBoundsIndex,
}

/// The teams that are playing a game of chess.
#[derive(Debug, Eq, PartialEq, Clone, Copy)]
pub enum Team {
    White,
    Black,
}

/// Bit mask to get the team bit.
const MASK_TEAM: u8 = 0b1000;

/// Amount to shift a bit to check for team.
const SHIFT_TEAM: u8 = 3;

/// The kinds of valid pieces on the chess board.
#[derive(Debug, Eq, PartialEq, Clone, Copy)]
pub enum Chessman {
    King,
    Queen,
    Bishop,
    Knight,
    Rook,
    Pawn,
}

/// Bit mask for the chessman.
const MASK_CHESSMAN: u8 = 0b111;

/// Bit pattern marking an unoccupied square: a piece is empty exactly when
/// any of these four high bits is set.
const MASK_UNOCCUPIED: u8 = 0b11110000;

/// The bit that stands for a team in the packed piece encoding.
pub open spec fn team_value(team: Team) -> u8 {
    match team {
        Team::White => 0,
        Team::Black => 1,
    }
}

/// The three-bit pattern that stands for a chessman in the packed piece
/// encoding; only the values 0 through 5 name a chessman.
pub open spec fn chessman_value(chessman: Chessman) -> u8 {
    match chessman {
        Chessman::King => 0,
        Chessman::Queen => 1,
        Chessman::Bishop => 2,
        Chessman::Knight => 3,
        Chessman::Rook => 4,
        Chessman::Pawn => 5,
    }
}

/// The packed byte for an occupant: the team bit at bit 3 and the chessman
/// in bits 0-2, with the high occupancy bits clear; the canonical empty
/// encoding sets all four high bits.
pub open spec fn encode_occupant(occupant: Option<(Team, Chessman)>) -> u8 {
    match occupant {
        Some((team, chessman)) => (team_value(team) * 8 + chessman_value(chessman)) as u8,
        None => 0xF0,
    }
}

/// What a packed byte stands for. Any high bit set means the square is
/// empty. Otherwise bit 3 selects the team and bits 0-2 the chessman; the
/// two three-bit patterns that name no chessman decode to nothing, and the
/// public constructor never produces them.
pub open spec fn decode_byte(value: u8) -> Option<(Team, Chessman)> {
    if value >= 16 {
        None
    } else {
        let team = if value / 8 == 0 {
            Team::White
        } else {
            Team::Black
        };
        let low: u8 = value % 8;
        if low == 0 {
            Some((team, Chessman::King))
        } else if low == 1 {
            Some((team, Chessman::Queen))
        } else if low == 2 {
            Some((team, Chessman::Bishop))
        } else if low == 3 {
            Some((team, Chessman::Knight))
        } else if low == 4 {
            Some((team, Chessman::Rook))
        } else if low == 5 {
            Some((team, Chessman::Pawn))
        } else {
            None
        }
    }
}

/// A byte the piece constructors can produce: either the occupancy marker
/// shows an empty square, or the three chessman bits name one of the six
/// chessmen.
pub open spec fn valid_piece_byte(value: u8) -> bool {
    value >= 16 || value % 8 < 6
}

/// Struct to represent the piece information, packed into a single byte.
pub struct Piece {
    value: u8,
}

impl Piece {
    /// The packed byte held by the piece.
    pub closed spec fn raw(self) -> u8 {
        self.value
    }

    /// The occupant the piece stands for.
    pub open spec fn occupant(self) -> Option<(Team, Chessman)> {
        decode_byte(self.raw())
    }

    #[verifier::type_invariant]
    spec fn inv(self) -> bool {
        valid_piece_byte(self.value)
    }

    /// Creates a new piece holding the given occupant; decoding gives the
    /// occupant back unchanged.
    pub fn new(value: Option<(Team, Chessman)>) -> (piece: Self)
        ensures
            piece.raw() == encode_occupant(value),
            piece.occupant() == value,
    {
        match value {
            Some((team, chessman)) => {
                let team_bit: u8 = match team {
                    Team::White => 0,
                    Team::Black => 1,
                };
                let chessman_bits: u8 = match chessman {
                    Chessman::King => 0,
                    Chessman::Queen => 1,
                    Chessman::Bishop => 2,
                    Chessman::Knight => 3,
                    Chessman::Rook => 4,
                    Chessman::Pawn => 5,
                };
                proof {
                    assert(team_bit < 2 && chessman_bits < 6 ==> {
                        let packed: u8 = (team_bit << SHIFT_TEAM) | chessman_bits;
                        &&& packed == team_bit * 8 + chessman_bits
                        &&& packed < 16
                        &&& packed / 8 == team_bit
                        &&& packed % 8 == chessman_bits
                    }) by (bit_vector);
                }
                Piece { value: (team_bit << SHIFT_TEAM) | chessman_bits }
            },
            None => Piece { value: MASK_UNOCCUPIED },
        }
    }

    /// Gets the data held by the struct: the empty marker yields no
    /// occupant, any other byte yields the team and chessman it encodes.
    pub fn data(&self) -> (occupant: Option<(Team, Chessman)>)
        ensures
            occupant == self.occupant(),
    {
        let value: u8 = self.value;
        proof {
            use_type_invariant(&*self);
            assert((value & 0b11110000u8 != 0) <==> value >= 16) by (bit_vector);
            assert(value < 16 ==> ((value & 0b1000u8 == 0) <==> value / 8 == 0)) by (bit_vector);
            assert(value & 0b111u8 == value % 8) by (bit_vector);
        }
        if value & MASK_UNOCCUPIED != 0 {
            None
        } else {
            let team = if value & MASK_TEAM == 0 {
                Team::White
            } else {
                Team::Black
            };
            let chessman = match value & MASK_CHESSMAN {
                0 => Chessman::King,
                1 => Chessman::Queen,
                2 => Chessman::Bishop,
                3 => Chessman::Knight,
                4 => Chessman::Rook,
                5 => Chessman::Pawn,
                _ => vstd::pervasive::unreached(),
            };
            Some((team, chessman))
        }
    }
}

impl Default for Piece {
    /// The default piece is the all-zero byte. It decodes to the first
    /// team's king, not to the empty square: the canonical empty encoding is
    /// a different byte, and callers must not treat a default piece as "no
    /// piece".
    fn default() -> (piece: Self)
        ensures
            piece.raw() == 0,
            piece.occupant() == Some((Team::White, Chessman::King)),
    {
        Piece { value: 0 }
    }
}

/// Law: decoding the packed byte of any occupant gives that occupant back,
/// for the empty square and for every (team, chessman) pair alike.
pub proof fn lemma_occupant_round_trip(occupant: Option<(Team, Chessman)>)
    ensures
        decode_byte(encode_occupant(occupant)) == occupant,
{
    match occupant {
        None => {},
        Some((team, chessman)) => {
            match (team, chessman) {
                (Team::White, Chessman::King) => {},
                (Team::White, Chessman::Queen) => {},
                (Team::White, Chessman::Bishop) => {},
                (Team::White, Chessman::Knight) => {},
                (Team::White, Chessman::Rook) => {},
                (Team::White, Chessman::Pawn) => {},
                (Team::Black, Chessman::King) => {},
                (Team::Black, Chessman::Queen) => {},
                (Team::Black, Chessman::Bishop) => {},
                (Team::Black, Chessman::Knight) => {},
                (Team::Black, Chessman::Rook) => {},
                (Team::Black, Chessman::Pawn) => {},
            }
        },
    }
}

/// Represents coordinates; the held index is always below 64.
#[derive(Debug, Eq, PartialEq, Clone, Copy)]
pub struct Coordinate {
    value: u8,
}

/// The length of the chess board.
pub const BOARD_LENGTH: usize = 8;

/// The number of tiles in the chess board.
pub const NUM_TILES: usize = BOARD_LENGTH * BOARD_LENGTH;

impl Coordinate {
    /// The linear index of the square, rank-major: rank * 8 + file.
    pub closed spec fn index_spec(self) -> u8 {
        self.value
    }

    /// The rank the coordinate lies on.
    pub open spec fn rank_spec(self) -> u8 {
        self.index_spec() / 8
    }

    /// The file the coordinate lies on.
    pub open spec fn file_spec(self) -> u8 {
        self.index_spec() % 8
    }

    #[verifier::type_invariant]
    spec fn inv(self) -> bool {
        self.value < 64
    }

    /// Gets the rank of the coordinate.
    pub fn rank(&self) -> (rank: u8)
        ensures
            rank == self.rank_spec(),
            rank < 8,
    {
        proof {
            use_type_invariant(&*self);
        }
        self.value / (BOARD_LENGTH as u8)
    }

    /// Gets the file of the coordinate.
    pub fn file(&self) -> (file: u8)
        ensures
            file == self.file_spec(),
            file < 8,
    {
        proof {
            use_type_invariant(&*self);
        }
        self.value % (BOARD_LENGTH as u8)
    }

    /// Builds a coordinate from a (rank, file) pair. Succeeds exactly when
    /// both axes are below 8, encoding the pair as rank * 8 + file; any
    /// out-of-range axis is rejected on the axes themselves, before any
    /// index is computed.
    pub fn from_rank_file(rank: u8, file: u8) -> (result: Result<Coordinate, Error>)
        ensures
            (rank < 8 && file < 8) <==> result is Ok,
            result matches Ok(coordinate) ==> coordinate.index_spec() == rank * 8 + file,
            result matches Ok(coordinate) ==> coordinate.rank_spec() == rank
                && coordinate.file_spec() == file,
            !(rank < 8 && file < 8) ==> result == Err::<Coordinate, Error>(Error::OutOfBoundsAxis),
    {
        if rank < 8 && file < 8 {
            proof {
                assert(rank < 8 && file < 8 ==> {
                    let packed: u8 = (rank * 8 + file) as u8;
                    &&& packed < 64
                    &&& packed / 8 == rank
                    &&& packed % 8 == file
                }) by (bit_vector);
            }
            Ok(Coordinate { value: rank * (BOARD_LENGTH as u8) + file })
        } else {
            Err(Error::OutOfBoundsAxis)
        }
    }

    /// Builds a coordinate from a linear index. Succeeds exactly when the
    /// index is below 64, storing it verbatim, so the rank and file are the
    /// index divided by 8 and the index modulo 8.
    pub fn from_index(index: u8) -> (result: Result<Coordinate, Error>)
        ensures
            index < 64 <==> result is Ok,
            result matches Ok(coordinate) ==> coordinate.index_spec() == index,
            result matches Ok(coordinate) ==> coordinate.rank_spec() == index / 8
                && coordinate.file_spec() == index % 8,
            index >= 64 ==> result == Err::<Coordinate, Error>(Error::OutOfBoundsIndex),
    {
        if index < (NUM_TILES as u8) {
            Ok(Coordinate { value: index })
        } else {
            Err(Error::OutOfBoundsIndex)
        }
    }
}

} // verus!

