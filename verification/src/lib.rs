//! Core vocabulary for representing chess board state: a packed piece
//! encoding, validated board coordinates, move descriptors, and the
//! capability contract that concrete board representations implement.

pub mod board;
