//! Low-degree extension of an execution trace and Merkle commitments to it.
//!
//! A trace segment arrives as a table of columns over a prime field. Each
//! column is interpolated into a polynomial, the polynomials are evaluated
//! over a larger shifted domain, every row of the result is hashed into a
//! leaf, and a Merkle tree over the leaves commits to the segment. The
//! [`trace_lde::DefaultTraceLde`] keeps the extended segments with their
//! trees and answers frame reads and row queries against them.
//!
//! The transforms come from `winter-math`, the hash and the tree from
//! `winter-crypto`. Elements are held as canonical integers of the 62-bit
//! field, and digests as the 32 bytes of BLAKE3.
pub mod domain;
pub mod element;
pub mod field;
pub mod frame;
pub mod matrix;
pub mod merkle;
pub mod poly_table;
pub mod power;
pub mod queries;
pub mod trace_info;
pub mod trace_lde;
