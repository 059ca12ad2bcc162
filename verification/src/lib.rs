//! Codecs for the values of a pairing-based proof system: prime-field
//! elements, elements of the extension fields, and points of the groups G1,
//! G2 and GT of BN254 and BLS12-381, between their algebraic form and the
//! wire formats of several provers.
//!
//! - [`field`] holds the field elements, [`curve`] the points and what makes
//!   a point valid.
//! - [`json`] is the decimal format of circom's JSON files, [`montgomery`]
//!   the binary format of its proving keys, [`external`] the binary formats
//!   of two other provers, and [`babyjubjub`] the decimal format of the
//!   Baby Jubjub curve.
//! - [`compress`] compresses the points of a proof for the on-chain
//!   verifier and recovers them.
//! - [`bridge`], [`bn254`] and [`bls12_381`] offer the formats curve by
//!   curve.
//! - [`material`], [`header`], [`public_input`] and [`solidity`] hold what a
//!   prover and the callers of the verifier need around the codecs.
//! - [`natbytes`], [`decimal`] and [`modular`] give bytes, decimal tokens
//!   and residues their meaning as numbers; [`power`] has the powers of
//!   residues, and [`nonresidue`] two values of the base field of BN254
//!   that have no square root.
//!
//! The arithmetic of the fields and curves is that of arkworks. Every
//! function states what it returns; the calls into arkworks are believed,
//! all the logic around them is proved.

pub mod babyjubjub;
mod backend;
pub mod bls12_381;
pub mod bn254;
pub mod bridge;
pub mod compress;
pub mod curve;
pub mod decimal;
pub mod error;
pub mod external;
pub mod field;
pub mod header;
pub mod json;
pub mod material;
pub mod modular;
pub mod montgomery;
pub mod natbytes;
pub mod nonresidue;
pub mod power;
pub mod public_input;
pub mod solidity;
