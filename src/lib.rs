//! Elliptic-curve and big-integer arithmetic for the BN254 precompiles:
//! the field tower, the group law, the optimal-ate pairing and modular
//! exponentiation.
pub mod field;
pub mod fq2;
pub mod fq6;
pub mod fq12;
pub mod curve;
pub mod line;
pub mod miller;
pub mod final_exp;
pub mod ec_add;
pub mod modexp;
pub mod torus;
pub mod pairing;
pub mod precompile;
pub mod ec_mul;
