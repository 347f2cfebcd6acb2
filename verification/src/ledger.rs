//! A market together with all the positions taken in it.
//!
//! An instruction sees a market and one position at a time. What holds of
//! a market as a whole (that its totals are the sums of its positions, that
//! it never pays out more than it took in) is stated here, of a model in
//! which the market, its positions and the balance of its custody account
//! stand side by side and the instructions are applied one after another.

pub mod laws;
pub mod model;
pub mod sums;

pub use model::{Instruction, Ledger};
