//! Quoting engine for a weighted multi-asset pool: exact integer ratio
//! scaling, fee accounting around the weighted-value curve, the liquidity
//! guard, leg selection and decoding of the pool's account snapshot.
pub mod one_intro_calc;
pub mod one_intro_state;
pub mod one_intro_amm;
