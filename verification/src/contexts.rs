//! The accounts that each operation works on, and the steps it is made of.

pub mod make;
pub mod refund;
pub mod take;
