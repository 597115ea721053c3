//! What the checks take and what they give, and what supports them.

pub mod input_output;
pub mod public_ip;
