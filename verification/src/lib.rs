//! Verified core of a small Ethereum mainnet explorer: the models of
//! addresses, hashes and token amounts, the rows of the block tables,
//! the data sets behind the ERC-20 transfer charts, and the state machine
//! of the ERC-20 history panel.

pub mod text;
pub mod ethereum;
pub mod blocks;
pub mod charts;
pub mod history;
pub mod laws;
