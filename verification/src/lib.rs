//! Verified core of the Humidefi DEX pallet: its storage and dispatch rules,
//! the contract messages it sends, the ticker-price reading and the runtime's
//! fee routing.

pub mod codec;
pub mod state;
pub mod types;
pub mod pallet;
pub mod messages;
pub mod ticker;
pub mod dispatch;
pub mod fees;
pub mod laws;
pub mod execution;
