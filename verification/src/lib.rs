//! Verified core of the bindings for `Trans2QUIK.dll`.
//!
//! The crate models what the terminal reports through its C interface:
//! result codes, order and trade attributes, text buffers in windows-1251,
//! and the `yyyymmdd` / `hhmmss` date and time numbers, and decides what
//! each callback of the terminal turns into.

pub mod callbacks;
pub mod codec;
pub mod errors;
pub mod outside;
pub mod types;

pub use errors::{DateTimeError, DecodeLpstrError};
pub use types::{
    IsSell, Mode, OrderEvent, OrderInfo, Status, TradeEvent, TradeInfo, Trans2QuikResult, TransId,
    TransactionInfo,
};
