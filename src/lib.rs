//! Turning a bech32 secret key and a four-digit PIN into a QR code: the PIN
//! model and the decisions of a run, with their contracts.
pub mod pin;
pub mod run;

pub use pin::{BadPinError, QRPin};
pub use run::{key_text, Action, AppError, Event, QRcodeApp, Stage};
