pub mod bytes;
pub mod decimal;
pub mod hex;
pub mod numeral;

pub use self::hex::to_hex;
pub use self::hex::unhex;
