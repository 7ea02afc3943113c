pub mod error;
pub mod string;
pub mod trusted;
pub mod wire;

pub use error::Error;
pub use string::encode_then_decode;
pub use string::is_present;
pub use string::BoltString;
