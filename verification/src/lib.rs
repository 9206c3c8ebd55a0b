//! Client-side pieces of a minimal request/response protocol spoken over a
//! multiplexed transport: the vocabulary of methods and status tokens with
//! its legacy HTTP mapping, and the state machine that drives one request
//! to a terminal outcome.

mod bytes;
pub mod driver;
pub mod method;
pub mod status;
pub mod target;

pub use driver::Driver;
pub use driver::DriverError;
pub use driver::DriverState;
pub use driver::Event;
pub use driver::EventAction;
pub use driver::Header;
pub use method::Error;
pub use method::Method;
pub use status::StatusClass;
pub use status::StatusToken;
