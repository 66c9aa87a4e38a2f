pub mod button;
pub mod error;
pub mod frame;
pub mod router;
