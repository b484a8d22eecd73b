pub mod authority;
pub mod checked;
pub mod error;
pub mod guard;
pub mod identity;
pub mod pool;
pub mod trust;
