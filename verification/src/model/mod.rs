pub mod lookup;
pub mod token;
pub mod registry;
