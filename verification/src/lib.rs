pub mod address;
pub mod addressing;
pub mod agent;
pub mod component;
pub mod decode;
pub mod dek;
pub mod dispatch;
pub mod error;
pub mod handler;
pub mod laws;
pub mod layout;
pub mod migration;
pub mod record;
pub mod status;
