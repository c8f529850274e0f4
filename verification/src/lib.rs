pub mod channel;
pub mod inject;
pub mod state;
pub mod view;
