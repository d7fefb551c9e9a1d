pub mod capture;
pub mod frame_slot;
pub mod layout;
pub mod render;
