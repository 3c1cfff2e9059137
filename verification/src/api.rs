pub mod data_access;
pub mod display;
pub mod ffi;
pub mod graphics;
pub mod menus;
pub mod plugin;
pub mod processing;
pub mod registration;
pub mod utilities;
