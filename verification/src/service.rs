//! Business services.

pub mod menu_service;
