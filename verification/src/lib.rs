pub mod text;
pub mod collections;
pub mod app_core;
pub mod gui;
pub mod visual_tests;
