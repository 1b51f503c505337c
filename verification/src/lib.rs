pub mod custom_widget;
pub mod engine;
pub mod gui;
pub mod run_conrod;
pub mod run_conrod_borrow;
pub mod support;
pub mod ui_types;
pub mod widget_id;
