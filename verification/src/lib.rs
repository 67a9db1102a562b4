#![allow(non_snake_case, non_camel_case_types)]

pub mod autoplay;
pub mod text;
pub mod record;
pub mod stocks;
pub mod scheduler;
pub mod model;
pub mod foundation;
pub mod render;
pub mod widget;
pub mod emmain;
pub mod fileman_panel;
