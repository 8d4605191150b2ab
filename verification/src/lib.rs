#![allow(non_camel_case_types)]
#![allow(non_snake_case)]

pub mod text;
pub mod meta;
pub mod app;
pub mod tree;
pub mod keys;
pub mod rope;
pub mod editor;
pub mod pomodoro;
pub mod fields;
pub mod todo;
pub mod notes;
pub mod journal;
pub mod finance;
pub mod calendar;
pub mod settings_input;
pub mod helper;
pub mod dispatch;
