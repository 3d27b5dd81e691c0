//! A small windowing toolkit: widgets attached to a window, event dispatch
//! from the native message callback, and the text form the native API takes.
pub mod text;
pub mod widget;
pub mod window;
