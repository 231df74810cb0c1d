//! What the screens show and what their keys and commands lead to.

pub mod lines;
pub mod input;
pub mod radio;
pub mod usb;
pub mod ftp;
pub mod top;
pub mod console;
