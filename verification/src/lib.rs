//! Verified core of a pocket-computer firmware: wall clock and calendar,
//! battery gauge, Wi-Fi scan lists, configuration, the SD-card block adapter,
//! USB mass storage, an FTP server and the serial console.

pub mod text;
pub mod clock;
pub mod storage;
pub mod ftp;
pub mod bytes;
pub mod msc;
pub mod sdblock;
pub mod debug;
pub mod net;
pub mod battery;
pub mod keyboard;
pub mod wifi;
pub mod usbdisk;
pub mod image;
pub mod screen;
