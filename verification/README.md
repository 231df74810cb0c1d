# Ratputer

The verified core of a firmware for the M5Stack Cardputer ADV (ESP32-S3): the
wall clock and the calendar, the battery gauge, the configuration on the SD card,
the card's first partition as a stream of bytes, an FTP server, the SCSI side of a
USB disk, the serial console, and what the screens show and do.

`src/` is the library. Each function states what it returns or changes, and Verus
proves it. Work that takes hardware is left to the caller: a machine is asked what
it wants next (`query`) and is told what came of it (`resume`).

| Module | Contents |
|---|---|
| `text`, `bytes` | text as characters, numbers as bytes |
| `clock` | days and dates, summer time, the wall clock |
| `storage` | configuration, reading and writing its file, FAT time stamps |
| `ftp` | paths, listings, jobs on the card, commands and the rounds of the server |
| `msc` | SCSI commands, the block cache and the course of the USB disk |
| `sdblock` | the first partition: seeking, reading, writing |
| `debug` | the serial console and its commands |
| `net`, `wifi` | SNTP queries, scan results |
| `battery`, `keyboard`, `usbdisk` | the gauge, the key controller, who owns the card |
| `image` | the headers of a flash image |
| `screen` | keys, lines, the Wi-Fi, USB and FTP screens, the console's answers |

Laws that span functions stand as public proof functions beside them; those of the
FTP server and of the USB disk have modules of their own (`ftp::laws`, `ftp::whole`,
`msc::laws`, `msc::reading`, `msc::writing`).

`tests/` runs the library. `app/` is the firmware around it: `firmware.rs` holds the
main loop over a board, `main.rs` the board, and `image_builder.rs` is a tool for
the host.
