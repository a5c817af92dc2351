//! Verified core of the TapTime time-tracking system: the DS3231 alarm
//! register model, RFID card identifiers, work-day accounting, the checks the
//! server makes of what clients send, the administration console's state
//! machine, and the firmware's display texts and Wi-Fi dialogue.

pub mod bits;
pub mod registers;
pub mod alarm;
pub mod error;
pub mod text;
pub mod local_time;
pub mod event;
pub mod uid;
pub mod rfid;
pub mod duration;
pub mod balance;
pub mod day_flags;
pub mod date;
pub mod day;
pub mod user;
pub mod store;
pub mod day_range;
pub mod schema;
pub mod records;
pub mod profile;
pub mod access;
pub mod password;
pub mod token;
pub mod accounts;
pub mod console;
pub mod display;
pub mod wifi;
pub mod dialogue;
