//! The decisions behind focus-follows-mouse on Windows.
//!
//! The mouse is followed by a machine that is told what happened and says what to do next
//! (`movement`). A hotkey switches it on and off (`hotkey`). Instead of it, the system's own
//! focus-follows-mouse can be set up and put back (`tracking`). No module makes a system call
//! that waits for or changes anything: the program around the library does.
//!
//! What holds of single steps, of turns, of whole movements and of whole runs of the machine is
//! proved in `turn_laws`, `movement_laws`, `whole_movements` and `run_laws`. Every other module
//! ends with what holds of its own functions.

pub mod caches;
pub mod eligibility;
pub mod hotkey;
pub mod listing;
pub mod matching;
pub mod movement;
pub mod movement_laws;
pub mod run_laws;
pub mod startup;
pub mod text;
pub mod tracking;
pub mod turn_laws;
pub mod whole_movements;
pub mod window;
pub mod windows_result;
