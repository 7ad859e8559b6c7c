//! Bring-up of an SD card on a 4-bit SDMMC bus and mounting of its FAT volume.
//!
//! The library holds the acquisition protocol as state machines: each machine
//! names the next driver operation to perform, takes back its outcome, and
//! on failure unwinds exactly the resources it holds, in a fixed order.
//! Performing the operations against the real drivers is left to the caller.

pub mod card;
pub mod protocol;
pub mod resource;
pub mod volume;

pub use card::{CardInfo, CardSetup, SdPins, SdmmcCard};
pub use protocol::{Action, Next, Outcome, SetupError};
pub use resource::Resource;
pub use volume::{FatFsStatistics, MountSetup, MountedFat};
