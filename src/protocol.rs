use vstd::prelude::*;

use crate::card::CardInfo;
use crate::resource::Resource;
use crate::volume::FatFsStatistics;

verus! {

/// A driver operation that a setup machine asks its caller to perform.
#[derive(PartialEq, Eq, Structural, Clone, Copy, Debug)]
pub enum Action {
    /// Claim the bus line with this index in the pin set as an input-output pin.
    ClaimPin(u8),
    /// Bring up the host controller.
    HostInit,
    /// Configure the slot with the machine's slot configuration.
    InitSlot,
    /// Allocate a card descriptor.
    AllocCard,
    /// Probe the card and fill the descriptor.
    ProbeCard,
    /// Allocate a descriptor and copy the session's descriptor into it.
    AllocCopy,
    /// Ask the block-device registry for a free logical drive slot.
    GetFreeDrive,
    /// Register the descriptor copy under this drive slot.
    RegisterDisk(u8),
    /// Bind the mount point to the drive name of this slot, allowing at most
    /// `max_files` files open at once.
    VfsRegister { drive: u8, max_files: u8 },
    /// Mount the FAT volume of this drive, with this partition option.
    MountVolume { drive: u8, partition: u8 },
    /// Give back a resource; its outcome is reported but never stops the unwinding.
    Release(Resource),
}

/// What came back from performing an [`Action`].
#[derive(PartialEq, Eq, Structural, Clone, Copy, Debug)]
pub enum Outcome {
    /// A driver status; zero is success.
    Status(i32),
    /// An allocation returned nothing.
    OutOfMemory,
    /// The probe succeeded and the card reported this geometry.
    Card(CardInfo),
    /// The registry offered this drive slot (`0xFF` stands for none).
    Drive(u8),
    /// The volume is mounted, with this geometry.
    Mounted(FatFsStatistics),
}

/// Why an acquisition sequence failed.
#[derive(PartialEq, Eq, Structural, Clone, Copy, Debug)]
pub enum SetupError {
    /// A bus line could not be claimed.
    PinClaim { pin: u8, code: i32 },
    /// The host controller did not come up.
    HostInit(i32),
    /// The slot could not be configured.
    InitSlot(i32),
    /// A descriptor could not be allocated.
    OutOfMemory,
    /// The card probe failed.
    CardInit(i32),
    /// The registry had no usable drive slot.
    NoFreeDrive { code: i32, drive: u8 },
    /// The mount point holds a NUL byte.
    InvalidPath,
    /// The mount point could not be bound.
    VfsRegister(i32),
    /// The FAT volume could not be mounted.
    Mount(i32),
}

/// What a setup machine wants next.
#[derive(PartialEq, Eq, Structural, Clone, Copy, Debug)]
pub enum Next {
    /// Perform this action and report its outcome.
    Perform(Action),
    /// Acquisition is complete.
    Ready,
    /// Acquisition failed and everything acquired has been given back.
    Failed(SetupError),
}

/// The driver status carried by an outcome (zero where it carries none).
pub open spec fn code_of(o: Outcome) -> i32 {
    match o {
        Outcome::Status(c) => c,
        _ => 0,
    }
}

/// Computes [`code_of`].
pub fn status_code(o: &Outcome) -> (r: i32)
    ensures
        r == code_of(*o),
{
    match o {
        Outcome::Status(c) => *c,
        _ => 0,
    }
}

} // verus!
