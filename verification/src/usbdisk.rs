//! The USB disk as the firmware sees it: who owns the card, and what the screen
//! says about it.
//!
//! The card is handed to the host only while the firmware has given up its own
//! file system, so the two can never use it at the same time.

use crate::msc::scsi::{SharedState, Stats, no_sense};
use vstd::prelude::*;

verus! {

/// Longest time in microseconds that one round may keep driving USB before it
/// returns to the main loop.
pub const POLL_BUDGET_MICROS: u64 = 40_000;

/// Whether the host is served for longer.
pub open spec fn polls_on(elapsed_micros: u64, woken: bool) -> bool {
    woken || elapsed_micros < POLL_BUDGET_MICROS
}

/// Whether a round keeps driving USB: as long as there is progress, and while it waits
/// for some within its time.
pub fn keep_polling(elapsed_micros: u64, woken: bool) -> (go: bool)
    ensures
        go == polls_on(elapsed_micros, woken),
{
    woken || elapsed_micros < POLL_BUDGET_MICROS
}

#[derive(Clone, Copy, Debug, PartialEq, Eq, Structural)]
pub enum UsbDiskState {
    Inactive,
    Waiting,
    Mounted,
    Ejected,
}

/// Who owns the card. Only one side ever does.
#[derive(Clone, Copy, Debug, PartialEq, Eq, Structural)]
pub enum CardOwner {
    /// The firmware has its file system mounted.
    Firmware,
    /// The computer on the USB connector.
    Host,
    /// The card could not be mounted.
    Nobody,
}

/// What has to be done for a card to be handed to the host.
#[derive(Clone, Copy, Debug, PartialEq, Eq, Structural)]
pub enum UsbStart {
    /// The USB device runs already.
    Running,
    /// The USB device has to be built first.
    Build,
    /// There is no USB controller to build it on.
    Unavailable,
}

/// What is shared with the USB device once a card is handed to the host.
pub open spec fn handed_over(shared: SharedState, blocks: u32) -> SharedState {
    SharedState {
        blocks,
        generation: shared.generation.wrapping_add(1),
        attached: true,
        configured: shared.configured,
        ejected: false,
        sense: no_sense(),
        stats: Stats { read_blocks: 0, write_blocks: 0, cache_hit_blocks: 0 },
    }
}

/// What is shared with the USB device once the card is taken back.
pub open spec fn taken_away(shared: SharedState) -> SharedState {
    SharedState { blocks: 0, attached: false, configured: false, ejected: false, ..shared }
}

/// The USB disk.
#[derive(Clone, Copy, Debug, PartialEq, Eq, Structural)]
pub struct UsbDisk {
    /// The controller has not been used yet.
    pub controller: bool,
    /// The USB device has been built.
    pub running: bool,
    /// A card is handed to the host.
    pub active: bool,
    pub init_attempted: bool,
}

impl UsbDisk {
    /// Whether the disk works, or may yet.
    pub open spec fn is_available(self) -> bool {
        !self.init_attempted || self.running
    }

    /// What comes of starting the disk: its controller is taken once.
    pub open spec fn initialized(self) -> (UsbStart, UsbDisk) {
        if self.running {
            (UsbStart::Running, self)
        } else if self.controller {
            (
                UsbStart::Build,
                UsbDisk { controller: false, running: true, init_attempted: true, ..self },
            )
        } else {
            (UsbStart::Unavailable, UsbDisk { init_attempted: true, ..self })
        }
    }

    /// Whether the host does not need the card any more.
    pub open spec fn lets_go(self, shared: SharedState) -> bool {
        !self.active || !shared.configured || shared.ejected
    }

    /// The serial port keeps the USB connector until the disk is opened.
    pub fn new() -> (disk: Self)
        ensures
            disk == (UsbDisk {
                controller: true,
                running: false,
                active: false,
                init_attempted: false,
            }),
    {
        UsbDisk { controller: true, running: false, active: false, init_attempted: false }
    }

    pub fn available(&self) -> (available: bool)
        ensures
            available == self.is_available(),
    {
        !self.init_attempted || self.running
    }

    /// Sees to it that the USB device runs: it is built once, and kept for the
    /// next time.
    pub fn initialize(&mut self) -> (start: UsbStart)
        ensures
            (start, *final(self)) == old(self).initialized(),
    {
        if self.running {
            return UsbStart::Running;
        }
        self.init_attempted = true;
        if !self.controller {
            return UsbStart::Unavailable;
        }
        self.controller = false;
        self.running = true;
        UsbStart::Build
    }

    /// Hands a card of so many blocks to the host; the USB device must run.
    pub fn attach(&mut self, shared: &mut SharedState, blocks: u32) -> (attached: bool)
        ensures
            attached == old(self).running,
            *final(self) == if attached {
                UsbDisk { active: true, ..*old(self) }
            } else {
                *old(self)
            },
            attached ==> *final(shared) == handed_over(*old(shared), blocks),
            !attached ==> *final(shared) == *old(shared),
    {
        if !self.running {
            return false;
        }
        shared.attach(blocks);
        self.active = true;
        true
    }

    /// The USB device has ended by itself.
    pub fn ended(&mut self)
        ensures
            *final(self) == (UsbDisk { active: false, ..*old(self) }),
    {
        self.active = false;
    }

    pub open spec fn state_with(self, shared: SharedState) -> UsbDiskState {
        if !self.active {
            UsbDiskState::Inactive
        } else if shared.ejected {
            UsbDiskState::Ejected
        } else if shared.configured {
            UsbDiskState::Mounted
        } else if shared.attached {
            UsbDiskState::Waiting
        } else {
            UsbDiskState::Inactive
        }
    }

    pub fn state(&self, shared: &SharedState) -> (state: UsbDiskState)
        ensures
            state == self.state_with(*shared),
    {
        if !self.active {
            return UsbDiskState::Inactive;
        }
        if shared.ejected() {
            UsbDiskState::Ejected
        } else if shared.configured() {
            UsbDiskState::Mounted
        } else if shared.attached() {
            UsbDiskState::Waiting
        } else {
            UsbDiskState::Inactive
        }
    }

    pub fn stats(&self, shared: &SharedState) -> (stats: Stats)
        ensures
            stats == shared.stats,
    {
        shared.stats()
    }

    /// Whether the card can be taken back without cutting the host off: it has
    /// ejected the card, or never mounted it.
    pub fn can_detach(&self, shared: &SharedState) -> (yes: bool)
        ensures
            yes == self.lets_go(*shared),
    {
        if !self.active {
            return true;
        }
        !shared.configured() || shared.ejected()
    }

    /// Takes the card back; `true` when the connector is to be given back to the
    /// serial port. The USB device is kept for the next time.
    pub fn detach(&mut self, shared: &mut SharedState) -> (restore: bool)
        ensures
            restore == old(self).active,
            *final(self) == (UsbDisk { active: false, ..*old(self) }),
            restore ==> *final(shared) == taken_away(*old(shared)),
            !restore ==> *final(shared) == *old(shared),
    {
        if self.active {
            shared.detach();
            self.active = false;
            true
        } else {
            false
        }
    }
}

/// The host can use a card that it was handed, all of it, and none once the card
/// was taken back. A card that comes again is of another generation, so that nothing
/// cached of the last one is used.
pub proof fn host_has_the_card_in_between(disk: UsbDisk, shared: SharedState, blocks: u32)
    requires
        disk.active,
    ensures
        handed_over(shared, blocks).usable_blocks() == blocks,
        disk.state_with(handed_over(shared, blocks)) != UsbDiskState::Inactive,
        handed_over(shared, blocks).generation != shared.generation,
        taken_away(shared).usable_blocks() == 0,
        taken_away(shared).generation == shared.generation,
        disk.state_with(taken_away(shared)) == UsbDiskState::Inactive,
{
}

/// The disk is built once, from the controller; afterwards it runs. Without a controller it is
/// unavailable, which shows only once it was tried.
pub proof fn disk_is_built_once(disk: UsbDisk)
    ensures
        ({
            let (start, after) = disk.initialized();
            &&& disk.running ==> start == UsbStart::Running && after == disk
            &&& !disk.running && disk.controller ==> {
                &&& start == UsbStart::Build
                &&& after.running && !after.controller
                &&& after.is_available()
                &&& after.initialized().0 == UsbStart::Running
            }
            &&& !disk.running && !disk.controller ==> {
                &&& start == UsbStart::Unavailable
                &&& !after.running
                &&& !after.is_available()
            }
            &&& after.active == disk.active
        }),
        !disk.init_attempted ==> disk.is_available(),
{
}

/// A card that is handed over has its capacity, is not ejected, and no traffic yet, and the
/// blocks cached before no longer count; one that is taken away has nothing.
pub proof fn handing_over_starts_anew(shared: SharedState, blocks: u32)
    ensures
        ({
            let after = handed_over(shared, blocks);
            &&& after.blocks == blocks
            &&& after.attached && !after.ejected
            &&& after.configured == shared.configured
            &&& after.stats.read_blocks == 0 && after.stats.write_blocks == 0
                && after.stats.cache_hit_blocks == 0
            &&& after.sense == no_sense()
            &&& shared.generation < u32::MAX ==> after.generation == shared.generation + 1
        }),
        ({
            let after = taken_away(shared);
            &&& after.blocks == 0
            &&& !after.attached && !after.configured && !after.ejected
            &&& after.stats == shared.stats
        }),
{
}

/// What the host makes of the card: it waits until the host has configured the disk, is mounted
/// until it is ejected, and nothing while the disk is not in use.
pub proof fn host_makes_its_way(disk: UsbDisk, shared: SharedState, elapsed: u64)
    ensures
        !disk.active ==> disk.state_with(shared) == UsbDiskState::Inactive && disk.lets_go(shared),
        disk.active && shared.ejected ==> disk.state_with(shared) == UsbDiskState::Ejected
            && disk.lets_go(shared),
        disk.active && !shared.ejected && shared.configured ==> disk.state_with(shared)
            == UsbDiskState::Mounted && !disk.lets_go(shared),
        disk.active && !shared.ejected && !shared.configured && shared.attached ==> disk.state_with(
            shared,
        ) == UsbDiskState::Waiting && disk.lets_go(shared),
        disk.active && !shared.ejected && !shared.configured && !shared.attached
            ==> disk.state_with(shared) == UsbDiskState::Inactive,
        polls_on(elapsed, true),
        polls_on(elapsed, false) <==> elapsed < 40 * 1_000,
{
}

} // verus!
