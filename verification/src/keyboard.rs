//! Navigation keys of the keyboard: the course of its key controller, and what its
//! events mean.

use vstd::prelude::*;

verus! {

// Registers of the key controller.
/// Configuration; its lowest bit enables the event queue.
pub const REG_CFG: u8 = 0x01;

/// The low half counts the events in the queue.
pub const REG_KEY_LCK_EC: u8 = 0x03;

/// Reading it takes one event from the queue.
pub const REG_KEY_EVENT_A: u8 = 0x04;

/// The rows of the matrix.
pub const REG_KP_GPIO1: u8 = 0x1d;

/// The first eight columns of the matrix.
pub const REG_KP_GPIO2: u8 = 0x1e;

/// The other columns of the matrix.
pub const REG_KP_GPIO3: u8 = 0x1f;

/// Most events that the queue can hold at the start, and one read more.
pub const MAX_DRAIN_READS: u8 = 11;

// Indices of the keys in the keyboard's matrix of seven rows and eight columns.
pub const IDX_TAB: u8 = 1;

pub const IDX_ARROW_LEFT: u8 = 43;

pub const IDX_ARROW_UP: u8 = 46;

pub const IDX_ARROW_DOWN: u8 = 47;

pub const IDX_ARROW_RIGHT: u8 = 51;

pub const IDX_BACKSPACE: u8 = 52;

pub const IDX_ENTER: u8 = 54;

pub const IDX_SPACE: u8 = 55;

#[derive(Clone, Copy, Debug, PartialEq, Eq, Structural)]
pub enum NavKey {
    Tab,
    Enter,
    Backspace,
    Space,
    ArrowUp,
    ArrowDown,
    ArrowLeft,
    ArrowRight,
    /// The matrix index of any other key.
    Other(u8),
}

/// The matrix index of an event code, which counts from one and ten columns per
/// row, of which eight are wired.
pub open spec fn matrix_index(code: int) -> int {
    (code - code / 10 * 2 - 1) % 256
}

/// The key at a matrix index.
pub open spec fn key_at(index: int) -> NavKey {
    if index == IDX_TAB {
        NavKey::Tab
    } else if index == IDX_BACKSPACE {
        NavKey::Backspace
    } else if index == IDX_ENTER {
        NavKey::Enter
    } else if index == IDX_SPACE {
        NavKey::Space
    } else if index == IDX_ARROW_UP {
        NavKey::ArrowUp
    } else if index == IDX_ARROW_DOWN {
        NavKey::ArrowDown
    } else if index == IDX_ARROW_LEFT {
        NavKey::ArrowLeft
    } else if index == IDX_ARROW_RIGHT {
        NavKey::ArrowRight
    } else {
        NavKey::Other(index as u8)
    }
}

/// The key that an event presses: releases and empty slots press none.
pub open spec fn pressed_key(raw: u8) -> Option<NavKey> {
    if raw == 0xff || raw < 128 {
        None
    } else {
        Some(key_at(matrix_index(raw - 128)))
    }
}

/// The key that an event presses; `None` also where it could not be read.
fn nav_key(event: Option<u8>) -> (key: Option<NavKey>)
    ensures
        key == match event {
            Some(raw) => pressed_key(raw),
            None => None,
        },
{
    let raw: u8 = match event {
        Some(raw) => raw,
        None => {
            return None;
        },
    };
    if raw == 0xff || raw < 128 {
        return None;
    }
    let code: u8 = raw - 128;
    let index: u8 = code.wrapping_sub((code / 10) * 2).wrapping_sub(1);
    assert(index == matrix_index(code as int));
    Some(
        if index == IDX_TAB {
            NavKey::Tab
        } else if index == IDX_BACKSPACE {
            NavKey::Backspace
        } else if index == IDX_ENTER {
            NavKey::Enter
        } else if index == IDX_SPACE {
            NavKey::Space
        } else if index == IDX_ARROW_UP {
            NavKey::ArrowUp
        } else if index == IDX_ARROW_DOWN {
            NavKey::ArrowDown
        } else if index == IDX_ARROW_LEFT {
            NavKey::ArrowLeft
        } else if index == IDX_ARROW_RIGHT {
            NavKey::ArrowRight
        } else {
            NavKey::Other(index)
        },
    )
}

/// What the controller is doing.
#[derive(Clone, Copy, Debug, PartialEq, Eq, Structural)]
pub enum KeyStage {
    /// The registers are written, from the one with this number on.
    Setup(u8),
    /// Stale events of the boot are drained; so many reads are left.
    Drain(u8),
    Ready,
    /// The events in the queue are counted.
    Count,
    /// An event is taken from the queue.
    Take,
}

/// What the controller is asked for.
#[derive(Clone, Copy, Debug, PartialEq, Eq, Structural)]
pub enum KeyQuery {
    Write { register: u8, value: u8 },
    Read { register: u8 },
}

/// The registers that are written at the start: seven rows and eight columns, and
/// the event queue.
pub open spec fn setup_writes() -> Seq<(u8, u8)> {
    seq![
        (REG_KP_GPIO1, 0x7fu8),
        (REG_KP_GPIO2, 0xffu8),
        (REG_KP_GPIO3, 0x00u8),
        (REG_CFG, 0x01u8),
    ]
}

/// What a stage asks for.
pub open spec fn stage_query(stage: KeyStage) -> Option<KeyQuery> {
    match stage {
        KeyStage::Setup(number) => if number < setup_writes().len() {
            Some(
                KeyQuery::Write {
                    register: setup_writes()[number as int].0,
                    value: setup_writes()[number as int].1,
                },
            )
        } else {
            None
        },
        KeyStage::Drain(reads) => Some(KeyQuery::Read { register: REG_KEY_EVENT_A }),
        KeyStage::Ready => None,
        KeyStage::Count => Some(KeyQuery::Read { register: REG_KEY_LCK_EC }),
        KeyStage::Take => Some(KeyQuery::Read { register: REG_KEY_EVENT_A }),
    }
}

/// The stage after a reply: what was read, or `None` where nothing could be. What
/// comes of a write does not matter.
pub open spec fn stage_next(stage: KeyStage, reply: Option<u8>) -> KeyStage {
    match stage {
        KeyStage::Setup(number) => if number + 1 < setup_writes().len() {
            KeyStage::Setup((number + 1) as u8)
        } else {
            KeyStage::Drain(MAX_DRAIN_READS)
        },
        KeyStage::Drain(reads) => match reply {
            Some(raw) => if raw == 0xff || raw == 0 || reads <= 1 {
                KeyStage::Ready
            } else {
                KeyStage::Drain((reads - 1) as u8)
            },
            None => KeyStage::Ready,
        },
        KeyStage::Ready => KeyStage::Ready,
        KeyStage::Count => match reply {
            Some(count) => if count % 16 == 0 {
                KeyStage::Ready
            } else {
                KeyStage::Take
            },
            None => KeyStage::Ready,
        },
        KeyStage::Take => KeyStage::Ready,
    }
}

/// The keyboard.
#[derive(Clone, Copy, Debug, PartialEq, Eq, Structural)]
pub struct Keyboard {
    pub stage: KeyStage,
}

/// The stage once a key is asked for.
pub open spec fn stage_asked(stage: KeyStage) -> KeyStage {
    if stage == KeyStage::Ready {
        KeyStage::Count
    } else {
        stage
    }
}

/// The key that a reply tells of.
pub open spec fn key_told(stage: KeyStage, reply: Option<u8>) -> Option<NavKey> {
    match (stage, reply) {
        (KeyStage::Take, Some(raw)) => pressed_key(raw),
        _ => None,
    }
}

impl Keyboard {
    /// A keyboard whose controller is to be set up.
    pub fn new() -> (keyboard: Self)
        ensures
            keyboard.stage == KeyStage::Setup(0),
    {
        Keyboard { stage: KeyStage::Setup(0) }
    }

    /// Begins to look for a key, once the controller is ready.
    pub fn next_nav_key(&mut self)
        ensures
            final(self).stage == stage_asked(old(self).stage),
    {
        if self.stage == KeyStage::Ready {
            self.stage = KeyStage::Count;
        }
    }

    /// What the controller is asked for; `None` when nothing.
    pub fn query(&self) -> (query: Option<KeyQuery>)
        ensures
            query == stage_query(self.stage),
    {
        match self.stage {
            KeyStage::Setup(number) => {
                if number == 0 {
                    Some(KeyQuery::Write { register: REG_KP_GPIO1, value: 0x7f })
                } else if number == 1 {
                    Some(KeyQuery::Write { register: REG_KP_GPIO2, value: 0xff })
                } else if number == 2 {
                    Some(KeyQuery::Write { register: REG_KP_GPIO3, value: 0x00 })
                } else if number == 3 {
                    Some(KeyQuery::Write { register: REG_CFG, value: 0x01 })
                } else {
                    None
                }
            },
            KeyStage::Drain(_) => Some(KeyQuery::Read { register: REG_KEY_EVENT_A }),
            KeyStage::Ready => None,
            KeyStage::Count => Some(KeyQuery::Read { register: REG_KEY_LCK_EC }),
            KeyStage::Take => Some(KeyQuery::Read { register: REG_KEY_EVENT_A }),
        }
    }

    /// Takes what was read; the key that an event presses, if it presses one.
    pub fn resume(&mut self, reply: Option<u8>) -> (key: Option<NavKey>)
        ensures
            final(self).stage == stage_next(old(self).stage, reply),
            key == key_told(old(self).stage, reply),
    {
        match self.stage {
            KeyStage::Setup(number) => {
                self.stage = if number < 3 {
                    KeyStage::Setup(number + 1)
                } else {
                    KeyStage::Drain(MAX_DRAIN_READS)
                };
                None
            },
            KeyStage::Drain(reads) => {
                self.stage = match reply {
                    Some(raw) => if raw == 0xff || raw == 0 || reads <= 1 {
                        KeyStage::Ready
                    } else {
                        KeyStage::Drain(reads - 1)
                    },
                    None => KeyStage::Ready,
                };
                None
            },
            KeyStage::Ready => None,
            KeyStage::Count => {
                self.stage = match reply {
                    Some(count) => if count % 16 == 0 {
                        KeyStage::Ready
                    } else {
                        KeyStage::Take
                    },
                    None => KeyStage::Ready,
                };
                None
            },
            KeyStage::Take => {
                self.stage = KeyStage::Ready;
                nav_key(reply)
            },
        }
    }
}

/// Every wired key of the matrix has an event of its own.
pub proof fn keys_have_their_events(row: int, column: int)
    requires
        0 <= row < 7,
        0 <= column < 8,
    ensures
        matrix_index(row * 10 + column + 1) == row * 8 + column,
{
}

/// How many queries a stage is away from rest.
pub open spec fn queries_left(stage: KeyStage) -> int {
    match stage {
        KeyStage::Setup(number) => 13 + (if number < 4 {
            4 - number
        } else {
            0
        }),
        KeyStage::Drain(reads) => reads as int + 1,
        KeyStage::Ready => 0,
        KeyStage::Count => 2,
        KeyStage::Take => 1,
    }
}

/// The controller comes to rest whatever it answers: each reply leaves fewer
/// queries.
pub proof fn controller_comes_to_rest(stage: KeyStage, reply: Option<u8>)
    requires
        stage != KeyStage::Ready,
    ensures
        0 <= queries_left(stage_next(stage, reply)) < queries_left(stage),
{
}

/// The keys that have a meaning sit at their places in the matrix of seven rows and ten numbers
/// a row, of which eight are columns; the others are told by their place.
pub proof fn keys_sit_at_their_places(raw: u8)
    requires
        128 < raw < 255,
        (raw - 129) % 10 < 8,
    ensures
        ({
            let row = (raw - 129) / 10;
            let column = (raw - 129) % 10;
            let place = 8 * row + column;
            let key = pressed_key(raw);
            &&& key == Some(NavKey::Tab) <==> place == 1
            &&& key == Some(NavKey::ArrowLeft) <==> place == 43
            &&& key == Some(NavKey::ArrowUp) <==> place == 46
            &&& key == Some(NavKey::ArrowDown) <==> place == 47
            &&& key == Some(NavKey::ArrowRight) <==> place == 51
            &&& key == Some(NavKey::Backspace) <==> place == 52
            &&& key == Some(NavKey::Enter) <==> place == 54
            &&& key == Some(NavKey::Space) <==> place == 55
            &&& key is Some
            &&& key matches Some(NavKey::Other(other)) ==> other == place
        }),
{
}

/// Releases and an empty queue tell of no key.
pub proof fn releases_are_no_keys(raw: u8)
    ensures
        raw < 128 ==> pressed_key(raw) is None,
        pressed_key(255) is None,
        128 <= raw < 255 ==> pressed_key(raw) is Some,
{
}

/// The course of the controller: four registers are written that make a matrix of seven rows and
/// eight columns and switch its events on, then up to eleven old events are thrown away; it is
/// then at rest. For a key, the number of events is read, and the event if there is one.
pub proof fn controller_is_set_up_and_read(reply: Option<u8>, count: u8, reads: u8)
    ensures
        stage_query(KeyStage::Setup(0)) == Some(KeyQuery::Write { register: 29, value: 127 }),
        stage_query(KeyStage::Setup(1)) == Some(KeyQuery::Write { register: 30, value: 255 }),
        stage_query(KeyStage::Setup(2)) == Some(KeyQuery::Write { register: 31, value: 0 }),
        stage_query(KeyStage::Setup(3)) == Some(KeyQuery::Write { register: 1, value: 1 }),
        stage_next(KeyStage::Setup(0), reply) == KeyStage::Setup(1),
        stage_next(KeyStage::Setup(1), reply) == KeyStage::Setup(2),
        stage_next(KeyStage::Setup(2), reply) == KeyStage::Setup(3),
        stage_next(KeyStage::Setup(3), reply) == KeyStage::Drain(11),
        stage_query(KeyStage::Drain(reads)) == Some(KeyQuery::Read { register: 4 }),
        reads > 1 && 0 < count < 255 ==> stage_next(KeyStage::Drain(reads), Some(count))
            == KeyStage::Drain((reads - 1) as u8),
        stage_next(KeyStage::Drain(1), reply) == KeyStage::Ready,
        stage_next(KeyStage::Drain(reads), Some(0)) == KeyStage::Ready,
        stage_next(KeyStage::Drain(reads), Some(255)) == KeyStage::Ready,
        stage_next(KeyStage::Drain(reads), None) == KeyStage::Ready,
        stage_query(KeyStage::Ready) is None,
        stage_asked(KeyStage::Ready) == KeyStage::Count,
        stage_asked(KeyStage::Drain(reads)) == KeyStage::Drain(reads),
        stage_query(KeyStage::Count) == Some(KeyQuery::Read { register: 3 }),
        count % 16 > 0 ==> stage_next(KeyStage::Count, Some(count)) == KeyStage::Take,
        count % 16 == 0 ==> stage_next(KeyStage::Count, Some(count)) == KeyStage::Ready,
        stage_next(KeyStage::Count, None) == KeyStage::Ready,
        stage_query(KeyStage::Take) == Some(KeyQuery::Read { register: 4 }),
        stage_next(KeyStage::Take, reply) == KeyStage::Ready,
        key_told(KeyStage::Take, Some(count)) == pressed_key(count),
        key_told(KeyStage::Take, None) is None,
        key_told(KeyStage::Count, reply) is None,
        key_told(KeyStage::Drain(reads), reply) is None,
{
}

} // verus!
