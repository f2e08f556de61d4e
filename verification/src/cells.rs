//! The three cells that make up the shared settings. Any thread may read or
//! write one at any time; no cell is ever held across another operation.
//!
//! A cell promises nothing about what a read returns: another thread may have
//! written in between. What is done with the value read is decided by
//! functions that take it as an argument.

use crate::hotkey::Hotkey;
use std::sync::atomic::AtomicBool;
use std::sync::atomic::AtomicU32;
use std::sync::atomic::Ordering;
use std::sync::Mutex;
use vstd::prelude::*;

verus! {

/// `std::sync::Mutex`, carried as an opaque value: nothing is known of what
/// it holds.
#[verifier::external_type_specification]
#[verifier::external_body]
#[verifier::reject_recursive_types(T)]
pub struct ExMutex<T: ?Sized>(Mutex<T>);

/// `std::sync::Mutex::new`: a fresh, unlocked mutex around `key`. Nothing is
/// claimed of it.
#[verifier::external_body]
fn mutex_new(key: Hotkey) -> Mutex<Hotkey> {
    Mutex::new(key)
}

/// `std::sync::Mutex::lock`, held just long enough to copy the key out.
/// Nothing is claimed of the key returned. A poisoned mutex still yields its
/// key, so the call does not panic; the guard never leaves this function, so
/// it cannot block on a lock that the caller holds.
#[verifier::external_body]
fn mutex_read(slot: &Mutex<Hotkey>) -> Hotkey {
    match slot.lock() {
        Ok(guard) => *guard,
        Err(poisoned) => *poisoned.into_inner(),
    }
}

/// `std::sync::Mutex::lock`, held just long enough to put `key` in. A
/// poisoned mutex is written all the same, so the call does not panic; the
/// guard never leaves this function.
#[verifier::external_body]
fn mutex_write(slot: &Mutex<Hotkey>, key: Hotkey) {
    match slot.lock() {
        Ok(mut guard) => *guard = key,
        Err(poisoned) => *poisoned.into_inner() = key,
    }
}

/// A flag read and written lock-free, with relaxed ordering.
pub(crate) struct FlagCell {
    bits: AtomicBool,
}

impl FlagCell {
    /// A cell that holds `value` until a thread writes it. The cell is
    /// opaque: no clause can speak of what it holds.
    pub(crate) fn new(value: bool) -> FlagCell {
        FlagCell { bits: AtomicBool::new(value) }
    }

    /// The flag as it stands at the moment of the read. Any thread may have
    /// written since the caller last looked, so either value may come back.
    pub(crate) fn get(&self) -> bool {
        self.bits.load(Ordering::Relaxed)
    }

    /// Puts `value` in the cell.
    pub(crate) fn set(&self, value: bool) {
        self.bits.store(value, Ordering::Relaxed)
    }
}

/// A number of milliseconds read and written lock-free, with relaxed
/// ordering.
pub(crate) struct MillisCell {
    bits: AtomicU32,
}

impl MillisCell {
    /// A cell that holds `ms` until a thread writes it. The cell is opaque: no
    /// clause can speak of what it holds.
    pub(crate) fn new(ms: u32) -> MillisCell {
        MillisCell { bits: AtomicU32::new(ms) }
    }

    /// The number as it stands at the moment of the read. Any thread may
    /// have written since the caller last looked, so any number may come
    /// back; the caller brings it into the range it needs.
    pub(crate) fn get(&self) -> u32 {
        self.bits.load(Ordering::Relaxed)
    }

    /// Puts `ms` in the cell.
    pub(crate) fn set(&self, ms: u32) {
        self.bits.store(ms, Ordering::Relaxed)
    }
}

/// A hotkey read and written under a lock that is released before the call
/// returns.
pub(crate) struct KeyCell {
    slot: Mutex<Hotkey>,
}

impl KeyCell {
    /// A cell that holds `key` until a thread writes it. The cell is opaque:
    /// no clause can speak of what it holds.
    pub(crate) fn new(key: Hotkey) -> KeyCell {
        KeyCell { slot: mutex_new(key) }
    }

    /// The key as it stands at the moment of the read. Any thread may have
    /// written since the caller last looked, so any key may come back.
    pub(crate) fn get(&self) -> Hotkey {
        mutex_read(&self.slot)
    }

    /// Puts `key` in the cell.
    pub(crate) fn set(&self, key: Hotkey) {
        mutex_write(&self.slot, key)
    }
}

} // verus!
