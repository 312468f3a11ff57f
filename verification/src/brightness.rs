//! The idle/activity state machine: whether the surface is in use or dimmed,
//! and which brightness write a timeout or an input asks for.
//!
//! The machine is purely reactive. It keeps no time; whoever drives it tells it
//! that the idle duration has elapsed or that input has arrived, performs the
//! write it asks for, and reports whether the write succeeded. Only a write
//! that succeeded changes the state, so after a failed write the same
//! transition is asked for again at the next occasion.

use vstd::prelude::*;

verus! {

/// Whether the surface is in use, and at which brightness, or dimmed.
#[derive(Debug, Clone, Copy, PartialEq, Eq, Structural)]
pub enum BrightnessState {
    /// In use, at the configured level.
    Active(u8),
    /// Dimmed after the idle duration passed without input.
    Dimmed,
}

/// A brightness write to the device.
#[derive(Debug, Clone, Copy, PartialEq, Eq, Structural)]
pub enum BrightnessWrite {
    /// The dedicated low-power write.
    Dim,
    /// The write of a brightness level.
    Level(u8),
}

/// The write that an elapsed idle duration asks for: the dimming write while
/// the surface is in use, none once it is dimmed.
pub open spec fn idle_write(state: BrightnessState) -> Option<BrightnessWrite> {
    match state {
        BrightnessState::Active(_) => Some(BrightnessWrite::Dim),
        BrightnessState::Dimmed => None,
    }
}

/// The write that arriving input asks for: the write of `level` while the
/// surface is dimmed, none while it is in use.
pub open spec fn input_write(state: BrightnessState, level: u8) -> Option<BrightnessWrite> {
    match state {
        BrightnessState::Active(_) => None,
        BrightnessState::Dimmed => Some(BrightnessWrite::Level(level)),
    }
}

/// The state that a successful write leaves the surface in.
pub open spec fn written(write: BrightnessWrite) -> BrightnessState {
    match write {
        BrightnessWrite::Dim => BrightnessState::Dimmed,
        BrightnessWrite::Level(level) => BrightnessState::Active(level),
    }
}

/// The state after `write` was attempted: the written one if it succeeded, the
/// state as it was if it failed.
pub open spec fn settled(
    state: BrightnessState,
    write: BrightnessWrite,
    succeeded: bool,
) -> BrightnessState {
    if succeeded {
        written(write)
    } else {
        state
    }
}

impl BrightnessState {
    /// The state of a surface that was just set up at `level`.
    pub fn initial(level: u8) -> (state: BrightnessState)
        ensures
            state == BrightnessState::Active(level),
    {
        BrightnessState::Active(level)
    }

    /// The write to perform because the idle duration elapsed without input.
    pub fn on_idle_timeout(&self) -> (write: Option<BrightnessWrite>)
        ensures
            write == idle_write(*self),
    {
        match self {
            BrightnessState::Active(_) => Some(BrightnessWrite::Dim),
            BrightnessState::Dimmed => None,
        }
    }

    /// The write to perform because input arrived, `level` being the
    /// configured brightness.
    pub fn on_input(&self, level: u8) -> (write: Option<BrightnessWrite>)
        ensures
            write == input_write(*self, level),
    {
        match self {
            BrightnessState::Active(_) => None,
            BrightnessState::Dimmed => Some(BrightnessWrite::Level(level)),
        }
    }

    /// Records the outcome of `write`.
    pub fn settle(&mut self, write: BrightnessWrite, succeeded: bool)
        ensures
            *final(self) == settled(*old(self), write, succeeded),
    {
        if succeeded {
            *self = match write {
                BrightnessWrite::Dim => BrightnessState::Dimmed,
                BrightnessWrite::Level(level) => BrightnessState::Active(level),
            };
        }
    }
}

/// However often the idle duration elapses in a row, only the first time asks
/// for a write, provided that write succeeds: once dimmed, a timeout asks for
/// nothing and leaves the state as it is.
pub proof fn lemma_dimmed_absorbs_timeouts(state: BrightnessState)
    ensures
        idle_write(state) matches Some(write) ==> idle_write(settled(state, write, true)) is None,
        idle_write(state) is None ==> state == BrightnessState::Dimmed,
{
}

/// While the surface is in use, input asks for no write; while it is dimmed,
/// input asks for one write, after whose success further input asks for none.
pub proof fn lemma_active_absorbs_input(state: BrightnessState, level: u8)
    ensures
        input_write(state, level) matches Some(write) ==> input_write(
            settled(state, write, true),
            level,
        ) is None,
        state is Active ==> input_write(state, level) is None,
{
}

/// A failed write changes nothing, so the transition it stood for is asked for
/// again at the next occasion.
pub proof fn lemma_failed_write_is_retried(
    state: BrightnessState,
    write: BrightnessWrite,
    level: u8,
)
    ensures
        settled(state, write, false) == state,
        idle_write(settled(state, write, false)) == idle_write(state),
        input_write(settled(state, write, false), level) == input_write(state, level),
{
}

} // verus!
