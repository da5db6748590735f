//! What triggers the spell: the clock, connections, blocks of a chain.
//!
//! The config is one value, replaced as a whole by each write. Only the
//! creator of the service may write it.

use crate::auth::roles::{by_creator, is_by_creator, CallContext};
use crate::error::{debug_text, error_text, SpellError, SpellErrorView};
use crate::kv::primitive::accepted;
use crate::value::{SpellValueT, UnitValue};
use vstd::prelude::*;

verus! {

/// Triggering by the clock.
#[derive(Debug, Clone, Copy, PartialEq, Eq, Structural)]
pub struct ClockConfig {
    /// When to start triggering, as Unix time. 0 means 'do not run'.
    pub start_sec: u32,
    /// When to stop triggering, as Unix time: the spell is not triggered
    /// after it. 0 means 'never stop'.
    pub end_sec: u32,
    /// How often to trigger. 0 means 'do not subscribe'.
    /// The host's clock has its resolution: a host may replace a small period
    /// by a bigger one.
    pub period_sec: u32,
}

/// Triggering by blocks of a chain.
#[derive(Debug, Clone, Copy, PartialEq, Eq, Structural)]
pub struct BlockChainConfig {
    /// The block from which to trigger. 0 means 'do not subscribe'.
    pub start_block: u32,
    /// The block until which to trigger. 0 means 'never stop'.
    pub end_block: u32,
}

/// Triggering by connections.
#[derive(Debug, Clone, Copy, PartialEq, Eq, Structural)]
pub struct ConnectionPoolConfig {
    /// Whether to trigger when a peer connects.
    pub connect: bool,
    /// Whether to trigger when a peer disconnects.
    pub disconnect: bool,
}

/// All triggers of a spell.
#[derive(Debug, Clone, Copy, PartialEq, Eq, Structural)]
pub struct TriggerConfig {
    /// Trigger the spell by the clock.
    pub clock: ClockConfig,
    /// Trigger the spell when peers connect or disconnect.
    pub connections: ConnectionPoolConfig,
    /// Trigger the spell by blocks of a chain.
    pub blockchain: BlockChainConfig,
}

/// The config that triggers nothing.
pub open spec fn no_triggers() -> TriggerConfig {
    TriggerConfig {
        clock: ClockConfig { start_sec: 0, end_sec: 0, period_sec: 0 },
        connections: ConnectionPoolConfig { connect: false, disconnect: false },
        blockchain: BlockChainConfig { start_block: 0, end_block: 0 },
    }
}

impl Default for ClockConfig {
    fn default() -> (r: Self)
        ensures
            r == no_triggers().clock,
    {
        ClockConfig { start_sec: 0, end_sec: 0, period_sec: 0 }
    }
}

impl Default for BlockChainConfig {
    fn default() -> (r: Self)
        ensures
            r == no_triggers().blockchain,
    {
        BlockChainConfig { start_block: 0, end_block: 0 }
    }
}

impl Default for ConnectionPoolConfig {
    fn default() -> (r: Self)
        ensures
            r == no_triggers().connections,
    {
        ConnectionPoolConfig { connect: false, disconnect: false }
    }
}

impl Default for TriggerConfig {
    fn default() -> (r: Self)
        ensures
            r == no_triggers(),
    {
        TriggerConfig {
            clock: ClockConfig::default(),
            connections: ConnectionPoolConfig::default(),
            blockchain: BlockChainConfig::default(),
        }
    }
}

/// The result of reading the trigger config.
#[derive(Debug, Clone, PartialEq, Eq)]
pub struct TriggerConfigValue {
    pub config: TriggerConfig,
    pub success: bool,
    pub error: String,
}

impl Default for TriggerConfigValue {
    fn default() -> (r: Self)
        ensures
            r.config == no_triggers(),
            !r.success,
            r.error@ == Seq::<char>::empty(),
    {
        TriggerConfigValue { config: TriggerConfig::default(), success: false, error: String::new() }
    }
}

impl SpellValueT for TriggerConfigValue {
    open spec fn succeeded(&self) -> bool {
        self.success
    }

    open spec fn failure_text(&self) -> Seq<char> {
        self.error@
    }

    fn is_success(&self) -> (r: bool) {
        self.success
    }

    fn take_error(self) -> (r: String) {
        self.error
    }
}

/// A stored integer cut down to 32 bits, as the cast `as u32` does it. A
/// value from 0 to `u32::MAX` stays what it is.
pub open spec fn low_u32(v: i64) -> u32 {
    v as u32
}

/// Reads a `u32` back from the integer it was stored as.
pub fn u32_from_column(v: i64) -> (r: u32)
    ensures
        r == low_u32(v),
        0 <= v <= u32::MAX ==> r == v,
{
    #[verifier::truncate]
    (v as u32)
}

impl TriggerConfig {
    /// The config that the seven columns of a stored row stand for: numbers
    /// by their low 32 bits, flags by whether they are not 0.
    pub fn from_columns(
        start_sec: i64,
        end_sec: i64,
        period_sec: i64,
        connect: i64,
        disconnect: i64,
        start_block: i64,
        end_block: i64,
    ) -> (r: Self)
        ensures
            r == (TriggerConfig {
                clock: ClockConfig {
                    start_sec: low_u32(start_sec),
                    end_sec: low_u32(end_sec),
                    period_sec: low_u32(period_sec),
                },
                connections: ConnectionPoolConfig {
                    connect: connect != 0,
                    disconnect: disconnect != 0,
                },
                blockchain: BlockChainConfig {
                    start_block: low_u32(start_block),
                    end_block: low_u32(end_block),
                },
            }),
    {
        TriggerConfig {
            clock: ClockConfig {
                start_sec: u32_from_column(start_sec),
                end_sec: u32_from_column(end_sec),
                period_sec: u32_from_column(period_sec),
            },
            connections: ConnectionPoolConfig { connect: connect != 0, disconnect: disconnect != 0 },
            blockchain: BlockChainConfig {
                start_block: u32_from_column(start_block),
                end_block: u32_from_column(end_block),
            },
        }
    }
}

/// Replaces the stored config by `config`, if the caller is the creator of
/// the service. Anyone else is answered with the error
/// `SetTriggerConfigForbidden`, rendered as the value it is.
pub fn set_trigger_config(stored: &mut Option<TriggerConfig>, ctx: &CallContext, config: TriggerConfig) -> (r:
    UnitValue)
    ensures
        r.success == by_creator(ctx@),
        r.success ==> accepted(r) && *final(stored) == Some(config),
        !r.success ==> r.error@ == debug_text(SpellErrorView::SetTriggerConfigForbidden) && *final(stored) == *old(stored),
{
    if !is_by_creator(ctx) {
        return UnitValue::from(SpellError::SetTriggerConfigForbidden);
    }
    *stored = Some(config);
    UnitValue::ok()
}

/// The stored config. Where none was ever set the result is a failure.
pub fn get_trigger_config(stored: &Option<TriggerConfig>) -> (r: TriggerConfigValue)
    ensures
        match *stored {
            Some(config) => r.success && r.config == config && r.error@ == Seq::<char>::empty(),
            None => !r.success && r.config == no_triggers() && r.error@ == error_text(
                SpellErrorView::NoTriggerConfig,
            ),
        },
{
    match stored {
        Some(config) => TriggerConfigValue { config: *config, success: true, error: String::new() },
        None => TriggerConfigValue {
            config: TriggerConfig::default(),
            success: false,
            error: SpellError::NoTriggerConfig.message(),
        },
    }
}

} // verus!
