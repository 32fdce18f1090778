//! Clock-rate negotiation for the eMMC board: the fixed table of transfer
//! rates the clock controller can synthesize, and the no-retry negotiation
//! state machine run once before host-controller initialization.

use vstd::prelude::*;

verus! {

/// Clock id under which the storage core clock is addressed.
pub const EMMC_CLK_ID: usize = 0x7c;

/// One megahertz, in hertz.
pub const MHZ: u64 = 1_000_000;

/// One kilohertz, in hertz.
pub const KHZ: u64 = 1_000;

/// The discrete sources the clock controller can select for the storage core
/// clock; each supported transfer rate maps to exactly one of them.
#[derive(Clone, Copy, Debug, PartialEq, Eq, Structural)]
pub enum EmmcClockSource {
    /// 24 MHz crystal input.
    Xin24M,
    /// CPLL divider, 50 MHz (also serves 52 MHz requests).
    CplDiv50M,
    /// CPLL divider, 100 MHz.
    CplDiv100M,
    /// GPLL divider, 150 MHz.
    GplDiv150M,
    /// GPLL divider, 200 MHz.
    GplDiv200M,
    /// Fixed 375 kHz source (also serves 400 kHz requests).
    Soc0Div375K,
}

/// Probe-time clock configuration failures; each is fatal for the one device
/// being probed.
#[derive(Clone, Copy, Debug, PartialEq, Eq, Structural)]
pub enum ClockConfigError {
    /// The clock id is not one this controller serves.
    InvalidClockId,
    /// The requested rate is outside the supported table: the controller
    /// cannot synthesize arbitrary frequencies.
    UnsupportedRate(u64),
}

/// The source selected for a requested rate, or `None` where the rate is
/// outside the supported table.
pub open spec fn spec_rate_to_source(rate: u64) -> Option<EmmcClockSource> {
    if rate == 24 * MHZ {
        Some(EmmcClockSource::Xin24M)
    } else if rate == 52 * MHZ || rate == 50 * MHZ {
        Some(EmmcClockSource::CplDiv50M)
    } else if rate == 100 * MHZ {
        Some(EmmcClockSource::CplDiv100M)
    } else if rate == 150 * MHZ {
        Some(EmmcClockSource::GplDiv150M)
    } else if rate == 200 * MHZ {
        Some(EmmcClockSource::GplDiv200M)
    } else if rate == 400 * KHZ || rate == 375 * KHZ {
        Some(EmmcClockSource::Soc0Div375K)
    } else {
        None
    }
}

/// Resolves a requested transfer rate against the fixed table of synthesizable
/// rates; `None` marks a fatal configuration error.
pub fn rate_to_source(rate: u64) -> (r: Option<EmmcClockSource>)
    ensures
        r == spec_rate_to_source(rate),
{
    if rate == 24 * MHZ {
        Some(EmmcClockSource::Xin24M)
    } else if rate == 52 * MHZ || rate == 50 * MHZ {
        Some(EmmcClockSource::CplDiv50M)
    } else if rate == 100 * MHZ {
        Some(EmmcClockSource::CplDiv100M)
    } else if rate == 150 * MHZ {
        Some(EmmcClockSource::GplDiv150M)
    } else if rate == 200 * MHZ {
        Some(EmmcClockSource::GplDiv200M)
    } else if rate == 400 * KHZ || rate == 375 * KHZ {
        Some(EmmcClockSource::Soc0Div375K)
    } else {
        None
    }
}

/// What a set-rate request decides: the source to program for the storage
/// core clock, or the configuration error to fail the probe with.
pub open spec fn spec_select_rate(id: usize, rate: u64) -> Result<
    EmmcClockSource,
    ClockConfigError,
> {
    if id != EMMC_CLK_ID {
        Err(ClockConfigError::InvalidClockId)
    } else {
        match spec_rate_to_source(rate) {
            Some(src) => Ok(src),
            None => Err(ClockConfigError::UnsupportedRate(rate)),
        }
    }
}

/// Decides a set-rate request: only the storage core clock id is served, and
/// only the rates of the fixed table; everything else is a configuration
/// error, fatal at probe time.
pub fn select_rate(id: usize, rate: u64) -> (r: Result<EmmcClockSource, ClockConfigError>)
    ensures
        r == spec_select_rate(id, rate),
{
    if id != EMMC_CLK_ID {
        return Err(ClockConfigError::InvalidClockId);
    }
    match rate_to_source(rate) {
        Some(src) => Ok(src),
        None => Err(ClockConfigError::UnsupportedRate(rate)),
    }
}

/// Bit position of the storage core-clock selector field within its
/// clock-controller register.
pub const CCLK_EMMC_FIELD_POS: u32 = 12;

/// The selector field value that programs each source, before shifting into
/// register position.
pub open spec fn spec_source_field(s: EmmcClockSource) -> u32 {
    match s {
        EmmcClockSource::Xin24M => 0,
        EmmcClockSource::GplDiv200M => 1,
        EmmcClockSource::GplDiv150M => 2,
        EmmcClockSource::CplDiv100M => 3,
        EmmcClockSource::CplDiv50M => 4,
        EmmcClockSource::Soc0Div375K => 5,
    }
}

/// The selector field value for a source.
pub fn source_field(s: EmmcClockSource) -> (r: u32)
    ensures
        r == spec_source_field(s),
{
    match s {
        EmmcClockSource::Xin24M => 0,
        EmmcClockSource::GplDiv200M => 1,
        EmmcClockSource::GplDiv150M => 2,
        EmmcClockSource::CplDiv100M => 3,
        EmmcClockSource::CplDiv50M => 4,
        EmmcClockSource::Soc0Div375K => 5,
    }
}

/// The selector bits as written to the clock-controller register: the field
/// value shifted into position.
pub fn source_selector_bits(s: EmmcClockSource) -> (r: u32)
    ensures
        r == spec_source_field(s) << CCLK_EMMC_FIELD_POS,
{
    source_field(s) << CCLK_EMMC_FIELD_POS
}

/// Decides a get-rate request from the selector register value the clock
/// controller reported: only the storage core clock id is served, and the
/// reported value is the selector field shifted back out of position.
pub fn decode_rate(id: usize, con: u32) -> (r: Result<u64, ClockConfigError>)
    ensures
        id == EMMC_CLK_ID ==> r == Ok::<u64, ClockConfigError>(
            (con >> CCLK_EMMC_FIELD_POS) as u64,
        ),
        id != EMMC_CLK_ID ==> r == Err::<u64, ClockConfigError>(ClockConfigError::InvalidClockId),
{
    if id == EMMC_CLK_ID {
        Ok((con >> CCLK_EMMC_FIELD_POS) as u64)
    } else {
        Err(ClockConfigError::InvalidClockId)
    }
}

/// Bridge between the eMMC host-controller library's clock hooks and the
/// separately probed clock controller, addressed by this core-clock index.
#[derive(Clone, Copy, Debug, PartialEq, Eq, Structural)]
pub struct EmmcClk {
    pub core_clk_index: usize,
}

impl EmmcClk {
    /// A bridge that resolves rates through the given core-clock index.
    pub fn new(core_clk_index: usize) -> (r: EmmcClk)
        ensures
            r.core_clk_index == core_clk_index,
    {
        EmmcClk { core_clk_index }
    }
}

/// State of one device's clock negotiation. It runs once, strictly before any
/// queue adapter exists, and never retries.
#[derive(Clone, Copy, Debug, PartialEq, Eq, Structural)]
pub enum ClockNegotiation {
    /// No rate has been requested yet.
    Unnegotiated,
    /// The requested rate resolved to this source and was applied.
    RateApplied(EmmcClockSource),
    /// The requested rate is not synthesizable: the probe aborts.
    Fatal,
}

/// One negotiation step: a request only acts on the unnegotiated state; the
/// two outcomes are terminal, with no retry.
pub open spec fn spec_negotiate(s: ClockNegotiation, rate: u64) -> ClockNegotiation {
    match s {
        ClockNegotiation::Unnegotiated => match spec_rate_to_source(rate) {
            Some(src) => ClockNegotiation::RateApplied(src),
            None => ClockNegotiation::Fatal,
        },
        _ => s,
    }
}

/// Runs one clock-negotiation step for a requested rate.
pub fn negotiate(s: ClockNegotiation, rate: u64) -> (r: ClockNegotiation)
    ensures
        r == spec_negotiate(s, rate),
        s is Unnegotiated && spec_rate_to_source(rate) is Some ==> r == (
        ClockNegotiation::RateApplied(spec_rate_to_source(rate)->0)),
        s is Unnegotiated && spec_rate_to_source(rate) is None ==> r is Fatal,
        !(s is Unnegotiated) ==> r == s,
{
    match s {
        ClockNegotiation::Unnegotiated => match rate_to_source(rate) {
            Some(src) => ClockNegotiation::RateApplied(src),
            None => ClockNegotiation::Fatal,
        },
        _ => s,
    }
}

/// Once a negotiation has left the unnegotiated state, no further request
/// changes it: a fatal outcome is never retried and an applied rate is never
/// replaced during operation.
pub proof fn lemma_negotiation_terminal(s: ClockNegotiation, rates: Seq<u64>)
    requires
        !(s is Unnegotiated),
    ensures
        rates.fold_left(s, |st: ClockNegotiation, r: u64| spec_negotiate(st, r)) == s,
    decreases rates.len(),
{
    if rates.len() > 0 {
        lemma_negotiation_terminal(s, rates.drop_last());
    }
}

} // verus!
