use blkadapter::clk::{
    decode_rate, negotiate, rate_to_source, select_rate, source_field, source_selector_bits,
    ClockConfigError, ClockNegotiation, EmmcClk, EmmcClockSource, CCLK_EMMC_FIELD_POS,
    EMMC_CLK_ID, KHZ, MHZ,
};

#[test]
fn supported_rates_resolve_to_their_sources() {
    assert_eq!(rate_to_source(24 * MHZ), Some(EmmcClockSource::Xin24M));
    assert_eq!(rate_to_source(50 * MHZ), Some(EmmcClockSource::CplDiv50M));
    assert_eq!(rate_to_source(52 * MHZ), Some(EmmcClockSource::CplDiv50M));
    assert_eq!(rate_to_source(100 * MHZ), Some(EmmcClockSource::CplDiv100M));
    assert_eq!(rate_to_source(150 * MHZ), Some(EmmcClockSource::GplDiv150M));
    assert_eq!(rate_to_source(200 * MHZ), Some(EmmcClockSource::GplDiv200M));
    assert_eq!(rate_to_source(375 * KHZ), Some(EmmcClockSource::Soc0Div375K));
    assert_eq!(rate_to_source(400 * KHZ), Some(EmmcClockSource::Soc0Div375K));
}

#[test]
fn unsupported_rates_resolve_to_nothing() {
    for rate in [0, 1, 33 * MHZ, 25 * MHZ, 199 * MHZ, u64::MAX] {
        assert_eq!(rate_to_source(rate), None);
    }
}

#[test]
fn selector_fields_and_register_bits() {
    assert_eq!(source_field(EmmcClockSource::Xin24M), 0);
    assert_eq!(source_field(EmmcClockSource::GplDiv200M), 1);
    assert_eq!(source_field(EmmcClockSource::GplDiv150M), 2);
    assert_eq!(source_field(EmmcClockSource::CplDiv100M), 3);
    assert_eq!(source_field(EmmcClockSource::CplDiv50M), 4);
    assert_eq!(source_field(EmmcClockSource::Soc0Div375K), 5);
    assert_eq!(CCLK_EMMC_FIELD_POS, 12);
    assert_eq!(source_selector_bits(EmmcClockSource::CplDiv100M), 0x3000);
    assert_eq!(source_selector_bits(EmmcClockSource::Soc0Div375K), 0x5000);
}

#[test]
fn set_rate_serves_only_the_storage_clock_id() {
    assert_eq!(EMMC_CLK_ID, 0x7c);
    assert_eq!(
        select_rate(0x7c, 100 * MHZ),
        Ok(EmmcClockSource::CplDiv100M)
    );
    assert_eq!(select_rate(0x10, 100 * MHZ), Err(ClockConfigError::InvalidClockId));
    assert_eq!(
        select_rate(0x7c, 33 * MHZ),
        Err(ClockConfigError::UnsupportedRate(33 * MHZ))
    );
}

#[test]
fn get_rate_decodes_the_selector_field() {
    assert_eq!(decode_rate(EMMC_CLK_ID, 0x3000), Ok(3));
    assert_eq!(decode_rate(EMMC_CLK_ID, 0x0000), Ok(0));
    assert_eq!(decode_rate(0x11, 0x3000), Err(ClockConfigError::InvalidClockId));
}

#[test]
fn negotiation_applies_a_supported_rate_once() {
    let s = negotiate(ClockNegotiation::Unnegotiated, 200 * MHZ);
    assert_eq!(s, ClockNegotiation::RateApplied(EmmcClockSource::GplDiv200M));
    // A later request does not replace the applied rate.
    assert_eq!(negotiate(s, 24 * MHZ), s);
}

#[test]
fn unsupported_rate_is_fatal_with_no_retry() {
    // Requesting 33 MHz, which the controller cannot synthesize, is fatal.
    let s = negotiate(ClockNegotiation::Unnegotiated, 33 * MHZ);
    assert_eq!(s, ClockNegotiation::Fatal);
    // No retry moves the negotiation anywhere else, supported rate or not.
    assert_eq!(negotiate(s, 24 * MHZ), ClockNegotiation::Fatal);
    assert_eq!(negotiate(s, 33 * MHZ), ClockNegotiation::Fatal);
}

#[test]
fn clock_bridge_keeps_its_core_clock_index() {
    let clk = EmmcClk::new(0x7c);
    assert_eq!(clk.core_clk_index, 0x7c);
}
