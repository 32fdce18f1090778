use blkadapter::errors::{
    deal_emmc_err, map_mci_error_to_blk_error, map_sd_error_to_blk_error, BlkError, ErrorDetail,
    IoErrorKind, MciHostError, ParamField, SdError,
};

#[test]
fn mci_timeout_class_maps_to_retry() {
    for e in [
        MciHostError::Timeout,
        MciHostError::TransferFailed,
        MciHostError::StopTransmissionFailed,
        MciHostError::WaitWriteCompleteFailed,
    ] {
        assert_eq!(map_mci_error_to_blk_error(e), BlkError::Retry);
    }
}

#[test]
fn mci_card_and_voltage_class_maps_to_not_supported() {
    for e in [
        MciHostError::CardDetectFailed,
        MciHostError::CardInitFailed,
        MciHostError::InvalidVoltage,
        MciHostError::SwitchVoltageFail,
        MciHostError::SwitchVoltage18VFail33VSuccess,
    ] {
        assert_eq!(map_mci_error_to_blk_error(e), BlkError::NotSupported);
    }
}

#[test]
fn mci_uncategorized_codes_keep_their_detail() {
    for e in [
        MciHostError::OutOfRange,
        MciHostError::InvalidArgument,
        MciHostError::Fail,
        MciHostError::Busy,
        MciHostError::SdioReadCISFail,
    ] {
        assert_eq!(
            map_mci_error_to_blk_error(e),
            BlkError::Other(ErrorDetail::Mci(e))
        );
    }
}

#[test]
fn mci_mapping_is_stable_across_calls() {
    let codes = [
        MciHostError::Timeout,
        MciHostError::CardDetectFailed,
        MciHostError::GoIdleFailed,
        MciHostError::ReTuningRequest,
    ];
    for e in codes {
        let first = map_mci_error_to_blk_error(e);
        for _ in 0..3 {
            assert_eq!(map_mci_error_to_blk_error(e), first);
        }
    }
}

#[test]
fn sd_timeouts_map_to_retry() {
    assert_eq!(map_sd_error_to_blk_error(SdError::Timeout), BlkError::Retry);
    assert_eq!(map_sd_error_to_blk_error(SdError::DataTimeout), BlkError::Retry);
}

#[test]
fn sd_unsupported_card_maps_to_not_supported() {
    assert_eq!(
        map_sd_error_to_blk_error(SdError::UnsupportedCard),
        BlkError::NotSupported
    );
}

#[test]
fn sd_uncategorized_codes_keep_their_detail() {
    for e in [
        SdError::Crc,
        SdError::AdmaError,
        SdError::NoCard,
        SdError::BufferOverflow,
        SdError::CardError(0x8000_0001),
    ] {
        assert_eq!(map_sd_error_to_blk_error(e), BlkError::Other(ErrorDetail::Sd(e)));
    }
}

#[test]
fn sd_mapping_is_stable_across_calls() {
    let codes = [SdError::Timeout, SdError::UnsupportedCard, SdError::IoError];
    for e in codes {
        let first = map_sd_error_to_blk_error(e);
        for _ in 0..3 {
            assert_eq!(map_sd_error_to_blk_error(e), first);
        }
    }
}

#[test]
fn emmc_io_errors_report_nothing_partially_done() {
    for e in [SdError::Timeout, SdError::BusWidth, SdError::MemoryError] {
        assert_eq!(deal_emmc_err(e).success_pos, 0);
    }
}

#[test]
fn emmc_io_error_kinds_follow_the_table() {
    assert_eq!(deal_emmc_err(SdError::Timeout).kind, IoErrorKind::TimedOut);
    assert_eq!(deal_emmc_err(SdError::DataTimeout).kind, IoErrorKind::TimedOut);
    assert_eq!(
        deal_emmc_err(SdError::InvalidResponse).kind,
        IoErrorKind::InvalidParameter(ParamField::Response)
    );
    assert_eq!(
        deal_emmc_err(SdError::InvalidResponseType).kind,
        IoErrorKind::InvalidParameter(ParamField::Response)
    );
    assert_eq!(
        deal_emmc_err(SdError::UnsupportedCard).kind,
        IoErrorKind::InvalidParameter(ParamField::Card)
    );
    assert_eq!(
        deal_emmc_err(SdError::TuningFailed).kind,
        IoErrorKind::InvalidParameter(ParamField::Configuration)
    );
    assert_eq!(
        deal_emmc_err(SdError::VoltageSwitchFailed).kind,
        IoErrorKind::InvalidParameter(ParamField::Configuration)
    );
    assert_eq!(
        deal_emmc_err(SdError::BadMessage).kind,
        IoErrorKind::InvalidParameter(ParamField::Parameter)
    );
    assert_eq!(
        deal_emmc_err(SdError::InvalidArgument).kind,
        IoErrorKind::InvalidParameter(ParamField::Parameter)
    );
    assert_eq!(
        deal_emmc_err(SdError::BusWidth).kind,
        IoErrorKind::InvalidParameter(ParamField::BusWidth)
    );
    assert_eq!(
        deal_emmc_err(SdError::CardError(0xDEAD)).kind,
        IoErrorKind::InvalidParameter(ParamField::CardError)
    );
    assert_eq!(
        deal_emmc_err(SdError::Acmd12Error).kind,
        IoErrorKind::Other(SdError::Acmd12Error)
    );
}
