//! The outward error taxonomy, plain-value models of the two vendor error
//! vocabularies, and the total classification functions that collapse them.
//!
//! The vendor host-controller libraries report failures through large error
//! enumerations; this layer holds each as a plain value of its own and decides
//! only the dispatch: transient, permanent for this hardware/card pair, or
//! uncategorized with the original detail kept.

use vstd::prelude::*;

verus! {

/// Why a caller buffer was rejected before any hardware transfer.
#[derive(Clone, Copy, Debug, PartialEq, Eq, Structural)]
pub enum BufferError {
    /// The buffer holds fewer bytes than one block.
    InvalidSize { expected: usize, actual: usize },
    /// The buffer does not begin and end on a native-word boundary.
    InvalidAlignment,
}

/// The error vocabulary of the SD-card board's host-controller library, held
/// as plain values so the classification over it can be stated and checked.
#[derive(Clone, Copy, Debug, PartialEq, Eq, Structural)]
pub enum MciHostError {
    Fail,
    ReadOnly,
    OutOfRange,
    InvalidArgument,
    Timeout,
    NoTransferInProgress,
    Busy,
    NoData,
    NotSupportYet,
    TransferFailed,
    SetCardBlockSizeFailed,
    HostNotSupport,
    CardNotSupport,
    AllSendCidFailed,
    SendRelativeAddressFailed,
    SendCsdFailed,
    SelectCardFailed,
    SendScrFailed,
    SetDataBusWidthFailed,
    GoIdleFailed,
    HandShakeOperationConditionFailed,
    SendApplicationCommandFailed,
    SwitchFailed,
    StopTransmissionFailed,
    WaitWriteCompleteFailed,
    SetBlockCountFailed,
    SetRelativeAddressFailed,
    SwitchBusTimingFailed,
    SendExtendedCsdFailed,
    ConfigureBootFailed,
    ConfigureExtendedCsdFailed,
    EnableHighCapacityEraseFailed,
    SendTestPatternFailed,
    ReceiveTestPatternFailed,
    SdioResponseError,
    SdioInvalidArgument,
    SdioSendOperationConditionFail,
    InvalidVoltage,
    SdioSwitchHighSpeedFail,
    SdioReadCISFail,
    SdioInvalidCard,
    TuningFail,
    SwitchVoltageFail,
    SwitchVoltage18VFail33VSuccess,
    ReTuningRequest,
    SetDriverStrengthFail,
    SetPowerClassFail,
    HostNotReady,
    CardDetectFailed,
    AuSizeNotSetProperly,
    PollingCardIdleFailed,
    DeselectCardFailed,
    CardStatusIdle,
    CardStatusBusy,
    CardInitFailed,
}

/// The error vocabulary of the eMMC board's host-controller library, held as
/// plain values. The card-specific case keeps the vendor status word.
#[derive(Clone, Copy, Debug, PartialEq, Eq, Structural)]
pub enum SdError {
    Timeout,
    Crc,
    EndBit,
    Index,
    DataTimeout,
    DataCrc,
    DataEndBit,
    BusPower,
    Acmd12Error,
    AdmaError,
    InvalidResponse,
    NoCard,
    UnsupportedCard,
    IoError,
    CommandError,
    TransferError,
    InvalidResponseType,
    CurrentLimit,
    DataError,
    TuningFailed,
    VoltageSwitchFailed,
    BadMessage,
    InvalidArgument,
    BufferOverflow,
    MemoryError,
    BusWidth,
    CardError(u32),
}

/// Diagnostic payload carried on the uncategorized error case: the full
/// original detail, nothing discarded.
#[derive(Clone, Copy, Debug, PartialEq, Eq, Structural)]
pub enum ErrorDetail {
    /// The request was rejected by buffer validation.
    Buffer(BufferError),
    /// The SD-card host controller reported this uncategorized code.
    Mci(MciHostError),
    /// The eMMC host controller reported this uncategorized code.
    Sd(SdError),
}

/// The compact outward error taxonomy of the block layer.
///
/// `Retry` marks transient failures the caller may resubmit unchanged;
/// `NotSupported` marks conditions permanent for this hardware/card pair;
/// `Other` keeps the full original detail for uncategorized failures.
#[derive(Clone, Copy, Debug, PartialEq, Eq, Structural)]
pub enum BlkError {
    Retry,
    NotSupported,
    Other(ErrorDetail),
}

/// Timeout and transient transfer failures of the SD-card host controller:
/// the caller may resubmit unchanged.
pub open spec fn mci_transient(e: MciHostError) -> bool {
    ||| e is Timeout
    ||| e is TransferFailed
    ||| e is StopTransmissionFailed
    ||| e is WaitWriteCompleteFailed
}

/// Card-detection, card-initialization and voltage-incompatibility failures
/// of the SD-card host controller: permanent for this hardware/card pair.
pub open spec fn mci_unsupported(e: MciHostError) -> bool {
    ||| e is CardDetectFailed
    ||| e is CardInitFailed
    ||| e is InvalidVoltage
    ||| e is SwitchVoltageFail
    ||| e is SwitchVoltage18VFail33VSuccess
}

/// The outward error for each SD-card host-controller code.
pub open spec fn spec_map_mci_error(e: MciHostError) -> BlkError {
    if mci_transient(e) {
        BlkError::Retry
    } else if mci_unsupported(e) {
        BlkError::NotSupported
    } else {
        BlkError::Other(ErrorDetail::Mci(e))
    }
}

/// Collapses an SD-card host-controller error into the outward taxonomy.
///
/// The mapping is total and deterministic: every vendor code resolves to
/// exactly one outcome, timeout and transfer failures to `Retry`, card and
/// voltage incompatibilities to `NotSupported`, and everything else to
/// `Other` with the original code kept.
pub fn map_mci_error_to_blk_error(e: MciHostError) -> (r: BlkError)
    ensures
        r == spec_map_mci_error(e),
        r is Retry <==> mci_transient(e),
        r is NotSupported <==> mci_unsupported(e),
        !mci_transient(e) && !mci_unsupported(e) ==> r == BlkError::Other(ErrorDetail::Mci(e)),
{
    match e {
        MciHostError::Timeout => BlkError::Retry,
        MciHostError::CardDetectFailed | MciHostError::CardInitFailed => BlkError::NotSupported,
        MciHostError::InvalidVoltage
        | MciHostError::SwitchVoltageFail
        | MciHostError::SwitchVoltage18VFail33VSuccess => BlkError::NotSupported,
        MciHostError::TransferFailed
        | MciHostError::StopTransmissionFailed
        | MciHostError::WaitWriteCompleteFailed => BlkError::Retry,
        _ => BlkError::Other(ErrorDetail::Mci(e)),
    }
}

/// Timeout failures of the eMMC host controller: transient, safe to resubmit.
pub open spec fn sd_transient(e: SdError) -> bool {
    e is Timeout || e is DataTimeout
}

/// Unsupported-card failures of the eMMC host controller: permanent for this
/// hardware/card pair.
pub open spec fn sd_unsupported(e: SdError) -> bool {
    e is UnsupportedCard
}

/// The outward error for each eMMC host-controller code.
pub open spec fn spec_map_sd_error(e: SdError) -> BlkError {
    if sd_transient(e) {
        BlkError::Retry
    } else if sd_unsupported(e) {
        BlkError::NotSupported
    } else {
        BlkError::Other(ErrorDetail::Sd(e))
    }
}

/// Collapses an eMMC host-controller error into the outward taxonomy.
///
/// The mapping is total and deterministic: every vendor code resolves to
/// exactly one outcome, timeouts to `Retry`, unsupported cards to
/// `NotSupported`, and everything else to `Other` with the original code kept.
pub fn map_sd_error_to_blk_error(e: SdError) -> (r: BlkError)
    ensures
        r == spec_map_sd_error(e),
        r is Retry <==> sd_transient(e),
        r is NotSupported <==> sd_unsupported(e),
        !sd_transient(e) && !sd_unsupported(e) ==> r == BlkError::Other(ErrorDetail::Sd(e)),
{
    match e {
        SdError::Timeout | SdError::DataTimeout => BlkError::Retry,
        SdError::UnsupportedCard => BlkError::NotSupported,
        _ => BlkError::Other(ErrorDetail::Sd(e)),
    }
}

/// Which parameter an eMMC failure is blamed on when reported through the
/// platform's generic I/O error shape.
#[derive(Clone, Copy, Debug, PartialEq, Eq, Structural)]
pub enum ParamField {
    Response,
    Card,
    Configuration,
    Parameter,
    BusWidth,
    CardError,
}

/// The platform's generic I/O error kinds that eMMC failures collapse into.
#[derive(Clone, Copy, Debug, PartialEq, Eq, Structural)]
pub enum IoErrorKind {
    /// Timeout: the operation may be retried.
    TimedOut,
    /// A parameter of the named role was rejected.
    InvalidParameter(ParamField),
    /// Uncategorized; the original vendor code is kept.
    Other(SdError),
}

/// The platform's generic I/O error: a kind plus how much of the request
/// succeeded before the failure (always nothing: transfers are all-or-nothing).
#[derive(Clone, Copy, Debug, PartialEq, Eq, Structural)]
pub struct IoError {
    pub kind: IoErrorKind,
    pub success_pos: usize,
}

/// The generic I/O error kind for each eMMC host-controller code.
pub open spec fn spec_deal_emmc_err(e: SdError) -> IoErrorKind {
    match e {
        SdError::Timeout | SdError::DataTimeout => IoErrorKind::TimedOut,
        SdError::InvalidResponse | SdError::InvalidResponseType => IoErrorKind::InvalidParameter(
            ParamField::Response,
        ),
        SdError::UnsupportedCard => IoErrorKind::InvalidParameter(ParamField::Card),
        SdError::TuningFailed | SdError::VoltageSwitchFailed => IoErrorKind::InvalidParameter(
            ParamField::Configuration,
        ),
        SdError::BadMessage | SdError::InvalidArgument => IoErrorKind::InvalidParameter(
            ParamField::Parameter,
        ),
        SdError::BusWidth => IoErrorKind::InvalidParameter(ParamField::BusWidth),
        SdError::CardError(_) => IoErrorKind::InvalidParameter(ParamField::CardError),
        _ => IoErrorKind::Other(e),
    }
}

/// Maps an eMMC host-controller error to the platform's generic I/O error,
/// with nothing reported as partially done.
pub fn deal_emmc_err(e: SdError) -> (r: IoError)
    ensures
        r.kind == spec_deal_emmc_err(e),
        r.success_pos == 0,
        sd_transient(e) <==> r.kind is TimedOut,
{
    let kind = match e {
        SdError::Timeout | SdError::DataTimeout => IoErrorKind::TimedOut,
        SdError::InvalidResponse | SdError::InvalidResponseType => IoErrorKind::InvalidParameter(
            ParamField::Response,
        ),
        SdError::UnsupportedCard => IoErrorKind::InvalidParameter(ParamField::Card),
        SdError::TuningFailed | SdError::VoltageSwitchFailed => IoErrorKind::InvalidParameter(
            ParamField::Configuration,
        ),
        SdError::BadMessage | SdError::InvalidArgument => IoErrorKind::InvalidParameter(
            ParamField::Parameter,
        ),
        SdError::BusWidth => IoErrorKind::InvalidParameter(ParamField::BusWidth),
        SdError::CardError(_) => IoErrorKind::InvalidParameter(ParamField::CardError),
        _ => IoErrorKind::Other(e),
    };
    IoError { kind, success_pos: 0 }
}

} // verus!
