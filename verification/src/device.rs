//! Failures reported by the card-access subsystem, and the transport
//! framings a card may be asked to speak.

use vstd::prelude::*;
use vstd::string::StringExecFns;

verus! {

/// A failure of the card-access subsystem.
///
/// The named variants are the failures this library tells apart; any other
/// failure is carried as `Other`, with the name the subsystem gives it.
#[derive(Debug, Clone, PartialEq, Eq)]
pub enum DeviceError {
    NoReadersAvailable,
    UnsupportedCard,
    UnresponsiveCard,
    UnpoweredCard,
    RemovedCard,
    InternalError,
    InvalidHandle,
    InvalidParameter,
    InvalidValue,
    NoService,
    NoSmartcard,
    NotTransacted,
    ProtoMismatch,
    ReaderUnavailable,
    SharingViolation,
    SystemCancelled,
    Timeout,
    UnknownError,
    UnsupportedFeature,
    Other(String),
}

/// A transport framing between reader and card.
#[derive(Debug, Clone, Copy, PartialEq, Eq, Structural)]
pub enum Protocol {
    T1,
    T0,
    Raw,
}

/// Whether a failure is expected to pass by itself, so that the same
/// operation is worth repeating: the resource is busy, the operation timed
/// out, the subsystem hit an internal error, or the card did not answer.
pub open spec fn is_temporary(error: DeviceError) -> bool {
    ||| error is SharingViolation
    ||| error is Timeout
    ||| error is InternalError
    ||| error is UnresponsiveCard
}

/// The message shown to a person for a device failure.
pub open spec fn error_text(error: DeviceError) -> Seq<char> {
    match error {
        DeviceError::NoReadersAvailable => "没有可用的读卡器"@,
        DeviceError::UnsupportedCard => "不支持的卡片类型"@,
        DeviceError::UnresponsiveCard => "卡片无响应"@,
        DeviceError::UnpoweredCard => "卡片未供电"@,
        DeviceError::RemovedCard => "卡片已被移除"@,
        DeviceError::InternalError => "内部错误"@,
        DeviceError::InvalidHandle => "无效句柄"@,
        DeviceError::InvalidParameter => "无效参数"@,
        DeviceError::InvalidValue => "无效值"@,
        DeviceError::NoService => "服务不可用"@,
        DeviceError::NoSmartcard => "没有智能卡"@,
        DeviceError::NotTransacted => "未完成事务"@,
        DeviceError::ProtoMismatch => "协议不匹配"@,
        DeviceError::ReaderUnavailable => "读卡器不可用"@,
        DeviceError::SharingViolation => "资源共享冲突"@,
        DeviceError::SystemCancelled => "系统取消"@,
        DeviceError::Timeout => "操作超时"@,
        DeviceError::UnknownError => "未知错误"@,
        DeviceError::UnsupportedFeature => "不支持的功能"@,
        DeviceError::Other(name) => "PCSC错误: "@ + name@,
    }
}

/// Decides whether a failed operation should be repeated.
pub fn is_temporary_error(error: &DeviceError) -> (temporary: bool)
    ensures
        temporary == is_temporary(*error),
{
    match error {
        DeviceError::SharingViolation => true,
        DeviceError::Timeout => true,
        DeviceError::InternalError => true,
        DeviceError::UnresponsiveCard => true,
        _ => false,
    }
}

/// Renders a device failure as a message for a person.
pub fn handle_pcsc_error(error: &DeviceError) -> (message: String)
    ensures
        message@ == error_text(*error),
{
    match error {
        DeviceError::NoReadersAvailable => String::from_str("没有可用的读卡器"),
        DeviceError::UnsupportedCard => String::from_str("不支持的卡片类型"),
        DeviceError::UnresponsiveCard => String::from_str("卡片无响应"),
        DeviceError::UnpoweredCard => String::from_str("卡片未供电"),
        DeviceError::RemovedCard => String::from_str("卡片已被移除"),
        DeviceError::InternalError => String::from_str("内部错误"),
        DeviceError::InvalidHandle => String::from_str("无效句柄"),
        DeviceError::InvalidParameter => String::from_str("无效参数"),
        DeviceError::InvalidValue => String::from_str("无效值"),
        DeviceError::NoService => String::from_str("服务不可用"),
        DeviceError::NoSmartcard => String::from_str("没有智能卡"),
        DeviceError::NotTransacted => String::from_str("未完成事务"),
        DeviceError::ProtoMismatch => String::from_str("协议不匹配"),
        DeviceError::ReaderUnavailable => String::from_str("读卡器不可用"),
        DeviceError::SharingViolation => String::from_str("资源共享冲突"),
        DeviceError::SystemCancelled => String::from_str("系统取消"),
        DeviceError::Timeout => String::from_str("操作超时"),
        DeviceError::UnknownError => String::from_str("未知错误"),
        DeviceError::UnsupportedFeature => String::from_str("不支持的功能"),
        DeviceError::Other(name) => String::from_str("PCSC错误: ").concat(name.as_str()),
    }
}

} // verus!
