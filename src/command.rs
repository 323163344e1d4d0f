//! Parameter and response types of the AT commands the driver uses. Each
//! enumeration's `code` is the number that stands for it on the wire.
use vstd::prelude::*;
use crate::ip::{ip_text, ip_text_of, SocketAddr};
use crate::socket::{PeerHandle, SocketHandle};

verus! {

/// What the module is asked to run as.
#[derive(Clone, Copy, Debug, PartialEq, Eq, Structural)]
pub enum Functionality {
    TrunOff,
    Full,
    AirplaneMode,
    SilentReset,
}

impl Functionality {
    /// The number that stands for this value on the wire.
    pub open spec fn spec_code(self) -> u8 {
        match self {
            Functionality::TrunOff => 0u8,
            Functionality::Full => 1u8,
            Functionality::AirplaneMode => 4u8,
            Functionality::SilentReset => 15u8,
        }
    }

    pub fn code(&self) -> (r: u8)
        ensures
            r == self.spec_code(),
    {
        match self {
            Functionality::TrunOff => 0u8,
            Functionality::Full => 1u8,
            Functionality::AirplaneMode => 4u8,
            Functionality::SilentReset => 15u8,
        }
    }
}

/// Whether the time zone follows the network.
#[derive(Clone, Copy, Debug, PartialEq, Eq, Structural)]
pub enum AutomaticTimezone {
    Disabled,
    EnabledLocal,
    EnabledGMT,
}

impl AutomaticTimezone {
    /// The number that stands for this value on the wire.
    pub open spec fn spec_code(self) -> u8 {
        match self {
            AutomaticTimezone::Disabled => 0u8,
            AutomaticTimezone::EnabledLocal => 1u8,
            AutomaticTimezone::EnabledGMT => 2u8,
        }
    }

    pub fn code(&self) -> (r: u8)
        ensures
            r == self.spec_code(),
    {
        match self {
            AutomaticTimezone::Disabled => 0u8,
            AutomaticTimezone::EnabledLocal => 1u8,
            AutomaticTimezone::EnabledGMT => 2u8,
        }
    }
}

/// How the module reports errors of its own.
#[derive(Clone, Copy, Debug, PartialEq, Eq, Structural)]
pub enum TerminationErrorMode {
    Disabled,
    Enabled,
    Verbose,
}

impl TerminationErrorMode {
    /// The number that stands for this value on the wire.
    pub open spec fn spec_code(self) -> u8 {
        match self {
            TerminationErrorMode::Disabled => 0u8,
            TerminationErrorMode::Enabled => 1u8,
            TerminationErrorMode::Verbose => 2u8,
        }
    }

    pub fn code(&self) -> (r: u8)
        ensures
            r == self.spec_code(),
    {
        match self {
            TerminationErrorMode::Disabled => 0u8,
            TerminationErrorMode::Enabled => 1u8,
            TerminationErrorMode::Verbose => 2u8,
        }
    }
}

/// The module's power mode.
#[derive(Clone, Copy, Debug, PartialEq, Eq, Structural)]
pub enum PowerMode {
    Minimum,
    On,
    AirplaneMode,
    TestMode,
    MinimumWithoutSim,
}

impl PowerMode {
    /// The number that stands for this value on the wire.
    pub open spec fn spec_code(self) -> u8 {
        match self {
            PowerMode::Minimum => 0u8,
            PowerMode::On => 1u8,
            PowerMode::AirplaneMode => 4u8,
            PowerMode::TestMode => 5u8,
            PowerMode::MinimumWithoutSim => 19u8,
        }
    }

    pub fn code(&self) -> (r: u8)
        ensures
            r == self.spec_code(),
    {
        match self {
            PowerMode::Minimum => 0u8,
            PowerMode::On => 1u8,
            PowerMode::AirplaneMode => 4u8,
            PowerMode::TestMode => 5u8,
            PowerMode::MinimumWithoutSim => 19u8,
        }
    }
}

/// SIM toolkit mode.
#[derive(Clone, Copy, Debug, PartialEq, Eq, Structural)]
pub enum STKMode {
    DedicatedMode,
    Disabled,
    RawMode,
}

impl STKMode {
    /// The number that stands for this value on the wire.
    pub open spec fn spec_code(self) -> u8 {
        match self {
            STKMode::DedicatedMode => 6u8,
            STKMode::Disabled => 0u8,
            STKMode::RawMode => 9u8,
        }
    }

    pub fn code(&self) -> (r: u8)
        ensures
            r == self.spec_code(),
    {
        match self {
            STKMode::DedicatedMode => 6u8,
            STKMode::Disabled => 0u8,
            STKMode::RawMode => 9u8,
        }
    }
}

/// How errors are reported.
#[derive(Clone, Copy, Debug, PartialEq, Eq, Structural)]
pub enum ReportMobileTerminationErrorStatus {
    DisabledERRORused,
    EnabledCodeUsed,
    EnabledVerbose,
}

impl ReportMobileTerminationErrorStatus {
    /// The number that stands for this value on the wire.
    pub open spec fn spec_code(self) -> u8 {
        match self {
            ReportMobileTerminationErrorStatus::DisabledERRORused => 0u8,
            ReportMobileTerminationErrorStatus::EnabledCodeUsed => 1u8,
            ReportMobileTerminationErrorStatus::EnabledVerbose => 2u8,
        }
    }

    pub fn code(&self) -> (r: u8)
        ensures
            r == self.spec_code(),
    {
        match self {
            ReportMobileTerminationErrorStatus::DisabledERRORused => 0u8,
            ReportMobileTerminationErrorStatus::EnabledCodeUsed => 1u8,
            ReportMobileTerminationErrorStatus::EnabledVerbose => 2u8,
        }
    }
}

/// Which serial number is read.
#[derive(Clone, Copy, Debug, PartialEq, Eq, Structural)]
pub enum Snt {
    IMEI,
    IMEISV,
    SVN,
    IMEIExtended,
}

impl Snt {
    /// The number that stands for this value on the wire.
    pub open spec fn spec_code(self) -> u8 {
        match self {
            Snt::IMEI => 0u8,
            Snt::IMEISV => 2u8,
            Snt::SVN => 3u8,
            Snt::IMEIExtended => 255u8,
        }
    }

    pub fn code(&self) -> (r: u8)
        ensures
            r == self.spec_code(),
    {
        match self {
            Snt::IMEI => 0u8,
            Snt::IMEISV => 2u8,
            Snt::SVN => 3u8,
            Snt::IMEIExtended => 255u8,
        }
    }
}

/// Transport protocol of a modem socket.
#[derive(Clone, Copy, Debug, PartialEq, Eq, Structural)]
pub enum SocketProtocol {
    TCP,
    UDP,
}

impl SocketProtocol {
    /// The number that stands for this value on the wire.
    pub open spec fn spec_code(self) -> u8 {
        match self {
            SocketProtocol::TCP => 6u8,
            SocketProtocol::UDP => 17u8,
        }
    }

    pub fn code(&self) -> (r: u8)
        ensures
            r == self.spec_code(),
    {
        match self {
            SocketProtocol::TCP => 6u8,
            SocketProtocol::UDP => 17u8,
        }
    }
}

/// Socket control request.
#[derive(Clone, Copy, Debug, PartialEq, Eq, Structural)]
pub enum SocketControlParam {
    SocketType,
    LastSocketError,
    BytesSent,
    BytesReceived,
    RemotePeerSocketAddr,
    SocketStatus,
    OutgoingUnackData,
}

impl SocketControlParam {
    /// The number that stands for this value on the wire.
    pub open spec fn spec_code(self) -> u8 {
        match self {
            SocketControlParam::SocketType => 0u8,
            SocketControlParam::LastSocketError => 1u8,
            SocketControlParam::BytesSent => 2u8,
            SocketControlParam::BytesReceived => 3u8,
            SocketControlParam::RemotePeerSocketAddr => 4u8,
            SocketControlParam::SocketStatus => 10u8,
            SocketControlParam::OutgoingUnackData => 11u8,
        }
    }

    pub fn code(&self) -> (r: u8)
        ensures
            r == self.spec_code(),
    {
        match self {
            SocketControlParam::SocketType => 0u8,
            SocketControlParam::LastSocketError => 1u8,
            SocketControlParam::BytesSent => 2u8,
            SocketControlParam::BytesReceived => 3u8,
            SocketControlParam::RemotePeerSocketAddr => 4u8,
            SocketControlParam::SocketStatus => 10u8,
            SocketControlParam::OutgoingUnackData => 11u8,
        }
    }
}

/// Whether a packet-data context is active.
#[derive(Clone, Copy, Debug, PartialEq, Eq, Structural)]
pub enum PDPContextStatus {
    Deactivated,
    Activated,
}

impl PDPContextStatus {
    /// The number that stands for this value on the wire.
    pub open spec fn spec_code(self) -> u8 {
        match self {
            PDPContextStatus::Deactivated => 0u8,
            PDPContextStatus::Activated => 1u8,
        }
    }

    pub fn code(&self) -> (r: u8)
        ensures
            r == self.spec_code(),
    {
        match self {
            PDPContextStatus::Deactivated => 0u8,
            PDPContextStatus::Activated => 1u8,
        }
    }
}

/// Packet-switched profile parameter that is read.
#[derive(Clone, Copy, Debug, PartialEq, Eq, Structural)]
pub enum PacketSwitchedParamReq {
    ProtocolType,
    APN,
    Username,
    Password,
    DNS1,
    DNS2,
    Authentication,
    IPAddress,
    DataCompression,
    HeaderCompression,
    QoSPrecedence,
    QoSDelay,
    QoSReliability,
    UNUSED,
    MapProfile,
}

impl PacketSwitchedParamReq {
    /// The number that stands for this value on the wire.
    pub open spec fn spec_code(self) -> u8 {
        match self {
            PacketSwitchedParamReq::ProtocolType => 0u8,
            PacketSwitchedParamReq::APN => 1u8,
            PacketSwitchedParamReq::Username => 2u8,
            PacketSwitchedParamReq::Password => 3u8,
            PacketSwitchedParamReq::DNS1 => 4u8,
            PacketSwitchedParamReq::DNS2 => 5u8,
            PacketSwitchedParamReq::Authentication => 6u8,
            PacketSwitchedParamReq::IPAddress => 7u8,
            PacketSwitchedParamReq::DataCompression => 8u8,
            PacketSwitchedParamReq::HeaderCompression => 9u8,
            PacketSwitchedParamReq::QoSPrecedence => 10u8,
            PacketSwitchedParamReq::QoSDelay => 11u8,
            PacketSwitchedParamReq::QoSReliability => 12u8,
            PacketSwitchedParamReq::UNUSED => 255u8,
            PacketSwitchedParamReq::MapProfile => 100u8,
        }
    }

    pub fn code(&self) -> (r: u8)
        ensures
            r == self.spec_code(),
    {
        match self {
            PacketSwitchedParamReq::ProtocolType => 0u8,
            PacketSwitchedParamReq::APN => 1u8,
            PacketSwitchedParamReq::Username => 2u8,
            PacketSwitchedParamReq::Password => 3u8,
            PacketSwitchedParamReq::DNS1 => 4u8,
            PacketSwitchedParamReq::DNS2 => 5u8,
            PacketSwitchedParamReq::Authentication => 6u8,
            PacketSwitchedParamReq::IPAddress => 7u8,
            PacketSwitchedParamReq::DataCompression => 8u8,
            PacketSwitchedParamReq::HeaderCompression => 9u8,
            PacketSwitchedParamReq::QoSPrecedence => 10u8,
            PacketSwitchedParamReq::QoSDelay => 11u8,
            PacketSwitchedParamReq::QoSReliability => 12u8,
            PacketSwitchedParamReq::UNUSED => 255u8,
            PacketSwitchedParamReq::MapProfile => 100u8,
        }
    }
}

/// Address family of a packet-data context.
#[derive(Clone, Copy, Debug, PartialEq, Eq, Structural)]
pub enum ProtocolType {
    IPv4,
    IPv6,
    IPv4v6PreferV4Internal,
    IPv4v6PreferV6Internal,
}

impl ProtocolType {
    /// The number that stands for this value on the wire.
    pub open spec fn spec_code(self) -> u8 {
        match self {
            ProtocolType::IPv4 => 0u8,
            ProtocolType::IPv6 => 1u8,
            ProtocolType::IPv4v6PreferV4Internal => 2u8,
            ProtocolType::IPv4v6PreferV6Internal => 3u8,
        }
    }

    pub fn code(&self) -> (r: u8)
        ensures
            r == self.spec_code(),
    {
        match self {
            ProtocolType::IPv4 => 0u8,
            ProtocolType::IPv6 => 1u8,
            ProtocolType::IPv4v6PreferV4Internal => 2u8,
            ProtocolType::IPv4v6PreferV6Internal => 3u8,
        }
    }
}

/// Authentication of a packet-data context.
#[derive(Clone, Copy, Debug, PartialEq, Eq, Structural)]
pub enum AuthenticationType {
    NoAuth,
    PAP,
    CHAP,
    Auto,
}

impl AuthenticationType {
    /// The number that stands for this value on the wire.
    pub open spec fn spec_code(self) -> u8 {
        match self {
            AuthenticationType::NoAuth => 0u8,
            AuthenticationType::PAP => 1u8,
            AuthenticationType::CHAP => 2u8,
            AuthenticationType::Auto => 3u8,
        }
    }

    pub fn code(&self) -> (r: u8)
        ensures
            r == self.spec_code(),
    {
        match self {
            AuthenticationType::NoAuth => 0u8,
            AuthenticationType::PAP => 1u8,
            AuthenticationType::CHAP => 2u8,
            AuthenticationType::Auto => 3u8,
        }
    }
}

/// Data compression of a packet-data context.
#[derive(Clone, Copy, Debug, PartialEq, Eq, Structural)]
pub enum DataCompression {
    Off,
    Predefined,
    V42Bits,
}

impl DataCompression {
    /// The number that stands for this value on the wire.
    pub open spec fn spec_code(self) -> u8 {
        match self {
            DataCompression::Off => 0u8,
            DataCompression::Predefined => 1u8,
            DataCompression::V42Bits => 2u8,
        }
    }

    pub fn code(&self) -> (r: u8)
        ensures
            r == self.spec_code(),
    {
        match self {
            DataCompression::Off => 0u8,
            DataCompression::Predefined => 1u8,
            DataCompression::V42Bits => 2u8,
        }
    }
}

/// Header compression of a packet-data context.
#[derive(Clone, Copy, Debug, PartialEq, Eq, Structural)]
pub enum HeaderCompression {
    Off,
    Predefined,
    RFC1144,
    RFC2507,
    RFC3095,
}

impl HeaderCompression {
    /// The number that stands for this value on the wire.
    pub open spec fn spec_code(self) -> u8 {
        match self {
            HeaderCompression::Off => 0u8,
            HeaderCompression::Predefined => 1u8,
            HeaderCompression::RFC1144 => 2u8,
            HeaderCompression::RFC2507 => 3u8,
            HeaderCompression::RFC3095 => 4u8,
        }
    }

    pub fn code(&self) -> (r: u8)
        ensures
            r == self.spec_code(),
    {
        match self {
            HeaderCompression::Off => 0u8,
            HeaderCompression::Predefined => 1u8,
            HeaderCompression::RFC1144 => 2u8,
            HeaderCompression::RFC2507 => 3u8,
            HeaderCompression::RFC3095 => 4u8,
        }
    }
}

/// Quality of service: precedence class.
#[derive(Clone, Copy, Debug, PartialEq, Eq, Structural)]
pub enum QoSPrecedence {
    Subscribed,
    High,
    Normal,
    Low,
}

impl QoSPrecedence {
    /// The number that stands for this value on the wire.
    pub open spec fn spec_code(self) -> u8 {
        match self {
            QoSPrecedence::Subscribed => 0u8,
            QoSPrecedence::High => 1u8,
            QoSPrecedence::Normal => 2u8,
            QoSPrecedence::Low => 3u8,
        }
    }

    pub fn code(&self) -> (r: u8)
        ensures
            r == self.spec_code(),
    {
        match self {
            QoSPrecedence::Subscribed => 0u8,
            QoSPrecedence::High => 1u8,
            QoSPrecedence::Normal => 2u8,
            QoSPrecedence::Low => 3u8,
        }
    }
}

/// Quality of service: delay class.
#[derive(Clone, Copy, Debug, PartialEq, Eq, Structural)]
pub enum QoSDelay {
    Subscribed,
    Class1,
    Class2,
    Class3,
    BestEffort,
}

impl QoSDelay {
    /// The number that stands for this value on the wire.
    pub open spec fn spec_code(self) -> u8 {
        match self {
            QoSDelay::Subscribed => 0u8,
            QoSDelay::Class1 => 1u8,
            QoSDelay::Class2 => 2u8,
            QoSDelay::Class3 => 3u8,
            QoSDelay::BestEffort => 4u8,
        }
    }

    pub fn code(&self) -> (r: u8)
        ensures
            r == self.spec_code(),
    {
        match self {
            QoSDelay::Subscribed => 0u8,
            QoSDelay::Class1 => 1u8,
            QoSDelay::Class2 => 2u8,
            QoSDelay::Class3 => 3u8,
            QoSDelay::BestEffort => 4u8,
        }
    }
}

/// Quality of service: reliability class.
#[derive(Clone, Copy, Debug, PartialEq, Eq, Structural)]
pub enum QoSReliability {
    Subscribed,
    Class1,
    Class2,
    Class3,
    Class4,
    Class5,
    Class6,
}

impl QoSReliability {
    /// The number that stands for this value on the wire.
    pub open spec fn spec_code(self) -> u8 {
        match self {
            QoSReliability::Subscribed => 0u8,
            QoSReliability::Class1 => 1u8,
            QoSReliability::Class2 => 2u8,
            QoSReliability::Class3 => 3u8,
            QoSReliability::Class4 => 4u8,
            QoSReliability::Class5 => 5u8,
            QoSReliability::Class6 => 6u8,
        }
    }

    pub fn code(&self) -> (r: u8)
        ensures
            r == self.spec_code(),
    {
        match self {
            QoSReliability::Subscribed => 0u8,
            QoSReliability::Class1 => 1u8,
            QoSReliability::Class2 => 2u8,
            QoSReliability::Class3 => 3u8,
            QoSReliability::Class4 => 4u8,
            QoSReliability::Class5 => 5u8,
            QoSReliability::Class6 => 6u8,
        }
    }
}

/// Action on a packet-switched profile.
#[derive(Clone, Copy, Debug, PartialEq, Eq, Structural)]
pub enum PacketSwitchedAction {
    Reset,
    Store,
    Load,
    Activate,
    Deactivate,
}

impl PacketSwitchedAction {
    /// The number that stands for this value on the wire.
    pub open spec fn spec_code(self) -> u8 {
        match self {
            PacketSwitchedAction::Reset => 0u8,
            PacketSwitchedAction::Store => 1u8,
            PacketSwitchedAction::Load => 2u8,
            PacketSwitchedAction::Activate => 3u8,
            PacketSwitchedAction::Deactivate => 4u8,
        }
    }

    pub fn code(&self) -> (r: u8)
        ensures
            r == self.spec_code(),
    {
        match self {
            PacketSwitchedAction::Reset => 0u8,
            PacketSwitchedAction::Store => 1u8,
            PacketSwitchedAction::Load => 2u8,
            PacketSwitchedAction::Activate => 3u8,
            PacketSwitchedAction::Deactivate => 4u8,
        }
    }
}

/// Whether the module is attached to the packet domain.
#[derive(Clone, Copy, Debug, PartialEq, Eq, Structural)]
pub enum GPRSAttachedState {
    Detached,
    Attached,
}

impl GPRSAttachedState {
    /// The number that stands for this value on the wire.
    pub open spec fn spec_code(self) -> u8 {
        match self {
            GPRSAttachedState::Detached => 0u8,
            GPRSAttachedState::Attached => 1u8,
        }
    }

    pub fn code(&self) -> (r: u8)
        ensures
            r == self.spec_code(),
    {
        match self {
            GPRSAttachedState::Detached => 0u8,
            GPRSAttachedState::Attached => 1u8,
        }
    }
}

/// Which packet-domain registration notifications are sent.
#[derive(Clone, Copy, Debug, PartialEq, Eq, Structural)]
pub enum GPRSNetworkRegistrationUrcConfig {
    UrcDisabled,
    UrcEnabled,
    UrcVerbose,
}

impl GPRSNetworkRegistrationUrcConfig {
    /// The number that stands for this value on the wire.
    pub open spec fn spec_code(self) -> u8 {
        match self {
            GPRSNetworkRegistrationUrcConfig::UrcDisabled => 0u8,
            GPRSNetworkRegistrationUrcConfig::UrcEnabled => 1u8,
            GPRSNetworkRegistrationUrcConfig::UrcVerbose => 2u8,
        }
    }

    pub fn code(&self) -> (r: u8)
        ensures
            r == self.spec_code(),
    {
        match self {
            GPRSNetworkRegistrationUrcConfig::UrcDisabled => 0u8,
            GPRSNetworkRegistrationUrcConfig::UrcEnabled => 1u8,
            GPRSNetworkRegistrationUrcConfig::UrcVerbose => 2u8,
        }
    }
}

/// How packet-domain events are reported.
#[derive(Clone, Copy, Debug, PartialEq, Eq, Structural)]
pub enum PSEventReportingMode {
    CircularBufferUrcs,
    DiscardUrcs,
    BufferUrcs,
}

impl PSEventReportingMode {
    /// The number that stands for this value on the wire.
    pub open spec fn spec_code(self) -> u8 {
        match self {
            PSEventReportingMode::CircularBufferUrcs => 0u8,
            PSEventReportingMode::DiscardUrcs => 1u8,
            PSEventReportingMode::BufferUrcs => 2u8,
        }
    }

    pub fn code(&self) -> (r: u8)
        ensures
            r == self.spec_code(),
    {
        match self {
            PSEventReportingMode::CircularBufferUrcs => 0u8,
            PSEventReportingMode::DiscardUrcs => 1u8,
            PSEventReportingMode::BufferUrcs => 2u8,
        }
    }
}

/// Packet-domain registration status.
#[derive(Clone, Copy, Debug, PartialEq, Eq, Structural)]
pub enum GPRSNetworkRegistrationStat {
    NotRegistered,
    Registered,
    NotRegisteredSearching,
    RegistrationDenied,
    Unknown,
    RegisteredRoaming,
    AttachedEmergencyOnly,
}

impl GPRSNetworkRegistrationStat {
    /// The number that stands for this value on the wire.
    pub open spec fn spec_code(self) -> u8 {
        match self {
            GPRSNetworkRegistrationStat::NotRegistered => 0u8,
            GPRSNetworkRegistrationStat::Registered => 1u8,
            GPRSNetworkRegistrationStat::NotRegisteredSearching => 2u8,
            GPRSNetworkRegistrationStat::RegistrationDenied => 3u8,
            GPRSNetworkRegistrationStat::Unknown => 4u8,
            GPRSNetworkRegistrationStat::RegisteredRoaming => 5u8,
            GPRSNetworkRegistrationStat::AttachedEmergencyOnly => 8u8,
        }
    }

    pub fn code(&self) -> (r: u8)
        ensures
            r == self.spec_code(),
    {
        match self {
            GPRSNetworkRegistrationStat::NotRegistered => 0u8,
            GPRSNetworkRegistrationStat::Registered => 1u8,
            GPRSNetworkRegistrationStat::NotRegisteredSearching => 2u8,
            GPRSNetworkRegistrationStat::RegistrationDenied => 3u8,
            GPRSNetworkRegistrationStat::Unknown => 4u8,
            GPRSNetworkRegistrationStat::RegisteredRoaming => 5u8,
            GPRSNetworkRegistrationStat::AttachedEmergencyOnly => 8u8,
        }
    }
}

/// Whether extended registration notifications are sent.
#[derive(Clone, Copy, Debug, PartialEq, Eq, Structural)]
pub enum ExtendedPSNetworkRegistrationUrcConfig {
    UrcDisabled,
    UrcEnabled,
}

impl ExtendedPSNetworkRegistrationUrcConfig {
    /// The number that stands for this value on the wire.
    pub open spec fn spec_code(self) -> u8 {
        match self {
            ExtendedPSNetworkRegistrationUrcConfig::UrcDisabled => 0u8,
            ExtendedPSNetworkRegistrationUrcConfig::UrcEnabled => 1u8,
        }
    }

    pub fn code(&self) -> (r: u8)
        ensures
            r == self.spec_code(),
    {
        match self {
            ExtendedPSNetworkRegistrationUrcConfig::UrcDisabled => 0u8,
            ExtendedPSNetworkRegistrationUrcConfig::UrcEnabled => 1u8,
        }
    }
}

/// Extended packet-domain registration state.
#[derive(Clone, Copy, Debug, PartialEq, Eq, Structural)]
pub enum ExtendedPSNetworkRegistrationState {
    NotRegistered,
    Registered2gGprs,
    Registered2gEdge,
    Registered3gWcdma,
    Registered3gHsdpa,
    Registered3gHsupa,
    Registered3gHspdaHsupa,
    Registered4g,
    Registered2gGprsDtm,
    Registered2gEdgeDtm,
}

impl ExtendedPSNetworkRegistrationState {
    /// The number that stands for this value on the wire.
    pub open spec fn spec_code(self) -> u8 {
        match self {
            ExtendedPSNetworkRegistrationState::NotRegistered => 0u8,
            ExtendedPSNetworkRegistrationState::Registered2gGprs => 1u8,
            ExtendedPSNetworkRegistrationState::Registered2gEdge => 2u8,
            ExtendedPSNetworkRegistrationState::Registered3gWcdma => 3u8,
            ExtendedPSNetworkRegistrationState::Registered3gHsdpa => 4u8,
            ExtendedPSNetworkRegistrationState::Registered3gHsupa => 5u8,
            ExtendedPSNetworkRegistrationState::Registered3gHspdaHsupa => 6u8,
            ExtendedPSNetworkRegistrationState::Registered4g => 7u8,
            ExtendedPSNetworkRegistrationState::Registered2gGprsDtm => 8u8,
            ExtendedPSNetworkRegistrationState::Registered2gEdgeDtm => 9u8,
        }
    }

    pub fn code(&self) -> (r: u8)
        ensures
            r == self.spec_code(),
    {
        match self {
            ExtendedPSNetworkRegistrationState::NotRegistered => 0u8,
            ExtendedPSNetworkRegistrationState::Registered2gGprs => 1u8,
            ExtendedPSNetworkRegistrationState::Registered2gEdge => 2u8,
            ExtendedPSNetworkRegistrationState::Registered3gWcdma => 3u8,
            ExtendedPSNetworkRegistrationState::Registered3gHsdpa => 4u8,
            ExtendedPSNetworkRegistrationState::Registered3gHsupa => 5u8,
            ExtendedPSNetworkRegistrationState::Registered3gHspdaHsupa => 6u8,
            ExtendedPSNetworkRegistrationState::Registered4g => 7u8,
            ExtendedPSNetworkRegistrationState::Registered2gGprsDtm => 8u8,
            ExtendedPSNetworkRegistrationState::Registered2gEdgeDtm => 9u8,
        }
    }
}

/// Which EPS registration notifications are sent.
#[derive(Clone, Copy, Debug, PartialEq, Eq, Structural)]
pub enum EPSNetworkRegistrationUrcConfig {
    UrcDisabled,
    UrcEnabled,
    UrcVerbose,
}

impl EPSNetworkRegistrationUrcConfig {
    /// The number that stands for this value on the wire.
    pub open spec fn spec_code(self) -> u8 {
        match self {
            EPSNetworkRegistrationUrcConfig::UrcDisabled => 0u8,
            EPSNetworkRegistrationUrcConfig::UrcEnabled => 1u8,
            EPSNetworkRegistrationUrcConfig::UrcVerbose => 2u8,
        }
    }

    pub fn code(&self) -> (r: u8)
        ensures
            r == self.spec_code(),
    {
        match self {
            EPSNetworkRegistrationUrcConfig::UrcDisabled => 0u8,
            EPSNetworkRegistrationUrcConfig::UrcEnabled => 1u8,
            EPSNetworkRegistrationUrcConfig::UrcVerbose => 2u8,
        }
    }
}

/// EPS registration status.
#[derive(Clone, Copy, Debug, PartialEq, Eq, Structural)]
pub enum EPSNetworkRegistrationStat {
    NotRegistered,
    Registered,
    NotRegisteredSearching,
    RegistrationDenied,
    Unknown,
    RegisteredRoaming,
    AttachedEmergencyOnly,
}

impl EPSNetworkRegistrationStat {
    /// The number that stands for this value on the wire.
    pub open spec fn spec_code(self) -> u8 {
        match self {
            EPSNetworkRegistrationStat::NotRegistered => 0u8,
            EPSNetworkRegistrationStat::Registered => 1u8,
            EPSNetworkRegistrationStat::NotRegisteredSearching => 2u8,
            EPSNetworkRegistrationStat::RegistrationDenied => 3u8,
            EPSNetworkRegistrationStat::Unknown => 4u8,
            EPSNetworkRegistrationStat::RegisteredRoaming => 5u8,
            EPSNetworkRegistrationStat::AttachedEmergencyOnly => 8u8,
        }
    }

    pub fn code(&self) -> (r: u8)
        ensures
            r == self.spec_code(),
    {
        match self {
            EPSNetworkRegistrationStat::NotRegistered => 0u8,
            EPSNetworkRegistrationStat::Registered => 1u8,
            EPSNetworkRegistrationStat::NotRegisteredSearching => 2u8,
            EPSNetworkRegistrationStat::RegistrationDenied => 3u8,
            EPSNetworkRegistrationStat::Unknown => 4u8,
            EPSNetworkRegistrationStat::RegisteredRoaming => 5u8,
            EPSNetworkRegistrationStat::AttachedEmergencyOnly => 8u8,
        }
    }
}

/// How the network operator is chosen.
#[derive(Clone, Copy, Debug, PartialEq, Eq, Structural)]
pub enum OperatorSelectionMode {
    Automatic,
    Manual,
    Deregister,
    FormatOnly,
    ManualAutomatic,
}

impl OperatorSelectionMode {
    /// The number that stands for this value on the wire.
    pub open spec fn spec_code(self) -> u8 {
        match self {
            OperatorSelectionMode::Automatic => 0u8,
            OperatorSelectionMode::Manual => 1u8,
            OperatorSelectionMode::Deregister => 2u8,
            OperatorSelectionMode::FormatOnly => 3u8,
            OperatorSelectionMode::ManualAutomatic => 4u8,
        }
    }

    pub fn code(&self) -> (r: u8)
        ensures
            r == self.spec_code(),
    {
        match self {
            OperatorSelectionMode::Automatic => 0u8,
            OperatorSelectionMode::Manual => 1u8,
            OperatorSelectionMode::Deregister => 2u8,
            OperatorSelectionMode::FormatOnly => 3u8,
            OperatorSelectionMode::ManualAutomatic => 4u8,
        }
    }
}

/// TLS on a modem socket, with the security profile to use.
#[derive(Clone, Copy, Debug, PartialEq, Eq, Structural)]
pub enum SslTlsStatus {
    Disabled,
    Enabled(u8),
}

/// An AT command that takes no response but the final result code.
#[derive(Clone, Copy, Debug, PartialEq, Eq, Structural)]
pub struct NoResponse;

/// The bare `AT` probe, answered with `OK` by a responsive modem.
#[derive(Clone, Copy, Debug, PartialEq, Eq, Structural)]
pub struct AT;

/// Reads the last error of a socket operation.
#[derive(Clone, Copy, Debug, PartialEq, Eq, Structural)]
pub struct GetSocketError;

/// Selects how received socket data is framed.
#[derive(Clone, Copy, Debug, PartialEq, Eq, Structural)]
pub struct SetHexMode {
    pub hex_mode: u8,
}

/// Asks the modem to resolve a host name.
pub struct ResolveNameIp {
    pub ip_domain_string: Vec<u8>,
}

/// Received signal strength and bit error rate.
#[derive(Clone, Copy, Debug, PartialEq, Eq, Structural)]
pub struct SignalQuality {
    pub rssi: u8,
    pub ber: u8,
}

/// The current operator selection.
pub struct OperatorSelection {
    pub mode: OperatorSelectionMode,
    pub oper: Option<Vec<u8>>,
}

/// The radio access technology in use.
#[derive(Clone, Copy, Debug, PartialEq, Eq, Structural)]
pub struct RadioAccessTechnology {
    pub act: u8,
}

/// Identifies a packet-switched profile on the modem.
#[derive(Clone, Copy, Debug, PartialEq, Eq, Structural)]
pub struct ProfileId(pub u8);

/// Identifies a packet-data context on the modem.
#[derive(Clone, Copy, Debug, PartialEq, Eq, Structural)]
pub struct ContextId(pub u8);

/// Whether the module is attached to the packet domain.
#[derive(Clone, Copy, Debug, PartialEq, Eq, Structural)]
pub struct GPRSAttached {
    pub state: GPRSAttachedState,
}

/// The state of one packet-data context.
#[derive(Clone, Copy, Debug, PartialEq, Eq, Structural)]
pub struct PDPContextState {
    pub cid: ContextId,
    pub status: PDPContextStatus,
}

/// Extended packet-domain registration, as read.
#[derive(Clone, Copy, Debug, PartialEq, Eq, Structural)]
pub struct ExtendedPSNetworkRegistrationStatus {
    pub n: ExtendedPSNetworkRegistrationUrcConfig,
    pub state: ExtendedPSNetworkRegistrationState,
}

/// Extended packet-domain registration, as notified.
#[derive(Clone, Copy, Debug, PartialEq, Eq, Structural)]
pub struct ExtendedPSNetworkRegistration {
    pub state: ExtendedPSNetworkRegistrationState,
}

/// The packet-domain registration status that a poll reads.
#[derive(Clone, Copy, Debug, PartialEq, Eq, Structural)]
pub struct GPRSNetworkRegistrationStatus {
    pub n: GPRSNetworkRegistrationUrcConfig,
    pub stat: GPRSNetworkRegistrationStat,
}

impl GPRSNetworkRegistrationStat {
    /// Registered on the home network or roaming.
    pub open spec fn spec_is_registered(self) -> bool {
        self == GPRSNetworkRegistrationStat::Registered || self
            == GPRSNetworkRegistrationStat::RegisteredRoaming
    }

    /// Whether this status lets the modem move on to packet data.
    pub fn is_registered(&self) -> (r: bool)
        ensures
            r == self.spec_is_registered(),
    {
        match self {
            GPRSNetworkRegistrationStat::Registered => true,
            GPRSNetworkRegistrationStat::RegisteredRoaming => true,
            _ => false,
        }
    }
}

/// Opens a modem socket to a remote address.
pub struct ConnectSocket {
    pub id: PeerHandle,
    /// A local port, where one is asked for.
    pub port: Option<u16>,
    /// The remote address as text.
    pub remote_addr: Vec<u8>,
    pub remote_port: u16,
    pub protocol: SocketProtocol,
}

impl ConnectSocket {
    /// The command that opens modem socket `handle + 1` for local socket
    /// `handle`, over TCP, to `addr`.
    pub fn for_socket(handle: SocketHandle, addr: &SocketAddr) -> (r: ConnectSocket)
        requires
            handle.0 < 255,
        ensures
            r.id == PeerHandle((handle.0 + 1) as u8),
            r.port is None,
            r.remote_addr@ == ip_text_of(addr.ip),
            r.remote_port == addr.port,
            r.protocol == SocketProtocol::TCP,
    {
        ConnectSocket {
            id: PeerHandle(handle.0 + 1),
            port: None,
            remote_addr: ip_text(&addr.ip),
            remote_port: addr.port,
            protocol: SocketProtocol::TCP,
        }
    }
}

/// `n` written in decimal ASCII digits, without leading zeros.
pub open spec fn decimal_text(n: nat) -> Seq<u8>
    decreases n,
{
    if n < 10 {
        seq![(48 + n) as u8]
    } else {
        decimal_text(n / 10).push((48 + n % 10) as u8)
    }
}

/// Appends `n` in decimal to `out`.
fn push_decimal(out: &mut Vec<u8>, n: u32)
    ensures
        final(out)@ == old(out)@ + decimal_text(n as nat),
    decreases n,
{
    if n >= 10 {
        push_decimal(out, n / 10);
    }
    out.push((48 + n % 10) as u8);
    proof {
        if n >= 10 {
            assert(old(out)@ + decimal_text(n as nat) =~= old(out)@ + decimal_text((n / 10) as nat)
                + seq![(48 + n % 10) as u8]);
        } else {
            assert(old(out)@ + decimal_text(n as nat) =~= old(out)@ + seq![(48 + n % 10) as u8]);
        }
    }
}

/// Appends the bytes of `b` to `out`.
fn push_all(out: &mut Vec<u8>, b: &[u8])
    ensures
        final(out)@ == old(out)@ + b@,
{
    let mut i: usize = 0;
    while i < b.len()
        invariant
            i <= b@.len(),
            out@ == old(out)@ + b@.subrange(0, i as int),
        decreases b@.len() - i,
    {
        out.push(b[i]);
        proof {
            assert(out@ =~= old(out)@ + b@.subrange(0, i + 1));
        }
        i = i + 1;
    }
    proof {
        assert(b@.subrange(0, b@.len() as int) =~= b@);
    }
}

/// `AT+MIPOPEN=`
pub open spec fn mipopen_prefix() -> Seq<u8> {
    seq![65u8, 84u8, 43u8, 77u8, 73u8, 80u8, 79u8, 80u8, 69u8, 78u8, 61u8]
}

/// The command line that opens a modem socket:
/// `AT+MIPOPEN=<id>,[<port>],"<addr>",<remote port>,<protocol>\r\n`.
pub open spec fn connect_line(c: &ConnectSocket) -> Seq<u8> {
    mipopen_prefix() + decimal_text(c.id.0 as nat) + seq![44u8] + (match c.port {
        Some(p) => decimal_text(p as nat),
        None => Seq::empty(),
    }) + seq![44u8, 34u8] + c.remote_addr@ + seq![34u8, 44u8] + decimal_text(c.remote_port as nat)
        + seq![44u8] + decimal_text(c.protocol.spec_code() as nat) + seq![13u8, 10u8]
}

impl ConnectSocket {
    /// The command line for this command.
    pub fn encode(&self) -> (r: Vec<u8>)
        ensures
            r@ == connect_line(self),
    {
        let mut out: Vec<u8> = Vec::new();
        let prefix: [u8; 11] = [65u8, 84u8, 43u8, 77u8, 73u8, 80u8, 79u8, 80u8, 69u8, 78u8, 61u8];
        let mut i: usize = 0;
        while i < 11
            invariant
                i <= 11,
                prefix@ == mipopen_prefix(),
                out@ == mipopen_prefix().subrange(0, i as int),
            decreases 11 - i,
        {
            out.push(prefix[i]);
            proof {
                assert(out@ =~= mipopen_prefix().subrange(0, i + 1));
            }
            i = i + 1;
        }
        proof {
            assert(mipopen_prefix().subrange(0, 11) =~= mipopen_prefix());
        }
        let ghost s0 = out@;
        push_decimal(&mut out, self.id.0 as u32);
        out.push(44u8);
        let ghost s1 = out@;
        match self.port {
            Some(p) => push_decimal(&mut out, p as u32),
            None => {},
        }
        let ghost s2 = out@;
        out.push(44u8);
        out.push(34u8);
        push_all(&mut out, self.remote_addr.as_slice());
        out.push(34u8);
        out.push(44u8);
        push_decimal(&mut out, self.remote_port as u32);
        out.push(44u8);
        push_decimal(&mut out, self.protocol.code() as u32);
        out.push(13u8);
        out.push(10u8);
        proof {
            let port_text = match self.port {
                Some(p) => decimal_text(p as nat),
                None => Seq::<u8>::empty(),
            };
            assert(s1 == mipopen_prefix() + decimal_text(self.id.0 as nat) + seq![44u8]);
            assert(s2 =~= s1 + port_text);
            assert(out@ =~= connect_line(self));
        }
        out
    }
}

/// Announces `length` bytes of data for a modem socket.
#[derive(Clone, Copy, Debug, PartialEq, Eq, Structural)]
pub struct WriteSocketData {
    pub id: PeerHandle,
    pub length: u16,
}

impl WriteSocketData {
    /// The announcement for writing `data` to modem socket `id`.
    pub fn for_data(id: PeerHandle, data: &[u8]) -> (r: Option<WriteSocketData>)
        ensures
            data@.len() <= 65535 ==> r == Some(WriteSocketData { id, length: data@.len() as u16 }),
            data@.len() > 65535 ==> r is None,
    {
        if data.len() <= 65535 {
            Some(WriteSocketData { id, length: data.len() as u16 })
        } else {
            None
        }
    }
}

/// Closes a modem socket.
#[derive(Clone, Copy, Debug, PartialEq, Eq, Structural)]
pub struct CloseSocket {
    pub id: PeerHandle,
}

} // verus!
