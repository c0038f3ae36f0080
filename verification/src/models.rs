//! The typed message model: what a classified scan report looks like, and the
//! taxonomy of classification failures.

use vstd::prelude::*;

verus! {

/// The payload of a classified scan report.
///
/// `Hosts` carries the addresses a network-level sweep discovered, in order of
/// appearance and with duplicates preserved. `Ports` carries the single-entry
/// mapping a host-level sweep produces: the scanned host's address, and the
/// open ports found on it, in order of appearance.
#[derive(Debug, PartialEq, Eq)]
pub enum ScanResult {
    Hosts(Vec<String>),
    Ports(String, Vec<u16>),
}

/// Mathematical model of a [`ScanResult`].
pub enum ScanResultModel {
    Hosts(Seq<Seq<char>>),
    Ports(Seq<char>, Seq<u16>),
}

impl View for ScanResult {
    type V = ScanResultModel;

    open spec fn view(&self) -> ScanResultModel {
        match self {
            ScanResult::Hosts(hosts) => ScanResultModel::Hosts(
                hosts@.map_values(|h: String| h@),
            ),
            ScanResult::Ports(host, ports) => ScanResultModel::Ports(host@, ports@),
        }
    }
}

/// A classified message: the intent of a wire message, wrapping its payload.
///
/// The classifier builds these so that the payload always matches the intent:
/// a `NetworkScanResult` wraps `Hosts`, a `HostScanResult` wraps `Ports`.
/// [`Self::wf`] states that invariant.
#[derive(Debug, PartialEq, Eq)]
pub enum MessageType {
    NetworkScanResult(ScanResult),
    HostScanResult(ScanResult),
}

/// Mathematical model of a [`MessageType`].
pub enum MessageTypeModel {
    NetworkScanResult(ScanResultModel),
    HostScanResult(ScanResultModel),
}

impl View for MessageType {
    type V = MessageTypeModel;

    open spec fn view(&self) -> MessageTypeModel {
        match self {
            MessageType::NetworkScanResult(r) => MessageTypeModel::NetworkScanResult(r@),
            MessageType::HostScanResult(r) => MessageTypeModel::HostScanResult(r@),
        }
    }
}

impl MessageTypeModel {
    /// The wrapper matches its payload: a network scan result carries hosts,
    /// a host scan result carries ports.
    pub open spec fn wf(self) -> bool {
        match self {
            MessageTypeModel::NetworkScanResult(r) => r is Hosts,
            MessageTypeModel::HostScanResult(r) => r is Ports,
        }
    }
}

/// A classification failure. Each variant names exactly one way a raw message
/// can fail to become a [`MessageType`].
#[derive(Clone, Copy, Debug, PartialEq, Eq, Structural)]
pub enum ClassificationError {
    /// The payload is not valid JSON.
    InvalidEncoding,
    /// The `type` field is absent or not a string.
    MissingType,
    /// The `type` field is a string, but not a recognized message type.
    UnknownType,
    /// The `data` field is absent or not an array, for a recognized type.
    InvalidData,
    /// The `host` field is absent or not a string, for a host scan.
    MissingHost,
}

impl ClassificationError {
    /// A short human-readable description, embedded in failure status lines.
    pub fn description(&self) -> (s: &'static str)
        ensures
            s@ == self.spec_description(),
    {
        match self {
            ClassificationError::InvalidEncoding => "Invalid JSON",
            ClassificationError::MissingType => "Missing message type",
            ClassificationError::UnknownType => "Unknown message type",
            ClassificationError::InvalidData => "Missing or invalid data field",
            ClassificationError::MissingHost => "Missing host for host_scan",
        }
    }

    pub open spec fn spec_description(self) -> Seq<char> {
        match self {
            ClassificationError::InvalidEncoding => "Invalid JSON"@,
            ClassificationError::MissingType => "Missing message type"@,
            ClassificationError::UnknownType => "Unknown message type"@,
            ClassificationError::InvalidData => "Missing or invalid data field"@,
            ClassificationError::MissingHost => "Missing host for host_scan"@,
        }
    }
}

} // verus!
