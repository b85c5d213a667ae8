//! Device path nodes: the kinds and sub-kinds of a node.
use vstd::prelude::*;

verus! {

/// The header of a device path node.
#[derive(Clone, Copy, Debug, PartialEq, Eq, Structural)]
pub struct DevicePath {
    pub ty: DevicePathType,
    pub sub_type: u8,
    /// The length of the node in bytes, header included.
    pub len: u16,
}

/// The kind of a device path node.
#[derive(Clone, Copy, Debug, PartialEq, Eq, Structural)]
pub enum DevicePathType {
    Hardware,
    Acpi,
    Messaging,
    Media,
    Bbs,
    End,
}

/// Sub-kinds of hardware nodes.
#[derive(Clone, Copy, Debug, PartialEq, Eq, Structural)]
pub enum HardwareSubType {
    HwPCIDP,
    HwPcCardDP,
    HwMemMapDP,
    HWVendorDP,
    HwControllerDP,
}

/// Sub-kinds of ACPI nodes.
#[derive(Clone, Copy, Debug, PartialEq, Eq, Structural)]
pub enum AcpiSubType {
    AcpiDP,
    AcpiExtendedDP,
    AcpiAdrDP,
}

/// Sub-kinds of messaging nodes.
#[derive(Clone, Copy, Debug, PartialEq, Eq, Structural)]
pub enum MsgSubType {
    MsgATAPIDP,
    MsgSCSIDP,
    MsgFibreChannelDP,
    Msg1394DP,
    MsgUSBDP,
    MsgI20DP,
    MsgInfiniBandDP,
    MsgVendorDP,
    MsgMacAddrDP,
    MsgIPv4DP,
    MsgIPv6DP,
    MsgUartDP,
    MsgUsbClassDP,
    MsgUsbWwidDP,
    MsgDeviceLogicalUnitDP,
    MsgSataDP,
    MsgIscsiDP,
}

/// Sub-kinds of media nodes.
#[derive(Clone, Copy, Debug, PartialEq, Eq, Structural)]
pub enum MediaSubType {
    MediaHardDriveDP,
    MediaCdRomDP,
    MediaVendorDP,
    MediaFilePathDP,
    MediaProtocolDP,
}

/// Sub-kinds of BIOS boot specification nodes.
#[derive(Clone, Copy, Debug, PartialEq, Eq, Structural)]
pub enum BbsSubType {
    BbsBbsDP,
}

/// Sub-kinds of end nodes.
#[derive(Clone, Copy, Debug, PartialEq, Eq, Structural)]
pub enum EndSubType {
    EndEntireDPS,
    EndInstanceDPS,
}

} // verus!
