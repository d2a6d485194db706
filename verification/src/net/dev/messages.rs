//! Messages of the network device servers.
use vstd::prelude::*;
use crate::ipc::{Buffer, Handle, PciAddress};
use crate::net::types::MacAddress;
pub use super::descriptors::{TxBufferDescriptor, RxBufferDescriptor};

verus! {
/// Version of the net device management messages.
pub const VERSION: u16 = 1;

/// Types of messages used in net device management.
#[derive(Debug, Clone, Copy, PartialEq, Eq, Structural)]
pub enum Type {
    Create,
    Destroy,

    GetLinkStatus,
    SetLinkStatusChangePort,
    GetMacAddress,

    Tx,
    SetTxFreePort,
    AddRxBuffers,
    SetRxPort,
}


/// Errors used by net device management.
#[derive(Debug, Clone, Copy, PartialEq, Eq, Structural)]
pub enum NetDeviceError {
    InvalidArgument,
    RuntimeError,
    DeviceError,
}


/// Parameters for the Create message.
#[derive(Debug, Clone, Copy)]
pub struct CreateQueryParameters {
    /// Name of the NIC to create. This is used for logging and debugging purposes.
    pub name: Buffer,

    /// The PCI address of the network device to create.
    pub pci_address: PciAddress,

    /// Configuration for the net buffer pool to use for this device.
    pub net_buffer_pool: NetBufferPoolConfig,
}

impl CreateQueryParameters {
    pub const HANDLE_NAME_MOBJ: usize = 1;
    pub const HANDLE_NET_BUFFER_POOL_MOBJ: usize = 2;
}

/// Reply for the Create message.
#[derive(Debug, Clone, Copy)]
pub struct CreateReply {
    /// Handle to the created network device.
    pub handle: Handle,
}

/// Parameters for the Destroy message.
#[derive(Debug, Clone, Copy)]
pub struct DestroyQueryParameters {
    /// Handle to the network device to destroy.
    pub handle: Handle,
}

/// Reply for the Destroy message.
#[derive(Debug, Clone, Copy)]
pub struct DestroyReply {}

/// Parameters for the GetLinkStatus message.
#[derive(Debug, Clone, Copy)]
pub struct GetLinkStatusQueryParameters {
    /// Handle to the network device to query.
    pub handle: Handle,
}

/// Reply for the GetLinkStatus message.
#[derive(Debug, Clone, Copy)]
pub struct GetLinkStatusReply {
    /// Whether the link is up (true) or down (false).
    pub link_up: bool,
}

/// Parameters for the SetLinkStatusChangePort message.
#[derive(Debug, Clone, Copy)]
pub struct SetLinkStatusChangePortQueryParameters {
    /// Handle to the network device to register for link status change notifications.
    pub handle: Handle,

    /// Value to correlate the notification with the registration
    ///
    /// This value will be sent back in the LinkStatusChangedNotification
    pub correlation: u64,
}

impl SetLinkStatusChangePortQueryParameters {
    /// Note: setting a invalid handle here unsets the port, effectively unregistering from link status change notifications.
    pub const HANDLE_PORT: usize = 1;
}

/// Reply for the SetLinkStatusChangePort message.
#[derive(Debug, Clone, Copy)]
pub struct SetLinkStatusChangePortReply {}

/// Parameters for the GetMacAddress message.
#[derive(Debug, Clone, Copy)]
pub struct GetMacAddressQueryParameters {
    /// Handle to the network device to query.
    pub handle: Handle,
}

/// Reply for the GetMacAddress message.
#[derive(Debug, Clone, Copy)]
pub struct GetMacAddressReply {
    /// The MAC address of the network device.
    pub mac_address: MacAddress,
}

/// Parameters for the Tx message.
#[derive(Debug, Clone, Copy)]
pub struct TxQueryParameters {
    /// Handle to the network device to transmit on.
    pub handle: Handle,

    /// Buffers containing the data to transmit.
    pub tx_descriptors: [TxBufferDescriptor; 13],
}

impl TxQueryParameters {
    pub const DESCRIPTOR_COUNT: usize = 13;
}

/// Reply for the Tx message.
#[derive(Debug, Clone, Copy)]
pub struct TxReply {
    /// Number of buffers that were accepted for transmission. This may be less than the number of buffers provided.
    pub sent_buffers: usize,
}

/// Parameters for the SetTxFreePort message.
#[derive(Debug, Clone, Copy)]
pub struct SetTxFreePortQueryParameters {
    /// Handle to the network device to register for Tx free notifications.
    pub handle: Handle,

    /// Value to correlate the notification with the registration
    ///
    /// This value will be sent back in the TxFreeNotification
    pub correlation: u64,
}

impl SetTxFreePortQueryParameters {
    /// Note: setting a invalid handle here unsets the port, effectively unregistering from Tx free notifications.
    pub const HANDLE_PORT: usize = 1;
}

/// Reply for the SetTxFreePort message.
#[derive(Debug, Clone, Copy)]
pub struct SetTxFreePortReply {}

/// Parameters for the AddRxBuffers message.
#[derive(Debug, Clone, Copy)]
pub struct AddRxBuffersQueryParameters {
    /// Handle to the network device to add Rx buffers to.
    pub handle: Handle,

    /// Buffers to add for receiving data.
    pub buffers: [u32; 26],
}

impl AddRxBuffersQueryParameters {
    pub const BUFFER_COUNT: usize = 26;
}

/// Reply for the AddRxBuffers message.
#[derive(Debug, Clone, Copy)]
pub struct AddRxBuffersReply {
    /// Number of buffers that were successfully added. This may be less than the number of buffers provided.
    pub added_buffers: usize,
}

/// Parameters for the SetRxPort message.
#[derive(Debug, Clone, Copy)]
pub struct SetRxPortQueryParameters {
    /// Handle to the network device to register for Rx notifications.
    pub handle: Handle,

    /// Value to correlate the notification with the registration
    ///
    /// This value will be sent back in the RxArrivedNotification
    pub correlation: u64,
}

impl SetRxPortQueryParameters {
    /// Note: setting a invalid handle here unsets the port, effectively unregistering from Rx notifications.
    pub const HANDLE_PORT: usize = 1;
}

/// Reply for the SetRxPort message.
#[derive(Debug, Clone, Copy)]
pub struct SetRxPortReply {}

/// Notification sent by the net device management server when the link status changes.
#[derive(Debug, Clone, Copy)]
pub struct LinkStatusChangedNotification {
    /// Value to correlate the notification with the registration
    pub correlation: u64,

    /// Whether the link is up (true) or down (false).
    pub link_up: bool,
}

/// Notification sent by the net device management server when Tx buffers are freed.
#[derive(Debug, Clone, Copy)]
pub struct TxFreeNotification {
    /// Value to correlate the notification with the registration
    pub correlation: u64,

    /// Buffers that were freed and can be reused.
    pub buffers: [u32; 30],
}

impl TxFreeNotification {
    pub const BUFFER_COUNT: usize = 30;
}

/// Notification sent by the net device management server when new Rx data arrives.
#[derive(Debug, Clone, Copy)]
pub struct RxArrivedNotification {
    /// Value to correlate the notification with the registration
    pub correlation: u64,

    /// Buffers containing the received data.
    pub rx_descriptors: [RxBufferDescriptor; 15],
}

impl RxArrivedNotification {
    pub const DESCRIPTOR_COUNT: usize = 15;
}

/// Configuration for the net buffer pool to use for a network device.
#[derive(Debug, Clone, Copy)]
pub struct NetBufferPoolConfig {
    /// Number of buffers in the pool.
    pub buffer_count: usize,

    /// Size of each buffer in bytes.
    pub buffer_size: usize,
}


impl From<Type> for u16 {
    fn from(value: Type) -> (r: u16) {
        match value {
            Type::Create => 1,
            Type::Destroy => 2,
            Type::GetLinkStatus => 3,
            Type::SetLinkStatusChangePort => 4,
            Type::GetMacAddress => 5,
            Type::Tx => 6,
            Type::SetTxFreePort => 7,
            Type::AddRxBuffers => 8,
            Type::SetRxPort => 9,
        }
    }
}

impl vstd::std_specs::convert::FromSpecImpl<Type> for u16 {
    open spec fn obeys_from_spec() -> bool {
        true
    }

    open spec fn from_spec(value: Type) -> u16 {
        match value {
            Type::Create => 1,
            Type::Destroy => 2,
            Type::GetLinkStatus => 3,
            Type::SetLinkStatusChangePort => 4,
            Type::GetMacAddress => 5,
            Type::Tx => 6,
            Type::SetTxFreePort => 7,
            Type::AddRxBuffers => 8,
            Type::SetRxPort => 9,
        }
    }
}

} // verus!
