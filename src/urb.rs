//! Header of a captured USB request block (usbmon layout, 64 bytes) and
//! the protocol payload that follows it.

use vstd::prelude::*;
use crate::codec::{le_word_at, word_at, MAGIC};
use crate::decoder::{command_spec, copy_tail, parse_data_fragment, DataFragment};

verus! {

/// Length of the usbmon header that precedes the payload.
pub const URB_HEADER_LEN: usize = 64;

#[derive(Clone, Copy, PartialEq, Eq, Structural, Debug)]
pub enum CommDirection {
    HostIn,
    HostOut,
}

#[derive(Clone, Copy, PartialEq, Eq, Structural, Debug)]
pub enum UrbType {
    Submit,
    Complete,
    UrbError,
}

#[derive(Clone, Copy, PartialEq, Eq, Structural, Debug)]
pub enum TransferType {
    Isochronous,
    Interrupt,
    Control,
    Bulk,
}

#[derive(Clone, Copy, PartialEq, Eq, Structural, Debug)]
pub struct UsbEndpoint {
    pub raw: u8,
    pub direction: CommDirection,
}

#[derive(Clone, Copy, PartialEq, Eq, Structural, Debug)]
pub struct SetupFragment {
    pub bm_request_type: u8,
    pub b_request: u8,
    pub w_value: u16,
    pub w_index: u16,
    pub w_length: u16,
}

#[derive(Clone, Copy, PartialEq, Eq, Structural, Debug)]
pub enum UrbStatus {
    Success,
    /// The raw (negative errno) status word.
    Failed(u32),
}

#[derive(Debug)]
pub struct UrbHeader {
    pub id: u64,
    pub typ: UrbType,
    pub transfer_type: TransferType,
    pub endpoint: UsbEndpoint,
    pub device_address: u8,
    pub bus_number: u16,
    pub urb_status: UrbStatus,
    pub transfer_flags: u32,
    pub setup_fragment: Option<SetupFragment>,
    pub data_fragment: DataFragment,
}

pub open spec fn le_u16_at(s: Seq<u8>, off: int) -> u16 {
    (s[off] as int + 256 * s[off + 1] as int) as u16
}

pub open spec fn le_u64_at(s: Seq<u8>, off: int) -> u64 {
    (le_word_at(s, off) as int + 0x1_0000_0000 * le_word_at(s, off + 4) as int) as u64
}

pub open spec fn urb_type_spec(b: u8) -> UrbType {
    if b == 0x53 {
        UrbType::Submit
    } else if b == 0x43 {
        UrbType::Complete
    } else {
        UrbType::UrbError
    }
}

pub open spec fn transfer_type_spec(b: u8) -> TransferType {
    if b == 0 {
        TransferType::Isochronous
    } else if b == 1 {
        TransferType::Interrupt
    } else if b == 2 {
        TransferType::Control
    } else {
        TransferType::Bulk
    }
}

pub open spec fn setup_spec(s: Seq<u8>) -> Option<SetupFragment> {
    if s[14] == 0 {
        Some(
            SetupFragment {
                bm_request_type: s[40],
                b_request: s[41],
                w_value: le_u16_at(s, 42),
                w_index: le_u16_at(s, 44),
                w_length: le_u16_at(s, 46),
            },
        )
    } else {
        None
    }
}

fn u16_at(s: &[u8], off: usize) -> (r: u16)
    requires
        off + 2 <= s@.len(),
    ensures
        r == le_u16_at(s@, off as int),
{
    (s[off] as u32 + 256 * (s[off + 1] as u32)) as u16
}

fn leading_u64(s: &[u8]) -> (r: u64)
    requires
        8 <= s@.len(),
    ensures
        r == le_u64_at(s@, 0),
{
    let lo = word_at(s, 0) as u64;
    let hi = word_at(s, 4) as u64;
    assert(0x1_0000_0000 * (hi as int) + (lo as int) < 0x1_0000_0000_0000_0000) by (nonlinear_arith)
        requires
            hi < 0x1_0000_0000,
            lo < 0x1_0000_0000,
    ;
    lo + 0x1_0000_0000 * hi
}

/// Parses the usbmon header of a captured packet and decodes the payload
/// that follows it.
pub fn parse_packet_urb(data: &[u8]) -> (r: UrbHeader)
    requires
        data@.len() >= URB_HEADER_LEN,
    ensures
        r.id == le_u64_at(data@, 0),
        r.typ == urb_type_spec(data@[8]),
        r.transfer_type == transfer_type_spec(data@[9]),
        r.endpoint.raw == data@[10],
        r.endpoint.direction == (if data@[10] & 0x80 != 0 {
            CommDirection::HostIn
        } else {
            CommDirection::HostOut
        }),
        r.device_address == data@[11],
        r.bus_number == le_u16_at(data@, 12),
        r.urb_status == (if le_word_at(data@, 28) == 0 {
            UrbStatus::Success
        } else {
            UrbStatus::Failed(le_word_at(data@, 28))
        }),
        r.transfer_flags == le_word_at(data@, 56),
        r.setup_fragment == setup_spec(data@),
        ({
            let d = data@.subrange(URB_HEADER_LEN as int, data@.len() as int);
            if d.len() < 3 || d[0] != MAGIC {
                r.data_fragment is Other && r.data_fragment->Other_0@ == d
            } else {
                r.data_fragment is SbProtocol && r.data_fragment->SbProtocol_0@ == command_spec(d)
            }
        }),
{
    let typ = if data[8] == 0x53 {
        UrbType::Submit
    } else if data[8] == 0x43 {
        UrbType::Complete
    } else {
        UrbType::UrbError
    };
    let transfer_type = if data[9] == 0 {
        TransferType::Isochronous
    } else if data[9] == 1 {
        TransferType::Interrupt
    } else if data[9] == 2 {
        TransferType::Control
    } else {
        TransferType::Bulk
    };
    let endpoint = UsbEndpoint {
        raw: data[10],
        direction: if data[10] & 0x80 != 0 {
            CommDirection::HostIn
        } else {
            CommDirection::HostOut
        },
    };
    let setup_fragment = if data[14] == 0 {
        Some(
            SetupFragment {
                bm_request_type: data[40],
                b_request: data[41],
                w_value: u16_at(data, 42),
                w_index: u16_at(data, 44),
                w_length: u16_at(data, 46),
            },
        )
    } else {
        None
    };
    let status = word_at(data, 28);
    let urb_status = if status == 0 {
        UrbStatus::Success
    } else {
        UrbStatus::Failed(status)
    };
    let payload = copy_tail(data, URB_HEADER_LEN);
    assert(payload@ =~= data@.subrange(URB_HEADER_LEN as int, data@.len() as int));
    let data_fragment = parse_data_fragment(payload.as_slice());
    UrbHeader {
        id: leading_u64(data),
        typ,
        transfer_type,
        endpoint,
        device_address: data[11],
        bus_number: u16_at(data, 12),
        urb_status,
        transfer_flags: word_at(data, 56),
        setup_fragment,
        data_fragment,
    }
}

/// Whether a captured packet carries protocol traffic: its payload, after
/// the usbmon header, starts with the magic byte.
pub fn is_protocol_packet(data: &[u8]) -> (r: bool)
    ensures
        r == (data@.len() > URB_HEADER_LEN && data@[URB_HEADER_LEN as int] == MAGIC),
{
    data.len() > URB_HEADER_LEN && data[URB_HEADER_LEN] == MAGIC
}

} // verus!
