//! Passive decoder: classifies a captured payload (magic byte first) into the
//! full command grammar. It never fails; unmatched patterns become
//! `Unknown` with their raw bytes.
//!
//! Disambiguation goes by command byte, then declared length, then a
//! sub-type byte at a fixed offset. Bulk responses are read as fixed-stride
//! records up to the declared count or the end of the buffer, whichever
//! comes first.

use vstd::prelude::*;
use crate::codec::{le_bytes, le_word_at, lemma_le_round_trip, packet, word_at, write_body, Route, MAGIC};
use crate::hex::{hb, prefixed_hex};
use crate::registry::GENERIC_FAMILY;
use vstd::string::StringExecFns;

verus! {

/// One `[family, id, f32]` record of a status response or single write.
#[derive(Clone, Copy, PartialEq, Eq, Structural, Debug)]
pub struct FeatureEntry {
    pub family: u8,
    pub id: u8,
    /// Bit pattern of the float value.
    pub bits: u32,
}

/// One `[family, id, max, min, step]` record of a bulk range dump; the
/// three floats as bit patterns.
#[derive(Clone, Copy, PartialEq, Eq, Structural, Debug)]
pub struct BulkRangeEntry {
    pub family: u8,
    pub id: u8,
    pub max: u32,
    pub min: u32,
    pub step: u32,
}

/// A decoded command. Request forms carry no data; response forms do.
#[derive(Debug)]
pub enum Command {
    DeviceAck { echoed_cmd: u8 },
    DeviceIdentifyRequest,
    DeviceIdentifyResponse { flags: u8 },
    Ping,
    GetFirmwareStringRequest { typ: u8 },
    GetFirmwareStringResponse { firmware: Vec<u8> },
    GetSerialRequest,
    GetSerialResponse { serial: Vec<u8> },
    StatusRequest { family: u8, feature_id: u8 },
    StatusResponse { features: Vec<FeatureEntry> },
    /// `None` when the buffer is too short to hold the record.
    WriteSingleFeature { feature: Option<FeatureEntry> },
    BulkRangeDumpRequest,
    BulkRangeDump { count: u8, entries: Vec<BulkRangeEntry> },
    GetHardwareIdRequest,
    GetHardwareIdResponse { hw_id: u8 },
    GlobalProfileRequest,
    GlobalProfileResponse { sbx_master: bool, scout_mode: bool, eq_enable: bool },
    GlobalProfileWrite { feature: u8, enabled: bool },
    OutputSelectReadRequest,
    OutputSelectReadResponse { output: Route },
    OutputSelectWrite { output: Route },
    OutputSelectEnumerate { raw: Vec<u8> },
    GetDspVersionRequest,
    GetDspVersionResponse { version: Vec<u8> },
    DirectModeSet { enabled: bool },
    DirectModeCommit,
    DirectModeReadRequest,
    DirectModeReadResponse { raw: Vec<u8> },
    DirectModeUnsupported { sub: u8 },
    Capabilities { sub: u8 },
    GainConfigRequest,
    GainConfigResponse { gain: u8 },
    DacFilterReadRequest,
    DacFilterReadResponse { filter: u8 },
    DacFilterWrite { filter: u8 },
    DacFilterEnumerateRequest,
    DacFilterEnumerateResponse { raw: Vec<u8> },
    Notification { sub: u8 },
    Unknown { cmd: u8, raw: Vec<u8> },
}

/// The mathematical model of a `Command`: byte and record lists as
/// sequences.
pub enum CommandModel {
    DeviceAck { echoed_cmd: u8 },
    DeviceIdentifyRequest,
    DeviceIdentifyResponse { flags: u8 },
    Ping,
    GetFirmwareStringRequest { typ: u8 },
    GetFirmwareStringResponse { firmware: Seq<u8> },
    GetSerialRequest,
    GetSerialResponse { serial: Seq<u8> },
    StatusRequest { family: u8, feature_id: u8 },
    StatusResponse { features: Seq<FeatureEntry> },
    WriteSingleFeature { feature: Option<FeatureEntry> },
    BulkRangeDumpRequest,
    BulkRangeDump { count: u8, entries: Seq<BulkRangeEntry> },
    GetHardwareIdRequest,
    GetHardwareIdResponse { hw_id: u8 },
    GlobalProfileRequest,
    GlobalProfileResponse { sbx_master: bool, scout_mode: bool, eq_enable: bool },
    GlobalProfileWrite { feature: u8, enabled: bool },
    OutputSelectReadRequest,
    OutputSelectReadResponse { output: Route },
    OutputSelectWrite { output: Route },
    OutputSelectEnumerate { raw: Seq<u8> },
    GetDspVersionRequest,
    GetDspVersionResponse { version: Seq<u8> },
    DirectModeSet { enabled: bool },
    DirectModeCommit,
    DirectModeReadRequest,
    DirectModeReadResponse { raw: Seq<u8> },
    DirectModeUnsupported { sub: u8 },
    Capabilities { sub: u8 },
    GainConfigRequest,
    GainConfigResponse { gain: u8 },
    DacFilterReadRequest,
    DacFilterReadResponse { filter: u8 },
    DacFilterWrite { filter: u8 },
    DacFilterEnumerateRequest,
    DacFilterEnumerateResponse { raw: Seq<u8> },
    Notification { sub: u8 },
    Unknown { cmd: u8, raw: Seq<u8> },
}

impl View for Command {
    type V = CommandModel;

    open spec fn view(&self) -> CommandModel {
        match self {
            Command::DeviceAck { echoed_cmd } => CommandModel::DeviceAck { echoed_cmd: *echoed_cmd },
            Command::DeviceIdentifyRequest => CommandModel::DeviceIdentifyRequest,
            Command::DeviceIdentifyResponse { flags } => CommandModel::DeviceIdentifyResponse { flags: *flags },
            Command::Ping => CommandModel::Ping,
            Command::GetFirmwareStringRequest { typ } => CommandModel::GetFirmwareStringRequest { typ: *typ },
            Command::GetFirmwareStringResponse { firmware } => CommandModel::GetFirmwareStringResponse {
                firmware: firmware@,
            },
            Command::GetSerialRequest => CommandModel::GetSerialRequest,
            Command::GetSerialResponse { serial } => CommandModel::GetSerialResponse { serial: serial@ },
            Command::StatusRequest { family, feature_id } => CommandModel::StatusRequest {
                family: *family,
                feature_id: *feature_id,
            },
            Command::StatusResponse { features } => CommandModel::StatusResponse { features: features@ },
            Command::WriteSingleFeature { feature } => CommandModel::WriteSingleFeature { feature: *feature },
            Command::BulkRangeDumpRequest => CommandModel::BulkRangeDumpRequest,
            Command::BulkRangeDump { count, entries } => CommandModel::BulkRangeDump {
                count: *count,
                entries: entries@,
            },
            Command::GetHardwareIdRequest => CommandModel::GetHardwareIdRequest,
            Command::GetHardwareIdResponse { hw_id } => CommandModel::GetHardwareIdResponse { hw_id: *hw_id },
            Command::GlobalProfileRequest => CommandModel::GlobalProfileRequest,
            Command::GlobalProfileResponse { sbx_master, scout_mode, eq_enable } =>
                CommandModel::GlobalProfileResponse {
                    sbx_master: *sbx_master,
                    scout_mode: *scout_mode,
                    eq_enable: *eq_enable,
                },
            Command::GlobalProfileWrite { feature, enabled } => CommandModel::GlobalProfileWrite {
                feature: *feature,
                enabled: *enabled,
            },
            Command::OutputSelectReadRequest => CommandModel::OutputSelectReadRequest,
            Command::OutputSelectReadResponse { output } => CommandModel::OutputSelectReadResponse {
                output: *output,
            },
            Command::OutputSelectWrite { output } => CommandModel::OutputSelectWrite { output: *output },
            Command::OutputSelectEnumerate { raw } => CommandModel::OutputSelectEnumerate { raw: raw@ },
            Command::GetDspVersionRequest => CommandModel::GetDspVersionRequest,
            Command::GetDspVersionResponse { version } => CommandModel::GetDspVersionResponse {
                version: version@,
            },
            Command::DirectModeSet { enabled } => CommandModel::DirectModeSet { enabled: *enabled },
            Command::DirectModeCommit => CommandModel::DirectModeCommit,
            Command::DirectModeReadRequest => CommandModel::DirectModeReadRequest,
            Command::DirectModeReadResponse { raw } => CommandModel::DirectModeReadResponse { raw: raw@ },
            Command::DirectModeUnsupported { sub } => CommandModel::DirectModeUnsupported { sub: *sub },
            Command::Capabilities { sub } => CommandModel::Capabilities { sub: *sub },
            Command::GainConfigRequest => CommandModel::GainConfigRequest,
            Command::GainConfigResponse { gain } => CommandModel::GainConfigResponse { gain: *gain },
            Command::DacFilterReadRequest => CommandModel::DacFilterReadRequest,
            Command::DacFilterReadResponse { filter } => CommandModel::DacFilterReadResponse {
                filter: *filter,
            },
            Command::DacFilterWrite { filter } => CommandModel::DacFilterWrite { filter: *filter },
            Command::DacFilterEnumerateRequest => CommandModel::DacFilterEnumerateRequest,
            Command::DacFilterEnumerateResponse { raw } => CommandModel::DacFilterEnumerateResponse {
                raw: raw@,
            },
            Command::Notification { sub } => CommandModel::Notification { sub: *sub },
            Command::Unknown { cmd, raw } => CommandModel::Unknown { cmd: *cmd, raw: raw@ },
        }
    }
}

/// The byte at `i`, or 0 past the end.
pub open spec fn byte_or_zero(d: Seq<u8>, i: int) -> u8 {
    if 0 <= i < d.len() {
        d[i]
    } else {
        0
    }
}

/// The bytes of `d` from `from` on (none when `from` is past the end).
pub open spec fn tail_from(d: Seq<u8>, from: int) -> Seq<u8> {
    if from < d.len() {
        d.subrange(from, d.len() as int)
    } else {
        Seq::empty()
    }
}

/// The declared payload `d[3 .. 3 + len]`, cut at the end of the buffer.
pub open spec fn payload(d: Seq<u8>, len: int) -> Seq<u8> {
    let end = if 3 + len < d.len() {
        3 + len
    } else {
        d.len() as int
    };
    if 3 <= end {
        d.subrange(3, end)
    } else {
        Seq::empty()
    }
}

/// How many records of `stride` bytes, starting at offset 5, are read:
/// the declared count or as many complete records as the buffer holds,
/// whichever is smaller.
pub open spec fn record_count(d_len: int, count: int, stride: int) -> int {
    let avail = if d_len >= 5 {
        (d_len - 5) / stride
    } else {
        0
    };
    if count < avail {
        count
    } else {
        avail
    }
}

pub open spec fn feature_record(d: Seq<u8>, off: int) -> FeatureEntry {
    FeatureEntry { family: d[off], id: d[off + 1], bits: le_word_at(d, off + 2) }
}

pub open spec fn bulk_record(d: Seq<u8>, off: int) -> BulkRangeEntry {
    BulkRangeEntry {
        family: d[off],
        id: d[off + 1],
        max: le_word_at(d, off + 2),
        min: le_word_at(d, off + 6),
        step: le_word_at(d, off + 10),
    }
}

/// Records of a status response: 6 bytes each from offset 5.
pub open spec fn status_records(d: Seq<u8>) -> Seq<FeatureEntry> {
    Seq::new(
        record_count(d.len() as int, byte_or_zero(d, 3) as int, 6) as nat,
        |i: int| feature_record(d, 5 + 6 * i),
    )
}

/// Records of a bulk range dump: 14 bytes each from offset 5.
pub open spec fn bulk_records(d: Seq<u8>) -> Seq<BulkRangeEntry> {
    Seq::new(
        record_count(d.len() as int, byte_or_zero(d, 4) as int, 14) as nat,
        |i: int| bulk_record(d, 5 + 14 * i),
    )
}

/// Global-profile family (0x26): query, response with bitmask, write.
pub open spec fn global_profile_spec(d: Seq<u8>, len: int) -> CommandModel {
    let sub = byte_or_zero(d, 3);
    if sub == 0x08 && len == 3 {
        CommandModel::GlobalProfileRequest
    } else if sub == 0x08 {
        let mask = byte_or_zero(d, 6);
        CommandModel::GlobalProfileResponse {
            sbx_master: mask & 0x01 != 0,
            scout_mode: mask & 0x02 != 0,
            eq_enable: mask & 0x04 != 0,
        }
    } else if sub == 0x07 {
        CommandModel::GlobalProfileWrite { feature: byte_or_zero(d, 4), enabled: byte_or_zero(d, 6) != 0 }
    } else {
        CommandModel::Unknown { cmd: 0x26, raw: tail_from(d, 3) }
    }
}

/// Output-select family (0x2c): direction byte 0x00 write, 0x01 read,
/// 0x02 enumerate.
pub open spec fn output_select_spec(d: Seq<u8>, len: int) -> CommandModel {
    let dir = byte_or_zero(d, 3);
    if dir == 0x01 && len == 1 {
        CommandModel::OutputSelectReadRequest
    } else if dir == 0x01 {
        CommandModel::OutputSelectReadResponse { output: Route::from_code_spec(byte_or_zero(d, 4)) }
    } else if dir == 0x00 {
        CommandModel::OutputSelectWrite { output: Route::from_code_spec(byte_or_zero(d, 4)) }
    } else if dir == 0x02 {
        CommandModel::OutputSelectEnumerate { raw: tail_from(d, 4) }
    } else {
        CommandModel::Unknown { cmd: 0x2c, raw: tail_from(d, 3) }
    }
}

/// Direct-mode family (0x39).
pub open spec fn direct_mode_spec(d: Seq<u8>, len: int) -> CommandModel {
    let sub = byte_or_zero(d, 3);
    if len == 3 && sub == 0x00 {
        CommandModel::DirectModeSet { enabled: byte_or_zero(d, 5) == 0x01 }
    } else if len <= 2 && sub == 0x01 {
        CommandModel::DirectModeCommit
    } else if len == 1 && sub == 0x02 {
        CommandModel::DirectModeReadRequest
    } else if sub == 0x02 {
        CommandModel::DirectModeReadResponse { raw: payload(d, len) }
    } else if sub == 0x04 || sub == 0x05 {
        CommandModel::DirectModeUnsupported { sub }
    } else {
        CommandModel::Unknown { cmd: 0x39, raw: tail_from(d, 3) }
    }
}

/// DAC-filter family (0x6c): direction byte as for output select.
pub open spec fn dac_filter_spec(d: Seq<u8>, len: int) -> CommandModel {
    let dir = byte_or_zero(d, 3);
    if dir == 0x01 && len == 1 {
        CommandModel::DacFilterReadRequest
    } else if dir == 0x01 {
        CommandModel::DacFilterReadResponse { filter: byte_or_zero(d, 4) }
    } else if dir == 0x00 {
        CommandModel::DacFilterWrite { filter: byte_or_zero(d, 4) }
    } else if dir == 0x02 && len == 1 {
        CommandModel::DacFilterEnumerateRequest
    } else if dir == 0x02 {
        CommandModel::DacFilterEnumerateResponse { raw: tail_from(d, 4) }
    } else {
        CommandModel::Unknown { cmd: 0x6c, raw: tail_from(d, 3) }
    }
}

/// The single-feature write record: `[0x01][family][feature][f32]`.
pub open spec fn write_record(d: Seq<u8>) -> Option<FeatureEntry> {
    if d.len() >= 10 {
        Some(FeatureEntry { family: d[4], id: d[5], bits: le_word_at(d, 6) })
    } else {
        None
    }
}

/// The command that a framed payload `d` (`d[0]` magic, `d[1]` command,
/// `d[2]` declared length) encodes.
pub open spec fn command_spec(d: Seq<u8>) -> CommandModel {
    if d.len() < 3 || d[0] != MAGIC {
        CommandModel::Unknown { cmd: byte_or_zero(d, 1), raw: d }
    } else {
        let cmd = d[1];
        let len = d[2] as int;
        if cmd == 0x02 {
            CommandModel::DeviceAck { echoed_cmd: byte_or_zero(d, 3) }
        } else if cmd == 0x05 {
            if len == 0 {
                CommandModel::DeviceIdentifyRequest
            } else {
                CommandModel::DeviceIdentifyResponse { flags: byte_or_zero(d, 3) }
            }
        } else if cmd == 0x06 {
            CommandModel::Ping
        } else if cmd == 0x07 {
            if len == 1 {
                CommandModel::GetFirmwareStringRequest { typ: byte_or_zero(d, 3) }
            } else {
                CommandModel::GetFirmwareStringResponse { firmware: payload(d, len) }
            }
        } else if cmd == 0x10 {
            if len == 0 {
                CommandModel::GetSerialRequest
            } else {
                CommandModel::GetSerialResponse { serial: payload(d, len) }
            }
        } else if cmd == 0x11 {
            if len == 3 {
                CommandModel::StatusRequest { family: byte_or_zero(d, 4), feature_id: byte_or_zero(d, 5) }
            } else {
                CommandModel::StatusResponse { features: status_records(d) }
            }
        } else if cmd == 0x12 && len == 7 {
            CommandModel::WriteSingleFeature { feature: write_record(d) }
        } else if cmd == 0x15 {
            if len == 1 {
                CommandModel::BulkRangeDumpRequest
            } else {
                CommandModel::BulkRangeDump { count: byte_or_zero(d, 4), entries: bulk_records(d) }
            }
        } else if cmd == 0x20 {
            if len == 0 {
                CommandModel::GetHardwareIdRequest
            } else {
                CommandModel::GetHardwareIdResponse { hw_id: byte_or_zero(d, 3) }
            }
        } else if cmd == 0x26 {
            global_profile_spec(d, len)
        } else if cmd == 0x2c {
            output_select_spec(d, len)
        } else if cmd == 0x30 {
            if len == 0 {
                CommandModel::GetDspVersionRequest
            } else {
                CommandModel::GetDspVersionResponse { version: payload(d, len) }
            }
        } else if cmd == 0x39 {
            direct_mode_spec(d, len)
        } else if cmd == 0x3a {
            CommandModel::Capabilities { sub: byte_or_zero(d, 3) }
        } else if cmd == 0x3c {
            if len == 2 {
                CommandModel::GainConfigRequest
            } else if len == 4 {
                CommandModel::GainConfigResponse { gain: byte_or_zero(d, 5) }
            } else {
                CommandModel::Unknown { cmd: 0x3c, raw: tail_from(d, 3) }
            }
        } else if cmd == 0x6c {
            dac_filter_spec(d, len)
        } else if cmd == 0x6e {
            CommandModel::Notification { sub: byte_or_zero(d, 3) }
        } else {
            CommandModel::Unknown { cmd, raw: d }
        }
    }
}

/// The byte at `i`, or 0 past the end.
fn byte_at(d: &[u8], i: usize) -> (r: u8)
    ensures
        r == byte_or_zero(d@, i as int),
{
    if i < d.len() {
        d[i]
    } else {
        0
    }
}

/// A copy of `d[from .. to]`.
fn copy_range(d: &[u8], from: usize, to: usize) -> (r: Vec<u8>)
    requires
        from <= to <= d@.len(),
    ensures
        r@ == d@.subrange(from as int, to as int),
{
    let mut r: Vec<u8> = Vec::new();
    let mut i = from;
    while i < to
        invariant
            from <= i <= to <= d@.len(),
            r@ == d@.subrange(from as int, i as int),
        decreases to - i,
    {
        r.push(d[i]);
        i = i + 1;
        assert(r@ =~= d@.subrange(from as int, i as int));
    }
    r
}

/// A copy of the bytes of `d` from `from` on.
pub(crate) fn copy_tail(d: &[u8], from: usize) -> (r: Vec<u8>)
    ensures
        r@ == tail_from(d@, from as int),
{
    if from < d.len() {
        copy_range(d, from, d.len())
    } else {
        Vec::new()
    }
}

/// A copy of the declared payload `d[3 .. 3 + len]`, cut at the end.
fn copy_payload(d: &[u8], len: usize) -> (r: Vec<u8>)
    requires
        len <= 255,
    ensures
        r@ == payload(d@, len as int),
{
    let end = if 3 + len < d.len() {
        3 + len
    } else {
        d.len()
    };
    if 3 <= end {
        copy_range(d, 3, end)
    } else {
        Vec::new()
    }
}

/// The six-byte feature record at `off`, if the buffer holds all of it.
pub fn feature_at(d: &[u8], off: usize) -> (r: Option<FeatureEntry>)
    ensures
        off + 6 <= d@.len() ==> r == Some(feature_record(d@, off as int)),
        off + 6 > d@.len() ==> r is None,
{
    if off > d.len() || d.len() - off < 6 {
        None
    } else {
        Some(FeatureEntry { family: d[off], id: d[off + 1], bits: word_at(d, off + 2) })
    }
}

fn record_total(d_len: usize, count: usize, stride: usize) -> (r: usize)
    requires
        stride > 0,
    ensures
        r as int == record_count(d_len as int, count as int, stride as int),
{
    let avail = if d_len >= 5 {
        (d_len - 5) / stride
    } else {
        0
    };
    if count < avail {
        count
    } else {
        avail
    }
}

proof fn lemma_record_fits(d_len: int, count: int, stride: int, i: int)
    requires
        stride > 0,
        count >= 0,
        0 <= i < record_count(d_len, count, stride),
    ensures
        5 + stride * i + stride <= d_len,
{
    let avail = if d_len >= 5 {
        (d_len - 5) / stride
    } else {
        0
    };
    assert(i < avail);
    assert(stride * (i + 1) <= stride * avail) by (nonlinear_arith)
        requires
            i + 1 <= avail,
            stride > 0,
    ;
    assert(stride * (i + 1) == stride * i + stride) by (nonlinear_arith);
    assert(stride * avail <= d_len - 5) by (nonlinear_arith)
        requires
            avail == (d_len - 5) / stride,
            d_len >= 5,
            stride > 0,
    ;
}

/// The records of a status response.
fn status_entries(d: &[u8]) -> (r: Vec<FeatureEntry>)
    ensures
        r@ == status_records(d@),
{
    let n = record_total(d.len(), byte_at(d, 3) as usize, 6);
    let mut r: Vec<FeatureEntry> = Vec::new();
    let mut i: usize = 0;
    while i < n
        invariant
            i <= n,
            n as int == record_count(d@.len() as int, byte_or_zero(d@, 3) as int, 6),
            r@.len() == i,
            forall|j: int| 0 <= j < i ==> r@[j] == feature_record(d@, 5 + 6 * j),
        decreases n - i,
    {
        proof {
            lemma_record_fits(d@.len() as int, byte_or_zero(d@, 3) as int, 6, i as int);
        }
        let off = 5 + 6 * i;
        r.push(FeatureEntry { family: d[off], id: d[off + 1], bits: word_at(d, off + 2) });
        i = i + 1;
    }
    assert(r@ =~= status_records(d@));
    r
}

/// The records of a bulk range dump.
fn bulk_entries(d: &[u8]) -> (r: Vec<BulkRangeEntry>)
    ensures
        r@ == bulk_records(d@),
{
    let n = record_total(d.len(), byte_at(d, 4) as usize, 14);
    let mut r: Vec<BulkRangeEntry> = Vec::new();
    let mut i: usize = 0;
    while i < n
        invariant
            i <= n,
            n as int == record_count(d@.len() as int, byte_or_zero(d@, 4) as int, 14),
            r@.len() == i,
            forall|j: int| 0 <= j < i ==> r@[j] == bulk_record(d@, 5 + 14 * j),
        decreases n - i,
    {
        proof {
            lemma_record_fits(d@.len() as int, byte_or_zero(d@, 4) as int, 14, i as int);
        }
        let off = 5 + 14 * i;
        r.push(
            BulkRangeEntry {
                family: d[off],
                id: d[off + 1],
                max: word_at(d, off + 2),
                min: word_at(d, off + 6),
                step: word_at(d, off + 10),
            },
        );
        i = i + 1;
    }
    assert(r@ =~= bulk_records(d@));
    r
}

fn decode_global_profile(d: &[u8], len: usize) -> (r: Command)
    ensures
        r@ == global_profile_spec(d@, len as int),
{
    let sub = byte_at(d, 3);
    if sub == 0x08 && len == 3 {
        Command::GlobalProfileRequest
    } else if sub == 0x08 {
        let mask = byte_at(d, 6);
        Command::GlobalProfileResponse {
            sbx_master: mask & 0x01 != 0,
            scout_mode: mask & 0x02 != 0,
            eq_enable: mask & 0x04 != 0,
        }
    } else if sub == 0x07 {
        Command::GlobalProfileWrite { feature: byte_at(d, 4), enabled: byte_at(d, 6) != 0 }
    } else {
        Command::Unknown { cmd: 0x26, raw: copy_tail(d, 3) }
    }
}

fn decode_output_select(d: &[u8], len: usize) -> (r: Command)
    ensures
        r@ == output_select_spec(d@, len as int),
{
    let dir = byte_at(d, 3);
    if dir == 0x01 && len == 1 {
        Command::OutputSelectReadRequest
    } else if dir == 0x01 {
        Command::OutputSelectReadResponse { output: Route::from_code(byte_at(d, 4)) }
    } else if dir == 0x00 {
        Command::OutputSelectWrite { output: Route::from_code(byte_at(d, 4)) }
    } else if dir == 0x02 {
        Command::OutputSelectEnumerate { raw: copy_tail(d, 4) }
    } else {
        Command::Unknown { cmd: 0x2c, raw: copy_tail(d, 3) }
    }
}

fn decode_direct_mode(d: &[u8], len: usize) -> (r: Command)
    requires
        len <= 255,
    ensures
        r@ == direct_mode_spec(d@, len as int),
{
    let sub = byte_at(d, 3);
    if len == 3 && sub == 0x00 {
        Command::DirectModeSet { enabled: byte_at(d, 5) == 0x01 }
    } else if len <= 2 && sub == 0x01 {
        Command::DirectModeCommit
    } else if len == 1 && sub == 0x02 {
        Command::DirectModeReadRequest
    } else if sub == 0x02 {
        Command::DirectModeReadResponse { raw: copy_payload(d, len) }
    } else if sub == 0x04 || sub == 0x05 {
        Command::DirectModeUnsupported { sub }
    } else {
        Command::Unknown { cmd: 0x39, raw: copy_tail(d, 3) }
    }
}

fn decode_dac_filter(d: &[u8], len: usize) -> (r: Command)
    ensures
        r@ == dac_filter_spec(d@, len as int),
{
    let dir = byte_at(d, 3);
    if dir == 0x01 && len == 1 {
        Command::DacFilterReadRequest
    } else if dir == 0x01 {
        Command::DacFilterReadResponse { filter: byte_at(d, 4) }
    } else if dir == 0x00 {
        Command::DacFilterWrite { filter: byte_at(d, 4) }
    } else if dir == 0x02 && len == 1 {
        Command::DacFilterEnumerateRequest
    } else if dir == 0x02 {
        Command::DacFilterEnumerateResponse { raw: copy_tail(d, 4) }
    } else {
        Command::Unknown { cmd: 0x6c, raw: copy_tail(d, 3) }
    }
}

/// Classifies a captured payload into the command grammar. Never fails.
pub fn decode(d: &[u8]) -> (r: Command)
    ensures
        r@ == command_spec(d@),
{
    if d.len() < 3 || d[0] != MAGIC {
        let raw = copy_tail(d, 0);
        assert(raw@ =~= d@);
        return Command::Unknown { cmd: byte_at(d, 1), raw };
    }
    let cmd = d[1];
    let len = d[2] as usize;
    if cmd == 0x02 {
        Command::DeviceAck { echoed_cmd: byte_at(d, 3) }
    } else if cmd == 0x05 {
        if len == 0 {
            Command::DeviceIdentifyRequest
        } else {
            Command::DeviceIdentifyResponse { flags: byte_at(d, 3) }
        }
    } else if cmd == 0x06 {
        Command::Ping
    } else if cmd == 0x07 {
        if len == 1 {
            Command::GetFirmwareStringRequest { typ: byte_at(d, 3) }
        } else {
            Command::GetFirmwareStringResponse { firmware: copy_payload(d, len) }
        }
    } else if cmd == 0x10 {
        if len == 0 {
            Command::GetSerialRequest
        } else {
            Command::GetSerialResponse { serial: copy_payload(d, len) }
        }
    } else if cmd == 0x11 {
        if len == 3 {
            Command::StatusRequest { family: byte_at(d, 4), feature_id: byte_at(d, 5) }
        } else {
            Command::StatusResponse { features: status_entries(d) }
        }
    } else if cmd == 0x12 && len == 7 {
        let feature = if d.len() >= 10 {
            Some(FeatureEntry { family: d[4], id: d[5], bits: word_at(d, 6) })
        } else {
            None
        };
        Command::WriteSingleFeature { feature }
    } else if cmd == 0x15 {
        if len == 1 {
            Command::BulkRangeDumpRequest
        } else {
            Command::BulkRangeDump { count: byte_at(d, 4), entries: bulk_entries(d) }
        }
    } else if cmd == 0x20 {
        if len == 0 {
            Command::GetHardwareIdRequest
        } else {
            Command::GetHardwareIdResponse { hw_id: byte_at(d, 3) }
        }
    } else if cmd == 0x26 {
        decode_global_profile(d, len)
    } else if cmd == 0x2c {
        decode_output_select(d, len)
    } else if cmd == 0x30 {
        if len == 0 {
            Command::GetDspVersionRequest
        } else {
            Command::GetDspVersionResponse { version: copy_payload(d, len) }
        }
    } else if cmd == 0x39 {
        decode_direct_mode(d, len)
    } else if cmd == 0x3a {
        Command::Capabilities { sub: byte_at(d, 3) }
    } else if cmd == 0x3c {
        if len == 2 {
            Command::GainConfigRequest
        } else if len == 4 {
            Command::GainConfigResponse { gain: byte_at(d, 5) }
        } else {
            Command::Unknown { cmd: 0x3c, raw: copy_tail(d, 3) }
        }
    } else if cmd == 0x6c {
        decode_dac_filter(d, len)
    } else if cmd == 0x6e {
        Command::Notification { sub: byte_at(d, 3) }
    } else {
        let raw = copy_tail(d, 0);
        assert(raw@ =~= d@);
        Command::Unknown { cmd, raw }
    }
}

/// A captured data fragment: protocol traffic, or other bytes.
#[derive(Debug)]
pub enum DataFragment {
    Other(Vec<u8>),
    SbProtocol(Command),
}

/// Splits captured payload bytes into protocol traffic (at least three
/// bytes, magic first) and anything else.
pub fn parse_data_fragment(d: &[u8]) -> (r: DataFragment)
    ensures
        (d@.len() < 3 || d@[0] != MAGIC) ==> (r is Other && r->Other_0@ == d@),
        !(d@.len() < 3 || d@[0] != MAGIC) ==> (r is SbProtocol && r->SbProtocol_0@ == command_spec(d@)),
{
    if d.len() < 3 || d[0] != MAGIC {
        let raw = copy_tail(d, 0);
        assert(raw@ =~= d@);
        DataFragment::Other(raw)
    } else {
        DataFragment::SbProtocol(decode(d))
    }
}

/// The name of the feature at a generic-family feature byte, if known.
pub open spec fn dsp_name_spec(id: u8) -> Option<Seq<char>> {
    if id == 0x00 {
        Some("SurroundToggle"@)
    } else if id == 0x01 {
        Some("SurroundLevel"@)
    } else if id == 0x02 {
        Some("DialogPlusToggle"@)
    } else if id == 0x03 {
        Some("DialogPlusLevel"@)
    } else if id == 0x04 {
        Some("SmartVolToggle"@)
    } else if id == 0x05 {
        Some("SmartVolLevel"@)
    } else if id == 0x06 {
        Some("SmartVolMode"@)
    } else if id == 0x07 {
        Some("CrystalizerToggle"@)
    } else if id == 0x08 {
        Some("CrystalizerLevel"@)
    } else if id == 0x09 {
        Some("EqToggle"@)
    } else if id == 0x0a {
        Some("EqPreAmp"@)
    } else if id == 0x0b {
        Some("Eq31Hz"@)
    } else if id == 0x0c {
        Some("Eq62Hz"@)
    } else if id == 0x0d {
        Some("Eq125Hz"@)
    } else if id == 0x0e {
        Some("Eq250Hz"@)
    } else if id == 0x0f {
        Some("Eq500Hz"@)
    } else if id == 0x10 {
        Some("Eq1kHz"@)
    } else if id == 0x11 {
        Some("Eq2kHz"@)
    } else if id == 0x12 {
        Some("Eq4kHz"@)
    } else if id == 0x13 {
        Some("Eq8kHz"@)
    } else if id == 0x14 {
        Some("Eq16kHz"@)
    } else if id == 0x17 {
        Some("SurroundDistance"@)
    } else if id == 0x18 {
        Some("BassToggle"@)
    } else if id == 0x19 {
        Some("BassLevel"@)
    } else {
        None
    }
}

fn dsp_name(id: u8) -> (r: Option<&'static str>)
    ensures
        r is Some <==> dsp_name_spec(id) is Some,
        r is Some ==> r->0@ == dsp_name_spec(id)->0,
{
    if id == 0x00 {
        Some("SurroundToggle")
    } else if id == 0x01 {
        Some("SurroundLevel")
    } else if id == 0x02 {
        Some("DialogPlusToggle")
    } else if id == 0x03 {
        Some("DialogPlusLevel")
    } else if id == 0x04 {
        Some("SmartVolToggle")
    } else if id == 0x05 {
        Some("SmartVolLevel")
    } else if id == 0x06 {
        Some("SmartVolMode")
    } else if id == 0x07 {
        Some("CrystalizerToggle")
    } else if id == 0x08 {
        Some("CrystalizerLevel")
    } else if id == 0x09 {
        Some("EqToggle")
    } else if id == 0x0a {
        Some("EqPreAmp")
    } else if id == 0x0b {
        Some("Eq31Hz")
    } else if id == 0x0c {
        Some("Eq62Hz")
    } else if id == 0x0d {
        Some("Eq125Hz")
    } else if id == 0x0e {
        Some("Eq250Hz")
    } else if id == 0x0f {
        Some("Eq500Hz")
    } else if id == 0x10 {
        Some("Eq1kHz")
    } else if id == 0x11 {
        Some("Eq2kHz")
    } else if id == 0x12 {
        Some("Eq4kHz")
    } else if id == 0x13 {
        Some("Eq8kHz")
    } else if id == 0x14 {
        Some("Eq16kHz")
    } else if id == 0x17 {
        Some("SurroundDistance")
    } else if id == 0x18 {
        Some("BassToggle")
    } else if id == 0x19 {
        Some("BassLevel")
    } else {
        None
    }
}

/// Name of a generic-family feature byte: the feature's name, or
/// `Unknown_0x..` for a byte with no known feature.
pub open spec fn dsp_feature_name_spec(id: u8) -> Seq<char> {
    match dsp_name_spec(id) {
        Some(n) => n,
        None => "Unknown_"@ + prefixed_hex(id as nat, 2),
    }
}

/// Name of a generic-family feature byte: the feature's name, or
/// `Unknown_0x..` for a byte with no known feature.
pub fn dsp_feature_name(id: u8) -> (r: String)
    ensures
        r@ == dsp_feature_name_spec(id),
{
    match dsp_name(id) {
        Some(n) => String::from_str(n),
        None => {
            let mut s = String::from_str("Unknown_");
            let h = hb(id);
            s.append(h.as_str());
            s
        },
    }
}

/// Name of the feature at `(family, id)`: under the generic family its
/// feature name, otherwise `id_0x..`.
pub fn feature_name(family: u8, id: u8) -> (r: String)
    ensures
        family == GENERIC_FAMILY ==> r@ == dsp_feature_name_spec(id),
        family != GENERIC_FAMILY ==> r@ == "id_"@ + prefixed_hex(id as nat, 2),
{
    if family == GENERIC_FAMILY {
        dsp_feature_name(id)
    } else {
        let mut s = String::from_str("id_");
        let h = hb(id);
        s.append(h.as_str());
        s
    }
}

/// Name of a DAC filter code, if known.
pub fn dac_filter_name(f: u8) -> (r: Option<&'static str>)
    ensures
        r is Some <==> 1 <= f <= 5,
        f == 1 ==> r->0@ == "Fast Roll-off, Minimum Phase"@,
        f == 2 ==> r->0@ == "Slow Roll-off, Minimum Phase"@,
        f == 3 ==> r->0@ == "NOS (Non-Oversampling)"@,
        f == 4 ==> r->0@ == "Fast Roll-off, Linear Phase"@,
        f == 5 ==> r->0@ == "Slow Roll-off, Linear Phase"@,
{
    if f == 1 {
        Some("Fast Roll-off, Minimum Phase")
    } else if f == 2 {
        Some("Slow Roll-off, Minimum Phase")
    } else if f == 3 {
        Some("NOS (Non-Oversampling)")
    } else if f == 4 {
        Some("Fast Roll-off, Linear Phase")
    } else if f == 5 {
        Some("Slow Roll-off, Linear Phase")
    } else {
        None
    }
}

/// Bulk decode truncation: when a bulk range dump declares more records
/// than the buffer holds, decoding keeps every complete 14-byte record and
/// stops at the last one, never reading past the buffer.
pub proof fn lemma_bulk_truncation(d: Seq<u8>)
    requires
        d.len() >= 5,
    ensures
        bulk_records(d).len() <= d[4],
        5 + 14 * bulk_records(d).len() <= d.len(),
        5 + 14 * d[4] > d.len() ==> (d.len() - (5 + 14 * bulk_records(d).len()) < 14),
{
    let n = bulk_records(d).len() as int;
    let avail = (d.len() - 5) / 14;
    assert(byte_or_zero(d, 4) == d[4]);
    assert(14 * avail <= d.len() - 5 < 14 * avail + 14);
    if 5 + 14 * d[4] > d.len() {
        assert(d[4] as int > avail);
        assert(n == avail);
    }
}

/// The passive decoder reads a generic write packet (without its report
/// id) back as the written address and value.
pub proof fn lemma_write_decodes(family: u8, feature: u8, bits: u32)
    ensures
        command_spec(packet(write_body(family, feature, bits)).drop_first())
            == (CommandModel::WriteSingleFeature {
                feature: Some(FeatureEntry { family, id: feature, bits }),
            }),
{
    let d = packet(write_body(family, feature, bits)).drop_first();
    let b = le_bytes(bits);
    assert(d[0] == MAGIC && d[1] == 0x12 && d[2] == 0x07);
    assert(d[4] == family && d[5] == feature);
    assert(d[6] == b[0] && d[7] == b[1] && d[8] == b[2] && d[9] == b[3]);
    lemma_le_round_trip(bits);
}

} // verus!
