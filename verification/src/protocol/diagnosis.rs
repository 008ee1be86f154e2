//! Diagnostic telemetry: commands and incremental response parsing.

use vstd::prelude::*;

use crate::error::{decode_error, fails_decoding, Error};
use crate::text::{append_decimal, decimal};

verus! {

/// Command used to request telemetry data (puff count, days used).
pub const LOAD_TELEMETRY_COMMAND: [u8; 8] = [0x00, 0xC9, 0x10, 0x02, 0x01, 0x01, 0x75, 0xD6];

/// Command used to request timestamp data (days used).
pub const LOAD_TIMESTAMP_COMMAND: [u8; 8] = [0x00, 0xC0, 0x10, 0x02, 0x00, 0x04, 0x38, 0xEF];

/// Command used to request battery voltage.
pub const LOAD_BATTERY_VOLTAGE_COMMAND: [u8; 5] = [0x00, 0xC0, 0x00, 0x21, 0xE7];

/// Tag of the puff-count telemetry block.
pub const TAG_PUFF_COUNT: u8 = 0x8E;

/// Tag of the day-counter telemetry block.
pub const TAG_DAY_COUNTER: u8 = 0x17;

/// Size of a telemetry block in bytes.
pub const TELEMETRY_BLOCK_SIZE: usize = 8;

/// The commands of a full diagnostic read, in order: telemetry, timestamp,
/// telemetry again, battery voltage.
pub open spec fn spec_all_diagnosis_commands() -> Seq<Seq<u8>> {
    seq![
        LOAD_TELEMETRY_COMMAND@,
        LOAD_TIMESTAMP_COMMAND@,
        LOAD_TELEMETRY_COMMAND@,
        LOAD_BATTERY_VOLTAGE_COMMAND@,
    ]
}

/// Return all commands sent during a full diagnostic read, in order.
///
/// The telemetry command is sent twice to match the observed sequence of the
/// reference client.
pub fn all_diagnosis_commands() -> (r: [&'static [u8]; 4])
    ensures
        r@.map_values(|c: &[u8]| c@) == spec_all_diagnosis_commands(),
{
    let r: [&'static [u8]; 4] = [
        &LOAD_TELEMETRY_COMMAND,
        &LOAD_TIMESTAMP_COMMAND,
        &LOAD_TELEMETRY_COMMAND,
        &LOAD_BATTERY_VOLTAGE_COMMAND,
    ];
    assert(r@.map_values(|c: &[u8]| c@) =~= spec_all_diagnosis_commands());
    r
}

/// Diagnostic telemetry collected from the device.
///
/// Every field is optional because each comes from a separate response frame.
/// The battery voltage is kept as the raw reading in millivolts.
#[derive(Debug, Clone, Copy, PartialEq, Eq, Structural)]
pub struct DiagnosticData {
    /// Total puff (smoking) count.
    pub total_smoking_count: Option<u16>,
    /// Number of days the device has been used.
    pub days_used: Option<u16>,
    /// Current battery voltage in millivolts.
    pub battery_millivolts: Option<u16>,
}

/// The empty diagnostic snapshot.
pub open spec fn empty_diagnostics() -> DiagnosticData {
    DiagnosticData { total_smoking_count: None, days_used: None, battery_millivolts: None }
}

impl Default for DiagnosticData {
    fn default() -> (r: Self)
        ensures
            r == empty_diagnostics(),
    {
        DiagnosticData { total_smoking_count: None, days_used: None, battery_millivolts: None }
    }
}

impl DiagnosticData {
    /// Create an empty `DiagnosticData`.
    pub fn new() -> (r: Self)
        ensures
            r == empty_diagnostics(),
    {
        DiagnosticData { total_smoking_count: None, days_used: None, battery_millivolts: None }
    }
}

/// The little-endian 16-bit value of two bytes.
pub open spec fn le_u16(lo: u8, hi: u8) -> u16 {
    (lo as int + 256 * hi as int) as u16
}

fn read_le_u16(lo: u8, hi: u8) -> (r: u16)
    ensures
        r == le_u16(lo, hi),
{
    (lo as u16) + (hi as u16) * 256
}

/// The number of telemetry blocks announced by a telemetry frame's length byte.
pub open spec fn telemetry_block_count(length_byte: u8) -> int {
    if length_byte < 2 {
        0
    } else {
        (length_byte - 2) / 8
    }
}

/// The data after one telemetry block (value in bytes 4-5, tag in byte 7)
/// has been applied: a puff-count block sets the puff count, a day-counter
/// block sets the days used, any other block changes nothing.
pub open spec fn apply_block(data: DiagnosticData, block: Seq<u8>) -> DiagnosticData {
    let value = le_u16(block[4], block[5]);
    if block[7] == TAG_PUFF_COUNT {
        DiagnosticData { total_smoking_count: Some(value), ..data }
    } else if block[7] == TAG_DAY_COUNTER {
        DiagnosticData { days_used: Some(value), ..data }
    } else {
        data
    }
}

/// The data after the first `n` telemetry blocks of frame `b` (starting at
/// byte 6) have been applied in order.
pub open spec fn apply_blocks(data: DiagnosticData, b: Seq<u8>, n: nat) -> DiagnosticData
    decreases n,
{
    if n == 0 {
        data
    } else {
        apply_block(
            apply_blocks(data, b, (n - 1) as nat),
            b.subrange(6 + 8 * (n - 1), 6 + 8 * n as int),
        )
    }
}

/// What parsing a telemetry frame makes of `data`.
pub open spec fn telemetry_decoding(data: DiagnosticData, b: Seq<u8>) -> Result<
    DiagnosticData,
    Seq<char>,
> {
    let blocks = telemetry_block_count(b[3]);
    let required = 6 + 8 * blocks;
    if b.len() < 6 {
        Err("invalid telemetry frame: too short for marker"@)
    } else if le_u16(b[4], b[5]) != 0x0101 {
        Err("invalid telemetry frame: wrong marker"@)
    } else if b.len() < required {
        Err(
            "invalid telemetry frame: expected "@ + decimal(required as nat) + " bytes, got "@
                + decimal(b.len()),
        )
    } else {
        Ok(apply_blocks(data, b, blocks as nat))
    }
}

/// What parsing response frame `b` makes of `data`.
///
/// The frame type is detected from bytes 2-3: `90 22` telemetry, `80 02`
/// timestamp (days used in bytes 4-5), `88 21` battery voltage (millivolts in
/// bytes 5-6). Frames with any other header leave `data` unchanged.
pub open spec fn diagnosis_decoding(data: DiagnosticData, b: Seq<u8>) -> Result<
    DiagnosticData,
    Seq<char>,
> {
    if b.len() < 4 {
        Err("diagnosis response too short for header"@)
    } else if b[2] == 0x90 && b[3] == 0x22 {
        telemetry_decoding(data, b)
    } else if b[2] == 0x80 && b[3] == 0x02 {
        if b.len() < 6 {
            Err("invalid timestamp frame: too short"@)
        } else {
            Ok(DiagnosticData { days_used: Some(le_u16(b[4], b[5])), ..data })
        }
    } else if b[2] == 0x88 && b[3] == 0x21 {
        if b.len() < 7 {
            Err("invalid battery voltage frame: too short"@)
        } else {
            Ok(DiagnosticData { battery_millivolts: Some(le_u16(b[5], b[6])), ..data })
        }
    } else {
        Ok(data)
    }
}

/// An 8-byte block of a telemetry response frame.
struct TelemetryBlock {
    value: u16,
    tag: u8,
}

impl TelemetryBlock {
    fn parse(bytes: &[u8]) -> (r: Result<Self, Error>)
        ensures
            bytes@.len() < 8 ==> fails_decoding(r, "invalid telemetry block: too short"@),
            bytes@.len() >= 8 ==> (r matches Ok(block) && block.value == le_u16(
                bytes@[4],
                bytes@[5],
            ) && block.tag == bytes@[7]),
    {
        if bytes.len() < TELEMETRY_BLOCK_SIZE {
            return Err(decode_error("invalid telemetry block: too short"));
        }
        Ok(TelemetryBlock { value: read_le_u16(bytes[4], bytes[5]), tag: bytes[7] })
    }
}

/// Incrementally builds a [`DiagnosticData`] by parsing successive response
/// frames.
#[derive(Debug, Clone, Copy)]
pub struct DiagnosticDataBuilder {
    inner: DiagnosticData,
}

impl View for DiagnosticDataBuilder {
    type V = DiagnosticData;

    /// The data accumulated so far.
    closed spec fn view(&self) -> DiagnosticData {
        self.inner
    }
}

impl Default for DiagnosticDataBuilder {
    fn default() -> (r: Self)
        ensures
            r@ == empty_diagnostics(),
    {
        DiagnosticDataBuilder { inner: DiagnosticData::new() }
    }
}

impl DiagnosticDataBuilder {
    /// Parse a single response frame and update the accumulated data.
    ///
    /// Frames with an unknown header are skipped, so that unrecognised frames
    /// do not abort the collection.
    pub fn parse(self, bytes: &[u8]) -> (r: Result<Self, Error>)
        ensures
            match diagnosis_decoding(self@, bytes@) {
                Ok(d) => r matches Ok(b) && b@ == d,
                Err(m) => r matches Err(e) && e.is_decode(m),
            },
    {
        let mut this = self;
        if bytes.len() < 4 {
            return Err(decode_error("diagnosis response too short for header"));
        }
        if bytes[2] == 0x90 && bytes[3] == 0x22 {
            this.parse_telemetry(bytes)?;
        } else if bytes[2] == 0x80 && bytes[3] == 0x02 {
            this.parse_timestamp(bytes)?;
        } else if bytes[2] == 0x88 && bytes[3] == 0x21 {
            this.parse_battery_voltage(bytes)?;
        }
        Ok(this)
    }

    /// Continue accumulating from previously collected data.
    pub fn from_data(data: DiagnosticData) -> (r: Self)
        ensures
            r@ == data,
    {
        DiagnosticDataBuilder { inner: data }
    }

    /// Finalise and return the accumulated [`DiagnosticData`].
    pub fn build(self) -> (r: DiagnosticData)
        ensures
            r == self@,
    {
        self.inner
    }

    fn parse_telemetry(&mut self, bytes: &[u8]) -> (r: Result<(), Error>)
        requires
            bytes@.len() >= 4,
        ensures
            match telemetry_decoding(old(self)@, bytes@) {
                Ok(d) => r is Ok && final(self)@ == d,
                Err(m) => r matches Err(e) && e.is_decode(m),
            },
    {
        if bytes.len() < 6 {
            return Err(decode_error("invalid telemetry frame: too short for marker"));
        }
        let marker = read_le_u16(bytes[4], bytes[5]);
        if marker != 0x0101 {
            return Err(decode_error("invalid telemetry frame: wrong marker"));
        }
        let length_byte = bytes[3] as usize;
        let num_blocks = length_byte.saturating_sub(2) / TELEMETRY_BLOCK_SIZE;
        let blocks_start: usize = 6;
        let required = blocks_start + num_blocks * TELEMETRY_BLOCK_SIZE;
        assert(num_blocks == telemetry_block_count(bytes@[3]));
        if bytes.len() < required {
            let msg = String::from_str("invalid telemetry frame: expected ");
            let msg = append_decimal(msg, required as u64);
            let msg = msg.concat(" bytes, got ");
            let msg = append_decimal(msg, bytes.len() as u64);
            return Err(Error::ProtocolDecode(msg));
        }
        let ghost start = self@;
        let mut i: usize = 0;
        while i < num_blocks
            invariant
                i <= num_blocks,
                num_blocks == telemetry_block_count(bytes@[3]),
                blocks_start == 6,
                required == 6 + 8 * num_blocks,
                required <= bytes@.len(),
                self@ == apply_blocks(start, bytes@, i as nat),
            decreases num_blocks - i,
        {
            let offset = blocks_start + i * TELEMETRY_BLOCK_SIZE;
            let block = TelemetryBlock::parse(&bytes[offset..offset + TELEMETRY_BLOCK_SIZE])?;
            if block.tag == TAG_PUFF_COUNT {
                self.inner.total_smoking_count = Some(block.value);
            } else if block.tag == TAG_DAY_COUNTER {
                self.inner.days_used = Some(block.value);
            }
            i = i + 1;
        }
        Ok(())
    }

    fn parse_timestamp(&mut self, bytes: &[u8]) -> (r: Result<(), Error>)
        ensures
            bytes@.len() < 6 ==> fails_decoding(r, "invalid timestamp frame: too short"@),
            bytes@.len() >= 6 ==> r is Ok && final(self)@ == (DiagnosticData {
                days_used: Some(le_u16(bytes@[4], bytes@[5])),
                ..old(self)@
            }),
    {
        if bytes.len() < 6 {
            return Err(decode_error("invalid timestamp frame: too short"));
        }
        self.inner.days_used = Some(read_le_u16(bytes[4], bytes[5]));
        Ok(())
    }

    fn parse_battery_voltage(&mut self, bytes: &[u8]) -> (r: Result<(), Error>)
        ensures
            bytes@.len() < 7 ==> fails_decoding(r, "invalid battery voltage frame: too short"@),
            bytes@.len() >= 7 ==> r is Ok && final(self)@ == (DiagnosticData {
                battery_millivolts: Some(le_u16(bytes@[5], bytes@[6])),
                ..old(self)@
            }),
    {
        if bytes.len() < 7 {
            return Err(decode_error("invalid battery voltage frame: too short"));
        }
        self.inner.battery_millivolts = Some(read_le_u16(bytes[5], bytes[6]));
        Ok(())
    }
}

/// Telemetry blocks never touch the battery reading.
proof fn lemma_blocks_keep_battery(data: DiagnosticData, b: Seq<u8>, n: nat)
    ensures
        apply_blocks(data, b, n).battery_millivolts == data.battery_millivolts,
    decreases n,
{
    if n > 0 {
        lemma_blocks_keep_battery(data, b, (n - 1) as nat);
    }
}

/// Each kind of diagnosis frame updates only its own fields: a battery frame
/// only the battery reading, a timestamp frame only the days used, a
/// telemetry frame never the battery reading, and a frame with an unknown
/// header nothing at all. Readings collected from earlier frames therefore
/// survive later frames of other kinds.
pub proof fn law_diagnosis_frames_touch_own_fields(data: DiagnosticData, frame: Seq<u8>)
    ensures
        diagnosis_decoding(data, frame) matches Ok(next) ==> {
            &&& (frame[2] == 0x88 && frame[3] == 0x21) ==> next.total_smoking_count
                == data.total_smoking_count && next.days_used == data.days_used
            &&& (frame[2] == 0x80 && frame[3] == 0x02) ==> next.total_smoking_count
                == data.total_smoking_count && next.battery_millivolts == data.battery_millivolts
            &&& (frame[2] == 0x90 && frame[3] == 0x22) ==> next.battery_millivolts
                == data.battery_millivolts
            &&& !(frame[2] == 0x88 && frame[3] == 0x21) && !(frame[2] == 0x80 && frame[3] == 0x02)
                && !(frame[2] == 0x90 && frame[3] == 0x22) ==> next == data
        },
{
    if frame.len() >= 4 && frame[2] == 0x90 && frame[3] == 0x22 {
        lemma_blocks_keep_battery(data, frame, telemetry_block_count(frame[3]) as nat);
    }
}

/// The 8-byte telemetry block `k` of frame `b`.
pub open spec fn telemetry_block(b: Seq<u8>, k: int) -> Seq<u8> {
    b.subrange(6 + 8 * k, 6 + 8 * k + 8)
}

/// A timestamp frame (bytes 2-3 `80 02`, at least 6 bytes) sets the days
/// used to bytes 4-5 read as a little-endian number, low byte first, and
/// keeps every other reading.
pub proof fn law_timestamp_days_used(data: DiagnosticData, b: Seq<u8>)
    requires
        b.len() >= 6,
        b[2] == 0x80,
        b[3] == 0x02,
    ensures
        diagnosis_decoding(data, b) is Ok,
        diagnosis_decoding(data, b)->Ok_0.days_used matches Some(days) && days as int == b[4]
            as int + 256 * b[5] as int,
        diagnosis_decoding(data, b)->Ok_0.total_smoking_count == data.total_smoking_count,
        diagnosis_decoding(data, b)->Ok_0.battery_millivolts == data.battery_millivolts,
{
}

/// After the first `n` blocks, the days used come from the last of them
/// tagged as the day counter (bytes 4-5, low byte first), and the puff count
/// from the last of them tagged as the puff count; a reading with no such
/// block keeps its earlier value.
proof fn lemma_blocks_take_last_tagged(data: DiagnosticData, b: Seq<u8>, n: nat, tag: u8)
    requires
        b.len() >= 6 + 8 * n,
        tag == TAG_DAY_COUNTER || tag == TAG_PUFF_COUNT,
    ensures
        ({
            let field = |d: DiagnosticData|
                if tag == TAG_DAY_COUNTER {
                    d.days_used
                } else {
                    d.total_smoking_count
                };
            &&& (forall|j: int| 0 <= j < n ==> telemetry_block(b, j)[7] != tag) ==> field(
                apply_blocks(data, b, n),
            ) == field(data)
            &&& forall|k: int|
                0 <= k < n && telemetry_block(b, k)[7] == tag && (forall|j: int|
                    k < j < n ==> telemetry_block(b, j)[7] != tag) ==> (field(
                    apply_blocks(data, b, n),
                ) matches Some(value) && value as int == b[6 + 8 * k + 4] as int + 256 * b[6 + 8
                    * k + 5] as int)
        }),
    decreases n,
{
    if n > 0 {
        lemma_blocks_take_last_tagged(data, b, (n - 1) as nat, tag);
        let last = telemetry_block(b, n - 1);
        assert(b.subrange(6 + 8 * (n - 1), 6 + 8 * n as int) == last);
        assert(last[4] == b[6 + 8 * (n - 1) + 4]);
        assert(last[5] == b[6 + 8 * (n - 1) + 5]);
    }
}

/// In a telemetry frame (bytes 2-3 `90 22`, marker `01 01` in bytes 4-5, four
/// blocks of 8 bytes from byte 6), the days used come from the last block
/// tagged `0x17` and the puff count from the last block tagged `0x8E`, each as
/// bytes 4-5 of the block read as a little-endian number, low byte first; a
/// reading without such a block keeps its earlier value, and the battery
/// reading is kept.
pub proof fn law_telemetry_readings(data: DiagnosticData, b: Seq<u8>, day: int, puff: int)
    requires
        b.len() >= 38,
        b[2] == 0x90,
        b[3] == 0x22,
        b[4] == 0x01,
        b[5] == 0x01,
    ensures
        diagnosis_decoding(data, b) is Ok,
        diagnosis_decoding(data, b)->Ok_0.battery_millivolts == data.battery_millivolts,
        (forall|j: int| 0 <= j < 4 ==> telemetry_block(b, j)[7] != TAG_DAY_COUNTER) ==> diagnosis_decoding(
            data,
            b,
        )->Ok_0.days_used == data.days_used,
        0 <= day < 4 && telemetry_block(b, day)[7] == TAG_DAY_COUNTER && (forall|j: int|
            day < j < 4 ==> telemetry_block(b, j)[7] != TAG_DAY_COUNTER) ==> (diagnosis_decoding(
            data,
            b,
        )->Ok_0.days_used matches Some(days) && days as int == b[6 + 8 * day + 4] as int + 256
            * b[6 + 8 * day + 5] as int),
        (forall|j: int| 0 <= j < 4 ==> telemetry_block(b, j)[7] != TAG_PUFF_COUNT) ==> diagnosis_decoding(
            data,
            b,
        )->Ok_0.total_smoking_count == data.total_smoking_count,
        0 <= puff < 4 && telemetry_block(b, puff)[7] == TAG_PUFF_COUNT && (forall|j: int|
            puff < j < 4 ==> telemetry_block(b, j)[7] != TAG_PUFF_COUNT) ==> (diagnosis_decoding(
            data,
            b,
        )->Ok_0.total_smoking_count matches Some(count) && count as int == b[6 + 8 * puff + 4]
            as int + 256 * b[6 + 8 * puff + 5] as int),
{
    assert(telemetry_block_count(b[3]) == 4);
    lemma_blocks_keep_battery(data, b, 4);
    lemma_blocks_take_last_tagged(data, b, 4, TAG_DAY_COUNTER);
    lemma_blocks_take_last_tagged(data, b, 4, TAG_PUFF_COUNT);
}

} // verus!
