//! Firmware version commands and response parsing.

use vstd::prelude::*;

use crate::error::{decode_error, decodes_as, Error};
use crate::text::{append_decimal, decimal};

verus! {

/// Command used to request the firmware version for the stick/vape unit.
pub const LOAD_STICK_FIRMWARE_VERSION_COMMAND: [u8; 7] = [0x00, 0xC0, 0x00, 0x00, 0x00, 0x00, 0x00];

/// Command used to request the firmware version for the holder unit.
pub const LOAD_HOLDER_FIRMWARE_VERSION_COMMAND: [u8; 7] = [0x00, 0xC9, 0x00, 0x00, 0x00, 0x00, 0x00];

/// IQOS firmware target kind.
#[derive(Debug, Clone, Copy, PartialEq, Eq, Structural)]
pub enum FirmwareKind {
    /// Firmware running on the stick/vape device (response byte `0xC0`).
    Stick,
    /// Firmware running on the holder/charger device (response byte `0x08`).
    Holder,
}

impl FirmwareKind {
    /// The byte that identifies this kind in a firmware response.
    pub open spec fn spec_code(self) -> u8 {
        match self {
            FirmwareKind::Stick => 0xC0,
            FirmwareKind::Holder => 0x08,
        }
    }

    /// The request command for this kind.
    pub open spec fn spec_load_command(self) -> Seq<u8> {
        match self {
            FirmwareKind::Stick => LOAD_STICK_FIRMWARE_VERSION_COMMAND@,
            FirmwareKind::Holder => LOAD_HOLDER_FIRMWARE_VERSION_COMMAND@,
        }
    }

    /// Return the byte that identifies this kind in a firmware response.
    pub fn code(self) -> (r: u8)
        ensures
            r == self.spec_code(),
    {
        match self {
            FirmwareKind::Stick => 0xC0,
            FirmwareKind::Holder => 0x08,
        }
    }

    /// Return the request command for this kind.
    pub fn load_command(self) -> (r: &'static [u8])
        ensures
            r@ == self.spec_load_command(),
    {
        match self {
            FirmwareKind::Stick => &LOAD_STICK_FIRMWARE_VERSION_COMMAND,
            FirmwareKind::Holder => &LOAD_HOLDER_FIRMWARE_VERSION_COMMAND,
        }
    }
}

/// Parsed firmware version.
#[derive(Debug, Clone, Copy, PartialEq, Eq, Structural)]
pub struct FirmwareVersion {
    /// Major version component.
    pub major: u8,
    /// Minor version component.
    pub minor: u8,
    /// Patch version component.
    pub patch: u8,
    /// Year/build component.
    pub year: u8,
}

/// The header of a firmware response for `kind`.
pub open spec fn firmware_header(b: Seq<u8>, kind: FirmwareKind) -> bool {
    b[0] == 0x00 && b[1] == kind.spec_code() && b[2] == 0x88 && b[3] == 0x00
}

/// What a firmware response for `kind` decodes to: a frame of at least 10
/// bytes with header `00 <kind> 88 00` yields bytes 6, 7, 8, 9 as major,
/// minor, patch, year.
pub open spec fn firmware_decoding(b: Seq<u8>, kind: FirmwareKind) -> Result<
    FirmwareVersion,
    Seq<char>,
> {
    if b.len() < 10 {
        Err("invalid firmware response: frame too short"@)
    } else if !firmware_header(b, kind) {
        Err("invalid firmware response: header mismatch"@)
    } else {
        Ok(FirmwareVersion { major: b[6], minor: b[7], patch: b[8], year: b[9] })
    }
}

impl Default for FirmwareVersion {
    fn default() -> (r: Self)
        ensures
            r == (FirmwareVersion { major: 0, minor: 0, patch: 0, year: 0 }),
    {
        FirmwareVersion { major: 0, minor: 0, patch: 0, year: 0 }
    }
}

impl FirmwareVersion {
    /// The text `v{major}.{minor}.{patch}.{year}`.
    pub open spec fn spec_text(self) -> Seq<char> {
        "v"@ + decimal(self.major as nat) + "."@ + decimal(self.minor as nat) + "."@ + decimal(
            self.patch as nat,
        ) + "."@ + decimal(self.year as nat)
    }

    /// Parse a firmware version frame for the given kind.
    pub fn from_response(bytes: &[u8], kind: FirmwareKind) -> (r: Result<Self, Error>)
        ensures
            decodes_as(r, firmware_decoding(bytes@, kind)),
    {
        if bytes.len() < 10 {
            return Err(decode_error("invalid firmware response: frame too short"));
        }
        if bytes[0] != 0x00 || bytes[1] != kind.code() || bytes[2] != 0x88 || bytes[3] != 0x00 {
            return Err(decode_error("invalid firmware response: header mismatch"));
        }
        Ok(FirmwareVersion { major: bytes[6], minor: bytes[7], patch: bytes[8], year: bytes[9] })
    }

    /// Render the version as `v{major}.{minor}.{patch}.{year}`.
    pub fn to_version_string(&self) -> (r: String)
        ensures
            r@ == self.spec_text(),
    {
        let s = String::from_str("v");
        let s = append_decimal(s, self.major as u64);
        let s = s.concat(".");
        let s = append_decimal(s, self.minor as u64);
        let s = s.concat(".");
        let s = append_decimal(s, self.patch as u64);
        let s = s.concat(".");
        append_decimal(s, self.year as u64)
    }
}

} // verus!
