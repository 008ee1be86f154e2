//! Product-number commands and response parsing.

use vstd::prelude::*;

use crate::error::{decode_error, fails_decoding, Error};

verus! {

/// Product number request for the stick/vape unit.
pub const PRODUCT_NUMBER_COMMAND: [u8; 5] = [0x00, 0xC0, 0x00, 0x03, 0x09];

/// Product number request for the holder unit.
pub const HOLDER_PRODUCT_NUMBER_COMMAND: [u8; 5] = [0x00, 0xC9, 0x00, 0x03, 0x09];

/// IQOS product-number target kind.
#[derive(Debug, Clone, Copy, PartialEq, Eq, Structural)]
pub enum ProductNumberKind {
    /// Product number reported by the stick/vape unit.
    Stick,
    /// Product number reported by the holder/charger unit.
    Holder,
}

/// `String::push` from std, which appends one character to the string.
#[verifier::external_body]
fn push_char(s: &mut String, c: char)
    ensures
        final(s)@ == old(s)@.push(c),
{
    s.push(c);
}

/// The character a payload byte is shown as: printable ASCII (`0x20..=0x7E`)
/// as itself, anything else as `.`.
pub open spec fn shown_char(b: u8) -> char {
    if 0x20 <= b && b <= 0x7E {
        b as char
    } else {
        '.'
    }
}

/// The payload bytes shown as text, one character per byte.
pub open spec fn shown_text(payload: Seq<u8>) -> Seq<char> {
    payload.map_values(|b: u8| shown_char(b))
}

impl ProductNumberKind {
    /// The request command for this target.
    pub open spec fn spec_command(self) -> Seq<u8> {
        match self {
            ProductNumberKind::Stick => PRODUCT_NUMBER_COMMAND@,
            ProductNumberKind::Holder => HOLDER_PRODUCT_NUMBER_COMMAND@,
        }
    }

    /// The four-byte response prefix for this target.
    pub open spec fn spec_response_prefix(self) -> Seq<u8> {
        match self {
            ProductNumberKind::Stick => seq![0x00u8, 0xC0, 0x88, 0x03],
            ProductNumberKind::Holder => seq![0x00u8, 0x08, 0x88, 0x03],
        }
    }

    /// Return the request command for this product-number target.
    pub fn command(self) -> (r: &'static [u8])
        ensures
            r@ == self.spec_command(),
    {
        match self {
            ProductNumberKind::Stick => &PRODUCT_NUMBER_COMMAND,
            ProductNumberKind::Holder => &HOLDER_PRODUCT_NUMBER_COMMAND,
        }
    }

    fn response_prefix(self) -> (r: [u8; 4])
        ensures
            r@ == self.spec_response_prefix(),
    {
        let r: [u8; 4] = match self {
            ProductNumberKind::Stick => [0x00, 0xC0, 0x88, 0x03],
            ProductNumberKind::Holder => [0x00, 0x08, 0x88, 0x03],
        };
        assert(r@ =~= self.spec_response_prefix());
        r
    }
}

/// What a product-number response decodes to.
///
/// After the four-byte prefix, a stick response carries the product number
/// up to a final trailing checksum/status byte, and a holder response carries
/// it to the end of the frame. The payload must not be empty.
pub open spec fn product_number_decoding(b: Seq<u8>, kind: ProductNumberKind) -> Result<
    Seq<char>,
    Seq<char>,
> {
    if b.len() < 4 {
        Err("invalid product number response: frame too short"@)
    } else if b.subrange(0, 4) != kind.spec_response_prefix() {
        Err("invalid product number response: header mismatch"@)
    } else {
        match kind {
            ProductNumberKind::Stick => if b.len() <= 5 {
                Err("invalid product number response: missing stick payload"@)
            } else {
                Ok(shown_text(b.subrange(4, b.len() - 1)))
            },
            ProductNumberKind::Holder => if b.len() <= 4 {
                Err("invalid product number response: missing holder payload"@)
            } else {
                Ok(shown_text(b.subrange(4, b.len() as int)))
            },
        }
    }
}

/// Parse a product-number response into a printable ASCII string, showing
/// each non-printable payload byte as `.`.
pub fn product_number_from_response(bytes: &[u8], kind: ProductNumberKind) -> (r: Result<
    String,
    Error,
>)
    ensures
        match product_number_decoding(bytes@, kind) {
            Ok(text) => r matches Ok(s) && s@ == text,
            Err(m) => fails_decoding(r, m),
        },
{
    let prefix = kind.response_prefix();
    if bytes.len() < 4 {
        return Err(decode_error("invalid product number response: frame too short"));
    }
    if bytes[0] != prefix[0] || bytes[1] != prefix[1] || bytes[2] != prefix[2] || bytes[3]
        != prefix[3] {
        assert(bytes@.subrange(0, 4) != kind.spec_response_prefix()) by {
            if bytes@.subrange(0, 4) == kind.spec_response_prefix() {
                assert(bytes@.subrange(0, 4)[0] == bytes@[0]);
                assert(bytes@.subrange(0, 4)[1] == bytes@[1]);
                assert(bytes@.subrange(0, 4)[2] == bytes@[2]);
                assert(bytes@.subrange(0, 4)[3] == bytes@[3]);
            }
        }
        return Err(decode_error("invalid product number response: header mismatch"));
    }
    assert(bytes@.subrange(0, 4) =~= kind.spec_response_prefix());
    let end = match kind {
        ProductNumberKind::Stick => {
            if bytes.len() <= 5 {
                return Err(decode_error("invalid product number response: missing stick payload"));
            }
            bytes.len() - 1
        },
        ProductNumberKind::Holder => {
            if bytes.len() <= 4 {
                return Err(
                    decode_error("invalid product number response: missing holder payload"),
                );
            }
            bytes.len()
        },
    };
    let ghost payload = bytes@.subrange(4, end as int);
    let mut text = String::new();
    let mut i: usize = 4;
    while i < end
        invariant
            4 <= i <= end <= bytes@.len(),
            payload == bytes@.subrange(4, end as int),
            text@ =~= shown_text(payload.subrange(0, i - 4)),
        decreases end - i,
    {
        let b = bytes[i];
        let c = if 0x20 <= b && b <= 0x7E {
            b as char
        } else {
            '.'
        };
        push_char(&mut text, c);
        assert(payload.subrange(0, i + 1 - 4) =~= payload.subrange(0, i - 4).push(b));
        i = i + 1;
    }
    assert(payload.subrange(0, end - 4) =~= payload);
    Ok(text)
}

} // verus!
