//! Texts: protocol names, hexadecimal labels, C strings from the driver.

use vstd::prelude::*;
use vstd::string::StringExecFns;
use crate::passthru::ProtocolKind;

verus! {

/// The upper-case hexadecimal digit of a value below 16.
pub open spec fn hex_char(nibble: u8) -> char {
    if nibble == 0 {
        '0'
    } else if nibble == 1 {
        '1'
    } else if nibble == 2 {
        '2'
    } else if nibble == 3 {
        '3'
    } else if nibble == 4 {
        '4'
    } else if nibble == 5 {
        '5'
    } else if nibble == 6 {
        '6'
    } else if nibble == 7 {
        '7'
    } else if nibble == 8 {
        '8'
    } else if nibble == 9 {
        '9'
    } else if nibble == 10 {
        'A'
    } else if nibble == 11 {
        'B'
    } else if nibble == 12 {
        'C'
    } else if nibble == 13 {
        'D'
    } else if nibble == 14 {
        'E'
    } else {
        'F'
    }
}

/// A byte as two upper-case hexadecimal digits.
pub open spec fn hex_text(byte: u8) -> Seq<char> {
    seq![hex_char(byte / 16), hex_char(byte % 16)]
}

/// The upper-case hexadecimal digit of a value below 16, as a text of one
/// character.
fn hex_digit(nibble: u8) -> (r: &'static str)
    requires
        nibble < 16,
    ensures
        r@ == seq![hex_char(nibble)],
{
    proof {
        reveal_strlit("0");
        reveal_strlit("1");
        reveal_strlit("2");
        reveal_strlit("3");
        reveal_strlit("4");
        reveal_strlit("5");
        reveal_strlit("6");
        reveal_strlit("7");
        reveal_strlit("8");
        reveal_strlit("9");
        reveal_strlit("A");
        reveal_strlit("B");
        reveal_strlit("C");
        reveal_strlit("D");
        reveal_strlit("E");
        reveal_strlit("F");
    }
    let r = match nibble {
        0 => "0",
        1 => "1",
        2 => "2",
        3 => "3",
        4 => "4",
        5 => "5",
        6 => "6",
        7 => "7",
        8 => "8",
        9 => "9",
        10 => "A",
        11 => "B",
        12 => "C",
        13 => "D",
        14 => "E",
        _ => "F",
    };
    assert(r@ =~= seq![hex_char(nibble)]);
    r
}

/// Writes a byte as two upper-case hexadecimal digits.
pub fn hex_byte(byte: u8) -> (r: String)
    ensures
        r@ == hex_text(byte),
{
    let mut text = String::new();
    text.append(hex_digit(byte / 16));
    text.append(hex_digit(byte % 16));
    assert(text@ =~= hex_text(byte));
    text
}

/// Labels each algorithm index with its two hexadecimal digits, in order.
pub fn algorithm_labels(algos: &[u8]) -> (labels: Vec<String>)
    ensures
        labels@.len() == algos@.len(),
        forall|i: int| 0 <= i < algos@.len() ==> (#[trigger] labels@[i])@ == hex_text(algos@[i]),
{
    let mut labels: Vec<String> = Vec::new();
    let mut k: usize = 0;
    while k < algos.len()
        invariant
            k <= algos@.len(),
            labels@.len() == k,
            forall|i: int| 0 <= i < k ==> (#[trigger] labels@[i])@ == hex_text(algos@[i]),
        decreases algos@.len() - k,
    {
        labels.push(hex_byte(algos[k]));
        k += 1;
    }
    labels
}

/// What `str::to_lowercase` makes of a text.
pub uninterp spec fn lowercase_of(text: Seq<char>) -> Seq<char>;

/// `str::to_lowercase` of std: the result is the lower-case form of the argument,
/// a function of the characters alone, which the contract names and does not
/// spell out.
#[verifier::external_body]
fn to_lowercase(text: &str) -> (r: String)
    ensures
        r@ == lowercase_of(text@),
{
    text.to_lowercase()
}

/// The protocol that a lower-case name stands for, if it stands for one.
pub open spec fn protocol_of_name(lower: Seq<char>) -> Option<ProtocolKind> {
    if lower == "can"@ {
        Some(ProtocolKind::Can)
    } else if lower == "iso15765"@ || lower == "isotp"@ || lower == "iso-tp"@ {
        Some(ProtocolKind::Iso15765)
    } else {
        None
    }
}

/// The text of the failure for a name that stands for no protocol.
pub open spec fn unsupported_text(given: Seq<char>) -> Seq<char> {
    "Unsupported protocol: "@ + given
}

/// What parsing yields for a name `given` whose lower-case form is `lower`.
pub open spec fn parsed(lower: Seq<char>, given: Seq<char>) -> Result<ProtocolKind, Seq<char>> {
    match protocol_of_name(lower) {
        Some(protocol) => Ok(protocol),
        None => Err(unsupported_text(given)),
    }
}

/// View of the result of parsing.
pub open spec fn parsed_view(r: Result<ProtocolKind, String>) -> Result<ProtocolKind, Seq<char>> {
    match r {
        Ok(protocol) => Ok(protocol),
        Err(text) => Err(text@),
    }
}

/// Whether `text` reads `literal`.
fn reads(text: &String, literal: &str) -> (r: bool)
    ensures
        r == (text@ == literal@),
{
    let owned = literal.to_owned();
    *text == owned
}

/// Maps the lower-case form of a protocol name to the protocol. `given` is the
/// name as it was given, for the failure text.
pub fn protocol_from_lowercase(lower: &String, given: &str) -> (r: Result<ProtocolKind, String>)
    ensures
        parsed_view(r) == parsed(lower@, given@),
{
    if reads(lower, "can") {
        Ok(ProtocolKind::Can)
    } else if reads(lower, "iso15765") || reads(lower, "isotp") || reads(lower, "iso-tp") {
        Ok(ProtocolKind::Iso15765)
    } else {
        let mut text = "Unsupported protocol: ".to_owned();
        text.append(given);
        Err(text)
    }
}

/// Parses a protocol name, whatever its case: `can` for CAN; `iso15765`, `isotp`
/// and `iso-tp` for ISO 15765.
pub fn parse_protocol(protocol: &str) -> (r: Result<ProtocolKind, String>)
    ensures
        parsed_view(r) == parsed(lowercase_of(protocol@), protocol@),
{
    let lower = to_lowercase(protocol);
    protocol_from_lowercase(&lower, protocol)
}

/// The lower-case name of a protocol.
pub open spec fn label_of(protocol: ProtocolKind) -> Seq<char> {
    match protocol {
        ProtocolKind::Can => "can"@,
        ProtocolKind::Iso15765 => "iso15765"@,
    }
}

/// Returns the lower-case name of a protocol.
pub fn protocol_label(protocol: ProtocolKind) -> (r: String)
    ensures
        r@ == label_of(protocol),
{
    match protocol {
        ProtocolKind::Can => "can".to_owned(),
        ProtocolKind::Iso15765 => "iso15765".to_owned(),
    }
}

/// The name of each protocol parses to that protocol, once in lower case.
pub proof fn lemma_label_parses(protocol: ProtocolKind)
    ensures
        protocol_of_name(label_of(protocol)) == Some(protocol),
{
    reveal_strlit("can");
    reveal_strlit("iso15765");
    assert("can"@.len() == 3);
    assert("iso15765"@.len() == 8);
}

/// A signed byte of a C string read as an unsigned one.
pub open spec fn unsigned(c: i8) -> u8 {
    if c >= 0 {
        c as u8
    } else {
        (c + 256) as u8
    }
}

/// The bytes of a C string: those before the first zero, or all where there is
/// no zero.
pub open spec fn c_string_bytes(buf: Seq<i8>) -> Seq<u8>
    decreases buf.len(),
{
    if buf.len() == 0 || buf[0] == 0 {
        Seq::empty()
    } else {
        seq![unsigned(buf[0])] + c_string_bytes(buf.subrange(1, buf.len() as int))
    }
}

/// Copies the bytes of a C string out of a buffer.
pub fn c_string_prefix(buf: &[i8]) -> (bytes: Vec<u8>)
    ensures
        bytes@ == c_string_bytes(buf@),
{
    let mut bytes: Vec<u8> = Vec::new();
    let mut k: usize = 0;
    assert(buf@.subrange(0, buf@.len() as int) =~= buf@);
    while k < buf.len() && buf[k] != 0
        invariant
            k <= buf@.len(),
            c_string_bytes(buf@) == bytes@ + c_string_bytes(
                buf@.subrange(k as int, buf@.len() as int),
            ),
        decreases buf@.len() - k,
    {
        let c = buf[k];
        let ghost tail = buf@.subrange(k as int, buf@.len() as int);
        assert(tail[0] == c);
        assert(tail.subrange(1, tail.len() as int) =~= buf@.subrange(
            k as int + 1,
            buf@.len() as int,
        ));
        assert(c as u8 == unsigned(c)) by (bit_vector);
        let ghost before = bytes@;
        bytes.push(c as u8);
        assert(bytes@ + c_string_bytes(tail.subrange(1, tail.len() as int)) =~= before + (
        seq![unsigned(c)] + c_string_bytes(tail.subrange(1, tail.len() as int))));
        k += 1;
    }
    assert(c_string_bytes(buf@.subrange(k as int, buf@.len() as int)) =~= Seq::<u8>::empty());
    assert(bytes@ + Seq::<u8>::empty() =~= bytes@);
    bytes
}

/// What `String::from_utf8_lossy` makes of bytes.
pub uninterp spec fn utf8_lossy(bytes: Seq<u8>) -> Seq<char>;

/// `String::from_utf8_lossy` of std: the result is the text that the bytes
/// decode to, with a replacement character for each invalid sequence; a function
/// of the bytes alone, which the contract names and does not spell out.
#[verifier::external_body]
fn decode_lossy(bytes: &[u8]) -> (r: String)
    ensures
        r@ == utf8_lossy(bytes@),
{
    String::from_utf8_lossy(bytes).into_owned()
}

/// Reads a C string from a buffer: the bytes before the first zero, decoded as
/// UTF-8 with replacement.
pub fn cstr_to_string(buf: &[i8]) -> (r: String)
    ensures
        r@ == utf8_lossy(c_string_bytes(buf@)),
{
    let bytes = c_string_prefix(buf);
    decode_lossy(bytes.as_slice())
}

/// The three version texts of a device.
#[derive(Debug, Clone, PartialEq, Eq)]
pub struct J2534VersionInfo {
    pub api_version: String,
    pub dll_version: String,
    pub fw_version: String,
}

impl J2534VersionInfo {
    /// Reads the three version texts from the buffers that the driver filled.
    pub fn from_buffers(api: &[i8], dll: &[i8], fw: &[i8]) -> (r: J2534VersionInfo)
        ensures
            r.api_version@ == utf8_lossy(c_string_bytes(api@)),
            r.dll_version@ == utf8_lossy(c_string_bytes(dll@)),
            r.fw_version@ == utf8_lossy(c_string_bytes(fw@)),
    {
        J2534VersionInfo {
            api_version: cstr_to_string(api),
            dll_version: cstr_to_string(dll),
            fw_version: cstr_to_string(fw),
        }
    }
}

/// The bytes of a C string are those before its first zero: none of them comes
/// from a zero, each is the unsigned reading of the byte at its place, and what
/// follows them is a zero or the end of the buffer.
pub proof fn lemma_c_string_bytes(buf: Seq<i8>)
    ensures
        c_string_bytes(buf).len() <= buf.len(),
        forall|i: int|
            0 <= i < c_string_bytes(buf).len() ==> #[trigger] buf[i] != 0 && c_string_bytes(buf)[i]
                == unsigned(buf[i]),
        c_string_bytes(buf).len() == buf.len() || buf[c_string_bytes(buf).len() as int] == 0,
    decreases buf.len(),
{
    let bytes = c_string_bytes(buf);
    if buf.len() > 0 && buf[0] != 0 {
        let rest = buf.subrange(1, buf.len() as int);
        let later = c_string_bytes(rest);
        lemma_c_string_bytes(rest);
        assert(bytes == seq![unsigned(buf[0])] + later);
        assert forall|i: int| 0 <= i < bytes.len() implies #[trigger] buf[i] != 0 && bytes[i]
            == unsigned(buf[i]) by {
            if i > 0 {
                assert(bytes[i] == later[i - 1]);
                assert(rest[i - 1] == buf[i]);
                assert(rest[i - 1] != 0);
            } else {
                assert(buf[i] != 0);
            }
        }
        if bytes.len() != buf.len() {
            assert(rest[later.len() as int] == buf[bytes.len() as int]);
        }
    }
}

} // verus!
