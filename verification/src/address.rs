//! The address codec: destination descriptors as they travel in a SOCKS5
//! request.
//!
//! A descriptor starts with a one-byte address type. An IPv4 destination
//! follows as four octets, a domain name as a length byte and that many bytes
//! of text; both end with a big-endian port. IPv6 is recognised and refused.

use vstd::prelude::*;
use vstd::slice::slice_subrange;
use vstd::string::StringExecFns;
use vstd::utf8::{decode_utf8, encode_utf8, valid_utf8};

use crate::error::TunnelError;

verus! {

/// Address type of a four-octet IPv4 destination.
pub const ATYP_IPV4: u8 = 1;

/// Address type of a length-prefixed domain name.
pub const ATYP_DOMAIN: u8 = 3;

/// Address type of an IPv6 destination, which is not supported.
pub const ATYP_IPV6: u8 = 4;

/// Where a destination lives: the kind of address together with its value.
#[derive(Clone, Debug, PartialEq, Eq)]
pub enum TargetAddress {
    /// The four octets of an IPv4 address, in network order.
    Ipv4([u8; 4]),
    /// A domain name.
    Domain(String),
}

/// A destination to connect to.
#[derive(Clone, Debug, PartialEq, Eq)]
pub struct TargetDescriptor {
    address: TargetAddress,
    port: u16,
}

/// The mathematical value of a `TargetAddress`.
pub enum AddressView {
    /// Four octets.
    Ipv4(Seq<u8>),
    /// The characters of a domain name.
    Domain(Seq<char>),
}

/// The mathematical value of a `TargetDescriptor`.
pub struct TargetView {
    pub address: AddressView,
    pub port: u16,
}

impl View for TargetAddress {
    type V = AddressView;

    open spec fn view(&self) -> AddressView {
        match self {
            TargetAddress::Ipv4(octets) => AddressView::Ipv4(octets@),
            TargetAddress::Domain(name) => AddressView::Domain(name@),
        }
    }
}

impl View for TargetDescriptor {
    type V = TargetView;

    closed spec fn view(&self) -> TargetView {
        TargetView { address: self.address@, port: self.port }
    }
}

/// Names the text that `String::from_utf8_lossy` makes of a byte sequence:
/// the bytes read as UTF-8, each invalid sequence replaced by U+FFFD.
pub uninterp spec fn utf8_lossy(bytes: Seq<u8>) -> Seq<char>;

/// The text that a domain field stands for: the bytes read as UTF-8, with
/// lossy substitution where they are not valid UTF-8.
pub open spec fn domain_text(bytes: Seq<u8>) -> Seq<char> {
    if valid_utf8(bytes) {
        decode_utf8(bytes)
    } else {
        utf8_lossy(bytes)
    }
}

/// The character that writes a decimal digit.
pub open spec fn digit_char(digit: nat) -> char {
    if digit == 0 {
        '0'
    } else if digit == 1 {
        '1'
    } else if digit == 2 {
        '2'
    } else if digit == 3 {
        '3'
    } else if digit == 4 {
        '4'
    } else if digit == 5 {
        '5'
    } else if digit == 6 {
        '6'
    } else if digit == 7 {
        '7'
    } else if digit == 8 {
        '8'
    } else {
        '9'
    }
}

/// A number written in decimal, without leading zeros.
pub open spec fn decimal_text(n: nat) -> Seq<char>
    decreases n,
{
    if n < 10 {
        seq![digit_char(n)]
    } else {
        decimal_text(n / 10) + seq![digit_char(n % 10)]
    }
}

/// Four octets written as a dotted quad, such as `93.184.216.34`.
pub open spec fn dotted_quad(octets: Seq<u8>) -> Seq<char> {
    decimal_text(octets[0] as nat) + seq!['.'] + decimal_text(octets[1] as nat) + seq!['.']
        + decimal_text(octets[2] as nat) + seq!['.'] + decimal_text(octets[3] as nat)
}

impl AddressView {
    /// The host name to dial: the dotted quad of an IPv4 address, or the
    /// domain name itself.
    pub open spec fn host_text(self) -> Seq<char> {
        match self {
            AddressView::Ipv4(octets) => dotted_quad(octets),
            AddressView::Domain(name) => name,
        }
    }
}

/// The port that two bytes in network order stand for.
pub open spec fn be_port(hi: u8, lo: u8) -> u16 {
    (hi as int * 256 + lo as int) as u16
}

/// What decoding a descriptor yields, for every byte sequence.
///
/// Bytes after the port are ignored. A sequence that ends before its
/// declared fields do is malformed; an address type other than IPv4 or
/// domain is unsupported.
pub open spec fn decoded(data: Seq<u8>) -> Result<TargetView, TunnelError> {
    if data.len() == 0 {
        Err(TunnelError::MalformedRequest)
    } else if data[0] == ATYP_IPV4 {
        if data.len() < 7 {
            Err(TunnelError::MalformedRequest)
        } else {
            Ok(
                TargetView {
                    address: AddressView::Ipv4(data.subrange(1, 5)),
                    port: be_port(data[5], data[6]),
                },
            )
        }
    } else if data[0] == ATYP_DOMAIN {
        if data.len() < 2 || data.len() < 4 + data[1] {
            Err(TunnelError::MalformedRequest)
        } else {
            let n = data[1] as int;
            Ok(
                TargetView {
                    address: AddressView::Domain(domain_text(data.subrange(2, 2 + n))),
                    port: be_port(data[2 + n], data[3 + n]),
                },
            )
        }
    } else {
        Err(TunnelError::UnsupportedAddressKind)
    }
}

/// Calls `String::from_utf8_lossy` and makes the result an owned string.
///
/// Assumed of the standard library, not proved: the result is a function of
/// the bytes alone, named `utf8_lossy`; and where the bytes are valid UTF-8
/// nothing is substituted, so the result is the text they encode.
#[verifier::external_body]
fn lossy_string(bytes: &[u8]) -> (text: String)
    ensures
        text@ == utf8_lossy(bytes@),
        valid_utf8(bytes@) ==> text@ == decode_utf8(bytes@),
{
    String::from_utf8_lossy(bytes).into_owned()
}

/// Reads two bytes in network order as a port.
fn port_from_be(hi: u8, lo: u8) -> (port: u16)
    ensures
        port == be_port(hi, lo),
{
    (hi as u16) * 256 + (lo as u16)
}

/// The one-character text of a decimal digit.
fn digit_str(digit: u8) -> (text: &'static str)
    requires
        digit < 10,
    ensures
        text@ == seq![digit_char(digit as nat)],
{
    proof {
        reveal_strlit("0");
        reveal_strlit("1");
        reveal_strlit("2");
        reveal_strlit("3");
        reveal_strlit("4");
        reveal_strlit("5");
        reveal_strlit("6");
        reveal_strlit("7");
        reveal_strlit("8");
        reveal_strlit("9");
    }
    let text = match digit {
        0 => "0",
        1 => "1",
        2 => "2",
        3 => "3",
        4 => "4",
        5 => "5",
        6 => "6",
        7 => "7",
        8 => "8",
        _ => "9",
    };
    assert(text@ =~= seq![digit_char(digit as nat)]);
    text
}

/// Appends a number in decimal to a text.
fn push_decimal(text: String, n: u8) -> (out: String)
    ensures
        out@ == text@ + decimal_text(n as nat),
{
    proof {
        reveal_with_fuel(decimal_text, 3);
    }
    let mut out = text;
    if n >= 100 {
        out = out.concat(digit_str(n / 100));
    }
    if n >= 10 {
        out = out.concat(digit_str((n / 10) % 10));
    }
    out = out.concat(digit_str(n % 10));
    assert(out@ =~= text@ + decimal_text(n as nat));
    out
}

impl TargetDescriptor {
    /// An IPv4 destination.
    pub fn ipv4(octets: [u8; 4], port: u16) -> (target: TargetDescriptor)
        ensures
            target@ == (TargetView { address: AddressView::Ipv4(octets@), port }),
    {
        TargetDescriptor { address: TargetAddress::Ipv4(octets), port }
    }

    /// A destination given by a domain name.
    pub fn domain(name: String, port: u16) -> (target: TargetDescriptor)
        ensures
            target@ == (TargetView { address: AddressView::Domain(name@), port }),
    {
        TargetDescriptor { address: TargetAddress::Domain(name), port }
    }

    /// The address of the destination.
    pub fn address(&self) -> (address: &TargetAddress)
        ensures
            address@ == self@.address,
    {
        &self.address
    }

    /// The port of the destination.
    pub fn port(&self) -> (port: u16)
        ensures
            port == self@.port,
    {
        self.port
    }

    /// The host name to hand to a dialer: an IPv4 address as a dotted quad,
    /// a domain name as it is.
    pub fn host(&self) -> (host: String)
        ensures
            host@ == self@.address.host_text(),
    {
        match &self.address {
            TargetAddress::Ipv4(octets) => {
                proof {
                    reveal_strlit(".");
                }
                let mut host = push_decimal(String::new(), octets[0]);
                host = push_decimal(host.concat("."), octets[1]);
                host = push_decimal(host.concat("."), octets[2]);
                host = push_decimal(host.concat("."), octets[3]);
                assert(host@ =~= dotted_quad(octets@));
                host
            },
            TargetAddress::Domain(name) => name.clone(),
        }
    }
}

/// Decodes a destination descriptor: the address type, the address and the
/// port. Never reads past `data`.
pub fn parse_target_address(data: &[u8]) -> (result: Result<TargetDescriptor, TunnelError>)
    ensures
        match result {
            Ok(target) => decoded(data@) == Ok::<TargetView, TunnelError>(target@),
            Err(error) => decoded(data@) == Err::<TargetView, TunnelError>(error),
        },
{
    if data.len() == 0 {
        return Err(TunnelError::MalformedRequest);
    }
    let atyp = data[0];
    if atyp == ATYP_IPV4 {
        if data.len() < 7 {
            return Err(TunnelError::MalformedRequest);
        }
        let octets = [data[1], data[2], data[3], data[4]];
        let port = port_from_be(data[5], data[6]);
        assert(octets@ =~= data@.subrange(1, 5));
        Ok(TargetDescriptor::ipv4(octets, port))
    } else if atyp == ATYP_DOMAIN {
        if data.len() < 2 {
            return Err(TunnelError::MalformedRequest);
        }
        let len = data[1] as usize;
        if data.len() < 4 + len {
            return Err(TunnelError::MalformedRequest);
        }
        let name = lossy_string(slice_subrange(data, 2, 2 + len));
        let port = port_from_be(data[2 + len], data[3 + len]);
        Ok(TargetDescriptor::domain(name, port))
    } else {
        Err(TunnelError::UnsupportedAddressKind)
    }
}

/// The two bytes that carry a port in network order.
pub open spec fn port_bytes(port: u16) -> Seq<u8> {
    seq![(port / 256) as u8, (port % 256) as u8]
}

/// Whether a descriptor fits the wire format: four octets, or a domain name
/// whose UTF-8 form fits the one-byte length field.
pub open spec fn encodable(target: TargetView) -> bool {
    match target.address {
        AddressView::Ipv4(octets) => octets.len() == 4,
        AddressView::Domain(name) => encode_utf8(name).len() <= 255,
    }
}

/// The bytes that carry a descriptor on the wire.
pub open spec fn wire_form(target: TargetView) -> Seq<u8> {
    match target.address {
        AddressView::Ipv4(octets) => seq![ATYP_IPV4] + octets + port_bytes(target.port),
        AddressView::Domain(name) => seq![ATYP_DOMAIN, encode_utf8(name).len() as u8]
            + encode_utf8(name) + port_bytes(target.port),
    }
}

/// Two bytes in network order and the port they stand for determine each
/// other.
pub proof fn port_bytes_round_trip(port: u16)
    ensures
        be_port(port_bytes(port)[0], port_bytes(port)[1]) == port,
{
}

/// Every IPv4 descriptor that is long enough decodes to exactly the four
/// octets and the port it carries, whatever follows the port.
pub proof fn ipv4_decodes_exactly(data: Seq<u8>)
    requires
        data.len() >= 7,
        data[0] == ATYP_IPV4,
    ensures
        decoded(data) == Ok::<TargetView, TunnelError>(
            TargetView {
                address: AddressView::Ipv4(seq![data[1], data[2], data[3], data[4]]),
                port: be_port(data[5], data[6]),
            },
        ),
{
    assert(data.subrange(1, 5) =~= seq![data[1], data[2], data[3], data[4]]);
}

/// Every domain descriptor whose declared length fits in the bytes given
/// decodes to the text of exactly the declared bytes and to the port behind
/// them; where those bytes are valid UTF-8, to the text they encode.
pub proof fn domain_decodes_exactly(data: Seq<u8>)
    requires
        data.len() >= 2,
        data[0] == ATYP_DOMAIN,
        data.len() >= 4 + data[1],
    ensures
        decoded(data) == Ok::<TargetView, TunnelError>(
            TargetView {
                address: AddressView::Domain(domain_text(data.subrange(2, 2 + data[1]))),
                port: be_port(data[2 + data[1]], data[3 + data[1]]),
            },
        ),
        valid_utf8(data.subrange(2, 2 + data[1])) ==> domain_text(data.subrange(2, 2 + data[1]))
            == decode_utf8(data.subrange(2, 2 + data[1])),
{
}

/// An IPv6 descriptor is refused as unsupported, however long it is.
pub proof fn ipv6_is_unsupported(data: Seq<u8>)
    requires
        data.len() >= 1,
        data[0] == ATYP_IPV6,
    ensures
        decoded(data) == Err::<TargetView, TunnelError>(TunnelError::UnsupportedAddressKind),
{
}

/// An input that ends before the fields its address type declares is
/// malformed.
pub proof fn truncated_is_malformed(data: Seq<u8>)
    requires
        data.len() == 0 || (data[0] == ATYP_IPV4 && data.len() < 7) || (data[0] == ATYP_DOMAIN && (
        data.len() < 2 || data.len() < 4 + data[1])),
    ensures
        decoded(data) == Err::<TargetView, TunnelError>(TunnelError::MalformedRequest),
{
}

/// Decoding the wire form of a descriptor recovers the descriptor: the exact
/// octets or the exact domain name, and the port. Bytes after it change
/// nothing.
pub proof fn decode_recovers_wire_form(target: TargetView, rest: Seq<u8>)
    requires
        encodable(target),
    ensures
        decoded(wire_form(target) + rest) == Ok::<TargetView, TunnelError>(target),
{
    let data = wire_form(target) + rest;
    port_bytes_round_trip(target.port);
    match target.address {
        AddressView::Ipv4(octets) => {
            assert(data.subrange(1, 5) =~= octets);
        },
        AddressView::Domain(name) => {
            let text = encode_utf8(name);
            vstd::utf8::encode_utf8_valid_utf8(name);
            vstd::utf8::encode_utf8_decode_utf8(name);
            assert(data[1] as int == text.len());
            assert(data.subrange(2, 2 + text.len() as int) =~= text);
        },
    }
}

/// Every proper prefix of a descriptor's wire form is malformed.
pub proof fn prefix_of_wire_form_is_malformed(target: TargetView, cut: int)
    requires
        encodable(target),
        0 <= cut < wire_form(target).len(),
    ensures
        decoded(wire_form(target).take(cut)) == Err::<TargetView, TunnelError>(
            TunnelError::MalformedRequest,
        ),
{
}

} // verus!
