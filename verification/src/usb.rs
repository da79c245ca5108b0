//! The serial port that the board shows to a USB host: how it names itself,
//! and the packets that travel over its pair of bulk endpoints.

use vstd::prelude::*;
use vstd::slice::slice_to_vec;
use vstd::string::StringSliceAdditionalSpecFns;
use vstd::utf8::valid_utf8;

verus! {

/// The error of `core::str::from_utf8`. Nothing is said of what it holds.
#[verifier::external_type_specification]
#[verifier::external_body]
pub struct ExUtf8Error(core::str::Utf8Error);

/// `core::str::from_utf8` turns bytes into a string slice without copying
/// them. It succeeds on the bytes that are well-formed UTF-8 and on no
/// others, and the string that it gives is made of the very bytes it was
/// given.
pub assume_specification[ core::str::from_utf8 ](v: &[u8]) -> (text: Result<
    &str,
    core::str::Utf8Error,
>)
    ensures
        text is Ok <==> valid_utf8(v@),
        text matches Ok(s) ==> s.spec_bytes() == v@,
;

/// The vendor id in the device descriptor.
pub const VENDOR_ID: u16 = 0xC0DE;

/// The product id in the device descriptor.
pub const PRODUCT_ID: u16 = 0xCAFE;

/// The manufacturer string of the device.
pub const MANUFACTURER: &'static str = "Embassy";

/// The product string of the device.
pub const PRODUCT: &'static str = "USB-serial example";

/// The serial number string of the device.
pub const SERIAL_NUMBER: &'static str = "12345678";

/// The most that one packet holds: the size of a full-speed bulk endpoint.
pub const MAX_PACKET_SIZE: usize = 64;

/// Whether a host has the serial port open. Only the host changes this: it
/// opens the port, and it closes it or goes away.
#[derive(Clone, Copy, Debug, PartialEq, Eq, Structural)]
pub enum ConnectionState {
    Disconnected,
    Connected,
}

/// The bytes of one bulk transfer, at most [`MAX_PACKET_SIZE`] of them.
#[derive(Debug, PartialEq, Eq)]
pub struct Packet {
    bytes: Vec<u8>,
}

impl View for Packet {
    type V = Seq<u8>;

    closed spec fn view(&self) -> Seq<u8> {
        self.bytes@
    }
}

impl Packet {
    #[verifier::type_invariant]
    spec fn fits(&self) -> bool {
        self.bytes@.len() <= MAX_PACKET_SIZE
    }

    /// A packet of the bytes in `data`, or nothing if they are too many for
    /// one packet.
    pub fn new(data: &[u8]) -> (packet: Option<Packet>)
        ensures
            packet is Some <==> data@.len() <= MAX_PACKET_SIZE,
            packet matches Some(p) ==> p@ == data@,
    {
        if data.len() > MAX_PACKET_SIZE {
            return None;
        }
        Some(Packet { bytes: slice_to_vec(data) })
    }

    /// The number of bytes in the packet.
    pub fn len(&self) -> (n: usize)
        ensures
            n == self@.len(),
            n <= MAX_PACKET_SIZE,
    {
        proof {
            use_type_invariant(self);
        }
        self.bytes.len()
    }

    /// The bytes of the packet, as they go over the wire.
    pub fn as_slice(&self) -> (data: &[u8])
        ensures
            data@ == self@,
            data@.len() <= MAX_PACKET_SIZE,
    {
        proof {
            use_type_invariant(self);
        }
        self.bytes.as_slice()
    }

    /// The packet read as text, if its bytes are UTF-8. This is for the log:
    /// a packet that is no text is as good a packet as any other.
    pub fn text(&self) -> (text: Option<&str>)
        ensures
            text is Some <==> valid_utf8(self@),
            text matches Some(s) ==> s.spec_bytes() == self@,
    {
        match core::str::from_utf8(self.bytes.as_slice()) {
            Ok(s) => Some(s),
            Err(_) => None,
        }
    }
}

impl Clone for Packet {
    fn clone(&self) -> (copy: Self)
        ensures
            copy@ == self@,
    {
        proof {
            use_type_invariant(self);
        }
        let bytes = self.bytes.clone();
        Packet { bytes }
    }
}

} // verus!
