//! USB control-request data: the `bmRequestType` bit fields, the 8-byte
//! SETUP packet, and the decoders for fixed-size standard replies.

use vstd::prelude::*;

verus! {

/// The low byte of a 16-bit little-endian field.
pub open spec fn lo(x: u16) -> u8 {
    (x & 0xff) as u8
}

/// The high byte of a 16-bit little-endian field.
pub open spec fn hi(x: u16) -> u8 {
    (x >> 8) as u8
}

/// `CtrRequestType` holds the `bmRequestType` byte of a SETUP packet as
/// its three bit fields: direction (bit 7), type (bits 6:5) and
/// recipient (bits 4:0).
#[must_use]
#[derive(Debug, PartialEq, Eq, Structural, Clone, Copy)]
pub struct CtrRequestType {
    pub direction: u8,
    pub rtype: u8,
    pub recipient: u8,
}

impl CtrRequestType {
    /// Each field fits its bit width: one bit of direction, two of type,
    /// five of recipient.
    pub open spec fn wf(self) -> bool {
        self.direction <= 1 && self.rtype <= 3 && self.recipient <= 0x1f
    }

    /// The packed `bmRequestType` byte.
    pub open spec fn spec_byte(self) -> u8 {
        self.direction << 7 | self.rtype << 5 | self.recipient
    }

    /// Host-to-device direction, standard type, device recipient.
    pub fn to_device() -> (r: Self)
        ensures
            r == (CtrRequestType { direction: 0, rtype: 0, recipient: 0 }),
    {
        CtrRequestType { direction: 0, rtype: 0, recipient: 0 }
    }

    /// Device-to-host direction, standard type, device recipient.
    pub fn to_host() -> (r: Self)
        ensures
            r == (CtrRequestType { direction: 1, rtype: 0, recipient: 0 }),
    {
        CtrRequestType { direction: 1, rtype: 0, recipient: 0 }
    }

    /// Copy with the type field set to Standard.
    pub fn standard(self) -> (r: Self)
        ensures
            r == (CtrRequestType { rtype: 0, ..self }),
    {
        CtrRequestType { rtype: 0, ..self }
    }

    /// Copy with the type field set to Class.
    pub fn class(self) -> (r: Self)
        ensures
            r == (CtrRequestType { rtype: 1, ..self }),
    {
        CtrRequestType { rtype: 1, ..self }
    }

    /// Copy with the type field set to Vendor.
    pub fn vendor(self) -> (r: Self)
        ensures
            r == (CtrRequestType { rtype: 2, ..self }),
    {
        CtrRequestType { rtype: 2, ..self }
    }

    /// Copy with the recipient field set to Device.
    pub fn device(self) -> (r: Self)
        ensures
            r == (CtrRequestType { recipient: 0, ..self }),
    {
        CtrRequestType { recipient: 0, ..self }
    }

    /// Copy with the recipient field set to Interface.
    pub fn interface(self) -> (r: Self)
        ensures
            r == (CtrRequestType { recipient: 1, ..self }),
    {
        CtrRequestType { recipient: 1, ..self }
    }

    /// Copy with the recipient field set to Endpoint.
    pub fn endpoint(self) -> (r: Self)
        ensures
            r == (CtrRequestType { recipient: 2, ..self }),
    {
        CtrRequestType { recipient: 2, ..self }
    }

    /// Copy with the recipient field set to Other.
    pub fn other(self) -> (r: Self)
        ensures
            r == (CtrRequestType { recipient: 3, ..self }),
    {
        CtrRequestType { recipient: 3, ..self }
    }

    /// Pack the three fields into the `bmRequestType` byte.
    pub fn to_byte(self) -> (r: u8)
        ensures
            r == self.spec_byte(),
    {
        self.direction << 7 | self.rtype << 5 | self.recipient
    }

    /// Split a `bmRequestType` byte into its three fields.
    pub fn from_byte(value: u8) -> (r: Self)
        ensures
            r.direction == value >> 7,
            r.rtype == (value >> 5) & 0x3,
            r.recipient == value & 0x1f,
            r.wf(),
    {
        proof {
            assert(value >> 7 <= 1 && (value >> 5) & 0x3 <= 3 && value & 0x1f <= 0x1f)
                by (bit_vector);
        }
        CtrRequestType {
            direction: value >> 7,
            rtype: (value >> 5) & 0x3,
            recipient: value & 0x1f,
        }
    }
}

/// `SetupPacket` holds the fields of the 8-byte SETUP packet that opens
/// every control transfer.
#[derive(Debug, PartialEq, Eq, Structural, Clone, Copy)]
pub struct SetupPacket {
    pub bm_request_type: CtrRequestType,
    pub b_request: u8,
    pub w_value: u16,
    pub w_index: u16,
    pub w_length: u16,
}

impl SetupPacket {
    /// Create a new `SetupPacket` from its fields.
    pub fn new(reqt: CtrRequestType, req: u8, value: u16, index: u16, length: u16) -> (r: Self)
        ensures
            r == (SetupPacket {
                bm_request_type: reqt,
                b_request: req,
                w_value: value,
                w_index: index,
                w_length: length,
            }),
    {
        SetupPacket {
            bm_request_type: reqt,
            b_request: req,
            w_value: value,
            w_index: index,
            w_length: length,
        }
    }

    /// The wire form of the packet: request type, request code, then
    /// `wValue`, `wIndex` and `wLength` in little-endian order.
    pub open spec fn spec_bytes(self) -> Seq<u8> {
        seq![
            self.bm_request_type.spec_byte(),
            self.b_request,
            lo(self.w_value),
            hi(self.w_value),
            lo(self.w_index),
            hi(self.w_index),
            lo(self.w_length),
            hi(self.w_length),
        ]
    }

    /// Encode the packet into its 8-byte wire form.
    pub fn to_bytes(self) -> (r: Vec<u8>)
        requires
            self.bm_request_type.wf(),
        ensures
            r@ == self.spec_bytes(),
    {
        proof {
            assert(forall|x: u16| x & 0xff <= 0xff && x >> 8 <= 0xff) by (bit_vector);
        }
        let mut r: Vec<u8> = Vec::new();
        r.push(self.bm_request_type.to_byte());
        r.push(self.b_request);
        r.push((self.w_value & 0xff) as u8);
        r.push((self.w_value >> 8) as u8);
        r.push((self.w_index & 0xff) as u8);
        r.push((self.w_index >> 8) as u8);
        r.push((self.w_length & 0xff) as u8);
        r.push((self.w_length >> 8) as u8);
        proof {
            assert(r@ =~= self.spec_bytes());
        }
        r
    }
}

} // verus!
