//! Commands for the 2.4 GHz radio.

use vstd::prelude::*;
use crate::max_array::MaxArray;
use crate::max_array_ext::{self, MaxArrayPushIntExt};
use crate::esp3::{MAX_DATA_LENGTH, MAX_OPTIONAL_LENGTH, DATA_AFTER_CODE_LENGTH};
use crate::esp3::codes::{OneByteBoolean};
use crate::esp3::wire::{self, push_bytes, read_u16_be, read_u24_be, read_u32_be, read_u32x4_be};

verus! {

/// Data carried by a 2.4 GHz command.
#[derive(Clone, Debug, PartialEq, Eq, Hash, PartialOrd, Ord)]
pub enum Command24Data {
    SetChannel {
        channel: u8,
    },
    ReadChannel,
    /// A code that this library does not know, with its raw data and optional data.
    Unknown {
        code: u8,
        data: MaxArray<u8, DATA_AFTER_CODE_LENGTH>,
        optional_data: MaxArray<u8, MAX_OPTIONAL_LENGTH>,
    },
}

impl Command24Data {
    /// The code that identifies this command on the wire.
    pub open spec fn code_spec(self) -> u8 {
        match self {
            Command24Data::SetChannel { .. } => 1,
            Command24Data::ReadChannel => 2,
            Command24Data::Unknown { code, .. } => code,
        }
    }

    /// Whether a variant of this type (other than `Unknown`) has the given code.
    pub open spec fn is_known_code(code: u8) -> bool {
        code == 1 || code == 2
    }

    /// The data bytes that encode this value: the code followed by the fields.
    pub open spec fn data_spec(self) -> Seq<u8> {
        match self {
            Command24Data::SetChannel { channel } => Seq::<u8>::empty().push(1u8).push(channel),
            Command24Data::ReadChannel => Seq::<u8>::empty().push(2u8),
            Command24Data::Unknown { code, data, .. } => Seq::<u8>::empty().push(code) + data@,
        }
    }

    /// The optional bytes that encode this value, or `None` if an optional field is set while
    /// an earlier one is not.
    pub open spec fn optional_spec(self) -> Option<Seq<u8>> {
        match self {
            _ => Some(Seq::<u8>::empty()),
        }
    }

    /// Whether data bytes of the given length decode for the given code.
    pub open spec fn accepts(code: u8, data_len: nat) -> bool {
        if code == 1 {
            data_len == 1
        } else if code == 2 {
            data_len == 0
        } else {
            true
        }
    }

    /// Whether decoding fits the capacities of the arrays it fills.
    pub open spec fn fits_capacity(code: u8, data_len: nat, opt_len: nat) -> bool {
        (!Self::is_known_code(code) ==> data_len <= DATA_AFTER_CODE_LENGTH && opt_len <= MAX_OPTIONAL_LENGTH)
    }

    /// Whether this value is what the given code, data bytes and optional bytes decode to.
    pub open spec fn decoded_from(self, wire_code: u8, wire_data: Seq<u8>, wire_opt: Seq<u8>) -> bool {
        match self {
            Command24Data::SetChannel { channel } => {
                &&& wire_code == 1
                &&& wire_data.len() == 1
                &&& channel == wire_data[0]
            },
            Command24Data::ReadChannel => {
                &&& wire_code == 2
                &&& wire_data.len() == 0
            },
            Command24Data::Unknown { code: c, data: d, optional_data: o } => {
                &&& c == wire_code
                &&& !Self::is_known_code(wire_code)
                &&& d@ == wire_data
                &&& o@ == wire_opt
            },
        }
    }

    /// The code that identifies this command.
    pub fn command_type(&self) -> (ret: u8)
        ensures
            ret == self.code_spec(),
    {
        match self {
            Command24Data::SetChannel { .. } => 1,
            Command24Data::ReadChannel => 2,
            Command24Data::Unknown { code, .. } => *code,
        }
    }

    /// Encodes the data part of this value: the code followed by the fields.
    pub fn to_packet_data(&self) -> (ret: MaxArray<u8, MAX_DATA_LENGTH>)
        ensures
            ret@ == self.data_spec(),
    {
        let mut ret: MaxArray<u8, MAX_DATA_LENGTH> = MaxArray::new();
        let code = self.command_type();
        ret.push(code).unwrap();
        match self {
            Command24Data::SetChannel { channel } => {
                ret.push(*channel).unwrap();
            },
            Command24Data::ReadChannel => {
            },
            Command24Data::Unknown { data, .. } => {
                proof { use_type_invariant(data); }
                push_bytes(&mut ret, data.as_slice());
            },
        }
        ret
    }

    /// Encodes the optional part of this value; `None` if an optional field is set while an
    /// earlier one is not.
    pub fn to_packet_optional(&self) -> (ret: Option<MaxArray<u8, MAX_OPTIONAL_LENGTH>>)
        ensures
            match self.optional_spec() {
                Some(o) => ret matches Some(r) && r@ == o,
                None => ret is None,
            },
    {
        let mut ret: MaxArray<u8, MAX_OPTIONAL_LENGTH> = MaxArray::new();
        match self {
            _ => {},
        }
        Some(ret)
    }

    /// Decodes a value from its code, the data bytes after the code and the optional bytes.
    ///
    /// Returns `None` if the data does not have the length that the code calls for; codes that
    /// this library does not know decode to `Unknown`.
    #[verifier::rlimit(50)]
    pub fn from_data(event_code: u8, data_slice: &[u8], optional_slice: &[u8]) -> (ret: Option<Self>)
        requires
            Self::fits_capacity(event_code, data_slice@.len(), optional_slice@.len()),
        ensures
            ret is Some <==> Self::accepts(event_code, data_slice@.len()),
            ret matches Some(v) ==> v.decoded_from(event_code, data_slice@, optional_slice@),
    {
        match event_code {
            1u8 => {
                if data_slice.len() != 1 {
                    return None;
                }
                let channel = data_slice[0];
                Some(Command24Data::SetChannel { channel })
            },
            2u8 => {
                if data_slice.len() != 0 {
                    return None;
                }
                Some(Command24Data::ReadChannel)
            },
            _ => {
                let data = MaxArray::from_iter_or_panic(data_slice);
                let optional_data = MaxArray::from_iter_or_panic(optional_slice);
                Some(Command24Data::Unknown { code: event_code, data, optional_data })
            },
        }
    }

    /// Whether encoding this value and decoding the bytes gives back this value: every field
    /// holds a value that its bytes decode to, and the variant is one whose encoding its
    /// decoding reads back.
    pub open spec fn round_trips(self) -> bool {
        match self {
            Command24Data::SetChannel { .. } => true,
            Command24Data::ReadChannel => true,
            Command24Data::Unknown { code, optional_data, .. } => !Self::is_known_code(code) && optional_data@.len() == 0,
        }
    }

    /// Decoding the bytes that encode a value gives back that value.
    pub proof fn lemma_encoded_decodes(self)
        requires
            self.round_trips(),
            self.optional_spec() is Some,
        ensures
            Self::accepts(self.code_spec(), (self.data_spec().len() - 1) as nat),
            self.decoded_from(self.code_spec(), self.data_spec().drop_first(), self.optional_spec().unwrap()),
    {
        let d = self.data_spec().drop_first();
        let o = self.optional_spec().unwrap();
        match self {
            Command24Data::SetChannel { channel } => {
                assert(d.len() == 1);
                assert(d[0] == channel);
            },
            Command24Data::ReadChannel => {
                assert(d.len() == 0);
            },
            Command24Data::Unknown { data, optional_data, .. } => {
                assert(d =~= data@);
                assert(o =~= optional_data@);
            },
        }
    }

    /// Encoding a decoded value gives back the data bytes it was decoded from (for the
    /// variants whose decoding reads every data byte and keeps every bit of it).
    pub proof fn lemma_decoded_encodes(self, wire_code: u8, wire_data: Seq<u8>, wire_opt: Seq<u8>)
        requires
            self.decoded_from(wire_code, wire_data, wire_opt),
        ensures
            self.data_spec() == Seq::<u8>::empty().push(wire_code) + wire_data,
    {
        let expected = Seq::<u8>::empty().push(wire_code) + wire_data;
        match self {
            Command24Data::SetChannel { channel } => {
                assert(self.data_spec() =~= expected);
            },
            Command24Data::ReadChannel => {
                assert(self.data_spec() =~= expected);
            },
            Command24Data::Unknown { .. } => {
                assert(self.data_spec() =~= expected);
            },
        }
    }
}

} // verus!
