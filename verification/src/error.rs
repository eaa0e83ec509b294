//! The closed set of failure kinds shared by every part of the protocol.
use postcard::Error as CodecError;
use vstd::prelude::*;
use vstd::std_specs::convert::FromSpecImpl;

verus! {

/// `postcard::Error`, a plain enumeration without fields. It is declared with
/// its variants, as they stand in the encoding library, so that the mapping
/// below is checked against them.
#[verifier::external_type_specification]
pub struct ExCodecError(CodecError);

/// A failure that can be reported by the host or sent over the wire by the device.
#[derive(Debug, Copy, Clone, PartialEq, Eq, Structural)]
pub enum Error {
    Deserialize,
    FlashErase,
    FlashRead,
    FlashWrite,
    SerialRead,
    SerialWrite,
    Serialize,
    InvalidMsgDataPair,
    Unknown,
    TempRead,
}

/// The failure kind under which a fault of the encoding library is reported:
/// every decoding fault is `Deserialize`, every encoding fault is `Serialize`,
/// and whatever else the library may raise is `Unknown`.
pub open spec fn codec_error_kind(e: CodecError) -> Error {
    match e {
        CodecError::DeserializeBadBool
        | CodecError::DeserializeBadChar
        | CodecError::DeserializeBadEncoding
        | CodecError::DeserializeBadEnum
        | CodecError::DeserializeBadOption
        | CodecError::DeserializeBadUtf8
        | CodecError::DeserializeBadVarint
        | CodecError::DeserializeUnexpectedEnd
        | CodecError::SerdeDeCustom => Error::Deserialize,
        CodecError::SerdeSerCustom
        | CodecError::SerializeBufferFull
        | CodecError::SerializeSeqLengthUnknown => Error::Serialize,
        _ => Error::Unknown,
    }
}

impl Error {
    /// Position of the variant in the declaration, which is its tag on the wire.
    pub open spec fn tag(self) -> nat {
        match self {
            Error::Deserialize => 0,
            Error::FlashErase => 1,
            Error::FlashRead => 2,
            Error::FlashWrite => 3,
            Error::SerialRead => 4,
            Error::SerialWrite => 5,
            Error::Serialize => 6,
            Error::InvalidMsgDataPair => 7,
            Error::Unknown => 8,
            Error::TempRead => 9,
        }
    }

    /// The variant with the given wire tag, if there is one.
    pub open spec fn of_tag(tag: nat) -> Option<Error> {
        if tag == 0 {
            Some(Error::Deserialize)
        } else if tag == 1 {
            Some(Error::FlashErase)
        } else if tag == 2 {
            Some(Error::FlashRead)
        } else if tag == 3 {
            Some(Error::FlashWrite)
        } else if tag == 4 {
            Some(Error::SerialRead)
        } else if tag == 5 {
            Some(Error::SerialWrite)
        } else if tag == 6 {
            Some(Error::Serialize)
        } else if tag == 7 {
            Some(Error::InvalidMsgDataPair)
        } else if tag == 8 {
            Some(Error::Unknown)
        } else if tag == 9 {
            Some(Error::TempRead)
        } else {
            None
        }
    }

    /// The name of the failure kind, as it is written in the enumeration.
    pub open spec fn name(self) -> Seq<char> {
        match self {
            Error::Deserialize => "Deserialize"@,
            Error::FlashErase => "FlashErase"@,
            Error::FlashRead => "FlashRead"@,
            Error::FlashWrite => "FlashWrite"@,
            Error::SerialRead => "SerialRead"@,
            Error::SerialWrite => "SerialWrite"@,
            Error::Serialize => "Serialize"@,
            Error::InvalidMsgDataPair => "InvalidMsgDataPair"@,
            Error::Unknown => "Unknown"@,
            Error::TempRead => "TempRead"@,
        }
    }

    /// The failure kind as text: its name.
    pub fn to_string(&self) -> (r: String)
        ensures
            r@ == self.name(),
    {
        match self {
            Error::Deserialize => "Deserialize".to_string(),
            Error::FlashErase => "FlashErase".to_string(),
            Error::FlashRead => "FlashRead".to_string(),
            Error::FlashWrite => "FlashWrite".to_string(),
            Error::SerialRead => "SerialRead".to_string(),
            Error::SerialWrite => "SerialWrite".to_string(),
            Error::Serialize => "Serialize".to_string(),
            Error::InvalidMsgDataPair => "InvalidMsgDataPair".to_string(),
            Error::Unknown => "Unknown".to_string(),
            Error::TempRead => "TempRead".to_string(),
        }
    }

    /// The wire tag of this failure kind.
    pub fn wire_tag(&self) -> (r: u32)
        ensures
            r == self.tag(),
    {
        match self {
            Error::Deserialize => 0,
            Error::FlashErase => 1,
            Error::FlashRead => 2,
            Error::FlashWrite => 3,
            Error::SerialRead => 4,
            Error::SerialWrite => 5,
            Error::Serialize => 6,
            Error::InvalidMsgDataPair => 7,
            Error::Unknown => 8,
            Error::TempRead => 9,
        }
    }

    /// The failure kind with the given wire tag, `None` for a tag that no kind has.
    pub fn from_wire_tag(tag: u32) -> (r: Option<Error>)
        ensures
            r == Error::of_tag(tag as nat),
    {
        match tag {
            0 => Some(Error::Deserialize),
            1 => Some(Error::FlashErase),
            2 => Some(Error::FlashRead),
            3 => Some(Error::FlashWrite),
            4 => Some(Error::SerialRead),
            5 => Some(Error::SerialWrite),
            6 => Some(Error::Serialize),
            7 => Some(Error::InvalidMsgDataPair),
            8 => Some(Error::Unknown),
            9 => Some(Error::TempRead),
            _ => None,
        }
    }

    /// Every failure kind is found again from its wire tag, and the tag of a
    /// kind that was found from a tag is that tag.
    pub proof fn lemma_tag_round_trip(e: Error, tag: nat)
        ensures
            e.tag() < 10,
            Error::of_tag(e.tag()) == Some(e),
            Error::of_tag(tag) is Some ==> tag < 10 && Error::of_tag(tag)->Some_0.tag() == tag,
    {
    }
}

impl From<CodecError> for Error {
    fn from(e: CodecError) -> (r: Error) {
        match e {
            CodecError::DeserializeBadBool
            | CodecError::DeserializeBadChar
            | CodecError::DeserializeBadEncoding
            | CodecError::DeserializeBadEnum
            | CodecError::DeserializeBadOption
            | CodecError::DeserializeBadUtf8
            | CodecError::DeserializeBadVarint
            | CodecError::DeserializeUnexpectedEnd
            | CodecError::SerdeDeCustom => Error::Deserialize,
            CodecError::SerdeSerCustom
            | CodecError::SerializeBufferFull
            | CodecError::SerializeSeqLengthUnknown => Error::Serialize,
            _ => Error::Unknown,
        }
    }
}

impl FromSpecImpl<CodecError> for Error {
    open spec fn obeys_from_spec() -> bool {
        true
    }

    open spec fn from_spec(e: CodecError) -> Error {
        codec_error_kind(e)
    }
}

} // verus!
