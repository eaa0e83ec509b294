//! Frames: a command and the data that goes with it, to bytes and back.
use crate::bounded::frame_bytes;
use crate::bounded::frame_new;
use crate::bounded::Frame;
use crate::decode::take_payload;
use crate::encode::put_payload;
use crate::encode::put_tag;
use crate::error::Error;
use crate::model::Data;
use crate::model::DataRef;
use crate::model::DataView;
use crate::model::Msg;
use crate::model::Response;
use crate::round_trip::lemma_frame_round_trip;
use crate::round_trip::lemma_items_count;
use crate::round_trip::lemma_tag_round_trip;
use crate::varint::u32_from_varint;
use crate::varint::varint_bytes;
use crate::varint::parse_u64;
use crate::wire::frame_of;
use crate::wire::parse_general;
use crate::wire::parse_option_smart;
use crate::wire::parse_frame;
use crate::wire::DataKind;
use vstd::prelude::*;
use vstd::slice::slice_subrange;

verus! {

/// Whether data of the given kind may travel with the command.
pub open spec fn legal_pair(msg: Msg, kind: DataKind) -> bool {
    match msg {
        Msg::Ping | Msg::GetConfig | Msg::GetStats | Msg::SaveConfig | Msg::Reload => kind
            == DataKind::Empty,
        Msg::Pong => kind == DataKind::Pong,
        Msg::Config | Msg::UploadConfig => kind == DataKind::Config,
        Msg::Stats => kind == DataKind::Stats,
        Msg::Result => kind == DataKind::Result,
    }
}

/// Whether data of the given kind may travel with the command.
pub fn is_legal(msg: Msg, kind: DataKind) -> (r: bool)
    ensures
        r == legal_pair(msg, kind),
{
    match msg {
        Msg::GetStats | Msg::SaveConfig | Msg::GetConfig | Msg::Reload | Msg::Ping => {
            matches!(kind, DataKind::Empty)
        },
        Msg::Config => matches!(kind, DataKind::Config),
        Msg::UploadConfig => matches!(kind, DataKind::Config),
        Msg::Result => matches!(kind, DataKind::Result),
        Msg::Stats => matches!(kind, DataKind::Stats),
        Msg::Pong => matches!(kind, DataKind::Pong),
    }
}

/// Every command goes with exactly one kind of data, the one that a reader
/// expects after it.
pub proof fn lemma_one_legal_kind(msg: Msg, kind: DataKind)
    ensures
        legal_pair(msg, kind) <==> kind == msg.kind(),
{
}

impl<'a> DataRef<'a> {
    /// The kind of the data.
    pub fn kind(&self) -> (r: DataKind)
        ensures
            r == self@.kind(),
    {
        match self {
            DataRef::Config(_) => DataKind::Config,
            DataRef::Stats(_) => DataKind::Stats,
            DataRef::Result(_) => DataKind::Result,
            DataRef::Pong(_) => DataKind::Pong,
            DataRef::Empty => DataKind::Empty,
        }
    }
}

impl Data {
    /// The kind of the data.
    pub fn kind(&self) -> (r: DataKind)
        ensures
            r == self@.kind(),
    {
        match self {
            Data::Config(_) => DataKind::Config,
            Data::Stats(_) => DataKind::Stats,
            Data::Result(_) => DataKind::Result,
            Data::Pong(_) => DataKind::Pong,
            Data::Empty => DataKind::Empty,
        }
    }
}

/// A frame that was read: its command and its data.
#[derive(Debug, PartialEq)]
pub struct OTW {
    pub msg: Msg,
    pub data: Data,
}

impl View for OTW {
    type V = (Msg, DataView);

    open spec fn view(&self) -> (Msg, DataView) {
        (self.msg, self.data@)
    }
}

impl OTW {
    /// The bytes of the frame that carries `data` under the command `msg`.
    /// Fails with `InvalidMsgDataPair`, before anything is written, where the
    /// data is not of the kind that goes with the command. A frame is at most
    /// 155 bytes, so the buffer never overflows.
    pub fn serialised_vec(msg: Msg, data: DataRef) -> (r: Result<Frame, Error>)
        ensures
            match r {
                Ok(frame) => legal_pair(msg, data@.kind()) && frame_bytes(frame) == frame_of(
                    msg,
                    data@,
                ),
                Err(e) => !legal_pair(msg, data@.kind()) && e == Error::InvalidMsgDataPair,
            },
    {
        let kind = data.kind();
        if is_legal(msg, kind) {
            let mut frame = frame_new();
            put_tag(&mut frame, msg.wire_tag());
            put_tag(&mut frame, kind.wire_tag());
            put_payload(&mut frame, &data);
            proof {
                assert(Seq::<u8>::empty() + varint_bytes(msg.tag()) =~= varint_bytes(msg.tag()));
            }
            Ok(frame)
        } else {
            Err(Error::InvalidMsgDataPair)
        }
    }

    /// The three bytes of the frame that reports success.
    pub fn serialised_ok() -> (r: &'static [u8; 3])
        ensures
            r@ == frame_of(Msg::Result, DataView::Result(Response::Okay)),
    {
        let r: &'static [u8; 3] = &[7, 2, 0];
        proof {
            lemma_tag_round_trip(7, Seq::empty());
            lemma_tag_round_trip(2, Seq::empty());
            lemma_tag_round_trip(0, Seq::empty());
            assert(r@ =~= frame_of(Msg::Result, DataView::Result(Response::Okay)));
        }
        r
    }

    /// The frame at the front of `slice`; bytes after it are ignored. Fails
    /// with `Deserialize` where there are fewer than two bytes, where the
    /// first two do not hold the tag of a command, and where what follows
    /// them is not data of the command's kind.
    pub fn from_bytes(slice: &[u8]) -> (r: Result<OTW, Error>)
        ensures
            match r {
                Ok(otw) => parse_frame(slice@) == Some(otw@),
                Err(e) => parse_frame(slice@) is None && e == Error::Deserialize,
            },
            slice@.len() < 2 ==> r == Err::<OTW, Error>(Error::Deserialize),
    {
        if slice.len() < 2 {
            return Err(Error::Deserialize);
        }
        let head = slice_subrange(slice, 0, 2);
        assert(head@ =~= slice@.take(2));
        let (tag, _) = u32_from_varint(head)?;
        let msg = match Msg::from_wire_tag(tag) {
            Some(msg) => msg,
            None => {
                return Err(Error::Deserialize);
            },
        };
        let body = slice_subrange(slice, 2, slice.len());
        assert(body@ =~= slice@.skip(2));
        let data = take_payload(msg.payload_kind(), body)?;
        Ok(OTW { msg, data })
    }
}

/// Fewer than two bytes are no frame.
pub proof fn lemma_short_input_is_no_frame(bytes: Seq<u8>)
    requires
        bytes.len() < 2,
    ensures
        parse_frame(bytes) is None,
{
}

/// What is read is a command with data that goes with it: the frame could be
/// written again.
pub proof fn lemma_decoded_pair_is_legal(bytes: Seq<u8>)
    requires
        parse_frame(bytes) is Some,
    ensures
        legal_pair(parse_frame(bytes)->Some_0.0, parse_frame(bytes)->Some_0.1.kind()),
        parse_frame(bytes)->Some_0.1.wf(),
{
    let (msg, data) = parse_frame(bytes)->Some_0;
    lemma_one_legal_kind(msg, data.kind());
    if msg.kind() == DataKind::Config {
        let body = bytes.skip(2);
        let after_general = parse_general(body)->Some_0.1;
        let after_smart = parse_option_smart(after_general)->Some_0.1;
        let (count, items) = parse_u64(after_smart)->Some_0;
        lemma_items_count(items, count);
    }
}

/// Decoding undoes encoding: the bytes that `serialised_vec` gives for a
/// command and data that go together, followed by any bytes, are read by
/// `from_bytes` as that command and that data.
pub proof fn lemma_decode_encode(msg: Msg, data: DataView, tail: Seq<u8>)
    requires
        legal_pair(msg, data.kind()),
        data.wf(),
    ensures
        parse_frame(frame_of(msg, data) + tail) == Some((msg, data)),
{
    lemma_frame_round_trip(msg, data, tail);
}

} // verus!
