//! The decisions of a channel subscription: whether the server acknowledged it,
//! and what each later frame yields.
use vstd::prelude::*;

use crate::client::model::{
    all_converted, convert_all, records_failure, ConversionError, OkxWsDataResponse, OkxWsRequest,
    OkxWsResponse, WireRecord,
};
use crate::data::{DataResponse, DataStream, RawData};

verus! {

/// The code of a reply that reports success.
pub const SUCCESS_CODE: &'static str = "0";

/// The event of a reply that acknowledges a subscription.
pub const SUBSCRIBE_EVENT: &'static str = "subscribe";

/// The first frame after a subscribe request, as the transport delivered it.
pub enum AckFrame<D> {
    /// A text frame that decoded as a reply.
    Reply(OkxWsResponse<D>),
    /// A text frame that did not decode as a reply; it holds the decoder's message.
    Undecodable(String),
    /// A frame that is not text.
    NonText,
    /// The transport failed; it holds the transport's message.
    Transport(String),
    /// The connection closed before any frame came.
    Closed,
}

/// Why a subscription was not established.
#[derive(Debug, Clone, PartialEq, Eq)]
pub enum SubscribeError {
    /// The server answered, but not with an acknowledgment: its event, code and
    /// message.
    Rejected { event: String, code: Option<String>, msg: Option<String> },
    Undecodable(String),
    NonText,
    Transport(String),
    Closed,
}

/// A reply that acknowledges the subscription: its event is `subscribe`, and it
/// carries no code or the success code.
pub open spec fn is_subscribe_ack<D>(reply: OkxWsResponse<D>) -> bool {
    &&& reply.event@ == SUBSCRIBE_EVENT@
    &&& (reply.code is None || reply.code->0@ == SUCCESS_CODE@)
}

/// Whether a subscription stands after its first frame. Only a text frame that
/// decodes as an acknowledgment establishes it; it is handed back. Anything else
/// is the matching error, and the connection is not used for data.
pub fn check_subscribe_ack<D>(frame: AckFrame<D>) -> (r: Result<OkxWsResponse<D>, SubscribeError>)
    ensures
        r is Ok <==> (frame is Reply && is_subscribe_ack(frame->Reply_0)),
        r is Ok ==> r->Ok_0 == frame->Reply_0,
        frame is Reply && !is_subscribe_ack(frame->Reply_0) ==> r == Err::<
            OkxWsResponse<D>,
            SubscribeError,
        >(
            SubscribeError::Rejected {
                event: frame->Reply_0.event,
                code: frame->Reply_0.code,
                msg: frame->Reply_0.msg,
            },
        ),
        frame is Undecodable ==> r == Err::<OkxWsResponse<D>, SubscribeError>(
            SubscribeError::Undecodable(frame->Undecodable_0),
        ),
        frame is NonText ==> r == Err::<OkxWsResponse<D>, SubscribeError>(SubscribeError::NonText),
        frame is Transport ==> r == Err::<OkxWsResponse<D>, SubscribeError>(
            SubscribeError::Transport(frame->Transport_0),
        ),
        frame is Closed ==> r == Err::<OkxWsResponse<D>, SubscribeError>(SubscribeError::Closed),
{
    match frame {
        AckFrame::Reply(reply) => {
            let event_ok = reply.event == SUBSCRIBE_EVENT.to_owned();
            let code_ok = match &reply.code {
                None => true,
                Some(code) => *code == SUCCESS_CODE.to_owned(),
            };
            if event_ok && code_ok {
                Ok(reply)
            } else {
                Err(SubscribeError::Rejected { event: reply.event, code: reply.code, msg: reply.msg })
            }
        },
        AckFrame::Undecodable(message) => Err(SubscribeError::Undecodable(message)),
        AckFrame::NonText => Err(SubscribeError::NonText),
        AckFrame::Transport(message) => Err(SubscribeError::Transport(message)),
        AckFrame::Closed => Err(SubscribeError::Closed),
    }
}

/// A frame that came after the acknowledgment.
pub enum PushFrame<D> {
    /// A text frame that decoded as a push of records.
    Push(OkxWsDataResponse<D>),
    /// A text frame that did not decode as a push; it holds the decoder's message.
    Undecodable(String),
    /// A frame that is not text.
    NonText,
    /// The transport failed on this frame; it holds the transport's message.
    Transport(String),
}

/// Why one frame of a subscription yielded no data.
#[derive(Debug, Clone, PartialEq, Eq)]
pub enum FrameError {
    Conversion(ConversionError),
    Undecodable(String),
    NonText,
    Transport(String),
}

impl<D: RawData> RawData for OkxWsResponse<D> {
    type Data = Result<Vec<D::Data>, FrameError>;
}

impl<D> DataResponse for OkxWsResponse<D> {
    type Request = OkxWsRequest<D>;
}

/// `item` is what `frame` yields: the domain data of every record of a push, in
/// order, or the error of the frame or of its first record that fails.
pub open spec fn frame_yields<D: WireRecord>(
    frame: PushFrame<D>,
    item: Result<Vec<D::Data>, FrameError>,
) -> bool {
    match frame {
        PushFrame::Push(push) => match records_failure(push.data@) {
            None => item is Ok && all_converted(push.data@, item->Ok_0@),
            Some((field, text)) => item is Err && item->Err_0 is Conversion
                && item->Err_0->Conversion_0.field == field && item->Err_0->Conversion_0.text@
                == text,
        },
        PushFrame::Undecodable(message) => item == Err::<Vec<D::Data>, FrameError>(
            FrameError::Undecodable(message),
        ),
        PushFrame::NonText => item == Err::<Vec<D::Data>, FrameError>(FrameError::NonText),
        PushFrame::Transport(message) => item == Err::<Vec<D::Data>, FrameError>(
            FrameError::Transport(message),
        ),
    }
}

/// What one frame of a subscription yields. A frame that fails is an error item
/// of its own; it does not end the subscription.
pub fn decode_push<D: WireRecord>(frame: PushFrame<D>) -> (r: Result<Vec<D::Data>, FrameError>)
    ensures
        frame_yields(frame, r),
{
    match frame {
        PushFrame::Push(push) => match convert_all(push.data) {
            Ok(data) => Ok(data),
            Err(e) => Err(FrameError::Conversion(e)),
        },
        PushFrame::Undecodable(message) => Err(FrameError::Undecodable(message)),
        PushFrame::NonText => Err(FrameError::NonText),
        PushFrame::Transport(message) => Err(FrameError::Transport(message)),
    }
}

/// The items of a subscription over a finite run of frames: one item for each
/// frame, in order, each what its frame yields.
pub fn decode_frames<D: WireRecord>(frames: Vec<PushFrame<D>>) -> (r: Vec<
    Result<Vec<D::Data>, FrameError>,
>)
    ensures
        r.len() == frames.len(),
        forall|i: int| 0 <= i < frames.len() ==> frame_yields(frames[i], #[trigger] r[i]),
{
    let stream = DataStream::new(decode_push::<D>);
    stream.map_all(frames)
}

/// A frame that yields no data: not a decoded push, or a push with a record that
/// does not convert.
pub open spec fn is_malformed<D: WireRecord>(frame: PushFrame<D>) -> bool {
    match frame {
        PushFrame::Push(push) => records_failure(push.data@) is Some,
        _ => true,
    }
}

/// A malformed frame costs one error item and nothing more: in the items of a
/// run of frames, the malformed frame yields an error, and the frame after it,
/// when its records all convert, still yields their data.
pub proof fn lemma_malformed_frame_is_isolated<D: WireRecord>(
    frames: Seq<PushFrame<D>>,
    items: Seq<Result<Vec<D::Data>, FrameError>>,
    i: int,
)
    requires
        items.len() == frames.len(),
        forall|j: int| 0 <= j < frames.len() ==> frame_yields(frames[j], #[trigger] items[j]),
        0 <= i,
        i + 1 < frames.len(),
        is_malformed(frames[i]),
        frames[i + 1] is Push,
        records_failure(frames[i + 1]->Push_0.data@) is None,
    ensures
        items[i] is Err,
        items[i + 1] is Ok,
        all_converted(frames[i + 1]->Push_0.data@, items[i + 1]->Ok_0@),
{
    assert(frame_yields(frames[i], items[i]));
    assert(frame_yields(frames[i + 1], items[i + 1]));
}

} // verus!
