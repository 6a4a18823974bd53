//! The frame layer of the event stream: outbound commands become frames, and
//! received frames become typed items.

use vstd::prelude::*;
use crate::error::Error;
use crate::events::{OutcomeEvent, are_fields_of, is_control};
use crate::json::{Field, object_text};
use serde_json::Error as JsonError;
use tokio_tungstenite::tungstenite::Error as WsError;

verus! {

/// A frame to be written to the channel.
#[derive(Debug, PartialEq, Eq)]
pub enum OutboundFrame {
    Text(String),
    Ping(Vec<u8>),
    Pong(Vec<u8>),
}

/// A frame read from the channel; a text frame comes with the outcome of
/// decoding its JSON into a market event `M`.
#[derive(Debug)]
pub enum Received<M> {
    Text(Result<M, JsonError>),
    Binary(Vec<u8>),
    Ping(Vec<u8>),
    Pong(Vec<u8>),
    Close,
}

/// An event received from the server: a decoded market event, or one of the
/// control variants synthesized from the frame kind.
#[derive(Debug, PartialEq)]
pub enum IncomeEvent<M> {
    Market(M),
    Binary(Vec<u8>),
    Ping(Vec<u8>),
    Pong(Vec<u8>),
    Close,
}

/// The frame that carries an outbound command, where the command can be sent.
pub open spec fn frame_carries(e: OutcomeEvent, f: OutboundFrame) -> bool {
    match e {
        OutcomeEvent::Ping(b) => f == OutboundFrame::Ping(b),
        OutcomeEvent::Pong(b) => f == OutboundFrame::Pong(b),
        _ => f matches OutboundFrame::Text(t) && exists|fs: Seq<Field>|
            are_fields_of(e, fs) && t@ == object_text(fs),
    }
}

impl OutcomeEvent {
    /// The frame for this command: control events become the control frame with
    /// their payload, the others a text frame with their JSON form. Encoding
    /// always succeeds.
    pub fn into_frame(self) -> (r: Result<OutboundFrame, Error>)
        ensures
            r matches Ok(f) ==> frame_carries(self, f),
            r is Ok,
    {
        match self {
            OutcomeEvent::Ping(b) => Ok(OutboundFrame::Ping(b)),
            OutcomeEvent::Pong(b) => Ok(OutboundFrame::Pong(b)),
            _ => match self.to_json() {
                Ok(t) => Ok(OutboundFrame::Text(t)),
                Err(e) => Err(e),
            },
        }
    }
}

/// The item that one received frame, or a failure to receive one, becomes.
pub open spec fn item_of<M>(x: Result<Received<M>, WsError>) -> Result<IncomeEvent<M>, Error> {
    match x {
        Err(cause) => Err(Error::StreamTransportError { description: "HTTP request failed", cause }),
        Ok(Received::Text(Ok(m))) => Ok(IncomeEvent::Market(m)),
        Ok(Received::Text(Err(cause))) => Err(Error::EncodingError {
            description: "Serde serialization/deserialization error",
            cause,
        }),
        Ok(Received::Binary(b)) => Ok(IncomeEvent::Binary(b)),
        Ok(Received::Ping(b)) => Ok(IncomeEvent::Ping(b)),
        Ok(Received::Pong(b)) => Ok(IncomeEvent::Pong(b)),
        Ok(Received::Close) => Ok(IncomeEvent::Close),
    }
}

/// Whether the item for `x` is the last one of the stream: a close frame or a
/// transport failure.
pub open spec fn ends_stream<M>(x: Result<Received<M>, WsError>) -> bool {
    x is Err || x matches Ok(Received::Close)
}

/// One pull from the stream: from whether it had ended and what the channel
/// gave (`None` once the channel has no more frames), the item produced and
/// whether the stream has ended afterwards.
pub open spec fn step<M>(ended: bool, received: Option<Result<Received<M>, WsError>>)
    -> (Option<Result<IncomeEvent<M>, Error>>, bool)
{
    if ended {
        (None, true)
    } else {
        match received {
            None => (None, true),
            Some(x) => (Some(item_of(x)), ends_stream(x)),
        }
    }
}

/// The items of successive pulls, given what the channel gave at each.
pub open spec fn items<M>(ended: bool, rs: Seq<Option<Result<Received<M>, WsError>>>)
    -> Seq<Option<Result<IncomeEvent<M>, Error>>>
    decreases rs.len(),
{
    if rs.len() == 0 {
        Seq::empty()
    } else {
        seq![step(ended, rs[0]).0] + items(step(ended, rs[0]).1, rs.drop_first())
    }
}

/// Whether the channel gave a frame at a pull and the frame did not end the stream.
pub open spec fn keeps_open<M>(r: Option<Result<Received<M>, WsError>>) -> bool {
    match r {
        Some(x) => !ends_stream(x),
        None => false,
    }
}

/// Whether the channel gave a frame at each of the first `k` pulls and none of
/// them ended the stream.
pub open spec fn open_through<M>(rs: Seq<Option<Result<Received<M>, WsError>>>, k: int) -> bool {
    forall|j: int| 0 <= j < k ==> keeps_open(#[trigger] rs[j])
}

/// The inbound half of the stream: turns received frames into items, one per
/// frame, until a close frame or a transport failure.
pub struct InboundStream {
    ended: bool,
}

impl InboundStream {
    /// Whether the stream has ended: no further items come.
    pub closed spec fn ended(&self) -> bool {
        self.ended
    }

    pub fn new() -> (r: InboundStream)
        ensures
            !r.ended(),
    {
        InboundStream { ended: false }
    }

    pub fn is_ended(&self) -> (r: bool)
        ensures
            r == self.ended(),
    {
        self.ended
    }

    /// The item for what the channel gave: `None` once the stream has ended or
    /// the channel has no more frames; otherwise the item for the frame (a
    /// decode failure is an `EncodingError` item and the stream goes on; a
    /// transport failure is a `StreamTransportError` item and the stream ends;
    /// a close frame is a `Close` item and the stream ends).
    pub fn next_item<M>(&mut self, received: Option<Result<Received<M>, WsError>>)
        -> (r: Option<Result<IncomeEvent<M>, Error>>)
        ensures
            (r, final(self).ended()) == step(old(self).ended(), received),
    {
        if self.ended {
            return None;
        }
        match received {
            None => {
                self.ended = true;
                None
            },
            Some(Err(e)) => {
                self.ended = true;
                Some(Err(Error::from(e)))
            },
            Some(Ok(frame)) => {
                let item = match frame {
                    Received::Text(Ok(m)) => Ok(IncomeEvent::Market(m)),
                    Received::Text(Err(e)) => Err(Error::from(e)),
                    Received::Binary(b) => Ok(IncomeEvent::Binary(b)),
                    Received::Ping(b) => Ok(IncomeEvent::Ping(b)),
                    Received::Pong(b) => Ok(IncomeEvent::Pong(b)),
                    Received::Close => {
                        self.ended = true;
                        Ok(IncomeEvent::Close)
                    },
                };
                Some(item)
            },
        }
    }
}

/// There is one item per pull.
pub proof fn lemma_items_len<M>(ended: bool, rs: Seq<Option<Result<Received<M>, WsError>>>)
    ensures
        items(ended, rs).len() == rs.len(),
    decreases rs.len(),
{
    if rs.len() > 0 {
        lemma_items_len(step(ended, rs[0]).1, rs.drop_first());
    }
}

/// Once the stream has ended, every pull gives nothing.
pub proof fn lemma_items_after_end<M>(rs: Seq<Option<Result<Received<M>, WsError>>>)
    ensures
        forall|j: int| 0 <= j < rs.len() ==> #[trigger] items(true, rs)[j] is None,
    decreases rs.len(),
{
    lemma_items_len(true, rs);
    if rs.len() > 0 {
        lemma_items_after_end(rs.drop_first());
        lemma_items_len(true, rs.drop_first());
        assert forall|j: int| 0 <= j < rs.len() implies #[trigger] items(true, rs)[j] is None by {
            if j > 0 {
                assert(items(true, rs)[j] == items(true, rs.drop_first())[j - 1]);
            }
        }
    }
}

/// While no earlier pull ended the stream, the item of pull `k` is the item of
/// what the channel gave at that pull, whatever came before it.
pub proof fn lemma_item_at<M>(rs: Seq<Option<Result<Received<M>, WsError>>>, k: int)
    requires
        0 <= k < rs.len(),
        open_through(rs, k),
    ensures
        items(false, rs).len() == rs.len(),
        items(false, rs)[k] == step(false, rs[k]).0,
    decreases k,
{
    lemma_items_len(false, rs);
    if k > 0 {
        let rest = rs.drop_first();
        assert(open_through(rest, k - 1)) by {
            assert forall|j: int| 0 <= j < k - 1 implies keeps_open(#[trigger] rest[j]) by {
                assert(rest[j] == rs[j + 1]);
            }
        }
        assert(keeps_open(rs[0]));
        lemma_item_at(rest, k - 1);
    }
}

/// A received close frame gives exactly one `Close` item, and no item follows it.
pub proof fn lemma_close_is_last<M>(rs: Seq<Option<Result<Received<M>, WsError>>>, k: int)
    requires
        0 <= k < rs.len(),
        open_through(rs, k),
        rs[k] == Some(Ok::<Received<M>, WsError>(Received::Close)),
    ensures
        items(false, rs)[k] == Some(Ok::<IncomeEvent<M>, Error>(IncomeEvent::Close)),
        forall|j: int| k < j < rs.len() ==> #[trigger] items(false, rs)[j] is None,
    decreases k,
{
    lemma_item_at(rs, k);
    if k == 0 {
        lemma_items_after_end(rs.drop_first());
        assert forall|j: int| k < j < rs.len() implies #[trigger] items(false, rs)[j] is None by {
            assert(items(false, rs)[j] == items(true, rs.drop_first())[j - 1]);
        }
    } else {
        let rest = rs.drop_first();
        assert(open_through(rest, k - 1)) by {
            assert forall|j: int| 0 <= j < k - 1 implies keeps_open(#[trigger] rest[j]) by {
                assert(rest[j] == rs[j + 1]);
            }
        }
        assert(keeps_open(rs[0]));
        lemma_close_is_last(rest, k - 1);
        assert forall|j: int| k < j < rs.len() implies #[trigger] items(false, rs)[j] is None by {
            assert(items(false, rs)[j] == items(false, rest)[j - 1]);
        }
    }
}

/// A received ping frame gives a `Ping` item carrying the same payload bytes.
pub proof fn lemma_ping_payload_kept<M>(rs: Seq<Option<Result<Received<M>, WsError>>>, k: int, payload: Vec<u8>)
    requires
        0 <= k < rs.len(),
        open_through(rs, k),
        rs[k] == Some(Ok::<Received<M>, WsError>(Received::Ping(payload))),
    ensures
        items(false, rs)[k] == Some(Ok::<IncomeEvent<M>, Error>(IncomeEvent::Ping(payload))),
{
    lemma_item_at(rs, k);
}

/// Among text frames, each gives the item for its own decoding at its own
/// position: one that does not decode gives an `EncodingError` item there, and
/// the frames before and after it give their events as if it were not there.
pub proof fn lemma_bad_frame_isolated<M>(rs: Seq<Option<Result<Received<M>, WsError>>>)
    requires
        forall|j: int| 0 <= j < rs.len() ==> #[trigger] rs[j] matches Some(Ok(Received::Text(_))),
    ensures
        items(false, rs).len() == rs.len(),
        forall|j: int| 0 <= j < rs.len() ==> #[trigger] items(false, rs)[j] == Some(item_of(rs[j]->Some_0)),
{
    lemma_items_len(false, rs);
    assert forall|j: int| 0 <= j < rs.len() implies #[trigger] items(false, rs)[j] == Some(item_of(rs[j]->Some_0)) by {
        assert(open_through(rs, j)) by {
            assert forall|i: int| 0 <= i < j implies keeps_open(#[trigger] rs[i]) by {
                assert(rs[i] matches Some(Ok(Received::Text(_))));
            }
        }
        lemma_item_at(rs, j);
    }
}

} // verus!
