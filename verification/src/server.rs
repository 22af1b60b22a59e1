//! Server-side dispatch: what the relay does with each inbound frame.
//!
//! The receive loop itself suspends on the transport and on the chain RPC,
//! so it lives outside the library; it hands every frame it receives to
//! [`dispatch_frame`] and performs the returned action. Dispatch is total:
//! every frame maps to an action, and a malformed frame maps to a `Drop`
//! action rather than an error, so no frame can stop the loop or affect how
//! a later frame is handled.

use vstd::prelude::*;

use vstd::utf8::encode_utf8;

use crate::Network;
use crate::codec::{CodecError, parse_message_data, spec_decode};
use crate::envelope::{
    ParseError,
    ResponseModel,
    ServerResponse,
    parse_response,
    spec_parse_response,
};

verus! {

/// A raw frame as it arrives from the transport. The mixnet client may use
/// textual or binary frames for the same envelope bytes; every other frame
/// kind carries no envelope.
#[derive(Debug, PartialEq, Eq)]
pub enum TransportFrame {
    Text(String),
    Binary(Vec<u8>),
    Other,
}

/// Mathematical model of a transport frame.
pub enum FrameModel {
    Text(Seq<char>),
    Binary(Seq<u8>),
    Other,
}

impl View for TransportFrame {
    type V = FrameModel;

    open spec fn view(&self) -> FrameModel {
        match self {
            TransportFrame::Text(s) => FrameModel::Text(s@),
            TransportFrame::Binary(b) => FrameModel::Binary(b@),
            TransportFrame::Other => FrameModel::Other,
        }
    }
}

/// Why a frame was dropped instead of acted on.
#[derive(Clone, Copy, Debug, PartialEq, Eq, Structural)]
pub enum DropReason {
    /// The transport frame kind carries no envelope.
    UnsupportedFrame,
    /// The frame bytes are not a well-formed envelope.
    MalformedEnvelope,
    /// The envelope held a data message whose relay payload is malformed.
    MalformedPayload,
}

/// Error of the submission step, kept as two kinds for observability: the
/// RPC call itself failed (with the underlying cause), or the node accepted
/// the transaction but the awaited confirmation returned no receipt.
#[derive(Debug, PartialEq, Eq)]
pub enum SubmitError<E> {
    Submission(E),
    NoReceipt,
}

/// The action the receive loop performs for one inbound frame.
#[derive(Debug, PartialEq, Eq)]
pub enum ServerAction {
    /// Submit the raw transaction bytes to the network's RPC endpoint and
    /// await a receipt.
    Submit { transaction: Vec<u8>, network: Network },
    /// Log the relay's own mixnet address.
    AnnounceAddress { address: Vec<u8> },
    /// Log an error the mixnet client reported.
    ReportError { message: Vec<u8> },
    /// Log a warning and continue with the next frame.
    Drop { reason: DropReason },
}

/// Mathematical model of a dispatch action.
pub enum ActionModel {
    Submit { transaction: Seq<u8>, network: Network },
    AnnounceAddress { address: Seq<u8> },
    ReportError { message: Seq<u8> },
    Drop { reason: DropReason },
}

impl View for ServerAction {
    type V = ActionModel;

    open spec fn view(&self) -> ActionModel {
        match self {
            ServerAction::Submit { transaction, network } => ActionModel::Submit {
                transaction: transaction@,
                network: *network,
            },
            ServerAction::AnnounceAddress { address } => ActionModel::AnnounceAddress {
                address: address@,
            },
            ServerAction::ReportError { message } => ActionModel::ReportError {
                message: message@,
            },
            ServerAction::Drop { reason } => ActionModel::Drop { reason: *reason },
        }
    }
}

/// Model of reading an envelope out of one transport frame: textual and
/// binary frames carry the same envelope bytes; any other kind is refused.
pub open spec fn spec_parse_frame(f: FrameModel) -> Result<ResponseModel, ParseError> {
    match f {
        FrameModel::Text(s) => match spec_parse_response(encode_utf8(s)) {
            Some(m) => Ok(m),
            None => Err(ParseError::MalformedEnvelope),
        },
        FrameModel::Binary(b) => match spec_parse_response(b) {
            Some(m) => Ok(m),
            None => Err(ParseError::MalformedEnvelope),
        },
        FrameModel::Other => Err(ParseError::UnsupportedFrame),
    }
}

/// Model of dispatch: total over frames, so one bad frame never stops the
/// loop, and the action for a frame depends on that frame alone.
pub open spec fn spec_dispatch(f: FrameModel) -> ActionModel {
    match spec_parse_frame(f) {
        Err(ParseError::UnsupportedFrame) => ActionModel::Drop {
            reason: DropReason::UnsupportedFrame,
        },
        Err(ParseError::MalformedEnvelope) => ActionModel::Drop {
            reason: DropReason::MalformedEnvelope,
        },
        Ok(ResponseModel::SelfAddress { address }) => ActionModel::AnnounceAddress { address },
        Ok(ResponseModel::Error { message }) => ActionModel::ReportError { message },
        Ok(ResponseModel::Received { message, reply_surb }) => match spec_decode(message) {
            Ok((transaction, network)) => ActionModel::Submit { transaction, network },
            Err(e) => ActionModel::Drop { reason: DropReason::MalformedPayload },
        },
    }
}

/// Read the envelope out of one transport frame; see `spec_parse_frame`.
pub fn parse_nym_message(frame: &TransportFrame) -> (r: Result<ServerResponse, ParseError>)
    ensures
        match r {
            Ok(resp) => spec_parse_frame(frame@) == Ok::<_, ParseError>(resp@),
            Err(e) => spec_parse_frame(frame@) == Err::<ResponseModel, _>(e),
        },
{
    match frame {
        TransportFrame::Text(s) => parse_response(s.as_str().as_bytes()),
        TransportFrame::Binary(b) => parse_response(b.as_slice()),
        TransportFrame::Other => Err(ParseError::UnsupportedFrame),
    }
}

/// Decide the action for one inbound frame; see `spec_dispatch`.
pub fn dispatch_frame(frame: &TransportFrame) -> (a: ServerAction)
    ensures
        a@ == spec_dispatch(frame@),
{
    match parse_nym_message(frame) {
        Err(ParseError::UnsupportedFrame) => ServerAction::Drop {
            reason: DropReason::UnsupportedFrame,
        },
        Err(ParseError::MalformedEnvelope) => ServerAction::Drop {
            reason: DropReason::MalformedEnvelope,
        },
        Ok(ServerResponse::SelfAddress { address }) => ServerAction::AnnounceAddress { address },
        Ok(ServerResponse::Error { message }) => ServerAction::ReportError { message },
        Ok(ServerResponse::Received { message, reply_surb }) => {
            match parse_message_data(message.as_slice()) {
                Ok((transaction, network)) => ServerAction::Submit { transaction, network },
                Err(CodecError::MalformedPayload) => ServerAction::Drop {
                    reason: DropReason::MalformedPayload,
                },
            }
        },
    }
}

/// Law: dispatching a sequence of frames acts on each frame independently;
/// the action at every position is the dispatch of the frame at that
/// position, so a malformed frame is dropped without affecting how any
/// earlier or later frame is processed.
pub fn dispatch_frames(frames: &Vec<TransportFrame>) -> (acts: Vec<ServerAction>)
    ensures
        acts@.len() == frames@.len(),
        forall|i: int| 0 <= i < frames@.len() ==> acts@[i]@ == spec_dispatch(frames@[i]@),
{
    let mut acts: Vec<ServerAction> = Vec::new();
    let mut i: usize = 0;
    while i < frames.len()
        invariant
            i <= frames@.len(),
            acts@.len() == i,
            forall|j: int| 0 <= j < i ==> acts@[j]@ == spec_dispatch(frames@[j]@),
        decreases frames@.len() - i,
    {
        let a = dispatch_frame(&frames[i]);
        acts.push(a);
        i += 1;
    }
    acts
}

/// The decision after a submission: a failed RPC call and a missing
/// receipt are errors of distinct kinds, and a receipt that did arrive is
/// returned unchanged. Both error kinds are non-fatal to the receive loop.
pub fn finish_submission<R, E>(outcome: Result<Option<R>, E>) -> (r: Result<R, SubmitError<E>>)
    ensures
        match outcome {
            Ok(Some(receipt)) => r == Ok::<R, SubmitError<E>>(receipt),
            Ok(None) => r == Err::<R, SubmitError<E>>(SubmitError::NoReceipt),
            Err(e) => r == Err::<R, SubmitError<E>>(SubmitError::Submission(e)),
        },
{
    match outcome {
        Ok(Some(receipt)) => Ok(receipt),
        Ok(None) => Err(SubmitError::NoReceipt),
        Err(e) => Err(SubmitError::Submission(e)),
    }
}

} // verus!
