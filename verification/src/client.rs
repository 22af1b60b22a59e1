//! Client-side packaging and the per-client session state machine.
//!
//! A client signs one transaction, wraps the signed bytes into a mixnet
//! send envelope addressed to the relay server, transmits it, and closes
//! its transport connection. Signing and transmission are I/O and live
//! outside the library; the packaging of the frame and the order of the
//! steps are verified here.

use vstd::prelude::*;

use vstd::slice::slice_to_vec;

use crate::Network;
use crate::codec::{encode_message_data, spec_encode};
use crate::envelope::{ClientRequest, RequestModel, serialize_request, spec_serialize_request};

verus! {

/// Build the frame that submits a signed transaction to the relay: the
/// payload is the transaction tagged with its destination network, and the
/// envelope asks for no reply path (the relay is fire-and-forget).
pub fn build_submit_frame(recipient: &[u8], signed_tx: &[u8], network: Network) -> (frame: Vec<
    u8,
>)
    ensures
        frame@ == spec_serialize_request(
            RequestModel::Send {
                recipient: recipient@,
                message: spec_encode(signed_tx@, network),
                with_reply_surb: false,
            },
        ),
{
    let payload = encode_message_data(signed_tx, network);
    let request = ClientRequest::Send {
        recipient: slice_to_vec(recipient),
        message: payload,
        with_reply_surb: false,
    };
    serialize_request(&request)
}

/// Build the control frame that asks the mixnet client for its own address.
pub fn self_address_request_frame() -> (frame: Vec<u8>)
    ensures
        frame@ == spec_serialize_request(RequestModel::SelfAddress),
{
    serialize_request(&ClientRequest::SelfAddress)
}

/// Where a client stands in its single relay operation. A session exists
/// only once its transport connection is up; there is no reconnect state.
#[derive(Clone, Copy, Debug, PartialEq, Eq, Structural)]
pub enum ClientPhase {
    /// Connected to the mixnet client; nothing sent yet.
    Connected,
    /// A transaction has been signed and awaits submission.
    Signed,
    /// The signed transaction has been handed to the transport.
    Submitted,
    /// Signing or sending failed; the session is terminal and a caller
    /// that wants to retry must construct a new client.
    Failed,
    /// The transport connection has been released.
    Closed,
}

/// The session state machine of one client instance:
/// `Connected -> [Signed] -> Submitted`, with `Failed` reached from any
/// live pre-submission state, and `Closed` reached exactly once from any
/// other state — also straight from `Connected`, so a client that never
/// submitted still releases its connection.
pub struct ClientSession {
    phase: ClientPhase,
}

impl ClientSession {
    /// The current phase, as seen by contracts.
    pub closed spec fn spec_phase(self) -> ClientPhase {
        self.phase
    }

    /// A session begins in `Connected`, right after the transport is up.
    pub fn new() -> (s: ClientSession)
        ensures
            s.spec_phase() == ClientPhase::Connected,
    {
        ClientSession { phase: ClientPhase::Connected }
    }

    /// The current phase.
    pub fn phase(&self) -> (p: ClientPhase)
        ensures
            p == self.spec_phase(),
    {
        self.phase
    }

    /// Record that the transaction was signed.
    pub fn record_signed(&mut self)
        requires
            old(self).spec_phase() == ClientPhase::Connected,
        ensures
            final(self).spec_phase() == ClientPhase::Signed,
    {
        self.phase = ClientPhase::Signed;
    }

    /// Record that the signed transaction was handed to the transport.
    /// Signing through this session is optional: a caller may submit bytes
    /// it signed elsewhere.
    pub fn record_submitted(&mut self)
        requires
            old(self).spec_phase() == ClientPhase::Connected || old(self).spec_phase()
                == ClientPhase::Signed,
        ensures
            final(self).spec_phase() == ClientPhase::Submitted,
    {
        self.phase = ClientPhase::Submitted;
    }

    /// Record that signing or sending failed. The failure is terminal:
    /// no further signing or submission is permitted, only `close`.
    pub fn record_failure(&mut self)
        requires
            old(self).spec_phase() == ClientPhase::Connected || old(self).spec_phase()
                == ClientPhase::Signed,
        ensures
            final(self).spec_phase() == ClientPhase::Failed,
    {
        self.phase = ClientPhase::Failed;
    }

    /// Record that the transport connection was released. Permitted from
    /// every phase but `Closed` — on success, on failure, and before any
    /// submission — and at most once per session.
    pub fn close(&mut self)
        requires
            old(self).spec_phase() != ClientPhase::Closed,
        ensures
            final(self).spec_phase() == ClientPhase::Closed,
    {
        self.phase = ClientPhase::Closed;
    }
}

/// Law: a freshly connected session that never signed or submitted already
/// meets `close`'s precondition, so an unused client releases its transport
/// connection without error.
pub proof fn lemma_close_before_submit(s: ClientSession)
    requires
        s.spec_phase() == ClientPhase::Connected,
    ensures
        s.spec_phase() != ClientPhase::Closed,
{
}

} // verus!
