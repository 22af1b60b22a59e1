//! Framing of the envelopes exchanged with the local mixnet client.
//!
//! The relay speaks to the mixnet client over a duplex channel whose frames
//! carry serialized envelopes: outbound requests ([`ClientRequest`]) and
//! inbound responses ([`ServerResponse`]). A frame starts with a one-byte
//! kind tag; every variable-length field is carried as a block, a 64-bit
//! little-endian length followed by that many content bytes. Parsing is
//! strict: a frame with a truncated block, an unknown tag, or trailing
//! bytes is rejected as a whole.

use vstd::prelude::*;

use vstd::bytes::{
    lemma_auto_spec_u64_to_from_le_bytes,
    spec_u64_from_le_bytes,
    spec_u64_to_le_bytes,
    u64_from_le_bytes,
    u64_to_le_bytes,
};
use vstd::slice::{slice_subrange, slice_to_vec};

use crate::codec::push_all;

verus! {

/// Frame kind tag of an outbound `Send` request.
pub const TAG_SEND: u8 = 0;

/// Frame kind tag of an outbound self-address request.
pub const TAG_SELF_ADDRESS_REQUEST: u8 = 1;

/// Frame kind tag of an inbound data message.
pub const TAG_RECEIVED: u8 = 0;

/// Frame kind tag of an inbound self-address response.
pub const TAG_SELF_ADDRESS: u8 = 1;

/// Frame kind tag of an inbound error report.
pub const TAG_ERROR: u8 = 2;

/// An outbound envelope: a request from the relay to the mixnet client.
#[derive(Debug, PartialEq, Eq)]
pub enum ClientRequest {
    /// Send `message` through the mixnet to `recipient`. `with_reply_surb`
    /// asks the mixnet for a reply path; the relay always declines one.
    Send { recipient: Vec<u8>, message: Vec<u8>, with_reply_surb: bool },
    /// Ask the mixnet client for the relay's own mixnet address.
    SelfAddress,
}

/// An inbound envelope: a response from the mixnet client.
#[derive(Debug, PartialEq, Eq)]
pub enum ServerResponse {
    /// A data message received from the mixnet, with an optional reply path.
    Received { message: Vec<u8>, reply_surb: Option<Vec<u8>> },
    /// The relay's own mixnet address.
    SelfAddress { address: Vec<u8> },
    /// An error reported by the mixnet client.
    Error { message: Vec<u8> },
}

/// Error for a transport frame that holds no well-formed envelope.
#[derive(Clone, Copy, Debug, PartialEq, Eq, Structural)]
pub enum ParseError {
    /// The frame bytes are not a well-formed envelope.
    MalformedEnvelope,
    /// The transport frame is of a kind that carries no envelope.
    UnsupportedFrame,
}

/// Mathematical model of an outbound envelope.
pub enum RequestModel {
    Send { recipient: Seq<u8>, message: Seq<u8>, with_reply_surb: bool },
    SelfAddress,
}

/// Mathematical model of an inbound envelope.
pub enum ResponseModel {
    Received { message: Seq<u8>, reply_surb: Option<Seq<u8>> },
    SelfAddress { address: Seq<u8> },
    Error { message: Seq<u8> },
}

impl View for ClientRequest {
    type V = RequestModel;

    open spec fn view(&self) -> RequestModel {
        match self {
            ClientRequest::Send { recipient, message, with_reply_surb } => RequestModel::Send {
                recipient: recipient@,
                message: message@,
                with_reply_surb: *with_reply_surb,
            },
            ClientRequest::SelfAddress => RequestModel::SelfAddress,
        }
    }
}

impl View for ServerResponse {
    type V = ResponseModel;

    open spec fn view(&self) -> ResponseModel {
        match self {
            ServerResponse::Received { message, reply_surb } => ResponseModel::Received {
                message: message@,
                reply_surb: match reply_surb {
                    Some(surb) => Some(surb@),
                    None => None,
                },
            },
            ServerResponse::SelfAddress { address } => ResponseModel::SelfAddress {
                address: address@,
            },
            ServerResponse::Error { message } => ResponseModel::Error { message: message@ },
        }
    }
}

/// A length-prefixed block: 64-bit little-endian length, then the content.
pub open spec fn spec_block(content: Seq<u8>) -> Seq<u8> {
    spec_u64_to_le_bytes(content.len() as u64) + content
}

/// Model of serializing an outbound envelope.
pub open spec fn spec_serialize_request(m: RequestModel) -> Seq<u8> {
    match m {
        RequestModel::Send { recipient, message, with_reply_surb } => seq![
            TAG_SEND,
            (if with_reply_surb {
                1u8
            } else {
                0u8
            }),
        ] + spec_block(recipient) + spec_block(message),
        RequestModel::SelfAddress => seq![TAG_SELF_ADDRESS_REQUEST],
    }
}

/// Model of serializing an inbound envelope.
pub open spec fn spec_serialize_response(m: ResponseModel) -> Seq<u8> {
    match m {
        ResponseModel::Received { message, reply_surb } => seq![TAG_RECEIVED] + (match reply_surb {
            Some(surb) => seq![1u8] + spec_block(surb),
            None => seq![0u8],
        }) + spec_block(message),
        ResponseModel::SelfAddress { address } => seq![TAG_SELF_ADDRESS] + spec_block(address),
        ResponseModel::Error { message } => seq![TAG_ERROR] + spec_block(message),
    }
}

/// Model of reading one block at offset `at`: the content and the offset
/// just past it, or `None` if the length prefix or the content overruns.
pub open spec fn spec_parse_block(b: Seq<u8>, at: int) -> Option<(Seq<u8>, int)> {
    if at + 8 > b.len() {
        None
    } else {
        let n = spec_u64_from_le_bytes(b.subrange(at, at + 8)) as int;
        if at + 8 + n > b.len() {
            None
        } else {
            Some((b.subrange(at + 8, at + 8 + n), at + 8 + n))
        }
    }
}

/// Model of parsing an inbound envelope. Strict: `None` for an empty frame,
/// an unknown kind tag, a malformed block, or trailing bytes.
pub open spec fn spec_parse_response(b: Seq<u8>) -> Option<ResponseModel> {
    if b.len() < 1 {
        None
    } else if b[0] == TAG_RECEIVED {
        if b.len() < 2 {
            None
        } else if b[1] == 1 {
            match spec_parse_block(b, 2) {
                Some((surb, mid)) => match spec_parse_block(b, mid) {
                    Some((message, end)) => if end == b.len() {
                        Some(ResponseModel::Received { message, reply_surb: Some(surb) })
                    } else {
                        None
                    },
                    None => None,
                },
                None => None,
            }
        } else if b[1] == 0 {
            match spec_parse_block(b, 2) {
                Some((message, end)) => if end == b.len() {
                    Some(ResponseModel::Received { message, reply_surb: None })
                } else {
                    None
                },
                None => None,
            }
        } else {
            None
        }
    } else if b[0] == TAG_SELF_ADDRESS {
        match spec_parse_block(b, 1) {
            Some((address, end)) => if end == b.len() {
                Some(ResponseModel::SelfAddress { address })
            } else {
                None
            },
            None => None,
        }
    } else if b[0] == TAG_ERROR {
        match spec_parse_block(b, 1) {
            Some((message, end)) => if end == b.len() {
                Some(ResponseModel::Error { message })
            } else {
                None
            },
            None => None,
        }
    } else {
        None
    }
}

/// Serialize an outbound envelope into frame bytes.
pub fn serialize_request(req: &ClientRequest) -> (out: Vec<u8>)
    ensures
        out@ == spec_serialize_request(req@),
{
    let mut out: Vec<u8> = Vec::new();
    match req {
        ClientRequest::Send { recipient, message, with_reply_surb } => {
            out.push(TAG_SEND);
            out.push(if *with_reply_surb {
                1
            } else {
                0
            });
            push_block(&mut out, recipient.as_slice());
            push_block(&mut out, message.as_slice());
        },
        ClientRequest::SelfAddress => {
            out.push(TAG_SELF_ADDRESS_REQUEST);
        },
    }
    proof {
        assert(out@ =~= spec_serialize_request(req@));
    }
    out
}

/// Serialize an inbound envelope into frame bytes. The mixnet client is
/// the party that produces such frames; the library keeps the serializer as
/// the counterpart of the parser and proves the two inverse.
pub fn serialize_response(resp: &ServerResponse) -> (out: Vec<u8>)
    ensures
        out@ == spec_serialize_response(resp@),
{
    let mut out: Vec<u8> = Vec::new();
    match resp {
        ServerResponse::Received { message, reply_surb } => {
            out.push(TAG_RECEIVED);
            match reply_surb {
                Some(surb) => {
                    out.push(1);
                    push_block(&mut out, surb.as_slice());
                },
                None => {
                    out.push(0);
                },
            }
            push_block(&mut out, message.as_slice());
        },
        ServerResponse::SelfAddress { address } => {
            out.push(TAG_SELF_ADDRESS);
            push_block(&mut out, address.as_slice());
        },
        ServerResponse::Error { message } => {
            out.push(TAG_ERROR);
            push_block(&mut out, message.as_slice());
        },
    }
    proof {
        assert(out@ =~= spec_serialize_response(resp@));
    }
    out
}

/// Parse an inbound envelope from frame bytes; see `spec_parse_response`.
pub fn parse_response(b: &[u8]) -> (r: Result<ServerResponse, ParseError>)
    ensures
        match r {
            Ok(resp) => spec_parse_response(b@) == Some(resp@),
            Err(e) => {
                &&& spec_parse_response(b@) is None
                &&& e == ParseError::MalformedEnvelope
            },
        },
{
    if b.len() < 1 {
        return Err(ParseError::MalformedEnvelope);
    }
    let kind = b[0];
    if kind == TAG_RECEIVED {
        if b.len() < 2 {
            return Err(ParseError::MalformedEnvelope);
        }
        let surb_flag = b[1];
        if surb_flag == 1 {
            let (surb, mid) = match parse_block(b, 2) {
                Some(p) => p,
                None => {
                    return Err(ParseError::MalformedEnvelope);
                },
            };
            let (message, end) = match parse_block(b, mid) {
                Some(p) => p,
                None => {
                    return Err(ParseError::MalformedEnvelope);
                },
            };
            if end == b.len() {
                Ok(ServerResponse::Received { message, reply_surb: Some(surb) })
            } else {
                Err(ParseError::MalformedEnvelope)
            }
        } else if surb_flag == 0 {
            let (message, end) = match parse_block(b, 2) {
                Some(p) => p,
                None => {
                    return Err(ParseError::MalformedEnvelope);
                },
            };
            if end == b.len() {
                Ok(ServerResponse::Received { message, reply_surb: None })
            } else {
                Err(ParseError::MalformedEnvelope)
            }
        } else {
            Err(ParseError::MalformedEnvelope)
        }
    } else if kind == TAG_SELF_ADDRESS {
        let (address, end) = match parse_block(b, 1) {
            Some(p) => p,
            None => {
                return Err(ParseError::MalformedEnvelope);
            },
        };
        if end == b.len() {
            Ok(ServerResponse::SelfAddress { address })
        } else {
            Err(ParseError::MalformedEnvelope)
        }
    } else if kind == TAG_ERROR {
        let (message, end) = match parse_block(b, 1) {
            Some(p) => p,
            None => {
                return Err(ParseError::MalformedEnvelope);
            },
        };
        if end == b.len() {
            Ok(ServerResponse::Error { message })
        } else {
            Err(ParseError::MalformedEnvelope)
        }
    } else {
        Err(ParseError::MalformedEnvelope)
    }
}

/// An inbound envelope whose fields are short enough to frame: every block
/// length must fit in its 64-bit prefix.
pub open spec fn spec_response_wf(m: ResponseModel) -> bool {
    match m {
        ResponseModel::Received { message, reply_surb } => {
            &&& message.len() < 0x1_0000_0000_0000_0000
            &&& match reply_surb {
                Some(surb) => surb.len() < 0x1_0000_0000_0000_0000,
                None => true,
            }
        },
        ResponseModel::SelfAddress { address } => address.len() < 0x1_0000_0000_0000_0000,
        ResponseModel::Error { message } => message.len() < 0x1_0000_0000_0000_0000,
    }
}

/// Law: parsing a serialized inbound envelope returns it unchanged.
pub proof fn lemma_response_round_trip(m: ResponseModel)
    requires
        spec_response_wf(m),
    ensures
        spec_parse_response(spec_serialize_response(m)) == Some(m),
{
    lemma_auto_spec_u64_to_from_le_bytes();
    let b = spec_serialize_response(m);
    match m {
        ResponseModel::Received { message, reply_surb } => {
            match reply_surb {
                Some(surb) => {
                    let prefix = seq![TAG_RECEIVED, 1u8];
                    assert(b =~= prefix + spec_block(surb) + spec_block(message));
                    lemma_parse_block_at(prefix, surb, spec_block(message));
                    let mid = prefix.len() as int + 8 + surb.len() as int;
                    let prefix2 = prefix + spec_block(surb);
                    assert(b =~= prefix2 + spec_block(message) + Seq::<u8>::empty());
                    lemma_parse_block_at(prefix2, message, Seq::<u8>::empty());
                    assert(prefix2.len() as int == mid);
                    assert(spec_parse_block(b, mid) == Some(
                        (message, mid + 8 + message.len() as int),
                    ));
                    assert(mid + 8 + message.len() as int == b.len());
                },
                None => {
                    let prefix = seq![TAG_RECEIVED, 0u8];
                    assert(b =~= prefix + spec_block(message) + Seq::<u8>::empty());
                    lemma_parse_block_at(prefix, message, Seq::<u8>::empty());
                    assert(2 + 8 + message.len() as int == b.len());
                },
            }
        },
        ResponseModel::SelfAddress { address } => {
            let prefix = seq![TAG_SELF_ADDRESS];
            assert(b =~= prefix + spec_block(address) + Seq::<u8>::empty());
            lemma_parse_block_at(prefix, address, Seq::<u8>::empty());
            assert(1 + 8 + address.len() as int == b.len());
        },
        ResponseModel::Error { message } => {
            let prefix = seq![TAG_ERROR];
            assert(b =~= prefix + spec_block(message) + Seq::<u8>::empty());
            lemma_parse_block_at(prefix, message, Seq::<u8>::empty());
            assert(1 + 8 + message.len() as int == b.len());
        },
    }
}

/// Law: serialization of inbound envelopes is unambiguous — two distinct
/// well-formed envelopes never serialize to the same frame bytes.
pub proof fn lemma_response_serialization_unambiguous(m1: ResponseModel, m2: ResponseModel)
    requires
        spec_response_wf(m1),
        spec_response_wf(m2),
        spec_serialize_response(m1) == spec_serialize_response(m2),
    ensures
        m1 == m2,
{
    lemma_response_round_trip(m1);
    lemma_response_round_trip(m2);
}

/// Reading a block out of `prefix + block(content) + suffix` at the end of
/// `prefix` yields `content` and stops just before `suffix`.
proof fn lemma_parse_block_at(prefix: Seq<u8>, content: Seq<u8>, suffix: Seq<u8>)
    requires
        content.len() < 0x1_0000_0000_0000_0000,
    ensures
        spec_parse_block(prefix + spec_block(content) + suffix, prefix.len() as int) == Some(
            (content, prefix.len() as int + 8 + content.len() as int),
        ),
{
    lemma_auto_spec_u64_to_from_le_bytes();
    let b = prefix + spec_block(content) + suffix;
    let at = prefix.len() as int;
    assert(spec_u64_to_le_bytes(content.len() as u64).len() == 8);
    assert(b.subrange(at, at + 8) =~= spec_u64_to_le_bytes(content.len() as u64));
    assert(spec_u64_from_le_bytes(b.subrange(at, at + 8)) == content.len() as u64);
    assert(b.subrange(at + 8, at + 8 + content.len() as int) =~= content);
}

/// Read one block of `b` at offset `at`; see `spec_parse_block`.
fn parse_block(b: &[u8], at: usize) -> (r: Option<(Vec<u8>, usize)>)
    requires
        at <= b@.len(),
    ensures
        match r {
            Some((content, end)) => {
                &&& spec_parse_block(b@, at as int) == Some((content@, end as int))
                &&& at < end <= b@.len()
            },
            None => spec_parse_block(b@, at as int) is None,
        },
{
    if b.len() - at < 8 {
        return None;
    }
    let len_bytes = slice_subrange(b, at, at + 8);
    let n64 = u64_from_le_bytes(len_bytes);
    let rest = (b.len() - at - 8) as u64;
    if n64 > rest {
        return None;
    }
    let n = n64 as usize;
    let content = slice_to_vec(slice_subrange(b, at + 8, at + 8 + n));
    Some((content, at + 8 + n))
}

/// Write `content` as one block at the end of `dst`.
fn push_block(dst: &mut Vec<u8>, content: &[u8])
    ensures
        final(dst)@ == old(dst)@ + spec_block(content@),
{
    let len_bytes = u64_to_le_bytes(content.len() as u64);
    push_all(dst, len_bytes.as_slice());
    push_all(dst, content);
    proof {
        assert(old(dst)@ + spec_u64_to_le_bytes(content@.len() as u64) + content@ =~= old(dst)@
            + spec_block(content@));
    }
}

} // verus!
