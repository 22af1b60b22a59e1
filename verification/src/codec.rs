//! Codec for the relay payload carried inside a mixnet data message.
//!
//! The relay runs in tagged mode: a payload is a single network wire-tag
//! byte followed by the raw signed-transaction bytes. Untagged (legacy,
//! single-network) payloads are deliberately not accepted, since a mixed
//! mode would make payloads that begin with a valid tag byte ambiguous.

use vstd::prelude::*;

use crate::{Network, spec_network_of_byte, spec_wire_tag};

verus! {

/// Error returned for a relay payload that cannot be decoded.
#[derive(Clone, Copy, Debug, PartialEq, Eq, Structural)]
pub enum CodecError {
    /// The payload is empty or too short to hold a tag and a transaction.
    MalformedPayload,
}

/// Model of encoding: the network's wire tag followed by the transaction.
pub open spec fn spec_encode(tx: Seq<u8>, network: Network) -> Seq<u8> {
    seq![spec_wire_tag(network)] + tx
}

/// Model of decoding: a payload shorter than a tag plus one transaction
/// byte is malformed; otherwise the first byte resolves the network (total,
/// with the `Development` fallback) and the rest is the transaction.
pub open spec fn spec_decode(data: Seq<u8>) -> Result<(Seq<u8>, Network), CodecError> {
    if data.len() < 2 {
        Err(CodecError::MalformedPayload)
    } else {
        Ok((data.subrange(1, data.len() as int), spec_network_of_byte(data[0])))
    }
}

/// Encode a signed transaction for relay delivery to `network`.
pub fn encode_message_data(tx: &[u8], network: Network) -> (r: Vec<u8>)
    ensures
        r@ == spec_encode(tx@, network),
{
    let mut out: Vec<u8> = Vec::new();
    out.push(network.wire_tag());
    push_all(&mut out, tx);
    proof {
        assert(out@ =~= spec_encode(tx@, network));
    }
    out
}

/// Decode a relay payload into the raw transaction bytes and the network
/// they are destined for. Fails exactly on payloads shorter than two bytes,
/// and never on the tag byte itself.
pub fn parse_message_data(data: &[u8]) -> (r: Result<(Vec<u8>, Network), CodecError>)
    ensures
        match r {
            Ok((tx, network)) => {
                &&& data@.len() >= 2
                &&& tx@ == data@.subrange(1, data@.len() as int)
                &&& network == spec_network_of_byte(data@[0])
            },
            Err(e) => {
                &&& data@.len() < 2
                &&& e == CodecError::MalformedPayload
            },
        },
{
    if data.len() < 2 {
        return Err(CodecError::MalformedPayload);
    }
    let network = Network::from(data[0]);
    let tx = vstd::slice::slice_to_vec(vstd::slice::slice_subrange(data, 1, data.len()));
    Ok((tx, network))
}

/// Law: decoding an encoded payload returns the transaction and network
/// unchanged, for every network and every non-empty transaction.
pub proof fn lemma_codec_round_trip(tx: Seq<u8>, network: Network)
    requires
        tx.len() >= 1,
    ensures
        spec_decode(spec_encode(tx, network)) == Ok::<_, CodecError>((tx, network)),
{
    let data = spec_encode(tx, network);
    crate::lemma_wire_tag_round_trip(network);
    assert(data.subrange(1, data.len() as int) =~= tx);
}

/// Law: encoding is unambiguous — two distinct transaction/network pairs
/// never encode to the same payload, so no payload has two parses.
pub proof fn lemma_encode_unambiguous(
    tx1: Seq<u8>,
    network1: Network,
    tx2: Seq<u8>,
    network2: Network,
)
    requires
        tx1.len() >= 1,
        tx2.len() >= 1,
        spec_encode(tx1, network1) == spec_encode(tx2, network2),
    ensures
        tx1 == tx2,
        network1 == network2,
{
    lemma_codec_round_trip(tx1, network1);
    lemma_codec_round_trip(tx2, network2);
}

/// Law: decoding an empty payload fails with `MalformedPayload`.
pub proof fn lemma_decode_empty_fails(data: Seq<u8>)
    requires
        data.len() == 0,
    ensures
        spec_decode(data) == Err::<(Seq<u8>, Network), _>(CodecError::MalformedPayload),
{
}

/// Append every byte of `src` to `dst`, in order.
pub(crate) fn push_all(dst: &mut Vec<u8>, src: &[u8])
    ensures
        final(dst)@ == old(dst)@ + src@,
{
    let mut i: usize = 0;
    while i < src.len()
        invariant
            i <= src@.len(),
            dst@ == old(dst)@ + src@.subrange(0, i as int),
        decreases src@.len() - i,
    {
        dst.push(src[i]);
        proof {
            assert(old(dst)@ + src@.subrange(0, i as int) + seq![src@[i as int]] =~= old(dst)@
                + src@.subrange(0, i + 1 as int));
        }
        i += 1;
    }
    proof {
        assert(src@.subrange(0, src@.len() as int) =~= src@);
    }
}

} // verus!
