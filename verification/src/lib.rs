//! Relay for signed Ethereum transactions carried over an anonymizing mixnet.
//!
//! The crate holds the verified core of the relay: the network registry
//! (`Network`), the tagged payload codec ([`codec`]), the framing of control
//! and data envelopes exchanged with the local mixnet client ([`envelope`]),
//! the client-side packaging and session state machine ([`client`]), and the
//! server-side dispatch of inbound frames ([`server`]). Transport and chain
//! I/O live outside the library and hand plain values in and out.

use vstd::prelude::*;

pub mod client;
pub mod codec;
pub mod envelope;
pub mod server;

use vstd::string::StringSliceAdditionalSpecFns;

verus! {

/// A destination chain the relay can submit transactions to.
#[derive(Clone, Copy, Debug, PartialEq, Eq, Structural)]
pub enum Network {
    Mainnet,
    Goerli,
    Development,
}

/// Error returned when a network name string is not recognised.
#[derive(Clone, Copy, Debug, PartialEq, Eq, Structural)]
pub enum RegistryError {
    UnknownNetwork,
}

/// The single-byte wire tag that identifies a network inside a relay payload.
pub open spec fn spec_wire_tag(n: Network) -> u8 {
    match n {
        Network::Mainnet => 1,
        Network::Goerli => 5,
        Network::Development => 255,
    }
}

/// Resolving a tag byte is total: an unrecognised byte falls back to
/// `Development`, for compatibility with peers that emit a partial tag set.
pub open spec fn spec_network_of_byte(b: u8) -> Network {
    if b == 1 {
        Network::Mainnet
    } else if b == 5 {
        Network::Goerli
    } else {
        Network::Development
    }
}

/// The RPC endpoint URL of each network, as characters.
pub open spec fn spec_endpoint(n: Network) -> Seq<char> {
    match n {
        Network::Mainnet => "https://mainnet.infura.io/v3/c60b0bb42f8a4c6481ecd229eddaca27"@,
        Network::Goerli => "https://goerli.infura.io/v3/c60b0bb42f8a4c6481ecd229eddaca27"@,
        Network::Development => "http://localhost:8545"@,
    }
}

/// ASCII lowering of one byte; bytes outside `A`..`Z` are unchanged.
pub open spec fn spec_lower_byte(b: u8) -> u8 {
    if 65 <= b && b <= 90 {
        (b + 32) as u8
    } else {
        b
    }
}

/// ASCII lowering of a byte sequence.
pub open spec fn spec_lower_bytes(s: Seq<u8>) -> Seq<u8> {
    s.map_values(|b: u8| spec_lower_byte(b))
}

/// The lower-case UTF-8 name of each network.
pub open spec fn spec_name_bytes(n: Network) -> Seq<u8> {
    match n {
        Network::Mainnet => seq![109, 97, 105, 110, 110, 101, 116],
        Network::Goerli => seq![103, 111, 101, 114, 108, 105],
        Network::Development => seq![
            100,
            101,
            118,
            101,
            108,
            111,
            112,
            109,
            101,
            110,
            116,
        ],
    }
}

impl Network {
    /// The RPC endpoint URL this network's transactions are submitted to.
    pub fn get_endpoint(&self) -> (r: String)
        ensures
            r@ == spec_endpoint(*self),
    {
        match self {
            Network::Mainnet => "https://mainnet.infura.io/v3/c60b0bb42f8a4c6481ecd229eddaca27"
                .to_owned(),
            Network::Goerli => "https://goerli.infura.io/v3/c60b0bb42f8a4c6481ecd229eddaca27"
                .to_owned(),
            Network::Development => "http://localhost:8545".to_owned(),
        }
    }

    /// Strict construction from a name: succeeds exactly when the ASCII
    /// lowering of the input is one of the registered network names.
    pub fn from_str(s: &str) -> (r: Result<Network, RegistryError>)
        ensures
            match r {
                Ok(n) => spec_lower_bytes(s.spec_bytes()) == spec_name_bytes(n),
                Err(e) => {
                    &&& e == RegistryError::UnknownNetwork
                    &&& forall|n: Network| spec_lower_bytes(s.spec_bytes()) != spec_name_bytes(n)
                },
            },
    {
        let lowered = lower_ascii(s.as_bytes());
        let mainnet = name_bytes(Network::Mainnet);
        let goerli = name_bytes(Network::Goerli);
        let development = name_bytes(Network::Development);
        if bytes_eq(lowered.as_slice(), mainnet.as_slice()) {
            Ok(Network::Mainnet)
        } else if bytes_eq(lowered.as_slice(), goerli.as_slice()) {
            Ok(Network::Goerli)
        } else if bytes_eq(lowered.as_slice(), development.as_slice()) {
            Ok(Network::Development)
        } else {
            proof {
                assert forall|n: Network| spec_lower_bytes(s.spec_bytes()) != spec_name_bytes(
                    n,
                ) by {
                    match n {
                        Network::Mainnet => {},
                        Network::Goerli => {},
                        Network::Development => {},
                    }
                }
            }
            Err(RegistryError::UnknownNetwork)
        }
    }

    /// The network's wire tag as a one-byte payload prefix.
    pub fn to_vec(&self) -> (r: Vec<u8>)
        ensures
            r@ =~= seq![spec_wire_tag(*self)],
    {
        let mut v: Vec<u8> = Vec::new();
        v.push(self.wire_tag());
        v
    }

    /// The network's wire tag byte.
    pub fn wire_tag(&self) -> (t: u8)
        ensures
            t == spec_wire_tag(*self),
    {
        match self {
            Network::Mainnet => 1,
            Network::Goerli => 5,
            Network::Development => 255,
        }
    }
}

impl From<u8> for Network {
    /// Total resolution of a wire tag byte; see `spec_network_of_byte`.
    fn from(b: u8) -> (r: Network) {
        if b == 1 {
            Network::Mainnet
        } else if b == 5 {
            Network::Goerli
        } else {
            Network::Development
        }
    }
}

impl vstd::std_specs::convert::FromSpecImpl<u8> for Network {
    open spec fn obeys_from_spec() -> bool {
        true
    }

    open spec fn from_spec(b: u8) -> Network {
        spec_network_of_byte(b)
    }
}

/// Law: a network's own wire tag resolves back to the same network.
pub proof fn lemma_wire_tag_round_trip(n: Network)
    ensures
        spec_network_of_byte(spec_wire_tag(n)) == n,
{
}

/// Law: every byte that is not a registered tag resolves to `Development`.
pub proof fn lemma_unknown_tag_defaults(b: u8)
    requires
        b != 1,
        b != 5,
    ensures
        spec_network_of_byte(b) == Network::Development,
{
}

/// ASCII lowering of a byte slice, element by element.
fn lower_ascii(s: &[u8]) -> (r: Vec<u8>)
    ensures
        r@ == spec_lower_bytes(s@),
{
    let mut out: Vec<u8> = Vec::new();
    let mut i: usize = 0;
    while i < s.len()
        invariant
            i <= s@.len(),
            out@.len() == i,
            forall|j: int| 0 <= j < i ==> out@[j] == spec_lower_byte(s@[j]),
        decreases s@.len() - i,
    {
        let b = s[i];
        if b >= 65 && b <= 90 {
            out.push(b + 32);
        } else {
            out.push(b);
        }
        i += 1;
    }
    proof {
        assert(out@ =~= spec_lower_bytes(s@));
    }
    out
}

/// Equality of two byte slices.
fn bytes_eq(a: &[u8], b: &[u8]) -> (r: bool)
    ensures
        r == (a@ == b@),
{
    if a.len() != b.len() {
        return false;
    }
    let mut i: usize = 0;
    while i < a.len()
        invariant
            i <= a@.len(),
            a@.len() == b@.len(),
            forall|j: int| 0 <= j < i ==> a@[j] == b@[j],
        decreases a@.len() - i,
    {
        if a[i] != b[i] {
            return false;
        }
        i += 1;
    }
    proof {
        assert(a@ =~= b@);
    }
    true
}

/// The lower-case name of a network as owned bytes.
fn name_bytes(n: Network) -> (r: Vec<u8>)
    ensures
        r@ == spec_name_bytes(n),
{
    let mut v: Vec<u8> = Vec::new();
    match n {
        Network::Mainnet => {
            v.push(109);
            v.push(97);
            v.push(105);
            v.push(110);
            v.push(110);
            v.push(101);
            v.push(116);
        },
        Network::Goerli => {
            v.push(103);
            v.push(111);
            v.push(101);
            v.push(114);
            v.push(108);
            v.push(105);
        },
        Network::Development => {
            v.push(100);
            v.push(101);
            v.push(118);
            v.push(101);
            v.push(108);
            v.push(111);
            v.push(112);
            v.push(109);
            v.push(101);
            v.push(110);
            v.push(116);
        },
    }
    proof {
        assert(v@ =~= spec_name_bytes(n));
    }
    v
}

} // verus!
