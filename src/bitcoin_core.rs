//! The full-node provider: its metrics payload, its endpoints, the decoding
//! of block announcements and the decisions of its maintenance loop.
use vstd::prelude::*;

verus! {

/// Metrics shown for a full node.
#[derive(Clone, Debug, Default)]
pub struct BitcoinCoreWidgetState {
    pub title: String,
    pub headers: u64,
    pub last_hash: String,
}

pub struct BitcoinCoreView {
    pub title: Seq<char>,
    pub headers: u64,
    pub last_hash: Seq<char>,
}

impl View for BitcoinCoreWidgetState {
    type V = BitcoinCoreView;

    open spec fn view(&self) -> BitcoinCoreView {
        BitcoinCoreView { title: self.title@, headers: self.headers, last_hash: self.last_hash@ }
    }
}

} // verus!

use crate::config::BitcoinCoreSettings;
use crate::node::{NodeStatus, WidgetState, WidgetView};
use crate::update::{bitcoin_core_title, NodeUpdate, NodeUpdateView};
use vstd::string::StringExecFns;

verus! {

/// Lower-case hexadecimal digits, by value.
pub open spec fn hex_digits() -> Seq<char> {
    seq!['0', '1', '2', '3', '4', '5', '6', '7', '8', '9', 'a', 'b', 'c', 'd', 'e', 'f']
}

/// Bytes written as lower-case hexadecimal, two digits per byte, high
/// nibble first.
pub open spec fn hex_of(b: Seq<u8>) -> Seq<char>
    decreases b.len(),
{
    if b.len() == 0 {
        seq![]
    } else {
        hex_of(b.drop_last()) + seq![
            hex_digits()[(b.last() / 16) as int],
            hex_digits()[(b.last() % 16) as int],
        ]
    }
}

/// Relies on `hex::encode`: each byte becomes two lower-case hexadecimal
/// digits, high nibble first, in the order of the bytes.
#[verifier::external_body]
fn hex_encode(bytes: &[u8]) -> (r: String)
    ensures
        r@ == hex_of(bytes@),
{
    hex::encode(bytes)
}

/// The topic under which the node announces new blocks.
pub open spec fn block_topic() -> Seq<u8> {
    seq![104u8, 97u8, 115u8, 104u8, 98u8, 108u8, 111u8, 99u8, 107u8]
}

/// The hash a push-feed message announces: a message whose first frame is
/// the block topic carries the raw hash in its second frame.
pub open spec fn announced_hash(frames: Seq<Seq<u8>>) -> Option<Seq<char>> {
    if frames.len() >= 2 && frames[0] == block_topic() {
        Some(hex_of(frames[1]))
    } else {
        None
    }
}

fn is_block_topic(topic: &Vec<u8>) -> (r: bool)
    ensures
        r == (topic@ == block_topic()),
{
    let expected: Vec<u8> = vec![104u8, 97u8, 115u8, 104u8, 98u8, 108u8, 111u8, 99u8, 107u8];
    proof {
        assert(expected@ =~= block_topic());
    }
    if topic.len() != expected.len() {
        return false;
    }
    let mut i: usize = 0;
    while i < topic.len()
        invariant
            topic@.len() == expected@.len(),
            expected@ == block_topic(),
            0 <= i <= topic@.len(),
            forall|j: int| 0 <= j < i ==> topic@[j] == expected@[j],
        decreases topic@.len() - i,
    {
        if topic[i] != expected[i] {
            return false;
        }
        i = i + 1;
    }
    proof {
        assert(topic@ =~= expected@);
    }
    true
}

/// Decodes a push-feed message, given as its frames, into the update it
/// brings: a block announcement becomes a new-block update carrying the
/// hash in hexadecimal; other messages bring nothing.
pub fn block_announcement(frames: &Vec<Vec<u8>>, now: u64) -> (r: Option<NodeUpdate>)
    ensures
        match announced_hash(frames@.map_values(|f: Vec<u8>| f@)) {
            Some(h) => r matches Some(u) && u@ == (NodeUpdateView::NewBlock { hash: h, now }),
            None => r is None,
        },
{
    let ghost fs = frames@.map_values(|f: Vec<u8>| f@);
    if frames.len() < 2 {
        return None;
    }
    if !is_block_topic(&frames[0]) {
        return None;
    }
    let hash = hex_encode(frames[1].as_slice());
    proof {
        assert(fs[0] == frames@[0]@);
        assert(fs[1] == frames@[1]@);
    }
    Some(NodeUpdate::NewBlock { hash, now })
}

/// What a successful `getblockchaininfo` call reports.
#[derive(Clone, Debug)]
pub struct BlockchainInfo {
    pub blocks: u64,
    pub headers: u64,
    pub best_block_hash: String,
}

/// A full node reached over RPC, with an optional push feed.
#[derive(Clone, Debug)]
pub struct BitcoinCore {
    pub host: String,
    /// `host:port` of the RPC interface.
    pub rpc_url: String,
    pub rpc_user: String,
    pub rpc_password: String,
    /// `tcp://host:port` of the push feed, when a host is configured.
    pub zmq_url: Option<String>,
}

pub open spec fn feed_url(host: Seq<char>, port: Seq<char>) -> Seq<char> {
    seq!['t', 'c', 'p', ':', '/', '/'] + host + seq![':'] + port
}

pub open spec fn init_message() -> Seq<char> {
    seq![
        'I', 'n', 'i', 't', 'i', 'a', 'l', 'i', 'z', 'i', 'n', 'g', ' ', 'B', 'i', 't', 'c', 'o',
        'i', 'n', ' ', 'C', 'o', 'r', 'e', '.', '.', '.',
    ]
}

impl BitcoinCore {
    pub fn new(settings: &BitcoinCoreSettings) -> (r: BitcoinCore)
        ensures
            r.host@ == settings.host@,
            r.rpc_url@ == settings.host@ + seq![':'] + settings.rpc_port@,
            r.rpc_user@ == settings.rpc_user@,
            r.rpc_password@ == settings.rpc_password@,
            settings.host@.len() == 0 ==> r.zmq_url is None,
            settings.host@.len() > 0 ==> (r.zmq_url matches Some(u) && u@ == feed_url(
                settings.host@,
                settings.zmq_port@,
            )),
    {
        proof {
            reveal_strlit(":");
            reveal_strlit("tcp://");
        }
        let mut rpc_url = settings.host.clone();
        rpc_url.append(":");
        rpc_url.append(settings.rpc_port.as_str());
        let zmq_url = if settings.host.as_str().is_empty() {
            None
        } else {
            let mut u = "tcp://".to_owned();
            u.append(settings.host.as_str());
            u.append(":");
            u.append(settings.zmq_port.as_str());
            proof {
                assert(u@ =~= feed_url(settings.host@, settings.zmq_port@));
            }
            Some(u)
        };
        proof {
            assert(rpc_url@ =~= settings.host@ + seq![':'] + settings.rpc_port@);
        }
        BitcoinCore {
            host: settings.host.clone(),
            rpc_url,
            rpc_user: settings.rpc_user.clone(),
            rpc_password: settings.rpc_password.clone(),
            zmq_url,
        }
    }

    /// The update sent when the provider starts: RPC and push feed offline,
    /// no headers and no hash known yet.
    pub fn init_update(&self) -> (r: NodeUpdate)
        ensures
            r@ == (NodeUpdateView::Init {
                host: self.host@,
                message: init_message(),
                widget: WidgetView::BitcoinCore(
                    BitcoinCoreView { title: bitcoin_core_title(), headers: 0, last_hash: seq![] },
                ),
            }),
    {
        proof {
            reveal_strlit("Bitcoin Core");
            reveal_strlit("Initializing Bitcoin Core...");
        }
        let title = "Bitcoin Core".to_owned();
        let message = "Initializing Bitcoin Core...".to_owned();
        proof {
            assert(title@ =~= bitcoin_core_title());
            assert(message@ =~= init_message());
        }
        NodeUpdate::Init {
            host: self.host.clone(),
            message,
            widget: WidgetState::BitcoinCore(
                BitcoinCoreWidgetState { title, headers: 0, last_hash: String::new() },
            ),
        }
    }

    /// The update an RPC poll brings: its figures, or the failure.
    pub fn get_blockchain_info(result: Result<BlockchainInfo, String>, now: u64) -> (r: NodeUpdate)
        ensures
            r@ == match result {
                Ok(i) => NodeUpdateView::RpcPolled {
                    blocks: i.blocks,
                    headers: i.headers,
                    best_hash: i.best_block_hash@,
                    now,
                },
                Err(m) => NodeUpdateView::RpcFailed { message: m@ },
            },
    {
        match result {
            Ok(i) => NodeUpdate::RpcPolled {
                blocks: i.blocks,
                headers: i.headers,
                best_hash: i.best_block_hash,
                now,
            },
            Err(m) => NodeUpdate::RpcFailed { message: m },
        }
    }
}

} // verus!
