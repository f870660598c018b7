use vstd::prelude::*;
use vstd::string::*;
use crate::blockchain::block::{Block, BlockView};
use crate::utils::text::{decimal, decimal_text};

verus! {

/// Who sends a message: the version of the protocol it speaks, and its address.
#[derive(Debug, PartialEq, Eq)]
pub struct Meta {
    pub version: String,
    pub address: String,
}

/// The content of a `Meta`.
pub struct MetaView {
    pub version: Seq<char>,
    pub address: Seq<char>,
}

impl MetaView {
    /// What a node at `external_ip`, port `port`, says of itself: version `1.0.0`, and
    /// as its address the host, a colon and the port in decimal.
    pub open spec fn of(external_ip: Seq<char>, port: nat) -> MetaView {
        MetaView { version: "1.0.0"@, address: external_ip + ":"@ + decimal(port) }
    }
}

impl View for Meta {
    type V = MetaView;

    open spec fn view(&self) -> MetaView {
        MetaView { version: self.version@, address: self.address@ }
    }
}

impl Clone for Meta {
    fn clone(&self) -> (r: Self)
        ensures
            r == *self,
    {
        Meta { version: self.version.clone(), address: self.address.clone() }
    }
}

/// A sealed block as a node announces it: the block, and who announces it.
#[derive(Debug, PartialEq, Eq)]
pub struct BlockMessage {
    pub meta: Meta,
    pub payload: Block,
}

/// The content of a `BlockMessage`.
pub struct BlockMessageView {
    pub meta: MetaView,
    pub payload: BlockView,
}

impl View for BlockMessage {
    type V = BlockMessageView;

    open spec fn view(&self) -> BlockMessageView {
        BlockMessageView { meta: self.meta@, payload: self.payload@ }
    }
}

/// What a node at `external_ip`, port `port`, says of itself.
pub fn meta(external_ip: String, port: usize) -> (r: Meta)
    ensures
        r@ == MetaView::of(external_ip@, port as nat),
{
    let mut address = external_ip;
    address.append(":");
    address.append(decimal_text(port as u64).as_str());
    Meta { version: String::from_str("1.0.0"), address }
}

/// The announcement of `block` by the node at `ip`, port `port`.
pub fn create_block_message(ip: String, port: usize, block: Block) -> (r: BlockMessage)
    ensures
        r@ == (BlockMessageView { meta: MetaView::of(ip@, port as nat), payload: block@ }),
{
    BlockMessage { meta: meta(ip, port), payload: block }
}

} // verus!
