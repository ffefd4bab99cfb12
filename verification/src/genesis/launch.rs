//! What a node derives from a configuration file to launch a chain: the
//! addresses that the file names, the initial allocations, and the
//! deployment configuration of the genesis bounty contract.

use vstd::prelude::*;
use vstd::string::*;

use super::config::GenesisConfigToml;
use super::{
    DnsBreakGlassConfig, BOOTSTRAP_DNS_DOMAIN, BOOTSTRAP_NODE_TOKENS, DNS_BOOTSTRAP_TOKENS,
    DNS_BOOTSTRAP_VESTING_MS, FOUNDER_AIRDROP_AMOUNT, MAX_DNS_BOOTSTRAP_NODES,
};
use crate::contracts::codec::{address_views, push_amount, push_text_field, text_field_bytes};
use crate::contracts::genesis_bounty::GenesisDeploymentConfig;
use crate::crypto::signature::PublicKey;
use crate::encoding::{
    decimal_chars, decimal_text, hex_bytes, hex_decode, is_hex_text, push_bytes, push_u64_le,
};
use crate::types::address::Address;
use crate::types::amount::{HclawAmount, RAW_PER_HCLAW};
use crate::types::block::GenesisAlloc;

verus! {

/// Length of the bootstrap period of a launched chain, in seconds (30 days)
pub const BOOTSTRAP_SECONDS: u64 = 30 * 24 * 3600;

/// Label of the allocations to bootstrap nodes, before the number
pub const BOOTSTRAP_LABEL: &'static str = "bootstrap-";

/// Label of the allocations to founders, before the number
pub const FOUNDER_LABEL: &'static str = "founder-";

/// Label of the bootstrap allocation of a local chain
pub const LOCAL_BOOTSTRAP_LABEL: &'static str = "bootstrap-local";

/// Label of the founder allocation of a local chain
pub const LOCAL_FOUNDER_LABEL: &'static str = "founder-local";

/// Whether a text names an address: forty hexadecimal digits.
pub open spec fn names_address(text: Seq<char>) -> bool {
    is_hex_text(text) && hex_bytes(text).len() == 20
}

/// The addresses, as their bytes, that the first `upto` of some texts name,
/// in order. A text that names no address is skipped.
pub open spec fn named_addresses(texts: Seq<String>, upto: int) -> Seq<Seq<u8>>
    decreases upto,
{
    if upto <= 0 {
        Seq::empty()
    } else if names_address(texts[upto - 1]@) {
        named_addresses(texts, upto - 1).push(hex_bytes(texts[upto - 1]@))
    } else {
        named_addresses(texts, upto - 1)
    }
}

/// The addresses that a list of texts names, in order; a text that names no
/// address is skipped.
pub fn parse_addresses(texts: &[String]) -> (r: Vec<Address>)
    ensures
        address_views(r@) == named_addresses(texts@, texts@.len() as int),
{
    let mut out: Vec<Address> = Vec::new();
    let mut i: usize = 0;
    assert(address_views(out@) =~= Seq::<Seq<u8>>::empty());
    while i < texts.len()
        invariant
            0 <= i <= texts@.len(),
            address_views(out@) == named_addresses(texts@, i as int),
        decreases texts@.len() - i,
    {
        let ghost before = address_views(out@);
        match hex_decode(texts[i].as_str()) {
            Some(bytes) => {
                if bytes.len() == 20 {
                    let address = Address::from_prefix(bytes.as_slice());
                    assert(address.0@ =~= bytes@);
                    out.push(address);
                    assert(address_views(out@) =~= before.push(address.0@));
                }
            },
            None => {},
        }
        i += 1;
    }
    out
}

/// The allocation that a numbered recipient receives: the amount in whole
/// tokens, under a label that ends in the number.
pub open spec fn is_numbered_allocation(
    entry: GenesisAlloc,
    address: Address,
    tokens: u64,
    label: Seq<char>,
    number: int,
) -> bool {
    &&& entry.address == address
    &&& entry.amount.0 == tokens * RAW_PER_HCLAW
    &&& entry.label@ == label + decimal_chars(number as nat)
}

fn push_numbered(out: &mut Vec<GenesisAlloc>, recipients: &[Address], tokens: u64, label: &str)
    ensures
        final(out)@.len() == old(out)@.len() + recipients@.len(),
        forall|i: int| 0 <= i < old(out)@.len() ==> final(out)@[i] == old(out)@[i],
        forall|i: int|
            0 <= i < recipients@.len() ==> is_numbered_allocation(
                #[trigger] final(out)@[old(out)@.len() + i],
                recipients@[i],
                tokens,
                label@,
                i + 1,
            ),
{
    let amount = HclawAmount::from_hclaw(tokens);
    let ghost start = out@;
    let mut i: usize = 0;
    while i < recipients.len()
        invariant
            0 <= i <= recipients@.len(),
            amount.0 == tokens * RAW_PER_HCLAW,
            out@.len() == start.len() + i,
            forall|j: int| 0 <= j < start.len() ==> out@[j] == start[j],
            forall|j: int|
                0 <= j < i ==> is_numbered_allocation(
                    #[trigger] out@[start.len() + j],
                    recipients@[j],
                    tokens,
                    label@,
                    j + 1,
                ),
        decreases recipients@.len() - i,
    {
        let number = decimal_text((i as u64) + 1);
        out.push(
            GenesisAlloc {
                address: recipients[i],
                amount,
                label: String::from_str(label).concat(number.as_str()),
            },
        );
        i += 1;
    }
}

/// The initial allocations of a chain: first each bootstrap node, then each
/// founder, numbered from one under their labels.
pub fn genesis_allocations(
    bootstrap_nodes: &[Address],
    bootstrap_node_tokens: u64,
    founders: &[Address],
    founder_tokens: u64,
) -> (r: Vec<GenesisAlloc>)
    ensures
        r@.len() == bootstrap_nodes@.len() + founders@.len(),
        forall|i: int|
            0 <= i < bootstrap_nodes@.len() ==> is_numbered_allocation(
                #[trigger] r@[i],
                bootstrap_nodes@[i],
                bootstrap_node_tokens,
                BOOTSTRAP_LABEL@,
                i + 1,
            ),
        forall|i: int|
            0 <= i < founders@.len() ==> is_numbered_allocation(
                #[trigger] r@[bootstrap_nodes@.len() + i],
                founders@[i],
                founder_tokens,
                FOUNDER_LABEL@,
                i + 1,
            ),
{
    let mut alloc: Vec<GenesisAlloc> = Vec::new();
    push_numbered(&mut alloc, bootstrap_nodes, bootstrap_node_tokens, BOOTSTRAP_LABEL);
    let ghost first = alloc@;
    push_numbered(&mut alloc, founders, founder_tokens, FOUNDER_LABEL);
    proof {
        assert forall|i: int| 0 <= i < bootstrap_nodes@.len() implies is_numbered_allocation(
            #[trigger] alloc@[i],
            bootstrap_nodes@[i],
            bootstrap_node_tokens,
            BOOTSTRAP_LABEL@,
            i + 1,
        ) by {
            assert(alloc@[i] == first[0 + i]);
        }
    }
    alloc
}

/// The initial allocations of a local chain: the node itself receives the
/// tokens of a bootstrap node and the airdrop of a founder.
pub fn local_allocations(node: Address) -> (r: Vec<GenesisAlloc>)
    ensures
        r@.len() == 2,
        r@[0].address == node,
        r@[0].amount.0 == BOOTSTRAP_NODE_TOKENS * RAW_PER_HCLAW,
        r@[0].label@ == LOCAL_BOOTSTRAP_LABEL@,
        r@[1].address == node,
        r@[1].amount.0 == FOUNDER_AIRDROP_AMOUNT * RAW_PER_HCLAW,
        r@[1].label@ == LOCAL_FOUNDER_LABEL@,
{
    let mut alloc: Vec<GenesisAlloc> = Vec::new();
    alloc.push(
        GenesisAlloc {
            address: node,
            amount: HclawAmount::from_hclaw(BOOTSTRAP_NODE_TOKENS),
            label: String::from_str(LOCAL_BOOTSTRAP_LABEL),
        },
    );
    alloc.push(
        GenesisAlloc {
            address: node,
            amount: HclawAmount::from_hclaw(FOUNDER_AIRDROP_AMOUNT),
            label: String::from_str(LOCAL_FOUNDER_LABEL),
        },
    );
    alloc
}

/// The bytes of some allocations: for each its address, its amount and its
/// label with the length in front.
pub open spec fn allocations_bytes(alloc: Seq<GenesisAlloc>) -> Seq<u8>
    decreases alloc.len(),
{
    if alloc.len() == 0 {
        Seq::empty()
    } else {
        allocations_bytes(alloc.drop_last()) + alloc.last().address.0@
            + vstd::bytes::spec_u128_to_le_bytes(alloc.last().amount.0) + text_field_bytes(
            alloc.last().label@,
        )
    }
}

/// Write allocations as bytes: their number, then each of them.
pub fn encode_allocations(alloc: &[GenesisAlloc]) -> (r: Vec<u8>)
    ensures
        r@ == vstd::bytes::spec_u64_to_le_bytes(alloc@.len() as u64) + allocations_bytes(alloc@),
{
    let mut out: Vec<u8> = Vec::new();
    push_u64_le(&mut out, alloc.len() as u64);
    let ghost start = out@;
    let mut i: usize = 0;
    assert(alloc@.subrange(0, 0) =~= Seq::<GenesisAlloc>::empty());
    while i < alloc.len()
        invariant
            0 <= i <= alloc@.len(),
            out@ == start + allocations_bytes(alloc@.subrange(0, i as int)),
        decreases alloc@.len() - i,
    {
        let ghost prefix = alloc@.subrange(0, i as int + 1);
        assert(prefix.drop_last() =~= alloc@.subrange(0, i as int));
        assert(prefix.last() == alloc@[i as int]);
        push_bytes(&mut out, alloc[i].address.0.as_slice());
        push_amount(&mut out, alloc[i].amount);
        push_text_field(&mut out, alloc[i].label.as_str());
        assert(out@ =~= start + allocations_bytes(prefix));
        i += 1;
    }
    assert(alloc@.subrange(0, alloc@.len() as int) =~= alloc@);
    out
}

/// The deployment configuration of the genesis bounty contract for a chain
/// launched at `now`, in seconds: the amounts and the limit of the file, the
/// given founders and bootstrap nodes, the protocol's break-glass settings
/// under the given authority key, and a bootstrap period of thirty days.
pub fn deployment_config(
    file: &GenesisConfigToml,
    pre_approved: Vec<Address>,
    bootstrap_nodes: Vec<Address>,
    authority_key: PublicKey,
    now: u64,
) -> (r: GenesisDeploymentConfig)
    requires
        now + BOOTSTRAP_SECONDS <= u64::MAX,
    ensures
        r.airdrop_amount.0 == file.airdrop_amount * RAW_PER_HCLAW,
        r.founder_airdrop_amount.0 == file.founder_airdrop_amount * RAW_PER_HCLAW,
        r.max_participants == file.max_participants,
        r.pre_approved == pre_approved,
        r.bootstrap_nodes == bootstrap_nodes,
        r.bootstrap_node_tokens.0 == file.bootstrap_node_tokens * RAW_PER_HCLAW,
        r.dns_break_glass.domain@ == BOOTSTRAP_DNS_DOMAIN@,
        r.dns_break_glass.max_nodes == MAX_DNS_BOOTSTRAP_NODES,
        r.dns_break_glass.tokens_each.0 == DNS_BOOTSTRAP_TOKENS * RAW_PER_HCLAW,
        r.dns_break_glass.vesting_ms == DNS_BOOTSTRAP_VESTING_MS,
        r.dns_break_glass.authority_key == authority_key,
        r.bootstrap_end == now + BOOTSTRAP_SECONDS,
{
    GenesisDeploymentConfig {
        airdrop_amount: HclawAmount::from_hclaw(file.airdrop_amount),
        founder_airdrop_amount: HclawAmount::from_hclaw(file.founder_airdrop_amount),
        max_participants: file.max_participants,
        pre_approved,
        bootstrap_nodes,
        bootstrap_node_tokens: HclawAmount::from_hclaw(file.bootstrap_node_tokens),
        dns_break_glass: DnsBreakGlassConfig {
            domain: String::from_str(BOOTSTRAP_DNS_DOMAIN),
            max_nodes: MAX_DNS_BOOTSTRAP_NODES,
            tokens_each: HclawAmount::from_hclaw(DNS_BOOTSTRAP_TOKENS),
            vesting_ms: DNS_BOOTSTRAP_VESTING_MS,
            authority_key,
        },
        bootstrap_end: now + BOOTSTRAP_SECONDS,
    }
}

} // verus!
