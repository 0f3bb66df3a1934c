//! Properties that relate several operations of the program.
use vstd::prelude::*;
use crate::constants::MAX_METADATA_URI_LENGTH;
use crate::errors::UniversalNFTError;
use crate::program::{history_kept, issued, supply_bounded, UniversalNft};
use crate::state::{utf8_len, zero_key, Pubkey, TransferStatus};

verus! {

/// What operations keep, a run of them keeps too.
pub proof fn lemma_history_kept_transitive(a: UniversalNft, b: UniversalNft, c: UniversalNft)
    requires
        history_kept(a, b),
        history_kept(b, c),
    ensures
        history_kept(a, c),
{
}

/// Token identifiers strictly increase: a mint after another, with any
/// operations in between, issues a larger identifier, so none repeats.
pub proof fn lemma_issued_ids_increase(
    a0: UniversalNft,
    a1: UniversalNft,
    b0: UniversalNft,
    b1: UniversalNft,
    first: u64,
    second: u64,
)
    requires
        issued(a0, a1, first),
        history_kept(a1, b0),
        issued(b0, b1, second),
    ensures
        first < second,
{
}

/// A mint never takes the count of tokens past the supply ceiling.
pub proof fn lemma_mint_within_supply(a: UniversalNft, b: UniversalNft, id: u64)
    requires
        issued(a, b, id),
        history_kept(a, b),
    ensures
        supply_bounded(b),
{
}

/// At the supply ceiling every mint is refused; one that passes the earlier
/// checks is refused as over supply.
pub proof fn lemma_mint_at_ceiling_refused(
    s: UniversalNft,
    authority: Pubkey,
    mint: Pubkey,
    owner: Pubkey,
    uri: Seq<char>,
    chain_id: u64,
    data_len: nat,
)
    requires
        s.program_state.total_minted >= s.program_state.max_supply,
    ensures
        s.mint_error(authority, mint, owner, uri, chain_id, data_len) is Some,
        authority@ == s.program_state.authority@ && owner@ != zero_key()
            && !s.token_map().contains_key(mint@) && !s.transfer_open(mint@)
            && !s.origin_map().contains_key(s.program_state.next_token_id) && utf8_len(uri)
            <= MAX_METADATA_URI_LENGTH && s.gateway_state.supports(chain_id) ==> s.mint_error(
            authority,
            mint,
            owner,
            uri,
            chain_id,
            data_len,
        ) == Some(UniversalNFTError::MaxSupplyExceeded),
{
}

/// At most one transfer record, and so at most one in progress, exists for a
/// mint at any time.
pub proof fn lemma_one_transfer_per_mint(s: UniversalNft, i: int, j: int)
    requires
        s.wf(),
        0 <= i < s.transfers@.len(),
        0 <= j < s.transfers@.len(),
        s.transfers@[i].nft_mint@ == s.transfers@[j].nft_mint@,
    ensures
        i == j,
{
    assert(crate::program::transfer_key()(s.transfers@[i]) == crate::program::transfer_key()(
        s.transfers@[j],
    ));
}

/// Once a transfer of a mint is in progress, every second outbound transfer of
/// it is refused as a transfer in progress, whoever asks and with any inputs.
pub proof fn lemma_second_open_refused(
    s: UniversalNft,
    owner: Pubkey,
    mint: Pubkey,
    target_chain_id: u64,
    recipient_len: nat,
    data_len: nat,
)
    requires
        s.token_map().contains_key(mint@),
        s.transfer_map().contains_key(mint@),
        s.transfer_map()[mint@].status == TransferStatus::InProgress,
    ensures
        s.outbound_error(owner, mint, target_chain_id, recipient_len, data_len) == Some(
            UniversalNFTError::TransferInProgress,
        ),
{
}

/// A round trip keeps the original URI: once a token identifier's origin
/// record holds a URI, an arrival of that identifier after any operations
/// resolves to that URI, whatever URI the arrival carries.
pub proof fn lemma_round_trip_keeps_original_uri(
    minted: UniversalNft,
    later: UniversalNft,
    id: u64,
    uri: Seq<char>,
    incoming: Seq<char>,
)
    requires
        minted.origin_map().contains_key(id),
        minted.origin_map()[id].original_metadata_uri@ == uri,
        history_kept(minted, later),
    ensures
        later.resolved_uri(id, incoming) == uri,
{
}

} // verus!
