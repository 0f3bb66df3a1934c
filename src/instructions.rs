//! One module per operation of the program.
pub mod mint_nft;
pub mod cross_chain_transfer;
pub mod process_incoming_nft;
pub mod verify_cross_chain_ownership;
pub mod transfer_nft;
pub mod update_metadata;
pub mod burn_nft;
pub mod setup_gateway;
