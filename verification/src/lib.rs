//! Intelligence gathering for Solana NFTs: metadata decoding, off-chain URI
//! resolution, wallet dossiers and terminal rendering of token artwork.

pub mod account;
pub mod address;
pub mod cli;
pub mod display;
pub mod jutsu;
pub mod model;
pub mod rpc;
pub mod text;
pub mod uri;
