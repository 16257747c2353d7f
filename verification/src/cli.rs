//! The command line as plain data: which mission to run and on what target.

use vstd::prelude::*;

verus! {

/// A parsed command line.
#[derive(Debug)]
pub struct Cli {
    pub command: Commands,
}

/// The missions the tool can be sent on.
#[derive(Debug)]
pub enum Commands {
    /// Resolve the metadata of one NFT mint.
    Unmask {
        /// The mint address of the NFT to unmask.
        mint_address: String,
        /// Whether the artwork is fetched and rendered as well.
        image: bool,
    },
    /// Summarise the holdings of one wallet.
    Dossier {
        /// The wallet address to analyse.
        wallet_address: String,
    },
}

} // verus!
