//! The missions: unmasking one mint, and compiling the dossier of a wallet.

pub mod dossier;
pub mod unmask;
