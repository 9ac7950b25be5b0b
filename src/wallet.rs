//! Configuration and records of the wallet that holds the agent's keys.
//! Opening, closing and querying the wallet happen outside the library.
use vstd::prelude::*;

verus! {

#[derive(Debug, Clone)]
pub struct WalletConfig {
    pub wallet_name: String,
    pub wallet_key: String,
    pub wallet_key_derivation: String,
    pub wallet_type: Option<String>,
    pub storage_config: Option<String>,
    pub storage_credentials: Option<String>,
    pub rekey: Option<String>,
    pub rekey_derivation_method: Option<String>,
}

/// The DID and verification key under which an institution issues.
#[derive(Debug, Clone)]
pub struct IssuerConfig {
    pub institution_did: String,
    pub institution_verkey: String,
}

#[derive(Debug, Clone)]
pub struct WalletRecord {
    pub id: Option<String>,
    pub record_type: Option<String>,
    pub value: Option<String>,
    pub tags: Option<String>,
}

/// What restoring a wallet from an exported backup needs.
#[derive(Debug, Clone)]
pub struct RestoreWalletConfigs {
    pub wallet_name: String,
    pub wallet_key: String,
    pub exported_wallet_path: String,
    pub backup_key: String,
    pub wallet_key_derivation: Option<String>,
}

} // verus!
