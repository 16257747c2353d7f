//! The records the tool works with, on chain and off, and their views.

use vstd::prelude::*;

verus! {

/// A 32-byte account address.
#[derive(Debug, Clone, Copy)]
pub struct Address {
    pub bytes: [u8; 32],
}

/// The JSON document an NFT's URI points at.
#[derive(Debug)]
pub struct OffChainMetadata {
    pub name: String,
    pub symbol: String,
    pub image: String,
    pub attributes: Vec<Attribute>,
}

/// One trait of an NFT.
#[derive(Debug)]
pub struct Attribute {
    pub trait_type: String,
    pub value: String,
}

/// The metadata account of a mint.
#[derive(Debug, Clone)]
pub struct Metadata {
    pub key: u8,
    pub update_authority: Address,
    pub mint: Address,
    pub data: Data,
    pub primary_sale_happened: bool,
    pub is_mutable: bool,
    pub edition_nonce: Option<u8>,
    pub token_standard: Option<u8>,
    pub collection: Option<Collection>,
    pub uses: Option<Uses>,
    pub collection_details: Option<CollectionDetails>,
    pub programmable_config: Option<ProgrammableConfig>,
}

/// The descriptive part of a metadata account.
#[derive(Debug, Clone)]
pub struct Data {
    pub name: String,
    pub symbol: String,
    pub uri: String,
    pub seller_fee_basis_points: u16,
    pub creators: Option<Vec<Creator>>,
}

/// One creator and the share of royalties owed to it.
#[derive(Debug, Clone, Copy)]
pub struct Creator {
    pub address: Address,
    pub verified: bool,
    pub share: u8,
}

/// The collection a token claims to belong to.
#[derive(Debug, Clone, Copy)]
pub struct Collection {
    pub verified: bool,
    pub key: Address,
}

/// How often a token may still be used.
#[derive(Debug, Clone, Copy)]
pub struct Uses {
    pub use_method: u8,
    pub remaining: u64,
    pub total: u64,
}

/// What a collection parent records of its collection.
#[derive(Debug, Clone, Copy)]
pub enum CollectionDetails {
    V1 { size: u64 },
}

/// The rule set of a programmable token.
#[derive(Debug, Clone, Copy)]
pub enum ProgrammableConfig {
    V1 { rule_set: Option<Address> },
}

/// Everything learned about one mint.
#[derive(Debug)]
pub struct UnmaskReport {
    pub on_chain: Metadata,
    pub off_chain: OffChainMetadata,
    pub image_data: Option<Vec<u8>>,
}

/// The envelope of an assets-by-owner reply.
#[derive(Debug)]
pub struct HeliusAssetsResponse {
    pub result: HeliusAssetsList,
}

/// One page of assets and the owner's total.
#[derive(Debug)]
pub struct HeliusAssetsList {
    pub items: Vec<HeliusAsset>,
    pub total: u32,
}

/// One asset as the indexer reports it.
#[derive(Debug)]
pub struct HeliusAsset {
    pub id: String,
    pub content: Option<HeliusContent>,
    pub grouping: Option<Vec<HeliusGrouping>>,
}

/// What the indexer knows of an asset's content.
#[derive(Debug)]
pub struct HeliusContent {
    pub metadata: Option<HeliusMetadata>,
}

/// The name and symbol an asset carries in its own metadata.
#[derive(Debug)]
pub struct HeliusMetadata {
    pub name: Option<String>,
    pub symbol: Option<String>,
}

/// A tag the indexer attaches to an asset, such as its collection.
#[derive(Debug)]
pub struct HeliusGrouping {
    pub group_key: String,
    pub group_value: String,
}

/// The holdings of one wallet, by collection.
#[derive(Debug)]
pub struct DossierReport {
    pub wallet_address: String,
    pub total_nfts: u32,
    pub collections: Vec<CollectionSummary>,
}

/// How many assets of one collection a wallet holds.
#[derive(Debug)]
pub struct CollectionSummary {
    pub name: String,
    pub count: u32,
}

impl View for Address {
    type V = Seq<u8>;

    open spec fn view(&self) -> Seq<u8> {
        self.bytes@
    }
}

/// A creator as a value.
pub struct CreatorView {
    pub address: Seq<u8>,
    pub verified: bool,
    pub share: u8,
}

impl View for Creator {
    type V = CreatorView;

    open spec fn view(&self) -> CreatorView {
        CreatorView { address: self.address@, verified: self.verified, share: self.share }
    }
}

/// A collection reference as a value.
pub struct CollectionView {
    pub verified: bool,
    pub key: Seq<u8>,
}

impl View for Collection {
    type V = CollectionView;

    open spec fn view(&self) -> CollectionView {
        CollectionView { verified: self.verified, key: self.key@ }
    }
}

/// A programmable configuration as a value: its rule set, if it has one.
pub struct ProgrammableConfigView {
    pub rule_set: Option<Seq<u8>>,
}

impl View for ProgrammableConfig {
    type V = ProgrammableConfigView;

    open spec fn view(&self) -> ProgrammableConfigView {
        match *self {
            ProgrammableConfig::V1 { rule_set } => ProgrammableConfigView {
                rule_set: match rule_set {
                    Some(address) => Some(address@),
                    None => None,
                },
            },
        }
    }
}

/// The descriptive part of a metadata account as a value.
pub struct DataView {
    pub name: Seq<char>,
    pub symbol: Seq<char>,
    pub uri: Seq<char>,
    pub seller_fee_basis_points: u16,
    pub creators: Option<Seq<CreatorView>>,
}

impl View for Data {
    type V = DataView;

    open spec fn view(&self) -> DataView {
        DataView {
            name: self.name@,
            symbol: self.symbol@,
            uri: self.uri@,
            seller_fee_basis_points: self.seller_fee_basis_points,
            creators: match self.creators {
                Some(creators) => Some(creators@.map_values(|c: Creator| c@)),
                None => None,
            },
        }
    }
}

/// A metadata account as a value.
pub struct MetadataView {
    pub key: u8,
    pub update_authority: Seq<u8>,
    pub mint: Seq<u8>,
    pub data: DataView,
    pub primary_sale_happened: bool,
    pub is_mutable: bool,
    pub edition_nonce: Option<u8>,
    pub token_standard: Option<u8>,
    pub collection: Option<CollectionView>,
    pub uses: Option<Uses>,
    pub collection_details: Option<CollectionDetails>,
    pub programmable_config: Option<ProgrammableConfigView>,
}

impl View for Metadata {
    type V = MetadataView;

    open spec fn view(&self) -> MetadataView {
        MetadataView {
            key: self.key,
            update_authority: self.update_authority@,
            mint: self.mint@,
            data: self.data@,
            primary_sale_happened: self.primary_sale_happened,
            is_mutable: self.is_mutable,
            edition_nonce: self.edition_nonce,
            token_standard: self.token_standard,
            collection: match self.collection {
                Some(collection) => Some(collection@),
                None => None,
            },
            uses: self.uses,
            collection_details: self.collection_details,
            programmable_config: match self.programmable_config {
                Some(config) => Some(config@),
                None => None,
            },
        }
    }
}

/// A trait as a value.
pub struct AttributeView {
    pub trait_type: Seq<char>,
    pub value: Seq<char>,
}

impl View for Attribute {
    type V = AttributeView;

    open spec fn view(&self) -> AttributeView {
        AttributeView { trait_type: self.trait_type@, value: self.value@ }
    }
}

/// Off-chain metadata as a value.
pub struct OffChainView {
    pub name: Seq<char>,
    pub symbol: Seq<char>,
    pub image: Seq<char>,
    pub attributes: Seq<AttributeView>,
}

impl View for OffChainMetadata {
    type V = OffChainView;

    open spec fn view(&self) -> OffChainView {
        OffChainView {
            name: self.name@,
            symbol: self.symbol@,
            image: self.image@,
            attributes: self.attributes@.map_values(|a: Attribute| a@),
        }
    }
}

} // verus!
