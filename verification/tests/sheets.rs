use shinobi::display::{
    abbreviate_uri, abbreviate_wallet, dossier_sheet, mutability_label, unmask_sheet,
};
use shinobi::jutsu::dossier::{assets_request, receive, Assessment, DossierError};
use shinobi::model::{
    Address, Attribute, CollectionSummary, Data, DossierReport, HeliusAsset, HeliusAssetsList,
    HeliusAssetsResponse, HeliusGrouping, Metadata, OffChainMetadata, UnmaskReport,
};

#[test]
fn long_wallet_is_cut_down_to_its_ends() {
    assert_eq!(abbreviate_wallet("9WzDXwBbmkg8ZTbNMqUxvQRAyrZzDsGYdLVL9zYtAWWM"), "9WzD...AWWM");
    assert_eq!(abbreviate_wallet("12345678901"), "1234...8901");
    assert_eq!(abbreviate_wallet("1234567890"), "1234567890");
    assert_eq!(abbreviate_wallet("short"), "short");
    assert_eq!(abbreviate_wallet(""), "");
}

#[test]
fn long_image_uri_is_cut_off_after_forty_five_characters() {
    let long = "https://arweave.net/0123456789012345678901234567890123456789";
    assert_eq!(abbreviate_uri(long), format!("{}...", &long[..45]));
    let exact = &long[..45];
    assert_eq!(abbreviate_uri(exact), exact);
    let over = &long[..46];
    assert_eq!(abbreviate_uri(over), format!("{exact}..."));
    assert_eq!(abbreviate_uri(""), "");
}

#[test]
fn mutable_metadata_is_flagged_and_frozen_metadata_is_verified() {
    assert_eq!(mutability_label(true), "Mutable ⚠️  CAUTION");
    assert_eq!(mutability_label(false), "Frozen ✓ VERIFIED");
}

fn summary(name: &str, count: u32) -> CollectionSummary {
    CollectionSummary { name: name.to_string(), count }
}

#[test]
fn dossier_sheet_lists_the_first_ten_collections_with_their_ranks() {
    let collections: Vec<CollectionSummary> =
        (0..12).map(|i| summary(&format!("C{i}"), 20 - i)).collect();
    let report = DossierReport {
        wallet_address: "9WzDXwBbmkg8ZTbNMqUxvQRAyrZzDsGYdLVL9zYtAWWM".to_string(),
        total_nfts: 1000,
        collections,
    };
    let sheet = dossier_sheet(&report);
    assert_eq!(sheet.wallet, "9WzD...AWWM");
    assert_eq!(sheet.total_nfts, 1000);
    assert_eq!(sheet.rows.len(), 10);
    for (i, row) in sheet.rows.iter().enumerate() {
        assert_eq!(row.rank, i + 1);
        assert_eq!(row.name, format!("C{i}"));
        assert_eq!(row.count, 20 - i as u32);
    }
    assert!(matches!(sheet.assessment, Assessment::Diversified));
}

#[test]
fn dossier_sheet_of_a_small_wallet_lists_all_it_has() {
    let report = DossierReport {
        wallet_address: "tiny".to_string(),
        total_nfts: 3,
        collections: vec![summary("A", 2), summary("B", 1)],
    };
    let sheet = dossier_sheet(&report);
    assert_eq!(sheet.wallet, "tiny");
    assert_eq!(sheet.rows.len(), 2);
    assert_eq!(sheet.rows[1].rank, 2);
    assert_eq!(sheet.rows[1].name, "B");
    assert!(matches!(&sheet.assessment, Assessment::HighConviction { collection } if collection == "A"));
    let empty = DossierReport { wallet_address: "w".to_string(), total_nfts: 0, collections: vec![] };
    let none = dossier_sheet(&empty);
    assert!(none.rows.is_empty());
    assert!(matches!(none.assessment, Assessment::NoCollections));
}

fn report(is_mutable: bool, image: &str, image_data: Option<Vec<u8>>) -> UnmaskReport {
    UnmaskReport {
        on_chain: Metadata {
            key: 4,
            update_authority: Address { bytes: [0; 32] },
            mint: Address { bytes: [1; 32] },
            data: Data {
                name: "n".to_string(),
                symbol: "s".to_string(),
                uri: "u".to_string(),
                seller_fee_basis_points: 0,
                creators: None,
            },
            primary_sale_happened: false,
            is_mutable,
            edition_nonce: None,
            token_standard: None,
            collection: None,
            uses: None,
            collection_details: None,
            programmable_config: None,
        },
        off_chain: OffChainMetadata {
            name: "Shadow Fox #1".to_string(),
            symbol: "FOX".to_string(),
            image: image.to_string(),
            attributes: vec![
                Attribute { trait_type: "Cloak".to_string(), value: "Midnight".to_string() },
                Attribute { trait_type: "Blade".to_string(), value: "Kunai".to_string() },
            ],
        },
        image_data,
    }
}

#[test]
fn unmask_sheet_says_what_the_report_holds() {
    let long = "https://arweave.net/0123456789012345678901234567890123456789";
    let sheet = unmask_sheet(&report(true, long, Some(vec![1])));
    assert_eq!(sheet.name, "Shadow Fox #1");
    assert_eq!(sheet.update_authority, "11111111111111111111111111111111");
    assert!(sheet.is_mutable);
    assert_eq!(sheet.state, "Mutable ⚠️  CAUTION");
    assert_eq!(sheet.image_uri, format!("{}...", &long[..45]));
    assert_eq!(sheet.attributes.len(), 2);
    assert_eq!(sheet.attributes[0].trait_type, "Cloak");
    assert_eq!(sheet.attributes[0].value, "Midnight");
    assert_eq!(sheet.attributes[1].trait_type, "Blade");
    assert_eq!(sheet.attributes[1].value, "Kunai");
    assert!(sheet.has_artwork);
    let frozen = unmask_sheet(&report(false, "", None));
    assert!(!frozen.is_mutable);
    assert_eq!(frozen.state, "Frozen ✓ VERIFIED");
    assert_eq!(frozen.image_uri, "");
    assert!(!frozen.has_artwork);
}

#[test]
fn assets_are_asked_for_a_thousand_at_a_time() {
    let request = assets_request("wallet");
    assert_eq!(request.owner_address, "wallet");
    assert_eq!(request.page, 1);
    assert_eq!(request.limit, 1000);
    assert!(request.show_collection_metadata);
}

fn response(collections: &[&str], total: u32) -> HeliusAssetsResponse {
    let items = collections
        .iter()
        .map(|c| HeliusAsset {
            id: "id".to_string(),
            content: None,
            grouping: Some(vec![HeliusGrouping {
                group_key: "collection".to_string(),
                group_value: c.to_string(),
            }]),
        })
        .collect();
    HeliusAssetsResponse { result: HeliusAssetsList { items, total } }
}

#[test]
fn status_other_than_success_fails_the_dossier() {
    let outcome = receive("w".to_string(), 401, "Unauthorized".to_string(), Ok(response(&["A"], 1)));
    let error = outcome.expect_err("no dossier");
    assert!(matches!(&error, DossierError::Status { code: 401, reason } if reason == "Unauthorized"));
    assert_eq!(
        error.message(),
        "Helius API request failed with status: 401 Unauthorized. Make sure HELIUS_API_KEY is set."
    );
    assert!(receive("w".to_string(), 199, "".to_string(), Err("".to_string())).is_err());
}

#[test]
fn reply_that_is_no_list_of_assets_fails_the_dossier() {
    let outcome = receive("w".to_string(), 200, "OK".to_string(), Err("missing field `result`".to_string()));
    let error = outcome.expect_err("no dossier");
    assert!(matches!(&error, DossierError::Malformed { cause } if cause == "missing field `result`"));
    assert_eq!(error.message(), "Failed to parse the list of assets: missing field `result`");
    assert_eq!(DossierError::TooManyAssets.message(), "Too many assets to count");
}

#[test]
fn successful_reply_becomes_the_dossier() {
    let report = receive("w".to_string(), 200, "OK".to_string(), Ok(response(&["A", "B", "B"], 3)))
        .expect("a dossier");
    assert_eq!(report.wallet_address, "w");
    assert_eq!(report.total_nfts, 3);
    assert_eq!(report.collections.len(), 2);
    assert_eq!((report.collections[0].name.as_str(), report.collections[0].count), ("B", 2));
    assert_eq!((report.collections[1].name.as_str(), report.collections[1].count), ("A", 1));
}
