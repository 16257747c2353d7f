use shinobi::jutsu::dossier::{
    assess, collection_name, compile_report, sort_by_count, tally_collections, Assessment,
};
use shinobi::model::{
    CollectionSummary, DossierReport, HeliusAsset, HeliusAssetsList, HeliusAssetsResponse,
    HeliusContent, HeliusGrouping, HeliusMetadata,
};

fn grouping(key: &str, value: &str) -> HeliusGrouping {
    HeliusGrouping { group_key: key.to_string(), group_value: value.to_string() }
}

fn asset(groups: Option<Vec<HeliusGrouping>>, name: Option<&str>) -> HeliusAsset {
    HeliusAsset {
        id: "asset".to_string(),
        content: Some(HeliusContent {
            metadata: Some(HeliusMetadata { name: name.map(|n| n.to_string()), symbol: None }),
        }),
        grouping: groups,
    }
}

fn in_collection(value: &str) -> HeliusAsset {
    asset(Some(vec![grouping("collection", value)]), Some("named"))
}

fn summary(name: &str, count: u32) -> CollectionSummary {
    CollectionSummary { name: name.to_string(), count }
}

fn report(collections: Vec<CollectionSummary>, total: u32) -> DossierReport {
    DossierReport { wallet_address: "wallet".to_string(), total_nfts: total, collections }
}

fn pairs(collections: &[CollectionSummary]) -> Vec<(String, u32)> {
    let mut all: Vec<(String, u32)> =
        collections.iter().map(|c| (c.name.clone(), c.count)).collect();
    all.sort();
    all
}

fn counts(collections: &[CollectionSummary]) -> Vec<u32> {
    collections.iter().map(|c| c.count).collect()
}

#[test]
fn label_is_the_first_collection_grouping() {
    let a = asset(
        Some(vec![grouping("creator", "X"), grouping("collection", "A"), grouping("collection", "B")]),
        Some("named"),
    );
    assert_eq!(collection_name(&a), "A");
}

#[test]
fn label_falls_back_to_the_embedded_name() {
    let a = asset(Some(vec![grouping("creator", "X")]), Some("Lone Wolf"));
    assert_eq!(collection_name(&a), "Lone Wolf");
    let b = asset(Some(vec![]), Some("Lone Wolf"));
    assert_eq!(collection_name(&b), "Lone Wolf");
    let c = asset(None, Some("Lone Wolf"));
    assert_eq!(collection_name(&c), "Lone Wolf");
}

#[test]
fn label_of_a_nameless_asset_is_the_unknown_collection() {
    let a = asset(Some(vec![grouping("creator", "X")]), None);
    assert_eq!(collection_name(&a), "Unknown Collection");
    let b = HeliusAsset { id: "x".to_string(), content: None, grouping: None };
    assert_eq!(collection_name(&b), "Unknown Collection");
    let c = HeliusAsset {
        id: "x".to_string(),
        content: Some(HeliusContent { metadata: None }),
        grouping: None,
    };
    assert_eq!(collection_name(&c), "Unknown Collection");
}

#[test]
fn tally_counts_each_collection_once() {
    let assets = vec![
        in_collection("B"),
        in_collection("A"),
        in_collection("B"),
        asset(None, None),
        in_collection("B"),
        in_collection("A"),
    ];
    let tally = tally_collections(&assets);
    assert_eq!(
        pairs(&tally),
        vec![
            ("A".to_string(), 2),
            ("B".to_string(), 3),
            ("Unknown Collection".to_string(), 1)
        ]
    );
}

#[test]
fn tally_of_nothing_is_empty() {
    assert!(tally_collections(&Vec::new()).is_empty());
}

#[test]
fn sort_orders_by_descending_count_and_keeps_every_summary() {
    let sorted = sort_by_count(vec![
        summary("a", 1),
        summary("b", 5),
        summary("c", 1),
        summary("d", 3),
        summary("e", 5),
    ]);
    assert_eq!(counts(&sorted), vec![5, 5, 3, 1, 1]);
    assert_eq!(
        pairs(&sorted),
        vec![
            ("a".to_string(), 1),
            ("b".to_string(), 5),
            ("c".to_string(), 1),
            ("d".to_string(), 3),
            ("e".to_string(), 5)
        ]
    );
}

#[test]
fn report_counts_sum_to_the_number_of_assets() {
    let assets = vec![
        in_collection("A"),
        in_collection("B"),
        in_collection("B"),
        asset(None, Some("solo")),
        in_collection("C"),
        in_collection("B"),
        in_collection("C"),
    ];
    let response = HeliusAssetsResponse { result: HeliusAssetsList { items: assets, total: 7 } };
    let report = compile_report("wallet9".to_string(), response);
    assert_eq!(report.wallet_address, "wallet9");
    assert_eq!(report.total_nfts, 7);
    assert_eq!(counts(&report.collections), vec![3, 2, 1, 1]);
    assert_eq!(report.collections[0].name, "B");
    assert_eq!(report.collections[1].name, "C");
    assert_eq!(
        pairs(&report.collections),
        vec![
            ("A".to_string(), 1),
            ("B".to_string(), 3),
            ("C".to_string(), 2),
            ("solo".to_string(), 1)
        ]
    );
    let sum: u32 = report.collections.iter().map(|c| c.count).sum();
    assert_eq!(sum, report.total_nfts);
}

#[test]
fn report_keeps_the_indexers_total_when_the_page_is_short() {
    let response = HeliusAssetsResponse {
        result: HeliusAssetsList { items: vec![in_collection("A"), in_collection("A")], total: 1500 },
    };
    let report = compile_report("w".to_string(), response);
    assert_eq!(report.total_nfts, 1500);
    let sum: u32 = report.collections.iter().map(|c| c.count).sum();
    assert_eq!(sum, 2);
}

#[test]
fn forty_percent_in_one_collection_is_high_conviction() {
    let a = assess(&report(vec![summary("A", 4)], 10));
    assert!(matches!(&a, Assessment::HighConviction { collection } if collection == "A"));
    assert_eq!(a.message(), "High-conviction 'A' holder.");
}

#[test]
fn six_equal_collections_are_diversified() {
    let collections =
        vec![summary("A", 1), summary("B", 1), summary("C", 1), summary("D", 1), summary("E", 1), summary("F", 1)];
    let a = assess(&report(collections, 6));
    assert!(matches!(a, Assessment::Diversified));
    assert_eq!(a.message(), "Diversified collector across multiple collections.");
}

#[test]
fn two_small_holdings_among_many_assets_are_selective() {
    let a = assess(&report(vec![summary("A", 1), summary("B", 1)], 10));
    assert!(matches!(a, Assessment::Selective));
    assert_eq!(a.message(), "Selective NFT holder.");
}

#[test]
fn two_equal_holdings_of_two_assets_each_dominate() {
    let a = assess(&report(vec![summary("A", 1), summary("B", 1)], 2));
    assert!(matches!(&a, Assessment::HighConviction { collection } if collection == "A"));
}

#[test]
fn exactly_thirty_percent_does_not_dominate() {
    let a = assess(&report(vec![summary("A", 3), summary("B", 3), summary("C", 3)], 10));
    assert!(matches!(a, Assessment::Selective));
    let b = assess(&report(vec![summary("A", 31)], 100));
    assert!(matches!(b, Assessment::HighConviction { .. }));
}

#[test]
fn no_collections_are_detected_in_an_empty_dossier() {
    let a = assess(&report(Vec::new(), 0));
    assert!(matches!(a, Assessment::NoCollections));
    assert_eq!(a.message(), "No NFT collections detected.");
}
