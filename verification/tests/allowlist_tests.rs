use mmm_core::errors::MMMErrorCode;
use mmm_core::allowlist::{
    assert_is_programmable, check_allowlists, check_allowlists_for_mint, check_master_edition,
    uri_starts_with_trimmed,
};
use mmm_core::state::{
    Allowlist, AssetMetadata, Collection, Creator, TokenStandard, ALLOWLIST_KIND_EMPTY,
    ALLOWLIST_KIND_FVCA, ALLOWLIST_KIND_MCC, ALLOWLIST_KIND_METADATA, ALLOWLIST_KIND_MINT,
};

fn bare_metadata() -> AssetMetadata {
    AssetMetadata {
        creators: None,
        collection: None,
        uri: Vec::new(),
        seller_fee_basis_points: 0,
        token_standard: None,
    }
}

#[test]
fn master_edition_versions() {
    assert!(check_master_edition(&vec![2, 0, 0]));
    assert!(check_master_edition(&vec![6]));
    assert!(!check_master_edition(&vec![3]));
}

#[test]
fn allowlists_all_valid() {
    let entries = vec![
        Allowlist { kind: ALLOWLIST_KIND_EMPTY, value: 0 },
        Allowlist { kind: ALLOWLIST_KIND_MINT, value: 42 },
        Allowlist { kind: ALLOWLIST_KIND_METADATA, value: 0 },
    ];
    assert_eq!(check_allowlists(&entries), Ok(()));
}

#[test]
fn allowlists_reject_unset_address() {
    let entries = vec![Allowlist { kind: ALLOWLIST_KIND_FVCA, value: 0 }];
    assert_eq!(check_allowlists(&entries), Err(MMMErrorCode::InvalidAllowLists));
}

#[test]
fn allowlists_reject_unknown_kind() {
    let entries = vec![Allowlist { kind: 9, value: 1 }];
    assert_eq!(check_allowlists(&entries), Err(MMMErrorCode::InvalidAllowLists));
}

#[test]
fn mint_entry_matches_alone() {
    let entries = vec![Allowlist { kind: ALLOWLIST_KIND_MINT, value: 42 }];
    let r = check_allowlists_for_mint(&entries, 42, &bare_metadata(), None, None);
    assert_eq!(r, Ok(()));
}

#[test]
fn first_verified_creator_entry_matches_alone() {
    let entries = vec![Allowlist { kind: ALLOWLIST_KIND_FVCA, value: 7 }];
    let mut meta = bare_metadata();
    meta.creators = Some(vec![
        Creator { address: 7, verified: true, share: 60 },
        Creator { address: 8, verified: true, share: 40 },
    ]);
    assert_eq!(check_allowlists_for_mint(&entries, 1, &meta, None, None), Ok(()));
}

#[test]
fn unverified_first_creator_does_not_match() {
    let entries = vec![Allowlist { kind: ALLOWLIST_KIND_FVCA, value: 7 }];
    let mut meta = bare_metadata();
    meta.creators = Some(vec![Creator { address: 7, verified: false, share: 100 }]);
    assert_eq!(
        check_allowlists_for_mint(&entries, 1, &meta, None, None),
        Err(MMMErrorCode::InvalidAllowLists)
    );
}

#[test]
fn verified_collection_entry_matches_alone() {
    let entries = vec![Allowlist { kind: ALLOWLIST_KIND_MCC, value: 5 }];
    let mut meta = bare_metadata();
    meta.collection = Some(Collection { key: 5, verified: true });
    assert_eq!(check_allowlists_for_mint(&entries, 1, &meta, None, None), Ok(()));
}

#[test]
fn union_matches_on_any_single_branch() {
    // three disjoint entries; the asset satisfies only the collection one
    let entries = vec![
        Allowlist { kind: ALLOWLIST_KIND_FVCA, value: 7 },
        Allowlist { kind: ALLOWLIST_KIND_MINT, value: 42 },
        Allowlist { kind: ALLOWLIST_KIND_MCC, value: 5 },
    ];
    let mut meta = bare_metadata();
    meta.collection = Some(Collection { key: 5, verified: true });
    assert_eq!(check_allowlists_for_mint(&entries, 1, &meta, None, None), Ok(()));
}

#[test]
fn union_fails_when_no_branch_matches() {
    let entries = vec![
        Allowlist { kind: ALLOWLIST_KIND_FVCA, value: 7 },
        Allowlist { kind: ALLOWLIST_KIND_MINT, value: 42 },
        Allowlist { kind: ALLOWLIST_KIND_MCC, value: 5 },
    ];
    let meta = bare_metadata();
    assert_eq!(
        check_allowlists_for_mint(&entries, 1, &meta, None, None),
        Err(MMMErrorCode::InvalidAllowLists)
    );
}

#[test]
fn empty_set_never_permits() {
    let r = check_allowlists_for_mint(&Vec::new(), 42, &bare_metadata(), None, None);
    assert_eq!(r, Err(MMMErrorCode::InvalidAllowLists));
}

#[test]
fn placeholder_entries_never_permit() {
    let entries = vec![
        Allowlist { kind: ALLOWLIST_KIND_EMPTY, value: 0 },
        Allowlist { kind: ALLOWLIST_KIND_EMPTY, value: 0 },
    ];
    let r = check_allowlists_for_mint(&entries, 42, &bare_metadata(), None, None);
    assert_eq!(r, Err(MMMErrorCode::InvalidAllowLists));
}

#[test]
fn unknown_kind_fails_the_walk() {
    let entries = vec![Allowlist { kind: 9, value: 42 }];
    let r = check_allowlists_for_mint(&entries, 42, &bare_metadata(), None, None);
    assert_eq!(r, Err(MMMErrorCode::InvalidAllowLists));
}

#[test]
fn empty_edition_marker_is_tolerated() {
    let entries = vec![Allowlist { kind: ALLOWLIST_KIND_MINT, value: 42 }];
    let data: Vec<u8> = Vec::new();
    let r = check_allowlists_for_mint(&entries, 42, &bare_metadata(), Some(&data), None);
    assert_eq!(r, Ok(()));
}

#[test]
fn recognized_edition_version_passes() {
    let entries = vec![Allowlist { kind: ALLOWLIST_KIND_MINT, value: 42 }];
    let data = vec![6u8, 1, 1];
    let r = check_allowlists_for_mint(&entries, 42, &bare_metadata(), Some(&data), None);
    assert_eq!(r, Ok(()));
}

#[test]
fn unrecognized_edition_version_fails_first() {
    let entries = vec![Allowlist { kind: ALLOWLIST_KIND_MINT, value: 42 }];
    let data = vec![5u8];
    let r = check_allowlists_for_mint(&entries, 42, &bare_metadata(), Some(&data), None);
    assert_eq!(r, Err(MMMErrorCode::InvalidMasterEdition));
}

#[test]
fn uri_prefix_constrains_an_otherwise_matching_asset() {
    let entries = vec![
        Allowlist { kind: ALLOWLIST_KIND_METADATA, value: 0 },
        Allowlist { kind: ALLOWLIST_KIND_MINT, value: 42 },
    ];
    let mut meta = bare_metadata();
    meta.uri = b"  https://arweave.net/abc  ".to_vec();
    let good = b"https://arweave.net/".to_vec();
    let r = check_allowlists_for_mint(&entries, 42, &meta, None, Some(&good));
    assert_eq!(r, Ok(()));
    let bad = b"https://example.com/".to_vec();
    let r = check_allowlists_for_mint(&entries, 42, &meta, None, Some(&bad));
    assert_eq!(r, Err(MMMErrorCode::UnexpectedMetadataUri));
}

#[test]
fn uri_prefix_ignored_without_aux() {
    let entries = vec![
        Allowlist { kind: ALLOWLIST_KIND_METADATA, value: 0 },
        Allowlist { kind: ALLOWLIST_KIND_MINT, value: 42 },
    ];
    let mut meta = bare_metadata();
    meta.uri = b"https://example.com/xyz".to_vec();
    assert_eq!(check_allowlists_for_mint(&entries, 42, &meta, None, None), Ok(()));
}

#[test]
fn uri_prefix_entry_never_matches_alone() {
    let entries = vec![Allowlist { kind: ALLOWLIST_KIND_METADATA, value: 0 }];
    let mut meta = bare_metadata();
    meta.uri = b"https://arweave.net/abc".to_vec();
    let prefix = b"https://arweave.net/".to_vec();
    let r = check_allowlists_for_mint(&entries, 42, &meta, None, Some(&prefix));
    assert_eq!(r, Err(MMMErrorCode::InvalidAllowLists));
}

#[test]
fn trimming_strips_surrounding_whitespace_only() {
    let uri = b"\t https://x/1 \n".to_vec();
    assert!(uri_starts_with_trimmed(&uri, &b"https://x/".to_vec()));
    assert!(!uri_starts_with_trimmed(&uri, &b" https".to_vec()));
    let inner = b"https://x/a b".to_vec();
    assert!(uri_starts_with_trimmed(&inner, &b"https://x/a b".to_vec()));
}

#[test]
fn programmable_marker_required() {
    let mut meta = bare_metadata();
    meta.token_standard = Some(TokenStandard::ProgrammableNonFungible);
    assert_eq!(assert_is_programmable(&meta), Ok(()));
    meta.token_standard = Some(TokenStandard::NonFungible);
    assert_eq!(assert_is_programmable(&meta), Err(MMMErrorCode::InvalidTokenStandard));
    meta.token_standard = None;
    assert_eq!(assert_is_programmable(&meta), Err(MMMErrorCode::InvalidTokenStandard));
}
