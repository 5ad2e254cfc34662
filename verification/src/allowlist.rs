//! The allowlist eligibility matcher.
//!
//! A pool's allowlist entries are unioned: an asset is eligible as soon as
//! one entry matches it structurally.  The URI-prefix kind is the one
//! exception: it never matches by itself, but while present it constrains
//! every match by demanding that the asset's metadata URI, trimmed of
//! surrounding whitespace, start with a caller-supplied prefix.
//! Eligibility is opt-in: an empty set, or one of placeholder entries only,
//! always fails.

use vstd::prelude::*;

use crate::errors::MMMErrorCode;
use crate::state::{
    Allowlist, AssetMetadata, TokenStandard, ALLOWLIST_KIND_EMPTY, ALLOWLIST_KIND_FVCA,
    ALLOWLIST_KIND_MCC, ALLOWLIST_KIND_METADATA, ALLOWLIST_KIND_MINT,
};

verus! {

/// The whitespace bytes trimmed off a metadata URI: space, tab, line feed,
/// carriage return.
pub open spec fn is_uri_whitespace(b: u8) -> bool {
    b == 32 || b == 9 || b == 10 || b == 13
}

/// The byte string with its leading whitespace removed.
pub open spec fn trim_front(s: Seq<u8>) -> Seq<u8>
    decreases s.len(),
{
    if s.len() > 0 && is_uri_whitespace(s[0]) {
        trim_front(s.drop_first())
    } else {
        s
    }
}

/// The byte string with its trailing whitespace removed.
pub open spec fn trim_back(s: Seq<u8>) -> Seq<u8>
    decreases s.len(),
{
    if s.len() > 0 && is_uri_whitespace(s.last()) {
        trim_back(s.drop_last())
    } else {
        s
    }
}

/// The byte string with surrounding whitespace removed.
pub open spec fn trimmed(s: Seq<u8>) -> Seq<u8> {
    trim_back(trim_front(s))
}

/// Whether `s` starts with `prefix`.
pub open spec fn starts_with(s: Seq<u8>, prefix: Seq<u8>) -> bool {
    prefix.len() <= s.len() && s.subrange(0, prefix.len() as int) == prefix
}

/// Whether one allowlist entry structurally matches the asset: its first
/// verified creator, its own identifier, or its verified collection
/// reference.  Placeholder and URI-prefix entries never match.
pub open spec fn allowlist_matches(entry: Allowlist, mint: u64, meta: AssetMetadata) -> bool {
    if entry.kind == ALLOWLIST_KIND_FVCA {
        match meta.creators {
            Option::Some(cs) => cs@.len() > 0 && cs@[0].address == entry.value && cs@[0].verified,
            Option::None => false,
        }
    } else if entry.kind == ALLOWLIST_KIND_MINT {
        mint == entry.value
    } else if entry.kind == ALLOWLIST_KIND_MCC {
        match meta.collection {
            Option::Some(c) => c.key == entry.value && c.verified,
            Option::None => false,
        }
    } else {
        false
    }
}

/// The in-order walk over the entries: success on the first structural
/// match, failure on the first unrecognized kind or at the end of the set.
pub open spec fn allowlist_scan(entries: Seq<Allowlist>, mint: u64, meta: AssetMetadata) -> bool
    decreases entries.len(),
{
    if entries.len() == 0 {
        false
    } else if entries[0].kind > ALLOWLIST_KIND_METADATA {
        false
    } else if allowlist_matches(entries[0], mint, meta) {
        true
    } else {
        allowlist_scan(entries.drop_first(), mint, meta)
    }
}

/// Whether any entry is of the URI-prefix kind.
pub open spec fn has_metadata_kind(entries: Seq<Allowlist>) -> bool {
    exists|i: int| 0 <= i < entries.len() && entries[i].kind == ALLOWLIST_KIND_METADATA
}

/// An edition-marker account, when supplied and non-empty, must carry one
/// of the two recognized master-edition version tags.
pub open spec fn edition_ok(master_edition: Option<Seq<u8>>) -> bool {
    match master_edition {
        Option::Some(data) => data.len() == 0 || data[0] == 2 || data[0] == 6,
        Option::None => true,
    }
}

/// The URI-prefix constraint: binding only when some entry is of the
/// URI-prefix kind and the caller supplied a prefix.
pub open spec fn uri_constraint_ok(
    entries: Seq<Allowlist>,
    uri: Seq<u8>,
    aux: Option<Seq<u8>>,
) -> bool {
    match aux {
        Option::Some(prefix) => !has_metadata_kind(entries) || starts_with(trimmed(uri), prefix),
        Option::None => true,
    }
}

/// The matcher's full outcome: the edition gate, then the URI constraint,
/// then the union walk.
pub open spec fn check_allowlists_for_mint_spec(
    entries: Seq<Allowlist>,
    mint: u64,
    meta: AssetMetadata,
    master_edition: Option<Seq<u8>>,
    aux: Option<Seq<u8>>,
) -> Result<(), MMMErrorCode> {
    if !edition_ok(master_edition) {
        Err(MMMErrorCode::InvalidMasterEdition)
    } else if !uri_constraint_ok(entries, meta.uri@, aux) {
        Err(MMMErrorCode::UnexpectedMetadataUri)
    } else if allowlist_scan(entries, mint, meta) {
        Ok(())
    } else {
        Err(MMMErrorCode::InvalidAllowLists)
    }
}

/// Whether a non-empty edition-marker account carries a recognized
/// master-edition version tag.
pub fn check_master_edition(master_edition_data: &Vec<u8>) -> (r: bool)
    requires
        master_edition_data@.len() > 0,
    ensures
        r == (master_edition_data@[0] == 2 || master_edition_data@[0] == 6),
{
    let version = master_edition_data[0];
    version == 2 || version == 6
}

/// Validates that every entry of an allowlist is well-formed.
#[verifier::loop_isolation(false)]
pub fn check_allowlists(allowlists: &Vec<Allowlist>) -> (r: Result<(), MMMErrorCode>)
    ensures
        r is Ok <==> (forall|i: int| 0 <= i < allowlists@.len() ==> allowlists@[i].valid_spec()),
        r matches Err(e) ==> e == MMMErrorCode::InvalidAllowLists,
{
    let mut i: usize = 0;
    while i < allowlists.len()
        invariant
            i <= allowlists@.len(),
            forall|j: int| 0 <= j < i ==> allowlists@[j].valid_spec(),
        decreases allowlists@.len() - i,
    {
        if !allowlists[i].valid() {
            return Err(MMMErrorCode::InvalidAllowLists);
        }
        i = i + 1;
    }
    Ok(())
}

/// Leading whitespace comes off exactly up to the first non-whitespace
/// byte.
proof fn lemma_trim_front_is_subrange(s: Seq<u8>, k: int)
    requires
        0 <= k <= s.len(),
        forall|j: int| 0 <= j < k ==> is_uri_whitespace(s[j]),
        k == s.len() || !is_uri_whitespace(s[k]),
    ensures
        trim_front(s) == s.subrange(k, s.len() as int),
    decreases k,
{
    if k == 0 {
        assert(s.subrange(0, s.len() as int) =~= s);
    } else {
        let rest = s.drop_first();
        assert(forall|j: int| 0 <= j < k - 1 ==> is_uri_whitespace(#[trigger] rest[j]));
        lemma_trim_front_is_subrange(rest, k - 1);
        assert(rest.subrange(k - 1, rest.len() as int) =~= s.subrange(k, s.len() as int));
    }
}

/// Trailing whitespace comes off exactly down to the last non-whitespace
/// byte.
proof fn lemma_trim_back_is_subrange(s: Seq<u8>, k: int)
    requires
        0 <= k <= s.len(),
        forall|j: int| k <= j < s.len() ==> is_uri_whitespace(s[j]),
        k == 0 || !is_uri_whitespace(s[k - 1]),
    ensures
        trim_back(s) == s.subrange(0, k),
    decreases s.len(),
{
    if k == s.len() {
        assert(s.subrange(0, k) =~= s);
    } else {
        let rest = s.drop_last();
        lemma_trim_back_is_subrange(rest, k);
        assert(rest.subrange(0, k) =~= s.subrange(0, k));
    }
}

/// Whether the asset's URI, trimmed of surrounding whitespace, starts with
/// the given prefix.
#[verifier::loop_isolation(false)]
pub fn uri_starts_with_trimmed(uri: &Vec<u8>, prefix: &Vec<u8>) -> (r: bool)
    ensures
        r == starts_with(trimmed(uri@), prefix@),
{
    let mut start: usize = 0;
    while start < uri.len() && (uri[start] == 32 || uri[start] == 9 || uri[start] == 10
        || uri[start] == 13)
        invariant
            start <= uri@.len(),
            forall|j: int| 0 <= j < start ==> is_uri_whitespace(uri@[j]),
        decreases uri@.len() - start,
    {
        start = start + 1;
    }
    let mut end: usize = uri.len();
    while end > start && (uri[end - 1] == 32 || uri[end - 1] == 9 || uri[end - 1] == 10 || uri[end
        - 1] == 13)
        invariant
            start <= end <= uri@.len(),
            forall|j: int| end <= j < uri@.len() ==> is_uri_whitespace(uri@[j]),
        decreases end,
    {
        end = end - 1;
    }
    proof {
        lemma_trim_front_is_subrange(uri@, start as int);
        let t = uri@.subrange(start as int, uri@.len() as int);
        assert(forall|j: int| end - start <= j < t.len() ==> is_uri_whitespace(#[trigger] t[j]));
        lemma_trim_back_is_subrange(t, end - start);
        assert(t.subrange(0, end - start) =~= uri@.subrange(start as int, end as int));
        assert(trimmed(uri@) == uri@.subrange(start as int, end as int));
    }
    if prefix.len() > end - start {
        return false;
    }
    let mut i: usize = 0;
    while i < prefix.len()
        invariant
            i <= prefix@.len(),
            prefix@.len() <= end - start,
            trimmed(uri@) == uri@.subrange(start as int, end as int),
            forall|j: int| 0 <= j < i ==> uri@[start + j] == prefix@[j],
        decreases prefix@.len() - i,
    {
        if uri[start + i] != prefix[i] {
            proof {
                assert(trimmed(uri@)[i as int] == uri@[start + i]);
                if starts_with(trimmed(uri@), prefix@) {
                    assert(trimmed(uri@).subrange(0, prefix@.len() as int)[i as int]
                        == trimmed(uri@)[i as int]);
                }
            }
            return false;
        }
        i = i + 1;
    }
    proof {
        assert(trimmed(uri@).subrange(0, prefix@.len() as int) =~= prefix@);
    }
    true
}

/// Decides whether the asset may trade against the pool.  The edition
/// marker, if supplied and non-empty, must carry a recognized version tag;
/// a supplied URI prefix binds when any entry is of the URI-prefix kind;
/// then the entries are walked in order, succeeding on the first
/// structural match and failing on the first unrecognized kind or when
/// none matches.
#[verifier::loop_isolation(false)]
pub fn check_allowlists_for_mint(
    allowlists: &Vec<Allowlist>,
    mint: u64,
    metadata: &AssetMetadata,
    master_edition: Option<&Vec<u8>>,
    allowlist_aux: Option<&Vec<u8>>,
) -> (r: Result<(), MMMErrorCode>)
    ensures
        r == ({
            let ed: Option<Seq<u8>> = match master_edition {
                Option::Some(d) => Option::Some(d@),
                Option::None => Option::None,
            };
            let aux: Option<Seq<u8>> = match allowlist_aux {
                Option::Some(p) => Option::Some(p@),
                Option::None => Option::None,
            };
            check_allowlists_for_mint_spec(allowlists@, mint, *metadata, ed, aux)
        }),
{
    if let Some(data) = master_edition {
        if data.len() > 0 {
            if !check_master_edition(data) {
                return Err(MMMErrorCode::InvalidMasterEdition);
            }
        }
    }

    let mut has_meta_kind = false;
    let mut i: usize = 0;
    while i < allowlists.len()
        invariant
            i <= allowlists@.len(),
            has_meta_kind <==> (exists|j: int| 0 <= j < i && allowlists@[j].kind
                == ALLOWLIST_KIND_METADATA),
        decreases allowlists@.len() - i,
    {
        if allowlists[i].kind == ALLOWLIST_KIND_METADATA {
            has_meta_kind = true;
        }
        i = i + 1;
    }

    if has_meta_kind {
        if let Some(prefix) = allowlist_aux {
            if !uri_starts_with_trimmed(&metadata.uri, prefix) {
                return Err(MMMErrorCode::UnexpectedMetadataUri);
            }
        }
    }

    proof {
        assert(allowlists@.skip(0) =~= allowlists@);
    }
    let mut i: usize = 0;
    while i < allowlists.len()
        invariant
            i <= allowlists@.len(),
            allowlist_scan(allowlists@, mint, *metadata) == allowlist_scan(
                allowlists@.skip(i as int),
                mint,
                *metadata,
            ),
        decreases allowlists@.len() - i,
    {
        let entry = allowlists[i];
        proof {
            assert(allowlists@.skip(i as int)[0] == entry);
            assert(allowlists@.skip(i as int).drop_first() =~= allowlists@.skip(i as int + 1));
        }
        if entry.kind == ALLOWLIST_KIND_EMPTY {
            // a placeholder never matches
        } else if entry.kind == ALLOWLIST_KIND_FVCA {
            if let Some(creators) = &metadata.creators {
                if creators.len() > 0 {
                    let c = creators[0];
                    if c.address == entry.value && c.verified {
                        return Ok(());
                    }
                }
            }
        } else if entry.kind == ALLOWLIST_KIND_MINT {
            if mint == entry.value {
                return Ok(());
            }
        } else if entry.kind == ALLOWLIST_KIND_MCC {
            if let Some(collection) = &metadata.collection {
                if collection.key == entry.value && collection.verified {
                    return Ok(());
                }
            }
        } else if entry.kind == ALLOWLIST_KIND_METADATA {
            // a constraint, never a match of its own
        } else {
            return Err(MMMErrorCode::InvalidAllowLists);
        }
        i = i + 1;
    }
    Err(MMMErrorCode::InvalidAllowLists)
}

/// Checks that the asset carries the programmable token-standard marker.
pub fn assert_is_programmable(parsed_metadata: &AssetMetadata) -> (r: Result<(), MMMErrorCode>)
    ensures
        r is Ok <==> parsed_metadata.token_standard == Some(
            TokenStandard::ProgrammableNonFungible,
        ),
        r matches Err(e) ==> e == MMMErrorCode::InvalidTokenStandard,
{
    match &parsed_metadata.token_standard {
        Some(TokenStandard::ProgrammableNonFungible) => Ok(()),
        _ => Err(MMMErrorCode::InvalidTokenStandard),
    }
}

/// Law: with every entry of a recognized kind, the walk is a pure union.
/// The asset is eligible exactly when some entry matches it, whichever of
/// the mint, first-creator or collection branches that is, and ineligible
/// when none does.
pub proof fn lemma_allowlist_union(entries: Seq<Allowlist>, mint: u64, meta: AssetMetadata)
    requires
        forall|i: int| 0 <= i < entries.len() ==> entries[i].kind <= ALLOWLIST_KIND_METADATA,
    ensures
        allowlist_scan(entries, mint, meta) <==> (exists|i: int|
            0 <= i < entries.len() && allowlist_matches(entries[i], mint, meta)),
    decreases entries.len(),
{
    if entries.len() > 0 {
        let rest = entries.drop_first();
        assert(forall|j: int| 0 <= j < rest.len() ==> #[trigger] rest[j] == entries[j + 1]);
        lemma_allowlist_union(rest, mint, meta);
        if allowlist_matches(entries[0], mint, meta) {
            assert(exists|i: int|
                0 <= i < entries.len() && allowlist_matches(entries[i], mint, meta));
        } else {
            if allowlist_scan(entries, mint, meta) {
                let j = choose|j: int|
                    0 <= j < rest.len() && allowlist_matches(rest[j], mint, meta);
                assert(allowlist_matches(entries[j + 1], mint, meta));
            }
            if exists|i: int| 0 <= i < entries.len() && allowlist_matches(entries[i], mint, meta) {
                let i = choose|i: int|
                    0 <= i < entries.len() && allowlist_matches(entries[i], mint, meta);
                assert(i >= 1);
                assert(allowlist_matches(rest[i - 1], mint, meta));
            }
        }
    }
}

} // verus!
