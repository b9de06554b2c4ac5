//! Metadata records of the registry, and the merge of a partial update into an
//! existing record.

use vstd::prelude::*;
use crate::types::{Address, MinterError};

verus! {

/// A creator as the registry stores it.
#[derive(Clone, Copy, Debug, PartialEq, Eq)]
pub struct MetadataCreator {
    pub address: Address,
    pub verified: bool,
    pub share: u8,
}

/// The collection a record belongs to.
#[derive(Clone, Copy, Debug, PartialEq, Eq)]
pub struct CollectionRef {
    pub verified: bool,
    pub key: Address,
}

/// How a utility asset is consumed.
#[derive(Clone, Copy, Debug, PartialEq, Eq, Structural)]
pub enum UseMethod {
    Burn,
    Multiple,
    Single,
}

/// The consumable-use block of a utility asset.
#[derive(Clone, Copy, Debug, PartialEq, Eq)]
pub struct UsesInfo {
    pub method: UseMethod,
    pub remaining_uses: u64,
    pub total_uses: u64,
}

/// A complete record of the registry.
#[derive(Clone, Debug, PartialEq, Eq)]
pub struct MetadataRecord {
    pub name: String,
    pub symbol: String,
    pub uri: String,
    pub seller_fee_basis_points: u16,
    pub creators: Option<Vec<MetadataCreator>>,
    pub collection: Option<CollectionRef>,
    pub uses: Option<UsesInfo>,
}

/// The fields a caller may rewrite; an absent field keeps its value.
#[derive(Clone, Debug, PartialEq, Eq)]
pub struct PartialMetadataPatch {
    pub name: Option<String>,
    pub symbol: Option<String>,
    pub uri: Option<String>,
}

/// The mathematical value of a `MetadataRecord`.
pub struct MetadataRecordView {
    pub name: Seq<char>,
    pub symbol: Seq<char>,
    pub uri: Seq<char>,
    pub seller_fee_basis_points: u16,
    pub creators: Option<Seq<MetadataCreator>>,
    pub collection: Option<CollectionRef>,
    pub uses: Option<UsesInfo>,
}

/// The mathematical value of a `PartialMetadataPatch`.
pub struct PartialMetadataPatchView {
    pub name: Option<Seq<char>>,
    pub symbol: Option<Seq<char>>,
    pub uri: Option<Seq<char>>,
}

/// The view of an optional text.
pub open spec fn text_view(text: Option<String>) -> Option<Seq<char>> {
    match text {
        Some(s) => Some(s@),
        None => None,
    }
}

/// The view of an optional creator list.
pub open spec fn creators_view(creators: Option<Vec<MetadataCreator>>) -> Option<
    Seq<MetadataCreator>,
> {
    match creators {
        Some(list) => Some(list@),
        None => None,
    }
}

impl View for MetadataRecord {
    type V = MetadataRecordView;

    open spec fn view(&self) -> MetadataRecordView {
        MetadataRecordView {
            name: self.name@,
            symbol: self.symbol@,
            uri: self.uri@,
            seller_fee_basis_points: self.seller_fee_basis_points,
            creators: creators_view(self.creators),
            collection: self.collection,
            uses: self.uses,
        }
    }
}

impl View for PartialMetadataPatch {
    type V = PartialMetadataPatchView;

    open spec fn view(&self) -> PartialMetadataPatchView {
        PartialMetadataPatchView {
            name: text_view(self.name),
            symbol: text_view(self.symbol),
            uri: text_view(self.uri),
        }
    }
}

/// The patched value of one text field: the patch where it is present, the
/// existing text otherwise.
pub open spec fn patched(existing: Seq<char>, patch: Option<Seq<char>>) -> Seq<char> {
    match patch {
        Some(text) => text,
        None => existing,
    }
}

/// The record that results from a patch: the three texts patched, every other
/// field carried over.
pub open spec fn merge_spec(
    existing: MetadataRecordView,
    patch: PartialMetadataPatchView,
) -> MetadataRecordView {
    MetadataRecordView {
        name: patched(existing.name, patch.name),
        symbol: patched(existing.symbol, patch.symbol),
        uri: patched(existing.uri, patch.uri),
        seller_fee_basis_points: existing.seller_fee_basis_points,
        creators: existing.creators,
        collection: existing.collection,
        uses: existing.uses,
    }
}

/// The patch that rewrites nothing.
pub open spec fn empty_patch() -> PartialMetadataPatchView {
    PartialMetadataPatchView { name: None, symbol: None, uri: None }
}

/// Picks the patch where present, else a copy of the existing text.
fn patch_text(existing: &String, patch: Option<String>) -> (text: String)
    ensures
        text@ == patched(existing@, text_view(patch)),
{
    match patch {
        Some(text) => text,
        None => existing.clone(),
    }
}

/// Copies a creator list entry by entry.
fn copy_creators(creators: &Option<Vec<MetadataCreator>>) -> (copy: Option<Vec<MetadataCreator>>)
    ensures
        creators_view(copy) == creators_view(*creators),
{
    match creators {
        None => None,
        Some(list) => {
            let mut copy: Vec<MetadataCreator> = Vec::new();
            let mut i: usize = 0;
            while i < list.len()
                invariant
                    i <= list.len(),
                    copy@ == list@.take(i as int),
                decreases list.len() - i,
            {
                copy.push(list[i]);
                assert(list@.take(i as int).push(list@[i as int]) =~= list@.take(i + 1));
                i = i + 1;
            }
            assert(list@.take(i as int) =~= list@);
            Some(copy)
        },
    }
}

/// Merges a partial update into an existing record. Never fails.
pub fn merge(existing: &MetadataRecord, patch: PartialMetadataPatch) -> (merged: MetadataRecord)
    ensures
        merged@ == merge_spec(existing@, patch@),
{
    let PartialMetadataPatch { name, symbol, uri } = patch;
    MetadataRecord {
        name: patch_text(&existing.name, name),
        symbol: patch_text(&existing.symbol, symbol),
        uri: patch_text(&existing.uri, uri),
        seller_fee_basis_points: existing.seller_fee_basis_points,
        creators: copy_creators(&existing.creators),
        collection: existing.collection,
        uses: existing.uses,
    }
}

/// Merging the same patch a second time changes nothing.
pub proof fn lemma_merge_idempotent(existing: MetadataRecordView, patch: PartialMetadataPatchView)
    ensures
        merge_spec(merge_spec(existing, patch), patch) == merge_spec(existing, patch),
{
}

/// Merging the empty patch returns the existing record, field for field.
pub proof fn lemma_merge_empty_patch(existing: MetadataRecordView)
    ensures
        merge_spec(existing, empty_patch()) == existing,
{
}

/// A merge never touches the fields that are not exposed for patching.
pub proof fn lemma_merge_keeps_fixed_fields(
    existing: MetadataRecordView,
    patch: PartialMetadataPatchView,
)
    ensures
        merge_spec(existing, patch).seller_fee_basis_points == existing.seller_fee_basis_points,
        merge_spec(existing, patch).creators == existing.creators,
        merge_spec(existing, patch).collection == existing.collection,
        merge_spec(existing, patch).uses == existing.uses,
{
}

/// The method that a use method code names: 0, 1 and 2 name the three
/// methods, every other code is rejected.
pub open spec fn decode_use_method_spec(code: u8) -> Result<UseMethod, MinterError> {
    if code == 0 {
        Ok(UseMethod::Burn)
    } else if code == 1 {
        Ok(UseMethod::Multiple)
    } else if code == 2 {
        Ok(UseMethod::Single)
    } else {
        Err(MinterError::InvalidUseMethodCode)
    }
}

/// Decodes a use method code.
pub fn decode_use_method(code: u8) -> (r: Result<UseMethod, MinterError>)
    ensures
        r == decode_use_method_spec(code),
{
    match code {
        0 => Ok(UseMethod::Burn),
        1 => Ok(UseMethod::Multiple),
        2 => Ok(UseMethod::Single),
        _ => Err(MinterError::InvalidUseMethodCode),
    }
}

} // verus!
