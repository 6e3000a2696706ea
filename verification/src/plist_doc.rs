//! Property-list values: what one holds, how one is put together, and
//! how it is written out as XML.
//!
//! The values themselves are `plist::Value` and `plist::Dictionary`.
//! Verus does not look inside them, so their content is given a name,
//! and the few operations used here are described over that name.
//!
//! A `plist::Value` can hold more than this library ever puts into one:
//! dates, numbers, raw data. The encoder is only ever handed values made
//! of texts, arrays and dictionaries, and a second name keeps track of
//! that.

use vstd::prelude::*;
use crate::error::RequestError;
use crate::manifest::Asset;
use crate::manifest::AssetModel;
use crate::manifest::Metadata;
use crate::manifest::MetadataModel;
use crate::manifest::PlistItem;
use crate::manifest::PlistItemModel;
use crate::manifest::PlistRoot;
use crate::manifest::PlistRootModel;

verus! {

/// What a property-list value holds, as far as this library builds one:
/// a text, a list of values, or a dictionary whose entries keep the
/// order in which they were put in.
pub enum PlistNode {
    Text(Seq<char>),
    Array(Seq<PlistNode>),
    Dictionary(Seq<(Seq<char>, PlistNode)>),
}

/// `plist::Value`, carried as it is.
#[verifier::external_type_specification]
#[verifier::external_body]
pub struct ExPlistValue(plist::Value);

/// `plist::Dictionary`, carried as it is.
#[verifier::external_type_specification]
#[verifier::external_body]
pub struct ExPlistDictionary(plist::Dictionary);

/// `plist::Error`, carried as it is: what the encoder reports.
#[verifier::external_type_specification]
#[verifier::external_body]
pub struct ExPlistError(plist::Error);

/// The content of a `plist::Value`.
pub uninterp spec fn plist_node(value: plist::Value) -> PlistNode;

/// The entries of a `plist::Dictionary`, in the order in which it yields
/// them.
pub uninterp spec fn dictionary_entries(dict: plist::Dictionary) -> Seq<(Seq<char>, PlistNode)>;

/// Whether a `plist::Value` is made of texts, arrays and dictionaries
/// alone, all the way down: no date, number, truth value, raw data or
/// uid anywhere in it.
pub uninterp spec fn holds_texts_only(value: plist::Value) -> bool;

/// Whether every value in a `plist::Dictionary` is made of texts, arrays
/// and dictionaries alone.
pub uninterp spec fn entries_hold_texts_only(dict: plist::Dictionary) -> bool;

/// The bytes that `plist::to_writer_xml` writes for a value with the given
/// content, or `None` where it reports an error instead.
pub uninterp spec fn xml_encoding(node: PlistNode) -> Option<Seq<u8>>;

/// Whether some entry has the given key.
pub open spec fn has_key(entries: Seq<(Seq<char>, PlistNode)>, key: Seq<char>) -> bool {
    exists|i: int| 0 <= i < entries.len() && (#[trigger] entries[i]).0 == key
}

/// `plist::Dictionary::new` makes a dictionary without entries.
pub assume_specification[ plist::Dictionary::new ]() -> (dict: plist::Dictionary)
    ensures
        dictionary_entries(dict) == Seq::<(Seq<char>, PlistNode)>::empty(),
        entries_hold_texts_only(dict),
;

/// `plist::Dictionary::insert` with a key that the dictionary does not
/// hold yet puts the entry behind all others and returns `None`. The
/// dictionary then holds the values it held and the new one, no other.
pub assume_specification[ plist::Dictionary::insert ](
    dict: &mut plist::Dictionary,
    k: String,
    v: plist::Value,
) -> (previous: Option<plist::Value>)
    requires
        !has_key(dictionary_entries(*old(dict)), k@),
    ensures
        dictionary_entries(*final(dict)) == dictionary_entries(*old(dict)).push(
            (k@, plist_node(v)),
        ),
        entries_hold_texts_only(*final(dict)) == (entries_hold_texts_only(*old(dict))
            && holds_texts_only(v)),
        previous is None,
;

/// The variant `plist::Value::String` holds the given text.
#[verifier::external_body]
fn text_value(text: String) -> (value: plist::Value)
    ensures
        plist_node(value) == PlistNode::Text(text@),
        holds_texts_only(value),
{
    plist::Value::String(text)
}

/// The variant `plist::Value::Array` holds the given values in their
/// order.
#[verifier::external_body]
fn array_value(items: Vec<plist::Value>) -> (value: plist::Value)
    ensures
        plist_node(value) == PlistNode::Array(
            items@.map_values(|item: plist::Value| plist_node(item)),
        ),
        holds_texts_only(value) == (forall|i: int|
            0 <= i < items@.len() ==> holds_texts_only(#[trigger] items@[i])),
{
    plist::Value::Array(items)
}

/// The variant `plist::Value::Dictionary` holds the entries of the given
/// dictionary.
#[verifier::external_body]
fn dictionary_value(dict: plist::Dictionary) -> (value: plist::Value)
    ensures
        plist_node(value) == PlistNode::Dictionary(dictionary_entries(dict)),
        holds_texts_only(value) == entries_hold_texts_only(dict),
{
    plist::Value::Dictionary(dict)
}

/// `plist::to_writer_xml` into a fresh byte vector, for a value made of
/// texts, arrays and dictionaries alone. What it writes, and whether it
/// reports an error, depends on the content of the value alone. Other
/// values are left out: the encoder may panic on a date that is out of
/// range.
#[verifier::external_body]
fn write_xml(value: &plist::Value) -> (written: Result<Vec<u8>, plist::Error>)
    requires
        holds_texts_only(*value),
    ensures
        written matches Ok(bytes) ==> xml_encoding(plist_node(*value)) == Some(bytes@),
        written is Err ==> xml_encoding(plist_node(*value)) is None,
{
    let mut buffer: Vec<u8> = Vec::new();
    match plist::to_writer_xml(&mut buffer, value) {
        Ok(()) => Ok(buffer),
        Err(error) => Err(error),
    }
}

/// The property list of an asset: `kind`, then `url`.
pub open spec fn asset_node(asset: AssetModel) -> PlistNode {
    PlistNode::Dictionary(
        seq![("kind"@, PlistNode::Text(asset.kind)), ("url"@, PlistNode::Text(asset.url))],
    )
}

/// The property list of the metadata: `bundle-identifier`,
/// `bundle-version`, `kind`, then `title`.
pub open spec fn metadata_node(metadata: MetadataModel) -> PlistNode {
    PlistNode::Dictionary(
        seq![
            ("bundle-identifier"@, PlistNode::Text(metadata.bundle_identifier)),
            ("bundle-version"@, PlistNode::Text(metadata.bundle_version)),
            ("kind"@, PlistNode::Text(metadata.kind)),
            ("title"@, PlistNode::Text(metadata.title)),
        ],
    )
}

/// The property list of an item: the array `assets`, then the dictionary
/// `metadata`.
pub open spec fn item_node(item: PlistItemModel) -> PlistNode {
    PlistNode::Dictionary(
        seq![
            ("assets"@, PlistNode::Array(item.assets.map_values(|asset: AssetModel| asset_node(asset)))),
            ("metadata"@, metadata_node(item.metadata)),
        ],
    )
}

/// The property list of a manifest: a dictionary with the one key `items`,
/// an array of the items in their order.
pub open spec fn manifest_node(root: PlistRootModel) -> PlistNode {
    PlistNode::Dictionary(
        seq![
            ("items"@, PlistNode::Array(root.items.map_values(|item: PlistItemModel| item_node(item)))),
        ],
    )
}

/// The encoded manifest, or the error where the encoder gives none.
pub open spec fn encoded_manifest(root: PlistRootModel) -> Result<Seq<u8>, RequestError> {
    match xml_encoding(manifest_node(root)) {
        Some(bytes) => Ok(bytes),
        None => Err(RequestError::SerializationFailure),
    }
}

/// The keys that stand together in one dictionary differ from one another.
proof fn keys_differ()
    ensures
        "kind"@ != "url"@,
        "bundle-identifier"@ != "bundle-version"@,
        "bundle-identifier"@ != "kind"@,
        "bundle-identifier"@ != "title"@,
        "bundle-version"@ != "kind"@,
        "bundle-version"@ != "title"@,
        "kind"@ != "title"@,
        "assets"@ != "metadata"@,
{
    reveal_strlit("kind");
    reveal_strlit("url");
    reveal_strlit("bundle-identifier");
    reveal_strlit("bundle-version");
    reveal_strlit("title");
    reveal_strlit("assets");
    reveal_strlit("metadata");
    assert("kind"@.len() == 4);
    assert("url"@.len() == 3);
    assert("bundle-identifier"@.len() == 17);
    assert("bundle-version"@.len() == 14);
    assert("title"@.len() == 5);
    assert("assets"@.len() == 6);
    assert("metadata"@.len() == 8);
}

fn asset_value(asset: &Asset) -> (value: plist::Value)
    ensures
        plist_node(value) == asset_node(asset@),
        holds_texts_only(value),
{
    proof {
        keys_differ();
    }
    let mut dict = plist::Dictionary::new();
    dict.insert("kind".to_owned(), text_value(asset.kind.clone()));
    dict.insert("url".to_owned(), text_value(asset.url.clone()));
    assert(dictionary_entries(dict) =~= asset_node(asset@)->Dictionary_0);
    dictionary_value(dict)
}

fn metadata_value(metadata: &Metadata) -> (value: plist::Value)
    ensures
        plist_node(value) == metadata_node(metadata@),
        holds_texts_only(value),
{
    proof {
        keys_differ();
    }
    let mut dict = plist::Dictionary::new();
    dict.insert("bundle-identifier".to_owned(), text_value(metadata.bundle_identifier.clone()));
    dict.insert("bundle-version".to_owned(), text_value(metadata.bundle_version.clone()));
    dict.insert("kind".to_owned(), text_value(metadata.kind.clone()));
    dict.insert("title".to_owned(), text_value(metadata.title.clone()));
    assert(dictionary_entries(dict) =~= metadata_node(metadata@)->Dictionary_0);
    dictionary_value(dict)
}

fn item_value(item: &PlistItem) -> (value: plist::Value)
    ensures
        plist_node(value) == item_node(item@),
        holds_texts_only(value),
{
    let mut assets: Vec<plist::Value> = Vec::new();
    let mut i: usize = 0;
    while i < item.assets.len()
        invariant
            i <= item.assets.len(),
            assets@.len() == i,
            forall|j: int|
                0 <= j < i ==> plist_node(#[trigger] assets@[j]) == asset_node(item.assets@[j]@)
                    && holds_texts_only(assets@[j]),
        decreases item.assets.len() - i,
    {
        assets.push(asset_value(&item.assets[i]));
        i += 1;
    }
    assert(assets@.map_values(|v: plist::Value| plist_node(v)) =~= item@.assets.map_values(
        |asset: AssetModel| asset_node(asset),
    ));
    proof {
        keys_differ();
    }
    let mut dict = plist::Dictionary::new();
    dict.insert("assets".to_owned(), array_value(assets));
    dict.insert("metadata".to_owned(), metadata_value(&item.metadata));
    assert(dictionary_entries(dict) =~= item_node(item@)->Dictionary_0);
    dictionary_value(dict)
}

/// The property-list value of a manifest, ready for the encoder: made
/// of texts, arrays and dictionaries alone.
pub fn manifest_value(root: &PlistRoot) -> (value: plist::Value)
    ensures
        plist_node(value) == manifest_node(root@),
        holds_texts_only(value),
{
    let mut items: Vec<plist::Value> = Vec::new();
    let mut i: usize = 0;
    while i < root.items.len()
        invariant
            i <= root.items.len(),
            items@.len() == i,
            forall|j: int|
                0 <= j < i ==> plist_node(#[trigger] items@[j]) == item_node(root.items@[j]@)
                    && holds_texts_only(items@[j]),
        decreases root.items.len() - i,
    {
        items.push(item_value(&root.items[i]));
        i += 1;
    }
    assert(items@.map_values(|v: plist::Value| plist_node(v)) =~= root@.items.map_values(
        |item: PlistItemModel| item_node(item),
    ));
    let mut dict = plist::Dictionary::new();
    dict.insert("items".to_owned(), array_value(items));
    assert(dictionary_entries(dict) =~= manifest_node(root@)->Dictionary_0);
    dictionary_value(dict)
}

/// Encodes a manifest as an XML property list. The bytes are those that
/// the encoder writes for the manifest's property list; where it reports
/// an error, so does this function.
pub fn encode_manifest(root: &PlistRoot) -> (encoded: Result<Vec<u8>, RequestError>)
    ensures
        encoded matches Ok(body) ==> encoded_manifest(root@) matches Ok(bytes) && bytes == body@,
        encoded matches Err(error) ==> encoded_manifest(root@) matches Err(reason) && reason
            == error,
{
    let value = manifest_value(root);
    match write_xml(&value) {
        Ok(body) => Ok(body),
        Err(_) => Err(RequestError::SerializationFailure),
    }
}

} // verus!
