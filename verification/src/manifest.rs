//! The installation manifest: one item, made of one downloadable asset
//! and the metadata of the app.

use vstd::prelude::*;
use crate::query::PlistQuery;
use crate::query::PlistQueryModel;

verus! {

/// The `kind` of an asset that is an app archive.
pub const ASSET_KIND: &'static str = "software-package";

/// The `kind` of metadata that describes an app.
pub const METADATA_KIND: &'static str = "software";

/// Something to download: what it is and where it is.
#[derive(Debug, Clone, PartialEq, Eq)]
pub struct Asset {
    pub kind: String,
    pub url: String,
}

/// What the installer shows and checks of the app.
#[derive(Debug, Clone, PartialEq, Eq)]
pub struct Metadata {
    pub bundle_identifier: String,
    pub bundle_version: String,
    pub kind: String,
    pub title: String,
}

/// One installable thing: its assets and its metadata.
#[derive(Debug, Clone, PartialEq, Eq)]
pub struct PlistItem {
    pub assets: Vec<Asset>,
    pub metadata: Metadata,
}

/// The whole manifest.
#[derive(Debug, Clone, PartialEq, Eq)]
pub struct PlistRoot {
    pub items: Vec<PlistItem>,
}

/// The mathematical value of an [`Asset`].
pub struct AssetModel {
    pub kind: Seq<char>,
    pub url: Seq<char>,
}

/// The mathematical value of a [`Metadata`].
pub struct MetadataModel {
    pub bundle_identifier: Seq<char>,
    pub bundle_version: Seq<char>,
    pub kind: Seq<char>,
    pub title: Seq<char>,
}

/// The mathematical value of a [`PlistItem`].
pub struct PlistItemModel {
    pub assets: Seq<AssetModel>,
    pub metadata: MetadataModel,
}

/// The mathematical value of a [`PlistRoot`].
pub struct PlistRootModel {
    pub items: Seq<PlistItemModel>,
}

impl View for Asset {
    type V = AssetModel;

    open spec fn view(&self) -> AssetModel {
        AssetModel { kind: self.kind@, url: self.url@ }
    }
}

impl View for Metadata {
    type V = MetadataModel;

    open spec fn view(&self) -> MetadataModel {
        MetadataModel {
            bundle_identifier: self.bundle_identifier@,
            bundle_version: self.bundle_version@,
            kind: self.kind@,
            title: self.title@,
        }
    }
}

impl View for PlistItem {
    type V = PlistItemModel;

    open spec fn view(&self) -> PlistItemModel {
        PlistItemModel {
            assets: self.assets@.map_values(|asset: Asset| asset@),
            metadata: self.metadata@,
        }
    }
}

impl View for PlistRoot {
    type V = PlistRootModel;

    open spec fn view(&self) -> PlistRootModel {
        PlistRootModel { items: self.items@.map_values(|item: PlistItem| item@) }
    }
}

impl PlistRootModel {
    /// The shape that every generated manifest has: exactly one item with
    /// exactly one asset, and the two fixed kinds.
    pub open spec fn well_formed(self) -> bool {
        &&& self.items.len() == 1
        &&& self.items[0].assets.len() == 1
        &&& self.items[0].assets[0].kind == ASSET_KIND@
        &&& self.items[0].metadata.kind == METADATA_KIND@
    }
}

/// The manifest for the given four texts.
pub open spec fn manifest_of(query: PlistQueryModel) -> PlistRootModel {
    PlistRootModel {
        items: seq![
            PlistItemModel {
                assets: seq![AssetModel { kind: ASSET_KIND@, url: query.fetchurl }],
                metadata: MetadataModel {
                    bundle_identifier: query.bundleid,
                    bundle_version: query.version,
                    kind: METADATA_KIND@,
                    title: query.name,
                },
            },
        ],
    }
}

/// Builds the manifest for a request. Each of the four texts is taken
/// over as it is; the two kinds and the shape never depend on them.
pub fn generate_manifest(query: &PlistQuery) -> (root: PlistRoot)
    ensures
        root@ == manifest_of(query@),
        root@.well_formed(),
        root@.items[0].metadata.bundle_identifier == query@.bundleid,
        root@.items[0].metadata.bundle_version == query@.version,
        root@.items[0].metadata.title == query@.name,
        root@.items[0].assets[0].url == query@.fetchurl,
{
    let asset = Asset { kind: ASSET_KIND.to_owned(), url: query.fetchurl.clone() };
    let metadata = Metadata {
        bundle_identifier: query.bundleid.clone(),
        bundle_version: query.version.clone(),
        kind: METADATA_KIND.to_owned(),
        title: query.name.clone(),
    };
    let mut assets: Vec<Asset> = Vec::new();
    assets.push(asset);
    let item = PlistItem { assets, metadata };
    let mut items: Vec<PlistItem> = Vec::new();
    items.push(item);
    let root = PlistRoot { items };
    proof {
        assert(item@.assets =~= manifest_of(query@).items[0].assets);
        assert(root@.items =~= manifest_of(query@).items);
    }
    root
}

} // verus!
