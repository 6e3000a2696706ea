//! What holds of every manifest and of every answer.

use vstd::prelude::*;
use crate::error::Param;
use crate::manifest::manifest_of;
use crate::manifest::ASSET_KIND;
use crate::manifest::METADATA_KIND;
use crate::plist_doc::asset_node;
use crate::plist_doc::encoded_manifest;
use crate::plist_doc::item_node;
use crate::plist_doc::manifest_node;
use crate::plist_doc::xml_encoding;
use crate::plist_doc::PlistNode;
use crate::query::extracted;
use crate::query::fault;
use crate::query::is_absent;
use crate::query::is_repeated;
use crate::query::parsed_query;
use crate::query::PlistQuery;
use crate::query::PlistQueryModel;
use crate::response::JSON_CONTENT_TYPE;
use crate::response::PLIST_CONTENT_TYPE;
use crate::response::STATUS_BAD_REQUEST;
use crate::response::STATUS_OK;
use crate::service::manifest_response;
use crate::service::pairs_response;
use crate::service::plist_response;
use crate::service::status_response;
use crate::status::json_encoding;
use crate::status::status_document;

verus! {

/// The manifest of a request holds each of the four texts as it was
/// given: the bundle identifier, the version, the name as the title, and
/// the address as the url of the asset.
pub proof fn manifest_keeps_the_texts(query: PlistQueryModel)
    ensures
        manifest_of(query).items[0].metadata.bundle_identifier == query.bundleid,
        manifest_of(query).items[0].metadata.bundle_version == query.version,
        manifest_of(query).items[0].metadata.title == query.name,
        manifest_of(query).items[0].assets[0].url == query.fetchurl,
{
}

/// Whatever the request, the asset is a `software-package` and the
/// metadata describe `software`.
pub proof fn manifest_kinds_are_fixed(query: PlistQueryModel)
    ensures
        manifest_of(query).items[0].assets[0].kind == ASSET_KIND@,
        manifest_of(query).items[0].metadata.kind == METADATA_KIND@,
        ASSET_KIND@ == "software-package"@,
        METADATA_KIND@ == "software"@,
{
}

/// Whatever the request, the manifest has exactly one item, and the item
/// exactly one asset.
pub proof fn manifest_has_one_item_one_asset(query: PlistQueryModel)
    ensures
        manifest_of(query).items.len() == 1,
        manifest_of(query).items[0].assets.len() == 1,
        manifest_of(query).well_formed(),
{
}

/// The property list that is handed to the encoder, written out: the
/// same keys in the same order for every request, with the four texts
/// in their places.
pub proof fn manifest_document_is(query: PlistQueryModel)
    ensures
        manifest_node(manifest_of(query)) == PlistNode::Dictionary(
            seq![
                (
                    "items"@,
                    PlistNode::Array(
                        seq![
                            PlistNode::Dictionary(
                                seq![
                                    (
                                        "assets"@,
                                        PlistNode::Array(
                                            seq![
                                                PlistNode::Dictionary(
                                                    seq![
                                                        ("kind"@, PlistNode::Text("software-package"@)),
                                                        ("url"@, PlistNode::Text(query.fetchurl)),
                                                    ],
                                                ),
                                            ],
                                        ),
                                    ),
                                    (
                                        "metadata"@,
                                        PlistNode::Dictionary(
                                            seq![
                                                ("bundle-identifier"@, PlistNode::Text(query.bundleid)),
                                                ("bundle-version"@, PlistNode::Text(query.version)),
                                                ("kind"@, PlistNode::Text("software"@)),
                                                ("title"@, PlistNode::Text(query.name)),
                                            ],
                                        ),
                                    ),
                                ],
                            ),
                        ],
                    ),
                ),
            ],
        ),
{
    let root = manifest_of(query);
    let item = root.items[0];
    assert(item.assets.map_values(|asset| asset_node(asset)) =~= seq![
        asset_node(item.assets[0]),
    ]);
    assert(root.items.map_values(|item| item_node(item)) =~= seq![
        item_node(item),
    ]);
}

/// Two requests with the same four texts get the same answer, byte for
/// byte.
pub proof fn same_texts_same_answer(first: PlistQuery, second: PlistQuery)
    requires
        first@ == second@,
    ensures
        manifest_of(first@) == manifest_of(second@),
        encoded_manifest(manifest_of(first@)) == encoded_manifest(manifest_of(second@)),
        manifest_response(first@) == manifest_response(second@),
{
}

/// Two requests with the same query string get the same answer, byte for
/// byte.
pub proof fn same_query_same_answer(first: Seq<char>, second: Seq<char>)
    requires
        first == second,
    ensures
        plist_response(first) == plist_response(second),
{
}

/// A request whose pairs lack one of the four parameters is answered
/// with status 400, whatever else they hold.
pub proof fn missing_parameter_is_bad_request(pairs: Seq<(Seq<char>, Seq<char>)>, param: Param)
    requires
        is_absent(pairs, param.key()),
    ensures
        pairs_response(pairs).status == STATUS_BAD_REQUEST,
        pairs_response(pairs).status != STATUS_OK,
        extracted(pairs) is Err,
{
}

/// A query string is answered with status 400 where it cannot be decoded,
/// and where one of the four parameters is not among its decoded pairs.
pub proof fn incomplete_query_is_bad_request(query: Seq<char>, param: Param)
    ensures
        parsed_query(query) is Err ==> plist_response(query).status == STATUS_BAD_REQUEST,
        parsed_query(query) matches Ok(pairs) && is_absent(pairs, param.key()) ==> plist_response(
            query,
        ).status == STATUS_BAD_REQUEST,
{
    if let Ok(pairs) = parsed_query(query) {
        if is_absent(pairs, param.key()) {
            missing_parameter_is_bad_request(pairs, param);
        }
    }
}

/// The four parameters are found exactly when each of them occurs once
/// among the pairs. What their values are plays no part: an empty value
/// is a value.
pub proof fn found_exactly_when_each_occurs_once(pairs: Seq<(Seq<char>, Seq<char>)>)
    ensures
        extracted(pairs) is Ok <==> (forall|param: Param|
            !is_absent(pairs, #[trigger] param.key()) && !is_repeated(pairs, param.key())),
{
    if extracted(pairs) is Ok {
        assert forall|param: Param|
            !is_absent(pairs, #[trigger] param.key()) && !is_repeated(pairs, param.key()) by {
            assert(fault(pairs, param) is None);
        }
    } else {
        let param = if fault(pairs, Param::BundleId) is Some {
            Param::BundleId
        } else if fault(pairs, Param::Name) is Some {
            Param::Name
        } else if fault(pairs, Param::Version) is Some {
            Param::Version
        } else {
            Param::FetchUrl
        };
        assert(fault(pairs, param) is Some);
    }
}

/// A request is answered with status 200 exactly when the four
/// parameters are found and the encoder gives the bytes of the manifest.
/// The answer then is a property list, and its body those bytes.
pub proof fn manifest_answer_is_ok_exactly_when(pairs: Seq<(Seq<char>, Seq<char>)>)
    ensures
        pairs_response(pairs).status == STATUS_OK <==> extracted(pairs) is Ok && xml_encoding(
            manifest_node(manifest_of(extracted(pairs)->Ok_0)),
        ) is Some,
        pairs_response(pairs).status == STATUS_OK ==> pairs_response(pairs).content_type
            == PLIST_CONTENT_TYPE@ && pairs_response(pairs).body == xml_encoding(
            manifest_node(manifest_of(extracted(pairs)->Ok_0)),
        )->0,
{
}

/// The description of the service is always answered with status 200,
/// as JSON, with the encoder's bytes for the one fixed document. No part
/// of a request goes into it.
pub proof fn status_answer_is_fixed()
    ensures
        status_response().status == STATUS_OK,
        status_response().content_type == JSON_CONTENT_TYPE@,
        status_response().body == json_encoding(status_document()),
{
}

} // verus!
