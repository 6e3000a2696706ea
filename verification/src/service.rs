//! The two answers of the service: the manifest for a query string, and
//! the description of the service.

use vstd::prelude::*;
use crate::manifest::generate_manifest;
use crate::manifest::manifest_of;
use crate::plist_doc::encode_manifest;
use crate::plist_doc::encoded_manifest;
use crate::query::extracted;
use crate::query::pairs_model;
use crate::query::parse_query;
use crate::query::parsed_query;
use crate::query::PlistQuery;
use crate::query::PlistQueryModel;
use crate::response::document;
use crate::response::failure;
use crate::response::Response;
use crate::response::ResponseModel;
use crate::response::JSON_CONTENT_TYPE;
use crate::response::PLIST_CONTENT_TYPE;
use crate::response::STATUS_OK;
use crate::status::encode_status;
use crate::status::encoded_status;
use crate::status::json_encoding;
use crate::status::status_document;

verus! {

/// The answer to a manifest request with the given four texts: the
/// encoded manifest as a property list, or the answer to the encoder's
/// failure.
pub open spec fn manifest_response(query: PlistQueryModel) -> ResponseModel {
    document(PLIST_CONTENT_TYPE@, encoded_manifest(manifest_of(query)))
}

/// The answer to a manifest request whose query string was decoded into
/// the given pairs.
pub open spec fn pairs_response(pairs: Seq<(Seq<char>, Seq<char>)>) -> ResponseModel {
    match extracted(pairs) {
        Ok(query) => manifest_response(query),
        Err(error) => failure(error),
    }
}

/// The answer to a manifest request with the given query string.
pub open spec fn plist_response(query: Seq<char>) -> ResponseModel {
    match parsed_query(query) {
        Ok(pairs) => pairs_response(pairs),
        Err(error) => failure(error),
    }
}

/// The answer to a request for the description of the service: status
/// 200, and the encoded description as JSON.
pub open spec fn status_response() -> ResponseModel {
    ResponseModel {
        status: STATUS_OK as int,
        content_type: JSON_CONTENT_TYPE@,
        body: encoded_status(),
    }
}

/// Answers a manifest request with the given four texts.
pub fn respond_to_query(query: &PlistQuery) -> (response: Response)
    ensures
        response@ == manifest_response(query@),
{
    let root = generate_manifest(query);
    Response::document(PLIST_CONTENT_TYPE, encode_manifest(&root))
}

/// Answers a manifest request whose query string was decoded into the
/// given pairs. No manifest is built unless each of the four parameters
/// occurs exactly once.
pub fn respond_to_pairs(pairs: &Vec<(String, String)>) -> (response: Response)
    ensures
        response@ == pairs_response(pairs_model(pairs@)),
{
    match PlistQuery::from_pairs(pairs) {
        Ok(query) => respond_to_query(&query),
        Err(error) => Response::failure(error),
    }
}

/// Answers a manifest request with the given query string (what stands
/// behind the `?` of the request's address).
pub fn generate_plist(query: &str) -> (response: Response)
    ensures
        response@ == plist_response(query@),
{
    match parse_query(query) {
        Ok(pairs) => respond_to_pairs(&pairs),
        Err(error) => Response::failure(error),
    }
}

/// Answers a request for the description of the service, always with
/// status 200 and the same document. Nothing of the request goes into
/// the answer.
pub fn status() -> (response: Response)
    ensures
        response@ == status_response(),
        response.status == STATUS_OK,
        response.content_type@ == JSON_CONTENT_TYPE@,
        response.body@ == json_encoding(status_document()),
{
    Response::document(JSON_CONTENT_TYPE, encode_status())
}

} // verus!
