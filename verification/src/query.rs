//! The four parameters of a manifest request, picked out of the decoded
//! key/value pairs of a query string.

use vstd::prelude::*;
use crate::error::Param;
use crate::error::RequestError;

verus! {

/// The four texts that a manifest is made from.
#[derive(Debug, Clone, PartialEq, Eq)]
pub struct PlistQuery {
    pub bundleid: String,
    pub name: String,
    pub version: String,
    pub fetchurl: String,
}

/// The mathematical value of a [`PlistQuery`].
pub struct PlistQueryModel {
    pub bundleid: Seq<char>,
    pub name: Seq<char>,
    pub version: Seq<char>,
    pub fetchurl: Seq<char>,
}

impl View for PlistQuery {
    type V = PlistQueryModel;

    open spec fn view(&self) -> PlistQueryModel {
        PlistQueryModel {
            bundleid: self.bundleid@,
            name: self.name@,
            version: self.version@,
            fetchurl: self.fetchurl@,
        }
    }
}

/// `actix_web::error::QueryPayloadError`, carried as it is: what the
/// decoder reports.
#[verifier::external_type_specification]
#[verifier::external_body]
pub struct ExQueryPayloadError(actix_web::error::QueryPayloadError);

/// The key/value pairs that `actix_web::web::Query::from_query` decodes
/// a query string into, in their order, or `None` where it reports an
/// error instead.
pub uninterp spec fn decoded_query(query: Seq<char>) -> Option<Seq<(Seq<char>, Seq<char>)>>;

/// The texts of a list of pairs of strings.
pub open spec fn pairs_model(pairs: Seq<(String, String)>) -> Seq<(Seq<char>, Seq<char>)> {
    pairs.map_values(|pair: (String, String)| (pair.0@, pair.1@))
}

/// `actix_web::web::Query::from_query` for a list of pairs of strings.
/// What it decodes, and whether it reports an error, depends on the
/// query string alone.
#[verifier::external_body]
fn decode_query(query: &str) -> (decoded: Result<
    Vec<(String, String)>,
    actix_web::error::QueryPayloadError,
>)
    ensures
        decoded matches Ok(pairs) ==> decoded_query(query@) == Some(pairs_model(pairs@)),
        decoded is Err ==> decoded_query(query@) is None,
{
    match actix_web::web::Query::<Vec<(String, String)>>::from_query(query) {
        Ok(found) => Ok(found.into_inner()),
        Err(error) => Err(error),
    }
}

/// The decoded pairs of a query string, or the error where the decoder
/// gives none.
pub open spec fn parsed_query(query: Seq<char>) -> Result<
    Seq<(Seq<char>, Seq<char>)>,
    RequestError,
> {
    match decoded_query(query) {
        Some(pairs) => Ok(pairs),
        None => Err(RequestError::MalformedQuery),
    }
}

/// Decodes a query string into its key/value pairs, in their order.
pub fn parse_query(query: &str) -> (parsed: Result<Vec<(String, String)>, RequestError>)
    ensures
        parsed matches Ok(pairs) ==> parsed_query(query@) matches Ok(decoded) && decoded
            == pairs_model(pairs@),
        parsed matches Err(error) ==> parsed_query(query@) matches Err(reason) && reason == error,
{
    match decode_query(query) {
        Ok(pairs) => Ok(pairs),
        Err(_) => Err(RequestError::MalformedQuery),
    }
}

/// Whether the pair at index `i` exists and has the given key.
pub open spec fn holds_key(pairs: Seq<(Seq<char>, Seq<char>)>, key: Seq<char>, i: int) -> bool {
    0 <= i < pairs.len() && pairs[i].0 == key
}

/// No pair has the key.
pub open spec fn is_absent(pairs: Seq<(Seq<char>, Seq<char>)>, key: Seq<char>) -> bool {
    forall|i: int| !holds_key(pairs, key, i)
}

/// Two pairs or more have the key.
pub open spec fn is_repeated(pairs: Seq<(Seq<char>, Seq<char>)>, key: Seq<char>) -> bool {
    exists|i: int, j: int| i != j && holds_key(pairs, key, i) && holds_key(pairs, key, j)
}

/// The index of a pair with the key; where exactly one pair has it, the
/// index of that pair.
pub open spec fn position(pairs: Seq<(Seq<char>, Seq<char>)>, key: Seq<char>) -> int {
    choose|i: int| holds_key(pairs, key, i)
}

/// How often a key occurs among pairs, as far as this library cares.
#[derive(Debug, Clone, Copy, PartialEq, Eq, Structural)]
pub enum Occurrence {
    /// No pair has the key.
    Absent,
    /// Exactly one pair has the key: the one at this index.
    Once(usize),
    /// Two pairs or more have the key.
    Repeated,
}

/// Looks a key up among the pairs.
pub fn find_key(pairs: &Vec<(String, String)>, key: &str) -> (found: Occurrence)
    ensures
        match found {
            Occurrence::Absent => is_absent(pairs_model(pairs@), key@),
            Occurrence::Repeated => is_repeated(pairs_model(pairs@), key@),
            Occurrence::Once(i) => {
                &&& !is_absent(pairs_model(pairs@), key@)
                &&& !is_repeated(pairs_model(pairs@), key@)
                &&& position(pairs_model(pairs@), key@) == i
                &&& i < pairs@.len()
            },
        },
{
    let ghost model = pairs_model(pairs@);
    let wanted = key.to_owned();
    let mut first: Option<usize> = None;
    let mut i: usize = 0;
    while i < pairs.len()
        invariant
            i <= pairs.len(),
            wanted@ == key@,
            model == pairs_model(pairs@),
            match first {
                None => forall|j: int| 0 <= j < i ==> !holds_key(model, key@, j),
                Some(f) => {
                    &&& f < i
                    &&& holds_key(model, key@, f as int)
                    &&& forall|j: int| 0 <= j < i && holds_key(model, key@, j) ==> j == f
                },
            },
        decreases pairs.len() - i,
    {
        if pairs[i].0 == wanted {
            match first {
                Some(f) => {
                    assert(holds_key(model, key@, f as int) && holds_key(model, key@, i as int));
                    return Occurrence::Repeated;
                },
                None => {
                    first = Some(i);
                },
            }
        }
        i += 1;
    }
    match first {
        None => Occurrence::Absent,
        Some(f) => Occurrence::Once(f),
    }
}

/// What is wrong about one parameter among the pairs, if anything is: it
/// is required, and it may occur only once.
pub open spec fn fault(pairs: Seq<(Seq<char>, Seq<char>)>, param: Param) -> Option<RequestError> {
    if is_absent(pairs, param.key()) {
        Some(RequestError::MissingParameter(param))
    } else if is_repeated(pairs, param.key()) {
        Some(RequestError::RepeatedParameter(param))
    } else {
        None
    }
}

/// The value that stands with a parameter's key.
pub open spec fn value_of(pairs: Seq<(Seq<char>, Seq<char>)>, param: Param) -> Seq<char> {
    pairs[position(pairs, param.key())].1
}

/// The four parameters of a request, picked out of its pairs. Each of
/// them must occur exactly once; its value may be empty. The first of
/// `bundleid`, `name`, `version`, `fetchurl` that does not decides the
/// error. Pairs with other keys are passed over.
pub open spec fn extracted(pairs: Seq<(Seq<char>, Seq<char>)>) -> Result<
    PlistQueryModel,
    RequestError,
> {
    if fault(pairs, Param::BundleId) is Some {
        Err(fault(pairs, Param::BundleId)->0)
    } else if fault(pairs, Param::Name) is Some {
        Err(fault(pairs, Param::Name)->0)
    } else if fault(pairs, Param::Version) is Some {
        Err(fault(pairs, Param::Version)->0)
    } else if fault(pairs, Param::FetchUrl) is Some {
        Err(fault(pairs, Param::FetchUrl)->0)
    } else {
        Ok(
            PlistQueryModel {
                bundleid: value_of(pairs, Param::BundleId),
                name: value_of(pairs, Param::Name),
                version: value_of(pairs, Param::Version),
                fetchurl: value_of(pairs, Param::FetchUrl),
            },
        )
    }
}

/// The value of one parameter, or what is wrong about it.
pub fn take_parameter(pairs: &Vec<(String, String)>, param: Param) -> (taken: Result<
    String,
    RequestError,
>)
    ensures
        taken matches Ok(text) ==> fault(pairs_model(pairs@), param) is None && text@ == value_of(
            pairs_model(pairs@),
            param,
        ),
        taken matches Err(error) ==> fault(pairs_model(pairs@), param) == Some(error),
{
    match find_key(pairs, param.name()) {
        Occurrence::Absent => Err(RequestError::MissingParameter(param)),
        Occurrence::Repeated => Err(RequestError::RepeatedParameter(param)),
        Occurrence::Once(i) => Ok(pairs[i].1.clone()),
    }
}

impl PlistQuery {
    /// Picks the four parameters out of the decoded pairs of a query
    /// string.
    pub fn from_pairs(pairs: &Vec<(String, String)>) -> (query: Result<PlistQuery, RequestError>)
        ensures
            query matches Ok(found) ==> extracted(pairs_model(pairs@)) matches Ok(texts) && texts
                == found@,
            query matches Err(error) ==> extracted(pairs_model(pairs@)) matches Err(reason)
                && reason == error,
    {
        let bundleid = match take_parameter(pairs, Param::BundleId) {
            Ok(text) => text,
            Err(error) => {
                return Err(error);
            },
        };
        let name = match take_parameter(pairs, Param::Name) {
            Ok(text) => text,
            Err(error) => {
                return Err(error);
            },
        };
        let version = match take_parameter(pairs, Param::Version) {
            Ok(text) => text,
            Err(error) => {
                return Err(error);
            },
        };
        let fetchurl = match take_parameter(pairs, Param::FetchUrl) {
            Ok(text) => text,
            Err(error) => {
                return Err(error);
            },
        };
        Ok(PlistQuery { bundleid, name, version, fetchurl })
    }
}

} // verus!
