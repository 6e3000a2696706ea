use genplist::error::Param;
use genplist::error::RequestError;
use genplist::query::find_key;
use genplist::query::parse_query;
use genplist::query::take_parameter;
use genplist::query::Occurrence;
use genplist::query::PlistQuery;

fn pairs_of(pairs: &[(&str, &str)]) -> Vec<(String, String)> {
    pairs.iter().map(|(key, value)| (key.to_string(), value.to_string())).collect()
}

fn complete_pairs() -> Vec<(String, String)> {
    pairs_of(&[
        ("bundleid", "com.example.app"),
        ("name", "MyApp"),
        ("version", "1.2.3"),
        ("fetchurl", "https://example.com/app.ipa"),
    ])
}

#[test]
fn param_names_are_the_query_keys() {
    assert_eq!(Param::BundleId.name(), "bundleid");
    assert_eq!(Param::Name.name(), "name");
    assert_eq!(Param::Version.name(), "version");
    assert_eq!(Param::FetchUrl.name(), "fetchurl");
}

#[test]
fn parse_query_splits_into_pairs_in_order() {
    assert_eq!(
        parse_query("bundleid=com.example.app&name=MyApp&version=1.2.3"),
        Ok(pairs_of(&[("bundleid", "com.example.app"), ("name", "MyApp"), ("version", "1.2.3")]))
    );
    assert_eq!(parse_query("b=2&a=1&b=3"), Ok(pairs_of(&[("b", "2"), ("a", "1"), ("b", "3")])));
}

#[test]
fn parse_query_of_nothing_is_no_pair() {
    assert_eq!(parse_query(""), Ok(Vec::new()));
}

#[test]
fn parse_query_decodes_escapes() {
    assert_eq!(parse_query("name=My%20App"), Ok(pairs_of(&[("name", "My App")])));
    assert_eq!(parse_query("name=My+App"), Ok(pairs_of(&[("name", "My App")])));
    assert_eq!(
        parse_query("fetchurl=https%3A%2F%2Fexample.com%2Fapp.ipa%3Fa%3D1%26b%3D2"),
        Ok(pairs_of(&[("fetchurl", "https://example.com/app.ipa?a=1&b=2")]))
    );
    assert_eq!(parse_query("n%61me=x"), Ok(pairs_of(&[("name", "x")])));
}

#[test]
fn parse_query_keeps_empty_values() {
    assert_eq!(
        parse_query("bundleid=&name=&version=&fetchurl="),
        Ok(pairs_of(&[("bundleid", ""), ("name", ""), ("version", ""), ("fetchurl", "")]))
    );
    assert_eq!(parse_query("name"), Ok(pairs_of(&[("name", "")])));
}

#[test]
fn find_key_tells_absent_once_and_repeated() {
    let pairs = pairs_of(&[("a", "1"), ("b", "2"), ("a", "3"), ("c", "4")]);
    assert_eq!(find_key(&pairs, "a"), Occurrence::Repeated);
    assert_eq!(find_key(&pairs, "b"), Occurrence::Once(1));
    assert_eq!(find_key(&pairs, "c"), Occurrence::Once(3));
    assert_eq!(find_key(&pairs, "d"), Occurrence::Absent);
    assert_eq!(find_key(&pairs, ""), Occurrence::Absent);
    assert_eq!(find_key(&Vec::new(), "a"), Occurrence::Absent);
}

#[test]
fn find_key_compares_whole_keys() {
    let pairs = pairs_of(&[("names", "1"), ("Name", "2"), ("nam", "3"), ("name", "4")]);
    assert_eq!(find_key(&pairs, "name"), Occurrence::Once(3));
}

#[test]
fn take_parameter_gives_the_value() {
    let pairs = complete_pairs();
    assert_eq!(take_parameter(&pairs, Param::BundleId), Ok("com.example.app".to_string()));
    assert_eq!(take_parameter(&pairs, Param::Name), Ok("MyApp".to_string()));
    assert_eq!(take_parameter(&pairs, Param::Version), Ok("1.2.3".to_string()));
    assert_eq!(
        take_parameter(&pairs, Param::FetchUrl),
        Ok("https://example.com/app.ipa".to_string())
    );
}

#[test]
fn take_parameter_names_what_is_wrong() {
    let pairs = pairs_of(&[("name", "a"), ("name", "b"), ("version", "1")]);
    assert_eq!(
        take_parameter(&pairs, Param::BundleId),
        Err(RequestError::MissingParameter(Param::BundleId))
    );
    assert_eq!(
        take_parameter(&pairs, Param::Name),
        Err(RequestError::RepeatedParameter(Param::Name))
    );
    assert_eq!(take_parameter(&pairs, Param::Version), Ok("1".to_string()));
}

#[test]
fn from_pairs_finds_the_four_parameters() {
    assert_eq!(
        PlistQuery::from_pairs(&complete_pairs()),
        Ok(PlistQuery {
            bundleid: "com.example.app".to_string(),
            name: "MyApp".to_string(),
            version: "1.2.3".to_string(),
            fetchurl: "https://example.com/app.ipa".to_string(),
        })
    );
}

#[test]
fn from_pairs_does_not_mind_the_order_nor_other_keys() {
    let pairs = pairs_of(&[
        ("extra", "x"),
        ("fetchurl", "u"),
        ("version", "v"),
        ("other", "y"),
        ("name", "n"),
        ("bundleid", "b"),
        ("extra", "z"),
    ]);
    assert_eq!(
        PlistQuery::from_pairs(&pairs),
        Ok(PlistQuery {
            bundleid: "b".to_string(),
            name: "n".to_string(),
            version: "v".to_string(),
            fetchurl: "u".to_string(),
        })
    );
}

#[test]
fn from_pairs_accepts_empty_values() {
    let pairs = pairs_of(&[("bundleid", ""), ("name", ""), ("version", ""), ("fetchurl", "")]);
    assert_eq!(
        PlistQuery::from_pairs(&pairs),
        Ok(PlistQuery {
            bundleid: String::new(),
            name: String::new(),
            version: String::new(),
            fetchurl: String::new(),
        })
    );
}

#[test]
fn from_pairs_reports_each_missing_parameter() {
    let all = complete_pairs();
    let params = [Param::BundleId, Param::Name, Param::Version, Param::FetchUrl];
    for (index, param) in params.iter().enumerate() {
        let mut pairs = all.clone();
        pairs.remove(index);
        assert_eq!(PlistQuery::from_pairs(&pairs), Err(RequestError::MissingParameter(*param)));
    }
}

#[test]
fn from_pairs_reports_a_repeated_parameter() {
    let mut pairs = complete_pairs();
    pairs.push(("version".to_string(), "2.0".to_string()));
    assert_eq!(
        PlistQuery::from_pairs(&pairs),
        Err(RequestError::RepeatedParameter(Param::Version))
    );
}

#[test]
fn from_pairs_reports_the_first_parameter_at_fault() {
    assert_eq!(
        PlistQuery::from_pairs(&Vec::new()),
        Err(RequestError::MissingParameter(Param::BundleId))
    );
    let pairs = pairs_of(&[("bundleid", "b"), ("version", "1"), ("version", "2")]);
    assert_eq!(PlistQuery::from_pairs(&pairs), Err(RequestError::MissingParameter(Param::Name)));
    let pairs = pairs_of(&[("bundleid", "b"), ("name", "n"), ("version", "1"), ("version", "2")]);
    assert_eq!(
        PlistQuery::from_pairs(&pairs),
        Err(RequestError::RepeatedParameter(Param::Version))
    );
}
