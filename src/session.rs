use vstd::prelude::*;
use crate::model::{XZMUNetConfig, XzmuError, NetConfigModel, Fault, option_view, result_view};

verus! {

/// Query key of the client's IP address.
pub const USER_IP_KEY: &'static str = "wlanuserip";

/// Query key of the client's MAC address.
pub const USER_MAC_KEY: &'static str = "wlanusermac";

/// Query key of the gateway's IP address.
pub const AC_IP_KEY: &'static str = "wlanacip";

/// Query key of the gateway's name.
pub const AC_NAME_KEY: &'static str = "wlanacname";

/// Whether `url::Url::parse` accepts the text.
pub uninterp spec fn url_parses(url: Seq<char>) -> bool;

/// The decoded name/value pairs of the query of a URL that parses, in order.
pub uninterp spec fn query_pairs_of(url: Seq<char>) -> Seq<(Seq<char>, Seq<char>)>;

pub open spec fn pairs_view(v: Seq<(String, String)>) -> Seq<(Seq<char>, Seq<char>)> {
    v.map_values(|p: (String, String)| (p.0@, p.1@))
}

/// The value of `key` among the pairs; where a key occurs more than once,
/// the last occurrence wins.
pub open spec fn query_value(pairs: Seq<(Seq<char>, Seq<char>)>, key: Seq<char>) -> Option<Seq<char>>
    decreases pairs.len(),
{
    if pairs.len() == 0 {
        None
    } else if pairs.last().0 == key {
        Some(pairs.last().1)
    } else {
        query_value(pairs.drop_last(), key)
    }
}

/// The session parameters that a query holds, or the first required key
/// that it lacks.
pub open spec fn session_from_pairs(pairs: Seq<(Seq<char>, Seq<char>)>) -> Result<NetConfigModel, Fault> {
    match (
        query_value(pairs, USER_IP_KEY@),
        query_value(pairs, USER_MAC_KEY@),
        query_value(pairs, AC_IP_KEY@),
        query_value(pairs, AC_NAME_KEY@),
    ) {
        (None, _, _, _) => Err(Fault::MissingParameter(USER_IP_KEY@)),
        (Some(_), None, _, _) => Err(Fault::MissingParameter(USER_MAC_KEY@)),
        (Some(_), Some(_), None, _) => Err(Fault::MissingParameter(AC_IP_KEY@)),
        (Some(_), Some(_), Some(_), None) => Err(Fault::MissingParameter(AC_NAME_KEY@)),
        (Some(ip), Some(mac), Some(ac_ip), Some(ac_name)) => Ok(
            NetConfigModel { user_ip: ip, user_mac: mac, ac_ip: ac_ip, ac_name: ac_name },
        ),
    }
}

/// The session parameters of a redirect URL.
pub open spec fn session_from_url(url: Seq<char>) -> Result<NetConfigModel, Fault> {
    if url_parses(url) {
        session_from_pairs(query_pairs_of(url))
    } else {
        Err(Fault::MalformedUrl)
    }
}

#[verifier::external_type_specification]
#[verifier::external_body]
pub struct ExUrlParseError(url::ParseError);

/// Relies on `url::Url::parse`, which accepts or refuses the text, and on
/// `url::Url::query_pairs`, which yields the percent-decoded pairs of the query.
#[verifier::external_body]
fn url_query_pairs(url: &str) -> (r: Result<Vec<(String, String)>, url::ParseError>)
    ensures
        r is Ok <==> url_parses(url@),
        r matches Ok(v) ==> pairs_view(v@) == query_pairs_of(url@),
{
    url::Url::parse(url).map(
        |u| u.query_pairs().map(|(k, v)| (k.into_owned(), v.into_owned())).collect(),
    )
}

/// Relies on the `Display` impl of `url::ParseError` for its message.
#[verifier::external_body]
fn url_error_message(e: &url::ParseError) -> (r: String) {
    e.to_string()
}

/// Looks `key` up among the pairs, the last occurrence winning.
pub fn query_lookup(pairs: &Vec<(String, String)>, key: &str) -> (r: Option<String>)
    ensures
        option_view(r) == query_value(pairs_view(pairs@), key@),
{
    let ghost pv = pairs_view(pairs@);
    let k = String::from_str(key);
    let mut found: Option<String> = None;
    let mut i: usize = 0;
    while i < pairs.len()
        invariant
            i <= pairs.len(),
            pv == pairs_view(pairs@),
            k@ == key@,
            option_view(found) == query_value(pv.take(i as int), key@),
        decreases pairs.len() - i,
    {
        proof {
            assert(pv.take(i + 1).drop_last() =~= pv.take(i as int));
            assert(pv.take(i + 1).last() == pv[i as int]);
        }
        if pairs[i].0 == k {
            found = Some(pairs[i].1.clone());
        }
        i = i + 1;
    }
    proof {
        assert(pv.take(i as int) =~= pv);
    }
    found
}

/// Reads the four session parameters out of the query pairs of a redirect URL.
pub fn session_from_query(pairs: &Vec<(String, String)>) -> (r: Result<XZMUNetConfig, XzmuError>)
    ensures
        result_view(r) == session_from_pairs(pairs_view(pairs@)),
{
    let ip = match query_lookup(pairs, USER_IP_KEY) {
        Some(v) => v,
        None => return Err(XzmuError::MissingParameter(String::from_str(USER_IP_KEY))),
    };
    let mac = match query_lookup(pairs, USER_MAC_KEY) {
        Some(v) => v,
        None => return Err(XzmuError::MissingParameter(String::from_str(USER_MAC_KEY))),
    };
    let ac_ip = match query_lookup(pairs, AC_IP_KEY) {
        Some(v) => v,
        None => return Err(XzmuError::MissingParameter(String::from_str(AC_IP_KEY))),
    };
    let ac_name = match query_lookup(pairs, AC_NAME_KEY) {
        Some(v) => v,
        None => return Err(XzmuError::MissingParameter(String::from_str(AC_NAME_KEY))),
    };
    Ok(XZMUNetConfig { wlan_user_ip: ip, wlan_user_mac: mac, wlan_ac_ip: ac_ip, wlan_ac_name: ac_name })
}

/// Reads the session parameters out of the portal's redirect URL.
pub fn parse_login_url(url: &str) -> (r: Result<XZMUNetConfig, XzmuError>)
    ensures
        result_view(r) == session_from_url(url@),
{
    match url_query_pairs(url) {
        Ok(pairs) => session_from_query(&pairs),
        Err(e) => Err(XzmuError::MalformedUrl(url_error_message(&e))),
    }
}

/// A redirect URL whose query holds all four required keys yields session
/// parameters equal to the values the query gives for them.
pub proof fn lemma_complete_query_extracts(url: Seq<char>)
    requires
        url_parses(url),
        query_value(query_pairs_of(url), USER_IP_KEY@) is Some,
        query_value(query_pairs_of(url), USER_MAC_KEY@) is Some,
        query_value(query_pairs_of(url), AC_IP_KEY@) is Some,
        query_value(query_pairs_of(url), AC_NAME_KEY@) is Some,
    ensures
        session_from_url(url) == Ok::<NetConfigModel, Fault>(
            NetConfigModel {
                user_ip: query_value(query_pairs_of(url), USER_IP_KEY@)->0,
                user_mac: query_value(query_pairs_of(url), USER_MAC_KEY@)->0,
                ac_ip: query_value(query_pairs_of(url), AC_IP_KEY@)->0,
                ac_name: query_value(query_pairs_of(url), AC_NAME_KEY@)->0,
            },
        ),
{
}

/// A redirect URL whose query lacks exactly one of the four required keys
/// fails with a missing parameter that names that key.
pub proof fn lemma_missing_key_is_named(url: Seq<char>, key: Seq<char>)
    requires
        url_parses(url),
        key == USER_IP_KEY@ || key == USER_MAC_KEY@ || key == AC_IP_KEY@ || key == AC_NAME_KEY@,
        query_value(query_pairs_of(url), key) is None,
        key != USER_IP_KEY@ ==> query_value(query_pairs_of(url), USER_IP_KEY@) is Some,
        key != USER_MAC_KEY@ ==> query_value(query_pairs_of(url), USER_MAC_KEY@) is Some,
        key != AC_IP_KEY@ ==> query_value(query_pairs_of(url), AC_IP_KEY@) is Some,
        key != AC_NAME_KEY@ ==> query_value(query_pairs_of(url), AC_NAME_KEY@) is Some,
    ensures
        session_from_url(url) == Err::<NetConfigModel, Fault>(Fault::MissingParameter(key)),
{
}

} // verus!
