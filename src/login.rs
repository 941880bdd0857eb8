use vstd::prelude::*;
use crate::model::{XZMUAccount, XZMUNetConfig, AccountModel, NetConfigModel};

verus! {

/// The portal host, sent as the referer of the login request.
pub const PORTAL_REFERER: &'static str = "http://10.1.0.212/";

/// Login endpoint with the callback, the login method and the account's prefix.
pub const LOGIN_URL_HEAD: &'static str = "http://10.1.0.212:801/eportal/portal/login?callback=dr1003&login_method=1&user_account=,0,";

pub const PASSWORD_FIELD: &'static str = "&user_password=";

pub const USER_IP_FIELD: &'static str = "&wlan_user_ip=";

/// The IPv6 address, always empty, and the MAC address's key.
pub const USER_MAC_FIELD: &'static str = "&wlan_user_ipv6=&wlan_user_mac=";

pub const AC_IP_FIELD: &'static str = "&wlan_ac_ip=";

pub const AC_NAME_FIELD: &'static str = "&wlan_ac_name=";

/// The protocol constants that close the login query.
pub const LOGIN_URL_TAIL: &'static str = "&jsVersion=4.2&terminal_type=1&lang=zh-cn&v=2833&lang=zh";

/// `s` with every hyphen taken out, the other characters kept in order.
pub open spec fn without_hyphens(s: Seq<char>) -> Seq<char>
    decreases s.len(),
{
    if s.len() == 0 {
        Seq::empty()
    } else if s.last() == '-' {
        without_hyphens(s.drop_last())
    } else {
        without_hyphens(s.drop_last()).push(s.last())
    }
}

/// The `application/x-www-form-urlencoded` form of the UTF-8 bytes of `s`.
pub uninterp spec fn form_encoded(s: Seq<char>) -> Seq<char>;

/// A character that form encoding keeps as it is.
pub open spec fn form_unchanged_char(c: char) -> bool {
    c == '*' || c == '-' || c == '.' || c == '_' || ('0' <= c && c <= '9') || ('A' <= c && c <= 'Z')
        || ('a' <= c && c <= 'z')
}

/// A character that can stand in a form-encoded text: a kept character,
/// `+` for a space, or `%` before two hexadecimal digits.
pub open spec fn form_output_char(c: char) -> bool {
    form_unchanged_char(c) || c == '+' || c == '%'
}

/// What the encoding of `v` is known to be: made of characters that end no
/// query field (no `&`, `=` or `#`), and `v` itself where `v` holds only
/// characters that encoding keeps.
pub open spec fn encoding_known(v: Seq<char>) -> bool {
    &&& forall|i: int| 0 <= i < form_encoded(v).len() ==> form_output_char(#[trigger] form_encoded(v)[i])
    &&& (forall|i: int| 0 <= i < v.len() ==> form_unchanged_char(#[trigger] v[i])) ==> form_encoded(v) == v
}

/// Relies on `url::form_urlencoded::byte_serialize`, which passes the bytes
/// of `*-._`, digits and ASCII letters through, writes a space as `+` and
/// any other byte as `%` and two hexadecimal digits.
#[verifier::external_body]
fn form_encode(s: &str) -> (r: String)
    ensures
        r@ == form_encoded(s@),
        forall|i: int| 0 <= i < r@.len() ==> form_output_char(#[trigger] r@[i]),
        (forall|i: int| 0 <= i < s@.len() ==> form_unchanged_char(#[trigger] s@[i])) ==> r@ == s@,
{
    url::form_urlencoded::byte_serialize(s.as_bytes()).collect()
}

/// The login URL for an account in a session; every value is form-encoded,
/// the MAC address after its separators are taken out.
pub open spec fn login_url(account: AccountModel, config: NetConfigModel) -> Seq<char> {
    LOGIN_URL_HEAD@ + form_encoded(account.username) + PASSWORD_FIELD@ + form_encoded(
        account.password,
    ) + USER_IP_FIELD@ + form_encoded(config.user_ip) + USER_MAC_FIELD@ + form_encoded(
        without_hyphens(config.user_mac),
    ) + AC_IP_FIELD@ + form_encoded(config.ac_ip) + AC_NAME_FIELD@ + form_encoded(config.ac_name)
        + LOGIN_URL_TAIL@
}

/// Writes a MAC address without its separators, as the login endpoint wants it.
pub fn normalize_mac(mac: &str) -> (r: String)
    ensures
        r@ == without_hyphens(mac@),
{
    let n = mac.unicode_len();
    let mut out = String::new();
    let mut i: usize = 0;
    while i < n
        invariant
            n == mac@.len(),
            i <= n,
            out@ == without_hyphens(mac@.take(i as int)),
        decreases n - i,
    {
        proof {
            assert(mac@.take(i + 1).drop_last() =~= mac@.take(i as int));
        }
        let c = mac.get_char(i);
        if c != '-' {
            let one = mac.substring_char(i, i + 1);
            proof {
                assert(one@ =~= seq![c]);
            }
            out.append(one);
            proof {
                assert(out@ =~= without_hyphens(mac@.take(i + 1)));
            }
        }
        i = i + 1;
    }
    proof {
        assert(mac@.take(n as int) =~= mac@);
    }
    out
}

/// Composes the login URL from the account and the session parameters, each
/// value form-encoded so that none can end its field or add another.
pub fn build_login_url(account: &XZMUAccount, config: &XZMUNetConfig) -> (r: String)
    ensures
        r@ == login_url(account@, config@),
        encoding_known(account.username@),
        encoding_known(account.password@),
        encoding_known(config.wlan_user_ip@),
        encoding_known(without_hyphens(config.wlan_user_mac@)),
        encoding_known(config.wlan_ac_ip@),
        encoding_known(config.wlan_ac_name@),
{
    let mut url = String::from_str(LOGIN_URL_HEAD);
    let value = form_encode(account.username.as_str());
    url.append(value.as_str());
    url.append(PASSWORD_FIELD);
    let value = form_encode(account.password.as_str());
    url.append(value.as_str());
    url.append(USER_IP_FIELD);
    let value = form_encode(config.wlan_user_ip.as_str());
    url.append(value.as_str());
    url.append(USER_MAC_FIELD);
    let mac = normalize_mac(config.wlan_user_mac.as_str());
    let value = form_encode(mac.as_str());
    url.append(value.as_str());
    url.append(AC_IP_FIELD);
    let value = form_encode(config.wlan_ac_ip.as_str());
    url.append(value.as_str());
    url.append(AC_NAME_FIELD);
    let value = form_encode(config.wlan_ac_name.as_str());
    url.append(value.as_str());
    url.append(LOGIN_URL_TAIL);
    url
}

} // verus!
