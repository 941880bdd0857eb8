use vstd::prelude::*;
use crate::model::{XZMUAccount, XZMUM, XzmuError, AccountModel, StateModel, Fault, option_view, result_view};
use crate::model::NetConfigModel;
use crate::portal::{extract_login_url, redirect_target, lemma_probe_page_redirect, has_substring, CAPTIVE_MARKER, HREF_OPEN};
use crate::session::{parse_login_url, session_from_url};

verus! {

/// The state handed to the user interface, from the stored account and the
/// outcome of the redirect probe: the probe page's body, or its failure.
pub open spec fn bootstrap_outcome(account: Option<AccountModel>, probe: Result<Seq<char>, Fault>) -> Result<StateModel, Fault> {
    match probe {
        Err(f) => Err(f),
        Ok(body) => match redirect_target(body) {
            Err(f) => Err(f),
            Ok(url) => state_from_session(account, session_from_url(url)),
        },
    }
}

/// Combines the stored account with the session parameters that the probe
/// page leads to. Any failure of the probe, of the redirect or of the URL
/// fails the whole; no partial state is returned.
pub fn bootstrap_state(account: Option<XZMUAccount>, probe: Result<String, XzmuError>) -> (r: Result<XZMUM, XzmuError>)
    ensures
        result_view(r) == bootstrap_outcome(option_view(account), result_view(probe)),
        probe matches Err(e) ==> r == Err::<XZMUM, XzmuError>(e),
        r matches Ok(s) ==> s.account == account && s.config is Some,
{
    let body = match probe {
        Ok(b) => b,
        Err(e) => return Err(e),
    };
    let url = match extract_login_url(body.as_str()) {
        Ok(u) => u,
        Err(e) => return Err(e),
    };
    match parse_login_url(url.as_str()) {
        Ok(config) => Ok(XZMUM { account: account, config: Some(config) }),
        Err(e) => Err(e),
    }
}

/// The state that a captured probe page leads to: the stored account with
/// the session parameters of the redirect URL, or the failure to read them.
pub open spec fn state_from_session(account: Option<AccountModel>, session: Result<NetConfigModel, Fault>) -> Result<StateModel, Fault> {
    match session {
        Ok(config) => Ok(StateModel { account: account, config: Some(config) }),
        Err(f) => Err(f),
    }
}

/// A probe page that holds the captive marker, and whose first
/// `location.href="` is followed by the URL `u` and a closing quote on the
/// same line, starts the application with the stored account and the session
/// parameters that `u` carries.
pub proof fn lemma_probe_page_leads_to_session(
    account: Option<AccountModel>,
    body: Seq<char>,
    i: int,
    u: Seq<char>,
)
    requires
        has_substring(body, CAPTIVE_MARKER@),
        0 <= i,
        i + HREF_OPEN@.len() + u.len() < body.len(),
        body.subrange(i, i + HREF_OPEN@.len()) == HREF_OPEN@,
        body.subrange(i + HREF_OPEN@.len(), i + HREF_OPEN@.len() + u.len()) == u,
        body[i + HREF_OPEN@.len() + u.len()] == '"',
        forall|k: int| 0 <= k < u.len() ==> u[k] != '"' && u[k] != '\n',
        forall|m: int|
            0 <= m < i && m + HREF_OPEN@.len() <= body.len() ==> #[trigger] body.subrange(
                m,
                m + HREF_OPEN@.len(),
            ) != HREF_OPEN@,
    ensures
        bootstrap_outcome(account, Ok(body)) == state_from_session(account, session_from_url(u)),
{
    lemma_probe_page_redirect(body, i, u);
}

} // verus!
