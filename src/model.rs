use vstd::prelude::*;

verus! {

/// A user's login pair.
#[derive(Debug, Clone, PartialEq, Eq)]
pub struct XZMUAccount {
    pub username: String,
    pub password: String,
}

/// The gateway's per-session identifiers, read from the portal redirect.
#[derive(Debug, Clone, PartialEq, Eq)]
pub struct XZMUNetConfig {
    pub wlan_user_ip: String,
    pub wlan_user_mac: String,
    pub wlan_ac_ip: String,
    pub wlan_ac_name: String,
}

/// What a start of the application hands to the user interface.
#[derive(Debug, Clone, PartialEq, Eq)]
pub struct XZMUM {
    pub account: Option<XZMUAccount>,
    pub config: Option<XZMUNetConfig>,
}

/// The errors of the login protocol. Where a variant holds a `String`
/// beside a kind, it is the message of the failure that caused it.
#[derive(Debug, Clone, PartialEq, Eq)]
pub enum XzmuError {
    MalformedUrl(String),
    MissingParameter(String),
    ProbeFailed(String),
    NotCaptive,
    RedirectNotFound,
    RequestFailed(String),
    ResponseReadError(String),
    ConfigReadError(String),
    ConfigWriteError(String),
}

/// Mathematical view of an account.
pub struct AccountModel {
    pub username: Seq<char>,
    pub password: Seq<char>,
}

/// Mathematical view of the session parameters.
pub struct NetConfigModel {
    pub user_ip: Seq<char>,
    pub user_mac: Seq<char>,
    pub ac_ip: Seq<char>,
    pub ac_name: Seq<char>,
}

/// Mathematical view of the bootstrap state.
pub struct StateModel {
    pub account: Option<AccountModel>,
    pub config: Option<NetConfigModel>,
}

/// The kind of an error, with the parameter name that a missing parameter
/// names; accompanying messages are left out.
pub enum Fault {
    MalformedUrl,
    MissingParameter(Seq<char>),
    ProbeFailed,
    NotCaptive,
    RedirectNotFound,
    RequestFailed,
    ResponseReadError,
    ConfigReadError,
    ConfigWriteError,
}

impl View for XZMUAccount {
    type V = AccountModel;

    open spec fn view(&self) -> AccountModel {
        AccountModel { username: self.username@, password: self.password@ }
    }
}

impl View for XZMUNetConfig {
    type V = NetConfigModel;

    open spec fn view(&self) -> NetConfigModel {
        NetConfigModel {
            user_ip: self.wlan_user_ip@,
            user_mac: self.wlan_user_mac@,
            ac_ip: self.wlan_ac_ip@,
            ac_name: self.wlan_ac_name@,
        }
    }
}

pub open spec fn option_view<T: View>(o: Option<T>) -> Option<T::V> {
    match o {
        Some(x) => Some(x@),
        None => None,
    }
}

impl View for XZMUM {
    type V = StateModel;

    open spec fn view(&self) -> StateModel {
        StateModel { account: option_view(self.account), config: option_view(self.config) }
    }
}

impl View for XzmuError {
    type V = Fault;

    open spec fn view(&self) -> Fault {
        match self {
            XzmuError::MalformedUrl(_) => Fault::MalformedUrl,
            XzmuError::MissingParameter(name) => Fault::MissingParameter(name@),
            XzmuError::ProbeFailed(_) => Fault::ProbeFailed,
            XzmuError::NotCaptive => Fault::NotCaptive,
            XzmuError::RedirectNotFound => Fault::RedirectNotFound,
            XzmuError::RequestFailed(_) => Fault::RequestFailed,
            XzmuError::ResponseReadError(_) => Fault::ResponseReadError,
            XzmuError::ConfigReadError(_) => Fault::ConfigReadError,
            XzmuError::ConfigWriteError(_) => Fault::ConfigWriteError,
        }
    }
}

/// The view of a result of this library: the value's view, or the error's kind.
pub open spec fn result_view<T: View>(r: Result<T, XzmuError>) -> Result<T::V, Fault> {
    match r {
        Ok(x) => Ok(x@),
        Err(e) => Err(e@),
    }
}

} // verus!
