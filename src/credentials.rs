//! The per-request storage credentials, read from three request headers.
use vstd::prelude::*;
use vstd::string::StringExecFns;
use crate::reply::Failure;

verus! {

/// Header that names the storage account.
pub const ACCOUNT_HEADER: &'static str = "x-ms-blob-account";

/// Header that carries the SAS token, appended verbatim after the filename.
pub const SAS_TOKEN_HEADER: &'static str = "x-ms-blob-sv";

/// Header that names the target container.
pub const CONTAINER_HEADER: &'static str = "x-ms-blob-container";

/// One credential header as it arrived.
pub enum HeaderText {
    /// The header is not in the request.
    Absent,
    /// The header's value, read as text.
    Text(String),
    /// The header is present but its value is not text.
    NotText,
}

/// What a header resolves to: its text, the default when it is absent, and
/// nothing when it is not text.
pub open spec fn resolve_spec(h: HeaderText, default: Seq<char>) -> Option<Seq<char>> {
    match h {
        HeaderText::Absent => Some(default),
        HeaderText::Text(s) => Some(s@),
        HeaderText::NotText => None,
    }
}

pub open spec fn default_account() -> Seq<char> {
    "url"@
}

pub open spec fn default_sas_token() -> Seq<char> {
    "sv"@
}

pub open spec fn default_container() -> Seq<char> {
    "container"@
}

/// Where and with which token the files of one request are stored.
pub struct Credentials {
    pub account: String,
    pub sas_token: String,
    pub container: String,
}

impl View for Credentials {
    type V = (Seq<char>, Seq<char>, Seq<char>);

    /// (account, SAS token, container)
    open spec fn view(&self) -> (Seq<char>, Seq<char>, Seq<char>) {
        (self.account@, self.sas_token@, self.container@)
    }
}

fn resolve_header(h: HeaderText, default: &str) -> (r: Result<String, Failure>)
    ensures
        match resolve_spec(h, default@) {
            Some(s) => r matches Ok(v) && v@ == s,
            None => r == Err::<String, Failure>(Failure::MalformedRequest),
        },
{
    match h {
        HeaderText::Absent => Ok(String::from_str(default)),
        HeaderText::Text(s) => Ok(s),
        HeaderText::NotText => Err(Failure::MalformedRequest),
    }
}

impl Credentials {
    /// Resolves the three credential headers. An absent header takes its
    /// literal default (`url`, `sv`, `container`); one that is not text makes
    /// the request malformed. No header affects another.
    pub fn resolve(account: HeaderText, sas_token: HeaderText, container: HeaderText) -> (r: Result<
        Credentials,
        Failure,
    >)
        ensures
            r is Ok <==> (resolve_spec(account, default_account()) is Some && resolve_spec(
                sas_token,
                default_sas_token(),
            ) is Some && resolve_spec(container, default_container()) is Some),
            r is Err ==> r == Err::<Credentials, Failure>(Failure::MalformedRequest),
            r matches Ok(c) ==> c@ == (
                resolve_spec(account, default_account())->Some_0,
                resolve_spec(sas_token, default_sas_token())->Some_0,
                resolve_spec(container, default_container())->Some_0,
            ),
    {
        let a = resolve_header(account, "url");
        let s = resolve_header(sas_token, "sv");
        let c = resolve_header(container, "container");
        match (a, s, c) {
            (Ok(a), Ok(s), Ok(c)) => Ok(Credentials { account: a, sas_token: s, container: c }),
            _ => Err(Failure::MalformedRequest),
        }
    }
}

} // verus!
