//! Destination of one uploaded file: the blob URL built from the request's
//! credentials and the part's filename.
use vstd::prelude::*;
use vstd::string::StringExecFns;

verus! {

/// `https://{account}.blob.core.windows.net/{container}/{filename}{sas}`, as
/// characters. Nothing is escaped and no `?` is inserted before the token.
pub open spec fn blob_url_spec(
    account: Seq<char>,
    container: Seq<char>,
    filename: Seq<char>,
    sas_token: Seq<char>,
) -> Seq<char> {
    "https://"@ + account + ".blob.core.windows.net/"@ + container + "/"@ + filename + sas_token
}

/// Builds the URL that one file is sent to with a PUT.
pub fn blob_url(account: &str, container: &str, filename: &str, sas_token: &str) -> (r: String)
    ensures
        r@ == blob_url_spec(account@, container@, filename@, sas_token@),
{
    let mut url = String::from_str("https://");
    url.append(account);
    url.append(".blob.core.windows.net/");
    url.append(container);
    url.append("/");
    url.append(filename);
    url.append(sas_token);
    url
}

} // verus!
