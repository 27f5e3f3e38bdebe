//! The per-request relay: which PUT to issue next, and how the request ends.
//!
//! The relay decides; the caller performs. It asks `pending` for the next
//! action, performs it, and reports a PUT's result with `record`. Parts are
//! sent one at a time in arrival order, and the first failed PUT ends the
//! request: later parts are never attempted and earlier ones are not undone.
use vstd::prelude::*;
use crate::config::{Config, too_large};
use crate::credentials::{
    Credentials,
    HeaderText,
    resolve_spec,
    default_account,
    default_sas_token,
    default_container,
};
use crate::reply::{Failure, Reply, failure_spec, success_spec};
use crate::target::{blob_url, blob_url_spec};

verus! {

/// Header sent with every outbound PUT, declaring block-blob semantics.
pub const BLOB_TYPE_HEADER: &'static str = "x-ms-blob-type";

/// Value of the blob-type header.
pub const BLOCK_BLOB: &'static str = "BlockBlob";

/// Field name of the single multipart section of an outbound PUT.
pub const PART_FIELD: &'static str = "part_bytes";

/// The relay's state in mathematical terms.
pub struct RelayState {
    pub account: Seq<char>,
    pub sas_token: Seq<char>,
    pub container: Seq<char>,
    /// Filenames of the parts, in arrival order.
    pub filenames: Seq<Seq<char>>,
    /// Number of parts whose PUT completed.
    pub sent: nat,
    /// Whether a PUT has failed.
    pub failed: bool,
}

/// An action in mathematical terms.
pub enum Step {
    /// PUT the part at this index (0-based) to this URL.
    Put(nat, Seq<char>),
    /// End the request with this reply.
    Respond((u16, Seq<char>)),
}

/// What the relay asks for next in a state.
pub open spec fn pending_spec(s: RelayState) -> Step {
    if s.failed {
        Step::Respond(failure_spec(Failure::TransportFailure))
    } else if s.sent >= s.filenames.len() {
        Step::Respond(success_spec())
    } else {
        Step::Put(
            s.sent,
            blob_url_spec(s.account, s.container, s.filenames[s.sent as int], s.sas_token),
        )
    }
}

/// The state after a PUT's result is reported. A finished relay ignores it.
pub open spec fn record_spec(s: RelayState, ok: bool) -> RelayState {
    if s.failed || s.sent >= s.filenames.len() {
        s
    } else if ok {
        RelayState { sent: s.sent + 1, ..s }
    } else {
        RelayState { failed: true, ..s }
    }
}

/// Runs the relay from `s`, taking the PUT results in order while it asks for
/// PUTs: the indices of the parts attempted, and the state it stops in.
pub open spec fn drive(s: RelayState, results: Seq<bool>) -> (Seq<nat>, RelayState)
    decreases results.len(),
{
    match pending_spec(s) {
        Step::Put(i, _) => if results.len() > 0 {
            let rest = drive(record_spec(s, results[0]), results.drop_first());
            (seq![i] + rest.0, rest.1)
        } else {
            (Seq::empty(), s)
        },
        Step::Respond(_) => (Seq::empty(), s),
    }
}

/// A part's filename is present and not empty.
pub open spec fn valid_filename(f: Option<String>) -> bool {
    f matches Some(s) && s@.len() > 0
}

/// How a request starts: refused for its size, refused as malformed, or a
/// fresh relay over its parts.
pub open spec fn begin_spec(
    max_body_bytes: u64,
    declared_len: Option<u64>,
    account: HeaderText,
    sas_token: HeaderText,
    container: HeaderText,
    filenames: Seq<Option<String>>,
) -> Result<RelayState, Failure> {
    if too_large(max_body_bytes, declared_len) {
        Err(Failure::PayloadTooLarge)
    } else if resolve_spec(account, default_account()) is None || resolve_spec(
        sas_token,
        default_sas_token(),
    ) is None || resolve_spec(container, default_container()) is None || exists|i: int|
        0 <= i < filenames.len() && !valid_filename(#[trigger] filenames[i]) {
        Err(Failure::MalformedRequest)
    } else {
        Ok(
            RelayState {
                account: resolve_spec(account, default_account())->Some_0,
                sas_token: resolve_spec(sas_token, default_sas_token())->Some_0,
                container: resolve_spec(container, default_container())->Some_0,
                filenames: filenames.map_values(|f: Option<String>| f->Some_0@),
                sent: 0,
                failed: false,
            },
        )
    }
}

/// What the caller is to do next.
pub enum Action {
    /// PUT the payload of part `index` (0-based, in arrival order) to `url`,
    /// with the blob-type header and the payload as the one `part_bytes`
    /// section of a multipart body.
    Put { index: usize, url: String },
    /// Send this reply; the request is over.
    Respond(Reply),
}

impl View for Action {
    type V = Step;

    open spec fn view(&self) -> Step {
        match self {
            Action::Put { index, url } => Step::Put(*index as nat, url@),
            Action::Respond(r) => Step::Respond(r@),
        }
    }
}

pub struct Relay {
    credentials: Credentials,
    filenames: Vec<String>,
    sent: usize,
    failed: bool,
}

impl View for Relay {
    type V = RelayState;

    closed spec fn view(&self) -> RelayState {
        RelayState {
            account: self.credentials.account@,
            sas_token: self.credentials.sas_token@,
            container: self.credentials.container@,
            filenames: self.filenames@.map_values(|f: String| f@),
            sent: self.sent as nat,
            failed: self.failed,
        }
    }
}

fn take_filenames(filenames: &Vec<Option<String>>) -> (r: Option<Vec<String>>)
    ensures
        r is Some <==> forall|i: int| 0 <= i < filenames@.len() ==> valid_filename(
            #[trigger] filenames@[i],
        ),
        r matches Some(v) ==> v@.map_values(|f: String| f@) == filenames@.map_values(
            |f: Option<String>| f->Some_0@,
        ),
{
    let mut out: Vec<String> = Vec::new();
    let mut i: usize = 0;
    while i < filenames.len()
        invariant
            i <= filenames@.len(),
            out@.len() == i,
            forall|j: int| 0 <= j < i ==> valid_filename(#[trigger] filenames@[j]),
            forall|j: int| 0 <= j < i ==> (#[trigger] out@[j])@ == filenames@[j]->Some_0@,
        decreases filenames@.len() - i,
    {
        match &filenames[i] {
            Some(name) => {
                if name.as_str().is_empty() {
                    return None;
                }
                out.push(name.clone());
            },
            None => {
                return None;
            },
        }
        i = i + 1;
    }
    assert(out@.map_values(|f: String| f@) =~= filenames@.map_values(
        |f: Option<String>| f->Some_0@,
    ));
    Some(out)
}

/// Whether an outbound PUT counts as done: it completed (`Some`, with the
/// backend's status code) and the status is a 2xx success.
pub fn put_succeeded(status: Option<u16>) -> (r: bool)
    ensures
        r == (status matches Some(code) && 200 <= code < 300),
{
    match status {
        Some(code) => 200 <= code && code < 300,
        None => false,
    }
}

impl Relay {
    /// Starts a request: refuses a body declared larger than the cap, then
    /// resolves the credential headers and takes each part's filename. A
    /// non-text header, or a part whose filename is missing or empty, fails
    /// the whole request before any part is sent.
    pub fn begin(
        config: &Config,
        declared_len: Option<u64>,
        account: HeaderText,
        sas_token: HeaderText,
        container: HeaderText,
        filenames: Vec<Option<String>>,
    ) -> (r: Result<Relay, Failure>)
        ensures
            match begin_spec(
                config.max_body_bytes,
                declared_len,
                account,
                sas_token,
                container,
                filenames@,
            ) {
                Ok(s) => r matches Ok(rel) && rel@ == s,
                Err(f) => r matches Err(g) && g == f,
            },
    {
        if let Err(f) = config.admit_body(declared_len) {
            return Err(f);
        }
        let credentials = match Credentials::resolve(account, sas_token, container) {
            Ok(c) => c,
            Err(f) => {
                return Err(f);
            },
        };
        match take_filenames(&filenames) {
            Some(names) => Ok(Relay { credentials, filenames: names, sent: 0, failed: false }),
            None => Err(Failure::MalformedRequest),
        }
    }

    /// The next action: the PUT of the next unsent part, or the final reply.
    pub fn pending(&self) -> (r: Action)
        ensures
            r@ == pending_spec(self@),
    {
        if self.failed {
            Action::Respond(Reply::for_failure(Failure::TransportFailure))
        } else if self.sent >= self.filenames.len() {
            Action::Respond(Reply::success())
        } else {
            let url = blob_url(
                self.credentials.account.as_str(),
                self.credentials.container.as_str(),
                self.filenames[self.sent].as_str(),
                self.credentials.sas_token.as_str(),
            );
            Action::Put { index: self.sent, url }
        }
    }

    /// Reports the result of the PUT that `pending` asked for.
    pub fn record(&mut self, ok: bool)
        ensures
            final(self)@ == record_spec(old(self)@, ok),
    {
        if self.failed || self.sent >= self.filenames.len() {
        } else if ok {
            self.sent = self.sent + 1;
        } else {
            self.failed = true;
        }
    }

    /// Number of parts in the request.
    pub fn part_count(&self) -> (r: usize)
        ensures
            r == self@.filenames.len(),
    {
        self.filenames.len()
    }
}

} // verus!

verus! {

/// `from, from + 1, ..., from + count - 1`.
pub open spec fn indices(from: nat, count: nat) -> Seq<nat> {
    Seq::new(count, |i: int| (from + i) as nat)
}

/// While PUTs succeed the relay walks through the parts in order.
proof fn lemma_drive_successes(s: RelayState, results: Seq<bool>, j: nat)
    requires
        !s.failed,
        s.sent + j <= s.filenames.len(),
        j <= results.len(),
        forall|i: int| 0 <= i < j ==> #[trigger] results[i],
    ensures
        drive(s, results) == ({
            let rest = drive(RelayState { sent: s.sent + j, ..s }, results.skip(j as int));
            (indices(s.sent, j) + rest.0, rest.1)
        }),
    decreases j,
{
    if j == 0 {
        assert(results.skip(0) =~= results);
        assert(RelayState { sent: s.sent + 0, ..s } == s);
        assert(indices(s.sent, 0) + drive(s, results).0 =~= drive(s, results).0);
    } else {
        let s1 = record_spec(s, results[0]);
        assert(s1 == RelayState { sent: s.sent + 1, ..s });
        lemma_drive_successes(s1, results.drop_first(), (j - 1) as nat);
        assert(results.drop_first().skip(j - 1) =~= results.skip(j as int));
        assert(RelayState { sent: s1.sent + (j - 1) as nat, ..s1 } == RelayState {
            sent: s.sent + j,
            ..s
        });
        let rest = drive(RelayState { sent: s.sent + j, ..s }, results.skip(j as int));
        assert(seq![s.sent] + (indices(s.sent + 1, (j - 1) as nat) + rest.0) =~= indices(
            s.sent,
            j,
        ) + rest.0);
    }
}

/// When every part carries a filename and every PUT succeeds, each part is
/// sent once, in arrival order, and the request ends in HTTP 200 `success`.
pub proof fn all_puts_succeed(
    max_body_bytes: u64,
    declared_len: Option<u64>,
    account: HeaderText,
    sas_token: HeaderText,
    container: HeaderText,
    filenames: Seq<Option<String>>,
    results: Seq<bool>,
)
    requires
        begin_spec(max_body_bytes, declared_len, account, sas_token, container, filenames) is Ok,
        results.len() >= filenames.len(),
        forall|i: int| 0 <= i < filenames.len() ==> #[trigger] results[i],
    ensures
        ({
            let s = begin_spec(
                max_body_bytes,
                declared_len,
                account,
                sas_token,
                container,
                filenames,
            )->Ok_0;
            let (attempted, end) = drive(s, results);
            &&& attempted == indices(0, filenames.len())
            &&& pending_spec(end) == Step::Respond((200, "success"@))
        }),
{
    let s = begin_spec(max_body_bytes, declared_len, account, sas_token, container, filenames)->Ok_0;
    let n = filenames.len();
    lemma_drive_successes(s, results, n);
    let end = RelayState { sent: n, ..s };
    assert(pending_spec(end) == Step::Respond(success_spec()));
    assert(indices(0, n) + Seq::<nat>::empty() =~= indices(0, n));
}

/// When part `k` (1-based, in arrival order) is the first whose PUT fails,
/// parts `1..k` are attempted and `1..k-1` completed; no later part is ever
/// attempted, and the request ends in HTTP 500.
pub proof fn first_failure_stops(
    max_body_bytes: u64,
    declared_len: Option<u64>,
    account: HeaderText,
    sas_token: HeaderText,
    container: HeaderText,
    filenames: Seq<Option<String>>,
    results: Seq<bool>,
    k: nat,
)
    requires
        begin_spec(max_body_bytes, declared_len, account, sas_token, container, filenames) is Ok,
        1 <= k <= filenames.len(),
        results.len() >= k,
        forall|i: int| 0 <= i < k - 1 ==> #[trigger] results[i],
        !results[k - 1],
    ensures
        ({
            let s = begin_spec(
                max_body_bytes,
                declared_len,
                account,
                sas_token,
                container,
                filenames,
            )->Ok_0;
            let (attempted, end) = drive(s, results);
            &&& attempted == indices(0, k)
            &&& end.sent == k - 1
            &&& pending_spec(end) == Step::Respond((500, "Internal Server Error"@))
            &&& forall|ok: bool| #[trigger] record_spec(end, ok) == end
        }),
{
    let s = begin_spec(max_body_bytes, declared_len, account, sas_token, container, filenames)->Ok_0;
    let j = (k - 1) as nat;
    lemma_drive_successes(s, results, j);
    let mid = RelayState { sent: j, ..s };
    let rest = results.skip(j as int);
    assert(rest[0] == results[k - 1]);
    let end = RelayState { failed: true, ..mid };
    assert(record_spec(mid, rest[0]) == end);
    assert(drive(end, rest.drop_first()) == (Seq::<nat>::empty(), end));
    assert(drive(mid, rest).0 =~= seq![j]);
    assert(indices(0, j) + seq![j] =~= indices(0, k));
}

/// The text a credential header resolves to, when it is not refused.
pub open spec fn header_or(h: HeaderText, default: Seq<char>) -> Seq<char> {
    match h {
        HeaderText::Text(t) => t@,
        _ => default,
    }
}

/// A missing credential header is replaced by its literal default (`url`,
/// `sv`, `container`) in the URL, and the other headers are used as given.
pub proof fn missing_headers_take_defaults(
    max_body_bytes: u64,
    declared_len: Option<u64>,
    account: HeaderText,
    sas_token: HeaderText,
    container: HeaderText,
    filenames: Seq<Option<String>>,
)
    requires
        !too_large(max_body_bytes, declared_len),
        !(account is NotText),
        !(sas_token is NotText),
        !(container is NotText),
        forall|i: int| 0 <= i < filenames.len() ==> valid_filename(#[trigger] filenames[i]),
    ensures
        ({
            let r = begin_spec(
                max_body_bytes,
                declared_len,
                account,
                sas_token,
                container,
                filenames,
            );
            &&& r is Ok
            &&& r->Ok_0.account == header_or(account, "url"@)
            &&& r->Ok_0.sas_token == header_or(sas_token, "sv"@)
            &&& r->Ok_0.container == header_or(container, "container"@)
            &&& filenames.len() > 0 ==> pending_spec(r->Ok_0) == Step::Put(
                0,
                blob_url_spec(
                    header_or(account, "url"@),
                    header_or(container, "container"@),
                    filenames[0]->Some_0@,
                    header_or(sas_token, "sv"@),
                ),
            )
        }),
{
}

/// A body declared larger than the cap is refused with HTTP 400 `Payload too
/// large` before any relay exists, so no PUT is attempted.
pub proof fn oversized_body_refused(
    max_body_bytes: u64,
    declared_len: Option<u64>,
    account: HeaderText,
    sas_token: HeaderText,
    container: HeaderText,
    filenames: Seq<Option<String>>,
)
    requires
        declared_len matches Some(n) && n > max_body_bytes,
    ensures
        begin_spec(max_body_bytes, declared_len, account, sas_token, container, filenames)
            == Err::<RelayState, Failure>(Failure::PayloadTooLarge),
        failure_spec(Failure::PayloadTooLarge) == (400u16, "Payload too large"@),
{
}

/// A part whose filename is missing or empty fails the whole request; it is
/// not skipped.
pub proof fn unnamed_part_fails_request(
    max_body_bytes: u64,
    declared_len: Option<u64>,
    account: HeaderText,
    sas_token: HeaderText,
    container: HeaderText,
    filenames: Seq<Option<String>>,
    i: int,
)
    requires
        !too_large(max_body_bytes, declared_len),
        0 <= i < filenames.len(),
        !valid_filename(filenames[i]),
    ensures
        begin_spec(max_body_bytes, declared_len, account, sas_token, container, filenames)
            == Err::<RelayState, Failure>(Failure::MalformedRequest),
        failure_spec(Failure::MalformedRequest).0 == 500,
{
}

} // verus!
