//! The failure taxonomy: one closed enumeration of every failure the
//! surrounding client can report, its rendering, its chained cause, and the
//! conversions from the upstream libraries' native error types.

use vstd::prelude::*;
use vstd::string::StringExecFns;
use crate::upstream;

verus! {

/// A type-erased upstream error, owned by the taxonomy.
///
/// The metadata-upload path can fail through many unrelated libraries, so the
/// variant that reports it carries its cause as one polymorphic owned handle
/// rather than a concrete type. The verifier sees the handle as an opaque
/// value; the error inside is never altered, only rendered or handed back out.
#[verifier::external_body]
#[derive(Debug)]
pub struct AnyError {
    inner: Box<dyn std::error::Error + 'static>,
}

impl AnyError {
    /// Takes an error already rendered as text and boxes it; the body only
    /// converts and stores. The verifier cannot name a boxed trait object, so
    /// a caller that holds one renders it to text at this boundary.
    #[verifier::external_body]
    pub fn from_text(text: String) -> AnyError {
        AnyError { inner: text.into() }
    }

    /// Relies on `Display` of the wrapped error to render it as text.
    #[verifier::external_body]
    pub fn text(&self) -> String {
        self.inner.to_string()
    }
}

/// The closed set of failures of the bonding-curve client.
///
/// Four variants wrap the upstream error that caused them and expose it
/// through [`ClientError::source`]; the others carry only text. The
/// `(label, details)` pairs are produced by the conversions from upstream
/// error types, with the upstream error's own rendering as the details.
#[derive(Debug)]
pub enum ClientError {
    /// The bonding curve account was not found.
    BondingCurveNotFound,
    /// A bonding-curve operation failed.
    BondingCurveError(&'static str),
    /// Binary (de)serialization failed.
    BorshError(std::io::Error),
    /// The chain RPC client failed.
    SolanaClientError(solana_rpc_client_api::client_error::Error),
    /// Uploading metadata to off-chain storage failed.
    UploadMetadataError(AnyError),
    /// The on-chain program client framework failed; its error arrives
    /// type-erased.
    AnchorClientError(AnyError),
    /// The caller supplied invalid parameters.
    InvalidInput(&'static str),
    /// The balance is too low for the requested transaction.
    InsufficientFunds,
    /// Pre-flight transaction simulation failed.
    SimulationError(String),
    /// An external rate limit was exceeded.
    RateLimitExceeded,
    /// A generic chain-client failure, normalized from an upstream type.
    Solana(String, String),
    /// A generic parse or deserialization failure.
    Parse(String, String),
    /// A concurrently scheduled task failed to join.
    Join(String),
    /// Subscribing to a publish/subscribe stream failed.
    Subscribe(String, String),
    /// Sending on an internal channel failed.
    Send(String, String),
    /// An unclassified failure.
    Other(String),
    /// An operation exceeded its deadline.
    Timeout(String, String),
    /// A duplicate event was rejected.
    Duplicate(String),
    /// An event matched no recognized schema.
    InvalidEventType,
    /// An internal channel was closed while still in use.
    ChannelClosed,
}

/// The uniform fallible-operation result of the client.
pub type ClientResult<T> = Result<T, ClientError>;

/// The borrowed upstream cause of a failure, for chain traversal.
pub enum ErrorSource<'a> {
    /// The I/O error behind a binary (de)serialization failure.
    Borsh(&'a std::io::Error),
    /// The RPC client error, unchanged.
    SolanaClient(&'a solana_rpc_client_api::client_error::Error),
    /// The type-erased metadata-upload error, unchanged.
    UploadMetadata(&'a AnyError),
    /// The type-erased program-client error, unchanged.
    AnchorClient(&'a AnyError),
}

/// `p` is a prefix of `r`.
pub open spec fn seq_starts_with(r: Seq<char>, p: Seq<char>) -> bool {
    r.len() >= p.len() && r.subrange(0, p.len() as int) == p
}

impl ClientError {
    /// The variants that wrap their upstream cause.
    pub open spec fn wraps_cause(self) -> bool {
        ||| self is BorshError
        ||| self is SolanaClientError
        ||| self is UploadMetadataError
        ||| self is AnchorClientError
    }

    /// The per-variant rendering template. For a variant whose payload is
    /// text, the rendering is pinned exactly; for one that wraps an upstream
    /// error, only the template's fixed prefix is pinned, since the wrapped
    /// error's own rendering may depend on the operating system.
    pub open spec fn message_is(self, r: Seq<char>) -> bool {
        match self {
            ClientError::BondingCurveNotFound => r == "Bonding curve not found"@,
            ClientError::BondingCurveError(msg) => r == "Bonding curve error: "@ + msg@,
            ClientError::BorshError(_) => seq_starts_with(r, "Borsh serialization error: "@),
            ClientError::SolanaClientError(_) => seq_starts_with(r, "Solana client error: "@),
            ClientError::UploadMetadataError(_) => seq_starts_with(r, "Metadata upload error: "@),
            ClientError::AnchorClientError(_) => seq_starts_with(r, "Anchor client error: "@),
            ClientError::InvalidInput(msg) => r == "Invalid input: "@ + msg@,
            ClientError::InsufficientFunds => r == "Insufficient funds for transaction"@,
            ClientError::SimulationError(msg) => r == "Transaction simulation failed: "@ + msg@,
            ClientError::RateLimitExceeded => r == "Rate limit exceeded"@,
            ClientError::Solana(msg, details) => r == "Solana error: "@ + msg@ + ", details: "@
                + details@,
            ClientError::Parse(msg, details) => r == "Parse error: "@ + msg@ + ", details: "@
                + details@,
            ClientError::Join(msg) => r == "Task join error: "@ + msg@,
            ClientError::Subscribe(msg, details) => r == "Subscribe error: "@ + msg@
                + ", details: "@ + details@,
            ClientError::Send(msg, details) => r == "Send error: "@ + msg@ + ", details: "@
                + details@,
            ClientError::Other(msg) => r == "Other error: "@ + msg@,
            ClientError::Timeout(msg, details) => r == "Operation timed out: "@ + msg@
                + ", details: "@ + details@,
            ClientError::Duplicate(msg) => r == "Duplicate event: "@ + msg@,
            ClientError::InvalidEventType => r == "Invalid event type"@,
            ClientError::ChannelClosed => r == "Channel closed"@,
        }
    }
}

/// `s` occurs verbatim somewhere in `r`.
pub open spec fn seq_contains(r: Seq<char>, s: Seq<char>) -> bool {
    exists|i: int| 0 <= i && i + s.len() <= r.len() && #[trigger] r.subrange(i, i + s.len()) == s
}

proof fn lemma_concat_starts_with(a: Seq<char>, b: Seq<char>)
    ensures
        seq_starts_with(a + b, a),
{
    assert((a + b).subrange(0, a.len() as int) =~= a);
}

proof fn lemma_contains_at(r: Seq<char>, s: Seq<char>, i: int)
    requires
        0 <= i,
        i + s.len() <= r.len(),
        r.subrange(i, i + s.len()) == s,
    ensures
        seq_contains(r, s),
{
}

proof fn lemma_concat_carries(a: Seq<char>, b: Seq<char>)
    ensures
        seq_contains(a + b, a),
        seq_contains(a + b, b),
{
    assert((a + b).subrange(0, a.len() as int) =~= a);
    lemma_contains_at(a + b, a, 0);
    assert((a + b).subrange(a.len() as int, (a + b).len() as int) =~= b);
    lemma_contains_at(a + b, b, a.len() as int);
}

proof fn lemma_concat_carries_mid(a: Seq<char>, b: Seq<char>, c: Seq<char>)
    ensures
        seq_contains(a + b + c, b),
{
    assert((a + b + c).subrange(a.len() as int, a.len() as int + b.len() as int) =~= b);
    lemma_contains_at(a + b + c, b, a.len() as int);
}

impl ClientError {
    /// The human-readable one-line message of the failure.
    pub fn render(&self) -> (r: String)
        ensures
            self.message_is(r@),
    {
        match self {
            ClientError::BondingCurveNotFound => String::from_str("Bonding curve not found"),
            ClientError::BondingCurveError(msg) => String::from_str("Bonding curve error: ")
                .concat(msg),
            ClientError::BorshError(err) => {
                let text = upstream::io_error_text(err);
                let r = String::from_str("Borsh serialization error: ").concat(text.as_str());
                proof {
                    lemma_concat_starts_with("Borsh serialization error: "@, text@);
                }
                r
            },
            ClientError::SolanaClientError(err) => {
                let text = upstream::solana_client_error_text(err);
                let r = String::from_str("Solana client error: ").concat(text.as_str());
                proof {
                    lemma_concat_starts_with("Solana client error: "@, text@);
                }
                r
            },
            ClientError::UploadMetadataError(err) => {
                let text = err.text();
                let r = String::from_str("Metadata upload error: ").concat(text.as_str());
                proof {
                    lemma_concat_starts_with("Metadata upload error: "@, text@);
                }
                r
            },
            ClientError::AnchorClientError(err) => {
                let text = err.text();
                let r = String::from_str("Anchor client error: ").concat(text.as_str());
                proof {
                    lemma_concat_starts_with("Anchor client error: "@, text@);
                }
                r
            },
            ClientError::InvalidInput(msg) => String::from_str("Invalid input: ").concat(msg),
            ClientError::InsufficientFunds => String::from_str(
                "Insufficient funds for transaction",
            ),
            ClientError::SimulationError(msg) => String::from_str(
                "Transaction simulation failed: ",
            ).concat(msg.as_str()),
            ClientError::RateLimitExceeded => String::from_str("Rate limit exceeded"),
            ClientError::Solana(msg, details) => String::from_str("Solana error: ").concat(
                msg.as_str(),
            ).concat(", details: ").concat(details.as_str()),
            ClientError::Parse(msg, details) => String::from_str("Parse error: ").concat(
                msg.as_str(),
            ).concat(", details: ").concat(details.as_str()),
            ClientError::Join(msg) => String::from_str("Task join error: ").concat(msg.as_str()),
            ClientError::Subscribe(msg, details) => String::from_str("Subscribe error: ").concat(
                msg.as_str(),
            ).concat(", details: ").concat(details.as_str()),
            ClientError::Send(msg, details) => String::from_str("Send error: ").concat(
                msg.as_str(),
            ).concat(", details: ").concat(details.as_str()),
            ClientError::Other(msg) => String::from_str("Other error: ").concat(msg.as_str()),
            ClientError::Timeout(msg, details) => String::from_str("Operation timed out: ").concat(
                msg.as_str(),
            ).concat(", details: ").concat(details.as_str()),
            ClientError::Duplicate(msg) => String::from_str("Duplicate event: ").concat(
                msg.as_str(),
            ),
            ClientError::InvalidEventType => String::from_str("Invalid event type"),
            ClientError::ChannelClosed => String::from_str("Channel closed"),
        }
    }

    /// The wrapped upstream cause: the original error value, unchanged, for
    /// exactly the four variants that wrap one, and nothing for every other
    /// variant.
    pub fn source<'a>(&'a self) -> (r: Option<ErrorSource<'a>>)
        ensures
            r is Some <==> self.wraps_cause(),
            match *self {
                ClientError::BorshError(e) => r matches Some(ErrorSource::Borsh(c)) && c == e,
                ClientError::SolanaClientError(e) => r matches Some(ErrorSource::SolanaClient(c))
                    && c == e,
                ClientError::UploadMetadataError(e) => r matches Some(
                    ErrorSource::UploadMetadata(c),
                ) && c == e,
                ClientError::AnchorClientError(e) => r matches Some(ErrorSource::AnchorClient(c))
                    && c == e,
                _ => r is None,
            },
    {
        match self {
            ClientError::BorshError(e) => Some(ErrorSource::Borsh(e)),
            ClientError::SolanaClientError(e) => Some(ErrorSource::SolanaClient(e)),
            ClientError::UploadMetadataError(e) => Some(ErrorSource::UploadMetadata(e)),
            ClientError::AnchorClientError(e) => Some(ErrorSource::AnchorClient(e)),
            _ => None,
        }
    }

    /// A generic chain-client failure with the fixed RPC-client label.
    pub fn solana_failure(details: String) -> (r: ClientError)
        ensures
            (r matches ClientError::Solana(l, d) && l@ == "Solana client error"@ && d@
                == details@),
    {
        ClientError::Solana(String::from_str("Solana client error"), details)
    }

    /// A generic chain-client failure with the fixed publish/subscribe label.
    pub fn pubsub_failure(details: String) -> (r: ClientError)
        ensures
            (r matches ClientError::Solana(l, d) && l@ == "PubSub client error"@ && d@
                == details@),
    {
        ClientError::Solana(String::from_str("PubSub client error"), details)
    }

    /// A generic parse failure with the fixed JSON label.
    pub fn json_failure(details: String) -> (r: ClientError)
        ensures
            (r matches ClientError::Parse(l, d) && l@ == "JSON serialization error"@ && d@
                == details@),
    {
        ClientError::Parse(String::from_str("JSON serialization error"), details)
    }

    /// Classifies an RPC client error: a `Solana` failure labeled
    /// `"Solana client error"`, whose details hold the upstream rendering.
    pub fn from_solana_client_error(e: solana_rpc_client_api::client_error::Error) -> (r:
        ClientError)
        ensures
            (r matches ClientError::Solana(l, d) && l@ == "Solana client error"@),
    {
        let details = upstream::solana_client_error_text(&e);
        ClientError::solana_failure(details)
    }

    /// Classifies a publish/subscribe client error: a `Solana` failure labeled
    /// `"PubSub client error"`, whose details hold the upstream rendering.
    pub fn from_pubsub_client_error(
        e: solana_pubsub_client::pubsub_client::PubsubClientError,
    ) -> (r: ClientError)
        ensures
            (r matches ClientError::Solana(l, d) && l@ == "PubSub client error"@),
    {
        let details = upstream::pubsub_client_error_text(&e);
        ClientError::pubsub_failure(details)
    }

    /// Classifies a JSON error: a `Parse` failure labeled
    /// `"JSON serialization error"`, whose details hold the upstream rendering.
    pub fn from_json_error(e: serde_json::Error) -> (r: ClientError)
        ensures
            (r matches ClientError::Parse(l, d) && l@ == "JSON serialization error"@),
    {
        let details = upstream::json_error_text(&e);
        ClientError::json_failure(details)
    }
}

/// Failures are immutable values and rendering is deterministic: any two
/// renderings of one failure agree, for every variant that does not wrap a
/// live upstream error. (For a wrapping variant the rendering of the wrapped
/// error itself is not pinned by the contracts, since its text may come from
/// the operating system.)
pub proof fn lemma_render_deterministic(e: ClientError, r1: Seq<char>, r2: Seq<char>)
    requires
        !e.wraps_cause(),
        e.message_is(r1),
        e.message_is(r2),
    ensures
        r1 == r2,
{
}

/// A rendering never omits the dynamic payload its variant carries: every
/// text payload of the failure occurs verbatim in the rendered message.
pub proof fn lemma_render_carries_payload(e: ClientError, r: Seq<char>)
    requires
        e.message_is(r),
    ensures
        match e {
            ClientError::BondingCurveError(m) => seq_contains(r, m@),
            ClientError::InvalidInput(m) => seq_contains(r, m@),
            ClientError::SimulationError(m) => seq_contains(r, m@),
            ClientError::Join(m) => seq_contains(r, m@),
            ClientError::Other(m) => seq_contains(r, m@),
            ClientError::Duplicate(m) => seq_contains(r, m@),
            ClientError::Solana(m, d) => seq_contains(r, m@) && seq_contains(r, d@),
            ClientError::Parse(m, d) => seq_contains(r, m@) && seq_contains(r, d@),
            ClientError::Subscribe(m, d) => seq_contains(r, m@) && seq_contains(r, d@),
            ClientError::Send(m, d) => seq_contains(r, m@) && seq_contains(r, d@),
            ClientError::Timeout(m, d) => seq_contains(r, m@) && seq_contains(r, d@),
            _ => true,
        },
{
    match e {
        ClientError::BondingCurveError(m) => {
            lemma_concat_carries("Bonding curve error: "@, m@);
        },
        ClientError::InvalidInput(m) => {
            lemma_concat_carries("Invalid input: "@, m@);
        },
        ClientError::SimulationError(m) => {
            lemma_concat_carries("Transaction simulation failed: "@, m@);
        },
        ClientError::Join(m) => {
            lemma_concat_carries("Task join error: "@, m@);
        },
        ClientError::Other(m) => {
            lemma_concat_carries("Other error: "@, m@);
        },
        ClientError::Duplicate(m) => {
            lemma_concat_carries("Duplicate event: "@, m@);
        },
        ClientError::Solana(m, d) => {
            lemma_pair_carries("Solana error: "@, m@, ", details: "@, d@);
        },
        ClientError::Parse(m, d) => {
            lemma_pair_carries("Parse error: "@, m@, ", details: "@, d@);
        },
        ClientError::Subscribe(m, d) => {
            lemma_pair_carries("Subscribe error: "@, m@, ", details: "@, d@);
        },
        ClientError::Send(m, d) => {
            lemma_pair_carries("Send error: "@, m@, ", details: "@, d@);
        },
        ClientError::Timeout(m, d) => {
            lemma_pair_carries("Operation timed out: "@, m@, ", details: "@, d@);
        },
        _ => {},
    }
}

proof fn lemma_pair_carries(p: Seq<char>, m: Seq<char>, s: Seq<char>, d: Seq<char>)
    ensures
        seq_contains(p + m + s + d, m),
        seq_contains(p + m + s + d, d),
{
    assert(p + m + s + d =~= p + m + (s + d));
    lemma_concat_carries_mid(p, m, s + d);
    lemma_concat_carries(p + m + s, d);
}

impl From<solana_rpc_client_api::client_error::Error> for ClientError {
    /// The same classification as [`ClientError::from_solana_client_error`],
    /// for `?`-style propagation.
    fn from(e: solana_rpc_client_api::client_error::Error) -> Self {
        ClientError::from_solana_client_error(e)
    }
}

impl vstd::std_specs::convert::FromSpecImpl<solana_rpc_client_api::client_error::Error> for ClientError {
    // The produced value's text fields are views of an upstream rendering, so
    // no spec-level value can name it; the named conversion carries the
    // contract instead.
    open spec fn obeys_from_spec() -> bool {
        false
    }

    open spec fn from_spec(v: solana_rpc_client_api::client_error::Error) -> ClientError {
        vstd::pervasive::arbitrary()
    }
}

impl From<solana_pubsub_client::pubsub_client::PubsubClientError> for ClientError {
    /// The same classification as [`ClientError::from_pubsub_client_error`],
    /// for `?`-style propagation.
    fn from(e: solana_pubsub_client::pubsub_client::PubsubClientError) -> Self {
        ClientError::from_pubsub_client_error(e)
    }
}

impl vstd::std_specs::convert::FromSpecImpl<solana_pubsub_client::pubsub_client::PubsubClientError> for ClientError {
    open spec fn obeys_from_spec() -> bool {
        false
    }

    open spec fn from_spec(
        v: solana_pubsub_client::pubsub_client::PubsubClientError,
    ) -> ClientError {
        vstd::pervasive::arbitrary()
    }
}

impl From<serde_json::Error> for ClientError {
    /// The same classification as [`ClientError::from_json_error`], for
    /// `?`-style propagation.
    fn from(e: serde_json::Error) -> Self {
        ClientError::from_json_error(e)
    }
}

impl vstd::std_specs::convert::FromSpecImpl<serde_json::Error> for ClientError {
    open spec fn obeys_from_spec() -> bool {
        false
    }

    open spec fn from_spec(v: serde_json::Error) -> ClientError {
        vstd::pervasive::arbitrary()
    }
}

} // verus!
