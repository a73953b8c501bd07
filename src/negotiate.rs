//! Deciding, once per request, whether an already produced body is sent compressed.
use vstd::prelude::*;

verus! {

/// A response body produced exactly once, together with the decision whether
/// the client asked for it to be compressed.
pub struct Negotiated<T> {
    pub body: T,
    pub compress: bool,
}

/// A produced body that is to be sent as it is, without compression.
pub struct NoGzipW<T> {
    pub value: T,
}

impl<T> NoGzipW<T> {
    pub open spec fn inner(self) -> T {
        self.value
    }

    /// Marks `val` for verbatim delivery.
    pub fn new(val: T) -> (r: Self)
        ensures
            r.inner() == val,
    {
        NoGzipW { value: val }
    }

    /// The body, unchanged.
    pub fn into_inner(self) -> (r: T)
        ensures
            r == self.inner(),
    {
        self.value
    }
}

/// How a produced body goes onto the wire.
pub enum Transfer<T> {
    Compressed(T),
    Verbatim(NoGzipW<T>),
}

impl<T> Transfer<T> {
    /// The body that is handed to the wire, whichever encoding carries it.
    pub open spec fn payload(self) -> T {
        match self {
            Transfer::Compressed(b) => b,
            Transfer::Verbatim(b) => b.inner(),
        }
    }

    pub open spec fn is_compressed(self) -> bool {
        self is Compressed
    }
}

/// The transfer chosen for a body: compressed exactly when the client asked
/// for it and the transport honours it, verbatim otherwise.
pub open spec fn transfer_of<T>(body: T, compress: bool, transport_accepts: bool) -> Transfer<T> {
    if compress && transport_accepts {
        Transfer::Compressed(body)
    } else {
        Transfer::Verbatim(NoGzipW { value: body })
    }
}

/// What a raw `compression` header value means: absent is "no", `true` and
/// `false` are read as such, anything else is not a valid preference.
pub open spec fn preference_of(header: Option<Seq<char>>) -> Option<bool> {
    match header {
        None => Some(false),
        Some(h) => if h == "true"@ {
            Some(true)
        } else if h == "false"@ {
            Some(false)
        } else {
            None
        },
    }
}

/// The view of a raw header value.
pub open spec fn header_view(header: Option<&str>) -> Option<Seq<char>> {
    match header {
        None => None,
        Some(h) => Some(h@),
    }
}

/// Reads the client's compression preference from the raw header value.
/// Returns `None` when the header holds something other than `true` or `false`.
pub fn compression_preference(header: Option<&str>) -> (r: Option<bool>)
    ensures
        r == preference_of(header_view(header)),
{
    match header {
        None => Some(false),
        Some(h) => {
            let given = String::from_str(h);
            let yes = String::from_str("true");
            let no = String::from_str("false");
            if given == yes {
                Some(true)
            } else if given == no {
                Some(false)
            } else {
                None
            }
        },
    }
}

/// Takes ownership of a body that has already been produced, and records the
/// client's decision. The body is never recomputed afterwards.
pub fn negotiate<T>(body: T, wants_compression: bool) -> (r: Negotiated<T>)
    ensures
        r.body == body,
        r.compress == wants_compression,
{
    Negotiated { body, compress: wants_compression }
}

/// Hands the single produced body to one transfer path. The body is compressed
/// only when the client asked for it and the transport can honour it; when the
/// transport cannot, the same body is delivered verbatim rather than dropped.
pub fn transfer<T>(n: Negotiated<T>, transport_accepts: bool) -> (r: Transfer<T>)
    ensures
        r == transfer_of(n.body, n.compress, transport_accepts),
        r.payload() == n.body,
        r.is_compressed() == (n.compress && transport_accepts),
{
    if n.compress && transport_accepts {
        Transfer::Compressed(n.body)
    } else {
        Transfer::Verbatim(NoGzipW::new(n.body))
    }
}

/// Whichever way a client negotiates, the body handed to the wire is the one
/// value that was produced: asking for compression changes only the encoding,
/// never the content.
pub proof fn lemma_same_payload_either_way<T>(body: T, transport_accepts: bool)
    ensures
        transfer_of(body, true, transport_accepts).payload() == transfer_of(
            body,
            false,
            transport_accepts,
        ).payload(),
        transfer_of(body, true, transport_accepts).payload() == body,
{
}

} // verus!
