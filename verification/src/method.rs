//! Request methods: their wire tokens and the legacy HTTP method
//! vocabulary used for gateway interoperability.

use crate::bytes::bytes_eq;
use vstd::prelude::*;

verus! {

/// Error returned when a wire token does not name any method.
#[derive(Clone, Copy, Debug, PartialEq, Eq, Structural)]
pub enum Error {
    /// The byte sequence is not one of the seven method wire tokens.
    UnrecognizedMethod,
}

/// Request methods: a closed set of seven variants replacing HTTP's
/// method sprawl.
#[derive(Clone, Copy, Debug, PartialEq, Eq, Hash, Structural)]
pub enum Method {
    /// Retrieve a resource (replaces GET/HEAD).
    ///
    /// Safe: yes, idempotent: yes, cacheable: yes.
    Read,
    /// Create or replace a resource (replaces POST/PUT).
    ///
    /// Safe: no, idempotent: yes, cacheable: no.
    Write,
    /// Partially update a resource (replaces PATCH).
    ///
    /// Safe: no, idempotent: no, cacheable: no.
    Modify,
    /// Remove a resource (same as HTTP DELETE).
    ///
    /// Safe: no, idempotent: yes, cacheable: no.
    Delete,
    /// Query supported methods and capabilities (replaces OPTIONS).
    ///
    /// Safe: yes, idempotent: yes, cacheable: no.
    Probe,
    /// Establish a tunnel (same as HTTP CONNECT).
    ///
    /// Safe: no, idempotent: no, cacheable: no.
    Connect,
    /// Echo the request for diagnostics (same as HTTP TRACE).
    ///
    /// Safe: yes, idempotent: yes, cacheable: no.
    Trace,
}

/// The canonical ASCII wire token of a method (`b"READ"` for `Read`, and so on).
pub open spec fn spec_method_wire(m: Method) -> Seq<u8> {
    match m {
        Method::Read => seq![82u8, 69u8, 65u8, 68u8],  // "READ"
        Method::Write => seq![87u8, 82u8, 73u8, 84u8, 69u8],  // "WRITE"
        Method::Modify => seq![77u8, 79u8, 68u8, 73u8, 70u8, 89u8],  // "MODIFY"
        Method::Delete => seq![68u8, 69u8, 76u8, 69u8, 84u8, 69u8],  // "DELETE"
        Method::Probe => seq![80u8, 82u8, 79u8, 66u8, 69u8],  // "PROBE"
        Method::Connect => seq![67u8, 79u8, 78u8, 78u8, 69u8, 67u8, 84u8],  // "CONNECT"
        Method::Trace => seq![84u8, 82u8, 65u8, 67u8, 69u8],  // "TRACE"
    }
}

/// The method a wire token names, if any: the exact inverse of
/// `spec_method_wire`.
pub open spec fn spec_method_of_wire(s: Seq<u8>) -> Option<Method> {
    if s == spec_method_wire(Method::Read) {
        Some(Method::Read)
    } else if s == spec_method_wire(Method::Write) {
        Some(Method::Write)
    } else if s == spec_method_wire(Method::Modify) {
        Some(Method::Modify)
    } else if s == spec_method_wire(Method::Delete) {
        Some(Method::Delete)
    } else if s == spec_method_wire(Method::Probe) {
        Some(Method::Probe)
    } else if s == spec_method_wire(Method::Connect) {
        Some(Method::Connect)
    } else if s == spec_method_wire(Method::Trace) {
        Some(Method::Trace)
    } else {
        None
    }
}

/// Whether a method is safe (does not modify server state).
pub open spec fn spec_method_safe(m: Method) -> bool {
    m is Read || m is Probe || m is Trace
}

/// Whether a method is idempotent (may be retried).
pub open spec fn spec_method_idempotent(m: Method) -> bool {
    m is Read || m is Write || m is Delete || m is Probe || m is Trace
}

/// Whether a method's responses are cacheable.
pub open spec fn spec_method_cacheable(m: Method) -> bool {
    m is Read
}

impl Method {
    /// Parse a method from its wire token.
    ///
    /// Fails exactly on byte sequences that are not one of the seven
    /// method wire tokens; legacy HTTP tokens are not valid wire tokens.
    pub fn from_bytes(method: &[u8]) -> (r: Result<Method, Error>)
        ensures
            match r {
                Ok(m) => spec_method_of_wire(method@) == Some(m),
                Err(e) => spec_method_of_wire(method@) is None && e == Error::UnrecognizedMethod,
            },
    {
        if bytes_eq(method, Method::Read.as_bytes().as_slice()) {
            Ok(Method::Read)
        } else if bytes_eq(method, Method::Write.as_bytes().as_slice()) {
            Ok(Method::Write)
        } else if bytes_eq(method, Method::Modify.as_bytes().as_slice()) {
            Ok(Method::Modify)
        } else if bytes_eq(method, Method::Delete.as_bytes().as_slice()) {
            Ok(Method::Delete)
        } else if bytes_eq(method, Method::Probe.as_bytes().as_slice()) {
            Ok(Method::Probe)
        } else if bytes_eq(method, Method::Connect.as_bytes().as_slice()) {
            Ok(Method::Connect)
        } else if bytes_eq(method, Method::Trace.as_bytes().as_slice()) {
            Ok(Method::Trace)
        } else {
            Err(Error::UnrecognizedMethod)
        }
    }

    /// The canonical ASCII wire token of this method.
    pub fn as_bytes(&self) -> (r: Vec<u8>)
        ensures
            r@ == spec_method_wire(*self),
    {
        let r: Vec<u8> = match self {
            Method::Read => vec![82u8, 69u8, 65u8, 68u8],
            Method::Write => vec![87u8, 82u8, 73u8, 84u8, 69u8],
            Method::Modify => vec![77u8, 79u8, 68u8, 73u8, 70u8, 89u8],
            Method::Delete => vec![68u8, 69u8, 76u8, 69u8, 84u8, 69u8],
            Method::Probe => vec![80u8, 82u8, 79u8, 66u8, 69u8],
            Method::Connect => vec![67u8, 79u8, 78u8, 78u8, 69u8, 67u8, 84u8],
            Method::Trace => vec![84u8, 82u8, 65u8, 67u8, 69u8],
        };
        proof {
            assert(r@ =~= spec_method_wire(*self));
        }
        r
    }

    /// Whether this method is safe (does not modify server state).
    ///
    /// Safe methods: `Read`, `Probe`, `Trace`.
    pub fn is_safe(&self) -> (r: bool)
        ensures
            r == spec_method_safe(*self),
    {
        matches!(self, Method::Read | Method::Probe | Method::Trace)
    }

    /// Whether this method is idempotent (may be retried).
    ///
    /// Idempotent methods: `Read`, `Write`, `Delete`, `Probe`, `Trace`.
    pub fn is_idempotent(&self) -> (r: bool)
        ensures
            r == spec_method_idempotent(*self),
    {
        matches!(
            self,
            Method::Read | Method::Write | Method::Delete | Method::Probe | Method::Trace
        )
    }

    /// Whether responses to this method are cacheable.
    ///
    /// Cacheable methods: `Read`.
    pub fn is_cacheable(&self) -> (r: bool)
        ensures
            r == spec_method_cacheable(*self),
    {
        matches!(self, Method::Read)
    }
}

/// The representative legacy HTTP token of a method (`b"GET"` for `Read`,
/// and so on). One token per method: the `GET`/`HEAD` and `POST`/`PUT`
/// collapses of `spec_method_of_legacy` make the pair deliberately lossy
/// in that direction only.
pub open spec fn spec_method_legacy(m: Method) -> Seq<u8> {
    match m {
        Method::Read => seq![71u8, 69u8, 84u8],  // "GET"
        Method::Write => seq![80u8, 79u8, 83u8, 84u8],  // "POST"
        Method::Modify => seq![80u8, 65u8, 84u8, 67u8, 72u8],  // "PATCH"
        Method::Delete => seq![68u8, 69u8, 76u8, 69u8, 84u8, 69u8],  // "DELETE"
        Method::Probe => seq![79u8, 80u8, 84u8, 73u8, 79u8, 78u8, 83u8],  // "OPTIONS"
        Method::Connect => seq![67u8, 79u8, 78u8, 78u8, 69u8, 67u8, 84u8],  // "CONNECT"
        Method::Trace => seq![84u8, 82u8, 65u8, 67u8, 69u8],  // "TRACE"
    }
}

/// The legacy HTTP token `b"HEAD"`, the second token mapping to `Read`.
pub open spec fn spec_legacy_head() -> Seq<u8> {
    seq![72u8, 69u8, 65u8, 68u8]
}

/// The legacy HTTP token `b"PUT"`, the second token mapping to `Write`.
pub open spec fn spec_legacy_put() -> Seq<u8> {
    seq![80u8, 85u8, 84u8]
}

/// The method a legacy HTTP token maps to, if any: `GET`/`HEAD` map to
/// `Read` and `POST`/`PUT` to `Write`, so the mapping is not injective.
pub open spec fn spec_method_of_legacy(s: Seq<u8>) -> Option<Method> {
    if s == spec_method_legacy(Method::Read) || s == spec_legacy_head() {
        Some(Method::Read)
    } else if s == spec_method_legacy(Method::Write) || s == spec_legacy_put() {
        Some(Method::Write)
    } else if s == spec_method_legacy(Method::Modify) {
        Some(Method::Modify)
    } else if s == spec_method_legacy(Method::Delete) {
        Some(Method::Delete)
    } else if s == spec_method_legacy(Method::Probe) {
        Some(Method::Probe)
    } else if s == spec_method_legacy(Method::Connect) {
        Some(Method::Connect)
    } else if s == spec_method_legacy(Method::Trace) {
        Some(Method::Trace)
    } else {
        None
    }
}

impl Method {
    /// Map a legacy HTTP method token to a method, for gateway
    /// compatibility: `GET`/`HEAD` map to `Read`, `POST`/`PUT` to `Write`,
    /// `PATCH` to `Modify`, `DELETE` to `Delete`, `OPTIONS` to `Probe`,
    /// `CONNECT` to `Connect`, `TRACE` to `Trace`; anything else to `None`.
    pub fn from_http_method(method: &[u8]) -> (r: Option<Method>)
        ensures
            r == spec_method_of_legacy(method@),
    {
        let head: Vec<u8> = vec![72u8, 69u8, 65u8, 68u8];
        let put: Vec<u8> = vec![80u8, 85u8, 84u8];
        proof {
            assert(head@ =~= spec_legacy_head());
            assert(put@ =~= spec_legacy_put());
        }
        if bytes_eq(method, Method::Read.to_http_method().as_slice())
            || bytes_eq(method, head.as_slice()) {
            Some(Method::Read)
        } else if bytes_eq(method, Method::Write.to_http_method().as_slice())
            || bytes_eq(method, put.as_slice()) {
            Some(Method::Write)
        } else if bytes_eq(method, Method::Modify.to_http_method().as_slice()) {
            Some(Method::Modify)
        } else if bytes_eq(method, Method::Delete.to_http_method().as_slice()) {
            Some(Method::Delete)
        } else if bytes_eq(method, Method::Probe.to_http_method().as_slice()) {
            Some(Method::Probe)
        } else if bytes_eq(method, Method::Connect.to_http_method().as_slice()) {
            Some(Method::Connect)
        } else if bytes_eq(method, Method::Trace.to_http_method().as_slice()) {
            Some(Method::Trace)
        } else {
            None
        }
    }

    /// The representative legacy HTTP token of this method, for gateway
    /// compatibility. `Read` yields `GET` and `Write` yields `POST`: the
    /// `HEAD` and `PUT` alternatives accepted by `from_http_method` are
    /// never produced.
    pub fn to_http_method(&self) -> (r: Vec<u8>)
        ensures
            r@ == spec_method_legacy(*self),
    {
        let r: Vec<u8> = match self {
            Method::Read => vec![71u8, 69u8, 84u8],
            Method::Write => vec![80u8, 79u8, 83u8, 84u8],
            Method::Modify => vec![80u8, 65u8, 84u8, 67u8, 72u8],
            Method::Delete => vec![68u8, 69u8, 76u8, 69u8, 84u8, 69u8],
            Method::Probe => vec![79u8, 80u8, 84u8, 73u8, 79u8, 78u8, 83u8],
            Method::Connect => vec![67u8, 79u8, 78u8, 78u8, 69u8, 67u8, 84u8],
            Method::Trace => vec![84u8, 82u8, 65u8, 67u8, 69u8],
        };
        proof {
            assert(r@ =~= spec_method_legacy(*self));
        }
        r
    }
}

/// Every method round-trips through its representative legacy HTTP token:
/// the legacy mapping collapses `GET`/`HEAD` and `POST`/`PUT`, but the
/// representative token always maps back to the method that produced it.
pub proof fn lemma_method_legacy_round_trip(m: Method)
    ensures
        spec_method_of_legacy(spec_method_legacy(m)) == Some(m),
{
    match m {
        Method::Read => {},
        Method::Write => {},
        Method::Modify => {},
        Method::Delete => {},
        Method::Probe => {},
        Method::Connect => {},
        Method::Trace => {
            assert(spec_method_legacy(Method::Modify)[0] != spec_method_legacy(Method::Trace)[0]);
        },
    }
}

/// Each method carries exactly its documented attribute triple: safe,
/// idempotent and cacheable, in that order.
pub proof fn lemma_method_attribute_table(m: Method)
    ensures
        (spec_method_safe(m), spec_method_idempotent(m), spec_method_cacheable(m)) == (match m {
            Method::Read => (true, true, true),
            Method::Write => (false, true, false),
            Method::Modify => (false, false, false),
            Method::Delete => (false, true, false),
            Method::Probe => (true, true, false),
            Method::Connect => (false, false, false),
            Method::Trace => (true, true, false),
        }),
{
}

/// Legacy tokens are not wire tokens, except where the two vocabularies
/// coincide: the representative legacy tokens of `Read`, `Write`, `Modify`
/// and `Probe` parse as no method on the wire, while those of `Delete`,
/// `Connect` and `Trace` are their own wire tokens.
pub proof fn lemma_legacy_token_versus_wire(m: Method)
    ensures
        spec_method_of_wire(spec_method_legacy(m)) == (match m {
            Method::Read | Method::Write | Method::Modify | Method::Probe => None::<Method>,
            Method::Delete | Method::Connect | Method::Trace => Some(m),
        }),
{
    match m {
        Method::Read => {},
        Method::Write => {
            assert(spec_method_legacy(Method::Write)[0] != spec_method_wire(Method::Read)[0]);
        },
        Method::Modify => {
            assert(spec_method_legacy(Method::Modify)[0] != spec_method_wire(Method::Write)[0]);
            assert(spec_method_legacy(Method::Modify)[1] != spec_method_wire(Method::Probe)[1]);
            assert(spec_method_legacy(Method::Modify)[0] != spec_method_wire(Method::Trace)[0]);
        },
        Method::Delete => {},
        Method::Probe => {
            assert(spec_method_legacy(Method::Probe)[0] != spec_method_wire(Method::Connect)[0]);
        },
        Method::Connect => {},
        Method::Trace => {
            assert(spec_method_wire(Method::Write)[0] != spec_method_wire(Method::Trace)[0]);
            assert(spec_method_wire(Method::Probe)[0] != spec_method_wire(Method::Trace)[0]);
        },
    }
}

/// Every method round-trips losslessly through its wire token.
pub proof fn lemma_method_wire_round_trip(m: Method)
    ensures
        spec_method_of_wire(spec_method_wire(m)) == Some(m),
{
    match m {
        Method::Read => {},
        Method::Write => {},
        Method::Modify => {},
        Method::Delete => {},
        Method::Probe => {
            assert(spec_method_wire(Method::Write)[0] != spec_method_wire(Method::Probe)[0]);
        },
        Method::Connect => {},
        Method::Trace => {
            assert(spec_method_wire(Method::Write)[0] != spec_method_wire(Method::Trace)[0]);
            assert(spec_method_wire(Method::Probe)[0] != spec_method_wire(Method::Trace)[0]);
        },
    }
}

} // verus!
