//! The normalized snapshot of one inbound request, as the routing script
//! sees it: a generated id, method, URL path, origin address, a
//! lower-cased header mapping, an optional MIME type, and the raw body
//! bytes under the fixed ceiling.
use vstd::prelude::*;

use crate::MAX_BODY_SIZE;
use crate::admission::str_eq;
use crate::body::AdmissionError;
use crate::textenc::{ascii_lower, ascii_upper, lower_key, upper_key};

verus! {

/// What the `mime` crate renders a parsed content-type string back as;
/// a function of the string alone.
pub uninterp spec fn mime_normal_of(s: Seq<char>) -> Seq<char>;

/// Whether the `mime` crate's grammar accepts a content-type string; a
/// function of the string alone.
pub uninterp spec fn mime_parses(s: Seq<char>) -> bool;

/// Relies on `mime::Mime`: the parse is deterministic, a function of the
/// string alone; a string the grammar accepts renders back as a fixed
/// normalization of itself, and one outside the grammar is refused.
#[verifier::external_body]
fn parse_mime(s: &str) -> (r: Result<String, ()>)
    ensures
        (r is Ok) == mime_parses(s@),
        r matches Ok(m) ==> m@ == mime_normal_of(s@),
{
    match s.parse::<mime::Mime>() {
        Ok(m) => Ok(m.to_string()),
        Err(_) => Err(()),
    }
}

/// Relies on `uuid::Uuid::new_v4` and its hyphenated rendering: a fresh
/// random request id, 36 characters long.
#[verifier::external_body]
pub fn fresh_request_id() -> (r: String)
    ensures
        r@.len() == 36,
{
    uuid::Uuid::new_v4().to_string()
}

/// The value of the last header with the given key, looked up from the
/// end so that a repeated key keeps its last occurrence.
pub open spec fn header_lookup(hs: Seq<(Seq<char>, Seq<char>)>, key: Seq<char>) -> Option<
    Seq<char>,
>
    decreases hs.len(),
{
    if hs.len() == 0 {
        None
    } else if hs.last().0 == key {
        Some(hs.last().1)
    } else {
        header_lookup(hs.drop_last(), key)
    }
}

/// The headers as character sequences.
pub open spec fn header_views(hs: Seq<(String, String)>) -> Seq<(Seq<char>, Seq<char>)> {
    Seq::new(hs.len(), |i: int| (hs[i].0@, hs[i].1@))
}

/// The headers as character sequences, with every key lower-cased.
pub open spec fn lowered_headers(hs: Seq<(String, String)>) -> Seq<(Seq<char>, Seq<char>)> {
    Seq::new(hs.len(), |i: int| (lower_key(hs[i].0@), hs[i].1@))
}

/// The MIME default when no content-type header is present: methods that
/// conventionally carry a body default to the unspecified-binary marker;
/// body-less retrieval methods leave it unset.
pub open spec fn default_mime(method: Seq<char>) -> Option<Seq<char>> {
    if method == "GET"@ || method == "HEAD"@ {
        None
    } else {
        Some("application/octet-stream"@)
    }
}

/// The MIME type of a request with the given (already normalized) headers
/// and method: the normalized explicit content-type header when present,
/// the conditional default otherwise.
pub open spec fn mime_for(hs: Seq<(Seq<char>, Seq<char>)>, method: Seq<char>) -> Option<
    Seq<char>,
> {
    match header_lookup(hs, "content-type"@) {
        Some(v) => Some(mime_normal_of(v)),
        None => default_mime(method),
    }
}

/// Immutable snapshot of one inbound request, normalized for the routing
/// script.
pub struct LuaRequest {
    pub request_id: String,
    pub url: String,
    pub method: String,
    pub origin: String,
    pub headers: Vec<(String, String)>,
    pub mime_type: Option<String>,
    pub body: Vec<u8>,
}

impl LuaRequest {
    /// A well-formed record: the body is under the ceiling and every
    /// header key is already lower-cased. Only such records reach the
    /// routing script, so an oversized body can never be seen by it.
    pub open spec fn wf(self) -> bool {
        &&& self.body@.len() <= MAX_BODY_SIZE
        &&& forall|i: int|
            0 <= i < self.headers@.len() ==> (#[trigger] self.headers@[i].0)@ == lower_key(
                self.headers@[i].0@,
            )
    }

    /// Normalizes one inbound request into a record: generates a fresh id,
    /// upper-cases the method, lower-cases every header key, determines
    /// the MIME type (explicit content-type header, normalized, when
    /// present; the conditional default otherwise), and takes the body,
    /// refusing one over the ceiling.
    pub fn create(
        url: String,
        method: String,
        origin: String,
        headers: Vec<(String, String)>,
        body: Vec<u8>,
    ) -> (r: Result<LuaRequest, AdmissionError>)
        ensures
            (body@.len() > MAX_BODY_SIZE) <==> (r matches Err(e) && e
                == AdmissionError::BodyTooLarge),
            r matches Ok(rec) ==> {
                &&& rec.wf()
                &&& rec.request_id@.len() == 36
                &&& rec.url@ == url@
                &&& rec.method@ == upper_key(method@)
                &&& rec.origin@ == origin@
                &&& rec.headers@.len() == headers@.len()
                &&& forall|i: int|
                    0 <= i < headers@.len() ==> (#[trigger] rec.headers@[i].0)@ == lower_key(
                        headers@[i].0@,
                    ) && rec.headers@[i].1@ == headers@[i].1@
                &&& match mime_for(header_views(rec.headers@), rec.method@) {
                    Some(m) => rec.mime_type matches Some(s) && s@ == m,
                    None => rec.mime_type is None,
                }
                &&& rec.body@ == body@
            },
            r matches Err(AdmissionError::MimeParse(v)) ==> header_lookup(
                lowered_headers(headers@),
                "content-type"@,
            ) == Some(v@) && !mime_parses(v@),
            body@.len() <= MAX_BODY_SIZE ==> match header_lookup(
                lowered_headers(headers@),
                "content-type"@,
            ) {
                Some(w) => if mime_parses(w) {
                    r is Ok
                } else {
                    r matches Err(AdmissionError::MimeParse(v)) && v@ == w
                },
                None => r is Ok,
            },
    {
        if body.len() > MAX_BODY_SIZE {
            return Err(AdmissionError::BodyTooLarge);
        }
        let request_id = fresh_request_id();
        let method_up = ascii_upper(method.as_str());

        let mut normalized: Vec<(String, String)> = Vec::new();
        let mut i: usize = 0;
        while i < headers.len()
            invariant
                i <= headers@.len(),
                normalized@.len() == i,
                forall|k: int|
                    0 <= k < i ==> (#[trigger] normalized@[k].0)@ == lower_key(headers@[k].0@)
                        && normalized@[k].1@ == headers@[k].1@,
            decreases headers@.len() - i,
        {
            let key = ascii_lower(headers[i].0.as_str());
            let value = headers[i].1.clone();
            normalized.push((key, value));
            i = i + 1;
        }

        proof {
            assert(header_views(normalized@) =~= lowered_headers(headers@));
        }
        let mime_type: Option<String> = match find_header(&normalized, "content-type") {
            Some(v) => {
                match parse_mime(v.as_str()) {
                    Ok(m) => Some(m),
                    Err(_) => {
                        return Err(AdmissionError::MimeParse(v));
                    },
                }
            },
            None => {
                if !str_eq(method_up.as_str(), "GET") && !str_eq(method_up.as_str(), "HEAD") {
                    Some(String::from_str("application/octet-stream"))
                } else {
                    None
                }
            },
        };

        proof {
            assert forall|k: int| 0 <= k < normalized@.len() implies (
            #[trigger] normalized@[k].0)@ == crate::textenc::lower_key(normalized@[k].0@) by {
                crate::textenc::lemma_lower_key_idempotent(headers@[k].0@);
            }
        }
        Ok(
            LuaRequest {
                request_id,
                url,
                method: method_up,
                origin,
                headers: normalized,
                mime_type,
                body,
            },
        )
    }
}

/// Finds the value of the given (lower-cased) key among the headers,
/// keeping the last occurrence of a repeated key.
pub fn find_header(headers: &Vec<(String, String)>, key: &str) -> (r: Option<String>)
    ensures
        match r {
            Some(v) => header_lookup(header_views(headers@), key@) matches Some(w) && v@ == w,
            None => header_lookup(header_views(headers@), key@) is None,
        },
{
    proof {
        assert(header_views(headers@).subrange(0, headers@.len() as int) =~= header_views(
            headers@,
        ));
    }
    let mut j: usize = headers.len();
    while j > 0
        invariant
            j <= headers@.len(),
            header_lookup(header_views(headers@), key@) == header_lookup(
                header_views(headers@).subrange(0, j as int),
                key@,
            ),
        decreases j,
    {
        let ghost prefix = header_views(headers@).subrange(0, j as int);
        j = j - 1;
        if str_eq(headers[j].0.as_str(), key) {
            proof {
                assert(prefix.last() == (headers@[j as int].0@, headers@[j as int].1@));
            }
            return Some(headers[j].1.clone());
        }
        proof {
            assert(prefix.last() == (headers@[j as int].0@, headers@[j as int].1@));
            assert(prefix.drop_last() =~= header_views(headers@).subrange(0, j as int));
        }
    }
    proof {
        assert(header_views(headers@).subrange(0, 0) =~= Seq::<(Seq<char>, Seq<char>)>::empty());
    }
    None
}

} // verus!
