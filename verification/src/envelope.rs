//! The result envelope: the outward-facing value of the buffering operation,
//! carrying either a serialized geometry or a descriptive error, never both.

use vstd::prelude::*;
use crate::escape::{json_escape, json_escaped};

verus! {

/// The result envelope. Exactly one of the two fields is populated: a
/// successful operation carries the serialized geometry and no error, a failed
/// one carries an error message and an empty payload.
pub struct BufferResult {
    pub geojson: String,
    pub error: Option<String>,
}

/// The serialized envelope text for a payload and an optional error: a
/// key/value structure with a `geojson` field and an `error` field, the
/// latter null on success.
pub open spec fn envelope_json(payload: Seq<char>, error: Option<Seq<char>>) -> Seq<char> {
    "{\"geojson\":\""@ + json_escaped(payload) + "\",\"error\":"@ + (match error {
        Some(e) => "\""@ + json_escaped(e) + "\""@,
        None => "null"@,
    }) + "}"@
}

impl BufferResult {
    /// Exactly one of the two fields is populated.
    pub open spec fn wf(&self) -> bool {
        match self.error {
            Some(_) => self.geojson@.len() == 0,
            None => self.geojson@.len() > 0,
        }
    }

    /// The envelope's error message, if any.
    pub open spec fn error_view(&self) -> Option<Seq<char>> {
        match self.error {
            Some(e) => Some(e@),
            None => None,
        }
    }

    /// The envelope's serialized text.
    pub open spec fn spec_json(&self) -> Seq<char> {
        envelope_json(self.geojson@, self.error_view())
    }

    /// A successful envelope carrying a serialized geometry.
    pub fn success(payload: String) -> (r: BufferResult)
        requires
            payload@.len() > 0,
        ensures
            r.wf(),
            r.geojson@ == payload@,
            r.error is None,
    {
        BufferResult { geojson: payload, error: None }
    }

    /// A failed envelope carrying a descriptive error message.
    pub fn failure(message: String) -> (r: BufferResult)
        ensures
            r.wf(),
            r.geojson@.len() == 0,
            r.error_view() == Some(message@),
    {
        BufferResult { geojson: String::new(), error: Some(message) }
    }

    /// Serializes the envelope.
    pub fn to_json(&self) -> (r: String)
        ensures
            r@ == self.spec_json(),
    {
        let mut out = String::new();
        out.append("{\"geojson\":\"");
        let p = json_escape(self.geojson.as_str());
        out.append(p.as_str());
        out.append("\",\"error\":");
        match &self.error {
            None => {
                out.append("null");
            },
            Some(e) => {
                out.append("\"");
                let m = json_escape(e.as_str());
                out.append(m.as_str());
                out.append("\"");
            },
        }
        out.append("}");
        proof {
            assert(out@ =~= self.spec_json());
        }
        out
    }
}

/// Every well-formed envelope populates exactly one of its two fields: the
/// payload is present precisely when no error is.
pub proof fn lemma_envelope_exclusive(r: BufferResult)
    requires
        r.wf(),
    ensures
        (r.geojson@.len() > 0) <==> (r.error is None),
{
}

} // verus!
