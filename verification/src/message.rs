//! Queries for the message endpoint: text in, URL with query parameters out.

use vstd::prelude::*;

use crate::constants::{BASE_URL, MAX_TEXT_LENGTH};
use crate::entities::{dynamic_entities_json, entities_json, DynamicEntity};
use crate::error::ApiError;
use crate::text::{dec_str, format_u64};
use crate::urls::{percent_encode, percent_encoded, url_with_params};
use vstd::utf8::encode_utf8;

verus! {

/// A query for the message endpoint: the text to process, an optional tag,
/// an optional cap on the number of intents returned, and optional dynamic
/// entities.
#[derive(Debug, Clone)]
pub struct MessageQuery {
    /// The message text to be processed.
    pub q: String,
    /// Optional tag to be associated with the message.
    pub tag: Option<String>,
    /// Optional limit on the number of intents to return.
    pub n: Option<u8>,
    /// The dynamic entity array to be used in the request.
    pub dynamic_entities: Option<Vec<DynamicEntity>>,
}

impl MessageQuery {
    /// A new query around the given message text, which must be nonempty and
    /// at most `MAX_TEXT_LENGTH` bytes long.
    pub fn new(message: String) -> (r: MessageQuery)
        requires
            message@.len() > 0,
            encode_utf8(message@).len() <= MAX_TEXT_LENGTH,
        ensures
            r.q == message,
            r.tag is None,
            r.n is None,
            r.dynamic_entities is None,
    {
        MessageQuery { q: message, tag: None, n: None, dynamic_entities: None }
    }

    /// Sets the tag to be associated with the message.
    pub fn with_tag(self, tag: String) -> (r: MessageQuery)
        ensures
            r.q == self.q,
            r.tag == Some(tag),
            r.n == self.n,
            r.dynamic_entities == self.dynamic_entities,
    {
        MessageQuery { tag: Some(tag), ..self }
    }

    /// Sets the limit on the number of intents to return; the API accepts at
    /// most eight.
    pub fn with_limit(self, limit: u8) -> (r: MessageQuery)
        requires
            limit <= 8,
        ensures
            r.q == self.q,
            r.tag == self.tag,
            r.n == Some(limit),
            r.dynamic_entities == self.dynamic_entities,
    {
        MessageQuery { n: Some(limit), ..self }
    }

    /// Sets the dynamic entities to be used in the request.
    pub fn with_dynamic_entities(self, dynamic_entities: Vec<DynamicEntity>) -> (r: MessageQuery)
        ensures
            r.q == self.q,
            r.tag == self.tag,
            r.n == self.n,
            r.dynamic_entities == Some(dynamic_entities),
    {
        MessageQuery { dynamic_entities: Some(dynamic_entities), ..self }
    }

    /// The query parameters this query puts on the URL: always `q`, then
    /// `tag`, `n` and `entities` when set, in that order. The entities are
    /// rendered as JSON and percent-encoded.
    pub fn to_params(&self) -> (r: Vec<(String, String)>)
        ensures
            r@.map_values(|p: (String, String)| (p.0@, p.1@)) == message_params(*self),
    {
        let ghost pair_view = |p: (String, String)| (p.0@, p.1@);
        let mut ps: Vec<(String, String)> = Vec::new();
        ps.push(("q".to_owned(), self.q.clone()));
        proof {
            assert(ps@.map_values(pair_view) =~= seq![("q"@, self.q@)]);
        }
        if let Some(tag) = &self.tag {
            let ghost prev = ps@;
            ps.push(("tag".to_owned(), tag.clone()));
            proof {
                assert(ps@.map_values(pair_view) =~= prev.map_values(pair_view).push(
                    ("tag"@, tag@),
                ));
            }
        }
        if let Some(n) = self.n {
            let ghost prev = ps@;
            ps.push(("n".to_owned(), format_u64(n as u64)));
            proof {
                assert(ps@.map_values(pair_view) =~= prev.map_values(pair_view).push(
                    ("n"@, dec_str(n as int)),
                ));
            }
        }
        if let Some(des) = &self.dynamic_entities {
            let ghost prev = ps@;
            let json = dynamic_entities_json(des);
            ps.push(("entities".to_owned(), percent_encode(json.as_str())));
            proof {
                assert(ps@.map_values(pair_view) =~= prev.map_values(pair_view).push(
                    ("entities"@, percent_encoded(entities_json(des@))),
                ));
            }
        }
        ps
    }

    /// The full URL for the message endpoint, with this query's parameters
    /// percent-encoded into the query string; `to_params` states exactly
    /// which parameters go on it.
    pub fn to_url(&self) -> (r: Result<url::Url, ApiError>)
        ensures
            r is Err ==> r->Err_0 is UrlError,
    {
        let params = self.to_params();
        let base = BASE_URL.to_owned().concat("message");
        match url_with_params(base.as_str(), &params) {
            Ok(u) => Ok(u),
            Err(e) => Err(ApiError::UrlError(e)),
        }
    }
}

/// The parameter list of a message query: `q` first, then `tag`, `n` and
/// `entities` exactly when they are set.
pub open spec fn message_params(q: MessageQuery) -> Seq<(Seq<char>, Seq<char>)> {
    let ps = seq![("q"@, q.q@)];
    let ps = if q.tag is Some {
        ps.push(("tag"@, q.tag->Some_0@))
    } else {
        ps
    };
    let ps = if q.n is Some {
        ps.push(("n"@, dec_str(q.n->Some_0 as int)))
    } else {
        ps
    };
    if q.dynamic_entities is Some {
        ps.push(("entities"@, percent_encoded(entities_json(q.dynamic_entities->Some_0@))))
    } else {
        ps
    }
}

impl From<String> for MessageQuery {
    /// Wraps a text as a plain query; unlike `new`, no length bounds are
    /// enforced here.
    fn from(val: String) -> (r: MessageQuery) {
        MessageQuery { q: val, tag: None, n: None, dynamic_entities: None }
    }
}

impl vstd::std_specs::convert::FromSpecImpl<String> for MessageQuery {
    open spec fn obeys_from_spec() -> bool {
        true
    }

    open spec fn from_spec(v: String) -> MessageQuery {
        MessageQuery { q: v, tag: None, n: None, dynamic_entities: None }
    }
}

impl From<&String> for MessageQuery {
    /// Wraps a copy of the text as a plain query.
    fn from(val: &String) -> (r: MessageQuery) {
        MessageQuery { q: val.clone(), tag: None, n: None, dynamic_entities: None }
    }
}

impl vstd::std_specs::convert::FromSpecImpl<&String> for MessageQuery {
    open spec fn obeys_from_spec() -> bool {
        true
    }

    open spec fn from_spec(v: &String) -> MessageQuery {
        MessageQuery { q: *v, tag: None, n: None, dynamic_entities: None }
    }
}

impl From<&str> for MessageQuery {
    /// Wraps an owned copy of the text as a plain query.
    fn from(val: &str) -> (r: MessageQuery)
        ensures
            r.q@ == val@,
            r.tag is None,
            r.n is None,
            r.dynamic_entities is None,
    {
        MessageQuery { q: val.to_owned(), tag: None, n: None, dynamic_entities: None }
    }
}

impl vstd::std_specs::convert::FromSpecImpl<&str> for MessageQuery {
    open spec fn obeys_from_spec() -> bool {
        false
    }

    open spec fn from_spec(v: &str) -> MessageQuery {
        arbitrary()
    }
}

} // verus!
