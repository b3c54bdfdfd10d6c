//! The server-side client and the entity-management data it exchanges:
//! entity descriptions, keywords, lookup strategies, and the pure readers
//! for the management endpoints' responses.

use vstd::prelude::*;

use crate::decode::{json_ok, json_str_field, text_string_field};
use crate::text::str_eq;

verus! {

/// The interface used to manage the connected application.
#[derive(Debug, Clone)]
pub struct ServerClient {
    /// The server-side bearer token.
    pub token: String,
}

impl ServerClient {
    /// A new server client around the given bearer token.
    pub fn new(token: &str) -> (r: ServerClient)
        ensures
            r.token@ == token@,
    {
        ServerClient { token: token.to_owned() }
    }
}

/// A generic form for an entity, carrying only the essentials.
#[derive(Debug, Clone)]
pub struct GenericEntity {
    /// The entity's identifier.
    pub id: String,
    /// The entity's name.
    pub name: String,
}

/// A keyword for a possible entity value.
#[derive(Debug, Clone)]
pub struct Keyword {
    /// The canonical keyword.
    pub keyword: String,
    /// The values that should be interpreted as the keyword.
    pub synonyms: Vec<String>,
}

/// A detailed entity description: everything the management endpoints know
/// about one entity.
#[derive(Debug, Clone)]
pub struct DetailedEntity {
    /// The entity's identifier.
    pub id: String,
    /// The entity's name.
    pub name: String,
    /// The lookup strategies, as the API sends them.
    pub lookups: Vec<String>,
    /// The keywords for detection.
    pub keywords: Vec<Keyword>,
}

/// How an entity's values are found in a text: by position, by keyword, or
/// both.
#[derive(Debug, Clone, Copy, PartialEq, Eq, Structural)]
pub enum LookupStrategy {
    /// Found by its position in the text; could hold mostly any value.
    FreeText,
    /// Only defined keywords are recognised.
    Keywords,
    /// Keywords, but also any value positioned in the text.
    Both,
}

/// The lookup lists the API sends: at most two entries, and a single entry
/// is one of the two known strategy names.
pub open spec fn lookups_valid(v: Seq<Seq<char>>) -> bool {
    &&& v.len() <= 2
    &&& (v.len() == 1 ==> v[0] == "free-text"@ || v[0] == "keywords"@)
}

/// The strategy a lookup list denotes: its single entry's strategy, or both
/// strategies for an empty or two-entry list.
pub open spec fn strategy_of(v: Seq<Seq<char>>) -> LookupStrategy {
    if v.len() == 1 {
        if v[0] == "free-text"@ {
            LookupStrategy::FreeText
        } else {
            LookupStrategy::Keywords
        }
    } else {
        LookupStrategy::Both
    }
}

/// The lookup names a strategy is sent as.
pub open spec fn strategy_strings(s: LookupStrategy) -> Seq<Seq<char>> {
    match s {
        LookupStrategy::FreeText => seq!["free-text"@],
        LookupStrategy::Keywords => seq!["keywords"@],
        LookupStrategy::Both => seq!["keywords"@, "free-text"@],
    }
}

impl DetailedEntity {
    /// The parsed form of this entity's lookup list.
    pub fn lookups(&self) -> (r: LookupStrategy)
        requires
            lookups_valid(self.lookups@.map_values(|s: String| s@)),
        ensures
            r == strategy_of(self.lookups@.map_values(|s: String| s@)),
    {
        if self.lookups.len() == 1 {
            if str_eq(self.lookups[0].as_str(), "free-text") {
                LookupStrategy::FreeText
            } else {
                LookupStrategy::Keywords
            }
        } else {
            LookupStrategy::Both
        }
    }
}

impl LookupStrategy {
    /// The lookup names this strategy is sent as.
    pub fn to_strings(&self) -> (r: Vec<String>)
        ensures
            r@.map_values(|s: String| s@) == strategy_strings(*self),
    {
        let mut v: Vec<String> = Vec::new();
        match self {
            LookupStrategy::FreeText => {
                v.push("free-text".to_owned());
                proof {
                    assert(v@.map_values(|s: String| s@) =~= seq!["free-text"@]);
                }
            },
            LookupStrategy::Keywords => {
                v.push("keywords".to_owned());
                proof {
                    assert(v@.map_values(|s: String| s@) =~= seq!["keywords"@]);
                }
            },
            LookupStrategy::Both => {
                v.push("keywords".to_owned());
                v.push("free-text".to_owned());
                proof {
                    assert(v@.map_values(|s: String| s@) =~= seq!["keywords"@, "free-text"@]);
                }
            },
        }
        v
    }
}

/// The index of the last `:` in the text, or `-1` when it has none.
pub open spec fn last_colon(s: Seq<char>) -> int
    decreases s.len(),
{
    if s.len() == 0 {
        -1
    } else if s.last() == ':' {
        s.len() - 1
    } else {
        last_colon(s.drop_last())
    }
}

/// Splits the `deleted` name that the role-deletion endpoint returns into
/// the entity part and the role part, at the last `:`; a name without one
/// is all role and no entity.
pub fn split_entity_role(deleted: &str) -> (r: (String, String))
    ensures
        ({
            let s = deleted@;
            let c = last_colon(s);
            if c >= 0 {
                r.0@ == s.take(c) && r.1@ == s.subrange(c + 1, s.len() as int)
            } else {
                r.0@.len() == 0 && r.1@ == s
            }
        }),
{
    let n = deleted.unicode_len();
    let mut i: usize = n;
    proof {
        assert(deleted@.take(n as int) =~= deleted@);
    }
    while i > 0
        invariant
            n == deleted@.len(),
            i <= n,
            last_colon(deleted@) == last_colon(deleted@.take(i as int)),
        decreases i,
    {
        let c = deleted.get_char(i - 1);
        proof {
            assert(deleted@.take(i as int).last() == deleted@[i - 1]);
            assert(deleted@.take(i as int).drop_last() =~= deleted@.take(i - 1));
        }
        if c == ':' {
            let before = deleted.substring_char(0, i - 1).to_owned();
            let after = deleted.substring_char(i, n).to_owned();
            proof {
                assert(last_colon(deleted@) == i - 1);
                assert(deleted@.take(i - 1) =~= deleted@.subrange(0, i - 1));
            }
            return (before, after);
        }
        i = i - 1;
    }
    proof {
        assert(deleted@.take(0) =~= Seq::<char>::empty());
        assert(last_colon(deleted@) == -1);
    }
    (String::new(), deleted.to_owned())
}

/// Reads the `deleted` field of a management endpoint's response body:
/// `Some` exactly when the body is a JSON document carrying it as a string.
pub fn parse_deleted(body: &str) -> (r: Option<String>)
    ensures
        match r {
            Some(d) => json_ok(body@) && json_str_field(body@, "deleted"@) == Some(d@),
            None => !json_ok(body@) || json_str_field(body@, "deleted"@) is None,
        },
{
    text_string_field(body, "deleted")
}

} // verus!
