//! Dynamic entities: runtime-defined keyword sets sent along with a query,
//! rendered verbatim into the JSON shape the API expects.

use vstd::prelude::*;

use crate::text::{json_escape, json_escaped, str_eq};

verus! {

/// One value of a dynamic entity: a canonical keyword and its synonyms.
#[derive(Debug, Clone)]
pub struct EntityValue {
    /// The canonical keyword for this entity value.
    pub keyword: String,
    /// Alternative forms or synonyms for the keyword.
    pub synonyms: Vec<String>,
}

/// A dynamic entity grouping multiple values under a name, built or modified
/// at runtime.
#[derive(Debug, Clone)]
pub struct DynamicEntity {
    /// The runtime name of this entity set; it becomes the key in the
    /// rendered JSON and is not part of the entry's body.
    pub name: String,
    /// The collection of values available for this dynamic entity.
    pub values: Vec<EntityValue>,
}

impl DynamicEntity {
    /// A new dynamic entity with the given name and no values.
    pub fn new(name: String) -> (r: DynamicEntity)
        ensures
            r.name == name,
            r.values@ == Seq::<EntityValue>::empty(),
    {
        DynamicEntity { name, values: Vec::new() }
    }

    /// Appends a value to the entity.
    pub fn add_value(&mut self, value: EntityValue)
        ensures
            final(self).name == old(self).name,
            final(self).values@ == old(self).values@.push(value),
    {
        self.values.push(value);
    }
}

/// Variants for classifying geographical locations.
#[derive(Debug, Clone, Copy, PartialEq, Eq, Structural)]
pub enum LocationType {
    /// A small administrative unit such as a city, town, or neighborhood.
    Locality,
    /// A larger administrative area such as a state or province.
    Region,
    /// A sovereign nation or country.
    Country,
}

/// A reference to a well-known entity: a book, a character, a person.
#[derive(Debug, Clone)]
pub struct ReferenceValue {
    /// The canonical name.
    pub name: String,
    /// A domain or type label, such as a person or a book.
    pub domain: String,
    /// External identifiers, as name and value pairs.
    pub external: Vec<(String, String)>,
    /// Other metadata, as name and value pairs.
    pub attributes: Vec<(String, String)>,
}

/// A simple structured value: an optional type, a resolution grain, and
/// the value as text.
#[derive(Debug, Clone)]
pub struct StructValue {
    /// Optional data type or category of this value.
    pub type_: Option<String>,
    /// Granularity or precision level for the value.
    pub grain: String,
    /// The raw text of the value.
    pub value: String,
}

/// A value that spans an interval, with explicit start and end points.
#[derive(Debug, Clone)]
pub struct IntervalValue {
    /// The type or category of the interval.
    pub type_: String,
    /// The start of the interval, as text.
    pub start: String,
    /// The end of the interval, as text.
    pub end: String,
}

/// A structured value: either a standalone value or an interval.
#[derive(Debug, Clone)]
pub enum StructuredValue {
    /// A standalone structured value.
    Value(StructValue),
    /// A ranged or interval-based structured value.
    Interval(IntervalValue),
}

/// A text as a JSON string literal: quoted, with its characters escaped.
pub open spec fn quoted(s: Seq<char>) -> Seq<char> {
    seq!['"'] + json_escaped(s) + seq!['"']
}

/// Pieces joined by commas, in order, with no trailing comma.
pub open spec fn comma_join(items: Seq<Seq<char>>) -> Seq<char>
    decreases items.len(),
{
    if items.len() == 0 {
        Seq::empty()
    } else if items.len() == 1 {
        items[0]
    } else {
        comma_join(items.drop_last()) + seq![','] + items.last()
    }
}

/// One entity value as JSON: its keyword and the list of its synonyms.
pub open spec fn entity_value_json(v: EntityValue) -> Seq<char> {
    "{\"keyword\":"@ + quoted(v.keyword@) + ",\"synonyms\":["@ + comma_join(
        v.synonyms@.map_values(|s: String| quoted(s@)),
    ) + "]}"@
}

/// One dynamic entity as a JSON object entry, keyed by its name.
pub open spec fn entity_entry_json(e: DynamicEntity) -> Seq<char> {
    quoted(e.name@) + ":{\"values\":["@ + comma_join(
        e.values@.map_values(|v: EntityValue| entity_value_json(v)),
    ) + "]}"@
}

/// Whether some entity in the sequence bears this name.
pub open spec fn has_name(es: Seq<DynamicEntity>, name: Seq<char>) -> bool {
    exists|i: int| 0 <= i < es.len() && es[i].name@ == name
}

/// The entities that survive name collisions: when several share a name,
/// only the last stays, so a later definition overrides an earlier one.
pub open spec fn kept_entities(es: Seq<DynamicEntity>) -> Seq<DynamicEntity>
    decreases es.len(),
{
    if es.len() == 0 {
        Seq::empty()
    } else if has_name(es.drop_first(), es.first().name@) {
        kept_entities(es.drop_first())
    } else {
        seq![es.first()] + kept_entities(es.drop_first())
    }
}

/// The whole dynamic-entity map as one JSON object, keyed by entity name,
/// later entries overriding earlier ones of the same name.
pub open spec fn entities_json(es: Seq<DynamicEntity>) -> Seq<char> {
    seq!['{'] + comma_join(kept_entities(es).map_values(|e: DynamicEntity| entity_entry_json(e)))
        + seq!['}']
}

/// Renders a text as a quoted, escaped JSON string literal.
fn render_quoted(s: &str) -> (r: String)
    ensures
        r@ == quoted(s@),
{
    let quote = "\"";
    proof {
        reveal_strlit("\"");
        assert(quote@ =~= seq!['"']);
    }
    let mut out = String::new();
    out.append(quote);
    out.append(json_escape(s).as_str());
    out.append(quote);
    proof {
        assert(out@ =~= quoted(s@));
    }
    out
}

/// Joins already-rendered pieces with commas.
fn join_comma(items: &Vec<String>) -> (r: String)
    ensures
        r@ == comma_join(items@.map_values(|s: String| s@)),
{
    let comma = ",";
    proof {
        reveal_strlit(",");
        assert(comma@ =~= seq![',']);
    }
    let mut out = String::new();
    let mut t: usize = 0;
    proof {
        assert(items@.take(0).map_values(|s: String| s@) =~= Seq::<Seq<char>>::empty());
    }
    while t < items.len()
        invariant
            t <= items@.len(),
            comma@ == seq![','],
            out@ == comma_join(items@.take(t as int).map_values(|s: String| s@)),
        decreases items@.len() - t,
    {
        if t > 0 {
            out.append(comma);
        }
        out.append(items[t].as_str());
        proof {
            let prev = items@.take(t as int).map_values(|s: String| s@);
            let cur = items@.take(t + 1).map_values(|s: String| s@);
            assert(cur.drop_last() =~= prev);
            assert(cur.last() == items@[t as int]@);
            if t == 0 {
                assert(out@ =~= comma_join(cur));
            } else {
                assert(out@ =~= comma_join(prev) + seq![','] + items@[t as int]@);
            }
        }
        t = t + 1;
    }
    proof {
        assert(items@.take(items@.len() as int) =~= items@);
    }
    out
}

/// Renders one entity value as JSON.
fn render_entity_value(v: &EntityValue) -> (r: String)
    ensures
        r@ == entity_value_json(*v),
{
    let mut parts: Vec<String> = Vec::new();
    let mut j: usize = 0;
    while j < v.synonyms.len()
        invariant
            j <= v.synonyms@.len(),
            parts@.len() == j,
            forall|k: int| 0 <= k < j ==> parts@[k]@ == quoted(v.synonyms@[k]@),
        decreases v.synonyms@.len() - j,
    {
        parts.push(render_quoted(v.synonyms[j].as_str()));
        j = j + 1;
    }
    let mut out = String::new();
    out.append("{\"keyword\":");
    out.append(render_quoted(v.keyword.as_str()).as_str());
    out.append(",\"synonyms\":[");
    out.append(join_comma(&parts).as_str());
    out.append("]}");
    proof {
        assert(parts@.map_values(|s: String| s@) =~= v.synonyms@.map_values(
            |s: String| quoted(s@),
        ));
        assert(out@ =~= entity_value_json(*v));
    }
    out
}

/// Renders one dynamic entity as a JSON object entry.
fn render_entity_entry(e: &DynamicEntity) -> (r: String)
    ensures
        r@ == entity_entry_json(*e),
{
    let mut parts: Vec<String> = Vec::new();
    let mut j: usize = 0;
    while j < e.values.len()
        invariant
            j <= e.values@.len(),
            parts@.len() == j,
            forall|k: int| 0 <= k < j ==> parts@[k]@ == entity_value_json(e.values@[k]),
        decreases e.values@.len() - j,
    {
        parts.push(render_entity_value(&e.values[j]));
        j = j + 1;
    }
    let mut out = String::new();
    out.append(render_quoted(e.name.as_str()).as_str());
    out.append(":{\"values\":[");
    out.append(join_comma(&parts).as_str());
    out.append("]}");
    proof {
        assert(parts@.map_values(|s: String| s@) =~= e.values@.map_values(
            |v: EntityValue| entity_value_json(v),
        ));
        assert(out@ =~= entity_entry_json(*e));
    }
    out
}

/// Renders a list of dynamic entities as the JSON object the API expects,
/// keyed by entity name; when names collide, the last definition wins.
pub fn dynamic_entities_json(es: &Vec<DynamicEntity>) -> (r: String)
    ensures
        r@ == entities_json(es@),
{
    let n = es.len();
    let mut parts: Vec<String> = Vec::new();
    let mut i: usize = 0;
    proof {
        let to_json = |e: DynamicEntity| entity_entry_json(e);
        assert(es@.skip(0) =~= es@);
        assert(parts@.map_values(|s: String| s@) =~= Seq::<Seq<char>>::empty());
        assert(Seq::<Seq<char>>::empty() + kept_entities(es@).map_values(to_json)
            =~= kept_entities(es@).map_values(to_json));
    }
    while i < n
        invariant
            n == es@.len(),
            i <= n,
            kept_entities(es@).map_values(|e: DynamicEntity| entity_entry_json(e)) == parts@
                .map_values(|s: String| s@) + kept_entities(es@.skip(i as int)).map_values(
                |e: DynamicEntity| entity_entry_json(e),
            ),
        decreases n - i,
    {
        let ghost suffix = es@.skip(i as int);
        let mut dup = false;
        let mut j: usize = i + 1;
        while j < n
            invariant
                n == es@.len(),
                i < n,
                i + 1 <= j <= n,
                dup == exists|k: int| i < k < j && es@[k].name@ == es@[i as int].name@,
            decreases n - j,
        {
            if str_eq(es[j].name.as_str(), es[i].name.as_str()) {
                dup = true;
            }
            j = j + 1;
        }
        proof {
            assert(suffix.first() == es@[i as int]);
            assert(suffix.drop_first() =~= es@.skip(i + 1));
            if dup {
                let k = choose|k: int| i < k < n && es@[k].name@ == es@[i as int].name@;
                assert(es@.skip(i + 1)[k - i - 1].name@ == es@[i as int].name@);
                assert(has_name(es@.skip(i + 1), es@[i as int].name@));
            } else {
                if has_name(es@.skip(i + 1), es@[i as int].name@) {
                    let nm = es@[i as int].name@;
                    let tail = es@.skip(i + 1);
                    let k = choose|k: int| 0 <= k < tail.len() && (#[trigger] tail[k]).name@ == nm;
                    assert(es@[k + i + 1].name@ == es@[i as int].name@);
                    assert(false);
                }
            }
        }
        if !dup {
            let ghost old_parts = parts@;
            let rendered = render_entity_entry(&es[i]);
            parts.push(rendered);
            proof {
                let to_json = |e: DynamicEntity| entity_entry_json(e);
                let to_view = |s: String| s@;
                assert(kept_entities(suffix) =~= seq![es@[i as int]] + kept_entities(
                    es@.skip(i + 1),
                ));
                assert(kept_entities(suffix).map_values(to_json) =~= seq![
                    entity_entry_json(es@[i as int]),
                ] + kept_entities(es@.skip(i + 1)).map_values(to_json));
                assert(parts@.map_values(to_view) =~= old_parts.map_values(to_view) + seq![
                    entity_entry_json(es@[i as int]),
                ]);
                assert(old_parts.map_values(to_view) + kept_entities(suffix).map_values(to_json)
                    =~= parts@.map_values(to_view) + kept_entities(es@.skip(i + 1)).map_values(
                    to_json,
                ));
            }
        } else {
            proof {
                assert(kept_entities(suffix) =~= kept_entities(es@.skip(i + 1)));
            }
        }
        i = i + 1;
    }
    proof {
        assert(es@.skip(n as int) =~= Seq::<DynamicEntity>::empty());
        assert(kept_entities(Seq::<DynamicEntity>::empty()) =~= Seq::<DynamicEntity>::empty());
        assert(parts@.map_values(|s: String| s@) =~= kept_entities(es@).map_values(
            |e: DynamicEntity| entity_entry_json(e),
        ));
    }
    let open = "{";
    let close = "}";
    proof {
        reveal_strlit("{");
        reveal_strlit("}");
        assert(open@ =~= seq!['{']);
        assert(close@ =~= seq!['}']);
    }
    let mut out = String::new();
    out.append(open);
    out.append(join_comma(&parts).as_str());
    out.append(close);
    proof {
        assert(out@ =~= entities_json(es@));
    }
    out
}

} // verus!
