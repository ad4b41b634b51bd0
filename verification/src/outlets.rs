//! The mutation and serialization engine: parse the input, find the target
//! elements by the caller's XPath expression, find the unique `connections`
//! anchor, synthesize one `outletCollection` child per target that carries an
//! `id` attribute, attach them to the anchor, and serialize the tree back to
//! text.

use crate::id;
use crate::xml;
use vstd::prelude::*;
use vstd::string::StringExecFns;

verus! {

/// A typed failure of the transformation. Anchor problems are reported, not
/// aborted on: the caller can catch every kind.
#[derive(Debug)]
pub enum TransformError {
    /// The input text is not well-formed XML; carries the parser's cause.
    Parse(String),
    /// The XPath expression could not be evaluated; carries the cause.
    Query(String),
    /// No element stands at the fixed anchor path.
    AnchorMissing,
    /// More than one element stands at the fixed anchor path.
    AnchorAmbiguous,
    /// The mutated document could not be serialized; carries the cause.
    Serialize(String),
}

/// The text of each error, as `TransformError::message` renders it.
pub open spec fn message_spec(e: TransformError) -> Seq<char> {
    match e {
        TransformError::Parse(m) => "could not parse the XML: "@ + m@,
        TransformError::Query(m) => "could not evaluate the XPath expression: "@ + m@,
        TransformError::AnchorMissing => "no element found for ./document/objects/placeholder/connections"@,
        TransformError::AnchorAmbiguous => "multiple elements found for ./document/objects/placeholder/connections"@,
        TransformError::Serialize(m) => "could not serialize the document: "@ + m@,
    }
}

impl TransformError {
    /// A human-readable rendering of the error kind and its cause.
    pub fn message(&self) -> (r: String)
        ensures
            r@ == message_spec(*self),
    {
        match self {
            TransformError::Parse(m) => "could not parse the XML: ".to_owned().concat(m.as_str()),
            TransformError::Query(m) => "could not evaluate the XPath expression: ".to_owned().concat(
                m.as_str(),
            ),
            TransformError::AnchorMissing => "no element found for ./document/objects/placeholder/connections".to_owned(),
            TransformError::AnchorAmbiguous => "multiple elements found for ./document/objects/placeholder/connections".to_owned(),
            TransformError::Serialize(m) => "could not serialize the document: ".to_owned().concat(
                m.as_str(),
            ),
        }
    }

    /// Whether this is the malformed-XML failure.
    pub fn is_parse(&self) -> (r: bool)
        ensures
            r == (*self is Parse),
    {
        match self {
            TransformError::Parse(_) => true,
            _ => false,
        }
    }

    /// Whether this is the unevaluable-XPath failure.
    pub fn is_query(&self) -> (r: bool)
        ensures
            r == (*self is Query),
    {
        match self {
            TransformError::Query(_) => true,
            _ => false,
        }
    }

    /// Whether this is the zero-anchor-matches failure.
    pub fn is_anchor_missing(&self) -> (r: bool)
        ensures
            r == (*self is AnchorMissing),
    {
        match self {
            TransformError::AnchorMissing => true,
            _ => false,
        }
    }

    /// Whether this is the more-than-one-anchor-match failure.
    pub fn is_anchor_ambiguous(&self) -> (r: bool)
        ensures
            r == (*self is AnchorAmbiguous),
    {
        match self {
            TransformError::AnchorAmbiguous => true,
            _ => false,
        }
    }
}

/// A synthesized `outletCollection` connection element, as plain values: the
/// caller-supplied collection name, the `id` of the matched target it points
/// at, the fixed collection class, and a freshly generated identifier.
pub struct OutletCollection {
    pub property: String,
    pub destination: String,
    pub collection_class: String,
    pub id: String,
}

/// What one synthesized element must hold for a given collection name and
/// captured destination.
pub open spec fn outlet_for(oc: OutletCollection, property: Seq<char>, destination: Seq<char>) -> bool {
    &&& oc.property@ == property
    &&& oc.destination@ == destination
    &&& oc.collection_class@ == "NSMutableArray"@
    &&& id::valid_id(oc.id@)
}

/// The `id` attribute values captured from the query results, in document
/// order: targets without an `id` attribute are silently skipped.
pub open spec fn captured_ids(ids: Seq<Option<Seq<char>>>) -> Seq<Seq<char>>
    decreases ids.len(),
{
    if ids.len() == 0 {
        Seq::empty()
    } else {
        let rest = captured_ids(ids.drop_last());
        match ids.last() {
            Some(s) => rest.push(s),
            None => rest,
        }
    }
}

/// Law: capturing never invents a destination, and targets without an `id`
/// attribute contribute nothing — if no target carries one, nothing is
/// synthesized.
pub proof fn lemma_captured_ids_skip(ids: Seq<Option<Seq<char>>>)
    ensures
        captured_ids(ids).len() <= ids.len(),
        (forall|k: int| 0 <= k < ids.len() ==> ids[k] is None) ==> captured_ids(ids).len() == 0,
    decreases ids.len(),
{
    if ids.len() > 0 {
        lemma_captured_ids_skip(ids.drop_last());
    }
}

/// Keeps, in order, the values of the targets that carry an `id` attribute.
pub fn capture_ids(ids: &Vec<Option<String>>) -> (r: Vec<String>)
    ensures
        r.deep_view() == captured_ids(ids.deep_view()),
{
    let mut r: Vec<String> = Vec::new();
    let mut i: usize = 0;
    while i < ids.len()
        invariant
            i <= ids.len(),
            r.deep_view() == captured_ids(ids.deep_view().take(i as int)),
        decreases ids.len() - i,
    {
        let ghost prefix = ids.deep_view().take(i as int);
        match &ids[i] {
            Some(s) => {
                r.push(s.clone());
            },
            None => {},
        }
        proof {
            let next = ids.deep_view().take(i as int + 1);
            assert(next.drop_last() =~= prefix);
            assert(next.last() == ids.deep_view()[i as int]);
            if ids.deep_view()[i as int] is Some {
                assert(r.deep_view() =~= captured_ids(prefix).push(ids.deep_view()[i as int]->0));
            }
        }
        i += 1;
    }
    proof {
        assert(ids.deep_view().take(ids.len() as int) =~= ids.deep_view());
    }
    r
}

/// Decides what the anchor query's cardinality means: exactly one candidate
/// is required; zero is the missing-anchor failure and more than one the
/// ambiguous-anchor failure.
pub fn check_anchor(count: usize) -> (r: Result<(), TransformError>)
    ensures
        r is Ok <==> count == 1,
        count == 0 ==> r == Err::<(), TransformError>(TransformError::AnchorMissing),
        count > 1 ==> r == Err::<(), TransformError>(TransformError::AnchorAmbiguous),
{
    if count == 0 {
        Err(TransformError::AnchorMissing)
    } else if count > 1 {
        Err(TransformError::AnchorAmbiguous)
    } else {
        Ok(())
    }
}

/// Synthesizes one `outletCollection` per captured destination, in order:
/// `property` is the collection name, `destination` the captured value,
/// `collectionClass` the constant `NSMutableArray`, and `id` a freshly
/// generated identifier.
pub fn plan_outlets(destinations: &Vec<String>, collection: &str) -> (r: Vec<OutletCollection>)
    ensures
        r@.len() == destinations@.len(),
        forall|k: int|
            0 <= k < r@.len() ==> outlet_for(
                #[trigger] r@[k],
                collection@,
                destinations.deep_view()[k],
            ),
{
    let mut r: Vec<OutletCollection> = Vec::new();
    let mut i: usize = 0;
    while i < destinations.len()
        invariant
            i <= destinations.len(),
            r@.len() == i,
            forall|k: int|
                0 <= k < i ==> outlet_for(#[trigger] r@[k], collection@, destinations.deep_view()[k]),
        decreases destinations.len() - i,
    {
        r.push(
            OutletCollection {
                property: collection.to_owned(),
                destination: destinations[i].clone(),
                collection_class: "NSMutableArray".to_owned(),
                id: id::gen(),
            },
        );
        i += 1;
    }
    r
}

/// Evaluates an XPath expression against a fresh document with XPath 1.0
/// node-set semantics and collects the query entries: the `id` attribute
/// values of the element nodes of the result, in document order (a non-element
/// node contributes nothing); an empty sequence for a string, number or
/// boolean result, deliberately not an error; the failure cause where the
/// expression cannot be evaluated.
pub fn query_ids(d: &xml::Doc, xpath: &str) -> (r: Result<Vec<Option<String>>, String>)
    ensures
        d.is_fresh() ==> match r {
            Ok(ids) => xml::query_ids_of(d.text(), xpath@) == Some(ids.deep_view()),
            Err(_) => xml::query_ids_of(d.text(), xpath@) is None,
        },
{
    match xml::query_attr_entries(d, xpath, "id") {
        Err(m) => Err(m),
        Ok(None) => {
            let ids: Vec<Option<String>> = Vec::new();
            proof {
                assert(ids.deep_view() =~= Seq::<Option<Seq<char>>>::empty());
            }
            Ok(ids)
        },
        Ok(Some(entries)) => {
            let mut ids: Vec<Option<String>> = Vec::new();
            let mut i: usize = 0;
            while i < entries.len()
                invariant
                    i <= entries.len(),
                    ids.deep_view() == xml::element_entries(entries.deep_view().take(i as int)),
                decreases entries.len() - i,
            {
                let ghost prefix = entries.deep_view().take(i as int);
                match &entries[i] {
                    Some(e) => {
                        ids.push(e.clone());
                    },
                    None => {},
                }
                proof {
                    let next = entries.deep_view().take(i as int + 1);
                    assert(next.drop_last() =~= prefix);
                    assert(next.last() == entries.deep_view()[i as int]);
                    if entries.deep_view()[i as int] is Some {
                        assert(ids.deep_view() =~= xml::element_entries(prefix).push(
                            entries.deep_view()[i as int]->0,
                        ));
                    }
                }
                i += 1;
            }
            proof {
                assert(entries.deep_view().take(entries.len() as int) =~= entries.deep_view());
            }
            Ok(ids)
        },
    }
}

/// The attribute tuples of the children synthesized for a collection name,
/// captured destinations and fresh identifiers: per destination, `property`
/// is the collection name, `destination` the captured value,
/// `collectionClass` the constant `NSMutableArray`, and `id` the fresh
/// identifier.
pub open spec fn outlet_tuples(
    collection: Seq<char>,
    destinations: Seq<Seq<char>>,
    fresh: Seq<Seq<char>>,
) -> Seq<xml::OutletTuple> {
    Seq::new(
        destinations.len(),
        |i: int| (collection, destinations[i], "NSMutableArray"@, fresh[i]),
    )
}

/// The generated identifiers of a planned sequence, in order.
spec fn planned_ids(s: Seq<OutletCollection>) -> Seq<Seq<char>> {
    Seq::new(s.len(), |i: int| s[i].id@)
}

/// Transforms one document: parses `xml`, captures the `id` attributes of the
/// elements matching `xpath` in document order, resolves the unique anchor at
/// `./document/objects/placeholder/connections`, appends one synthesized
/// `outletCollection` per captured `id` as new trailing children of the
/// anchor, and serializes the mutated tree with double-quoted attributes.
///
/// The contract is exact over the named outside outcomes: `Parse` exactly on
/// input that is not well-formed XML; `Query` exactly where an expression (the
/// caller's, or else the fixed anchor path) cannot be evaluated;
/// `AnchorMissing` and `AnchorAmbiguous` exactly on an anchor count of zero
/// and more than one; success only with a unique anchor, the output then
/// being the serialization of the input with one `outletCollection` per
/// captured `id` appended, carrying the collection name, that destination,
/// the fixed class and some fresh well-formed identifier.
pub fn outlets(xml: &str, collection: &str, xpath: &str) -> (r: Result<String, TransformError>)
    ensures
        (r matches Err(e) && e is Parse) <==> !xml::xml_well_formed(xml@),
        (r matches Err(e) && e is Query) <==> (xml::xml_well_formed(xml@) && (
        xml::query_ids_of(xml@, xpath@) is None || (xml::query_ids_of(xml@, xpath@) is Some
            && xml::query_ids_of(xml@, xml::ANCHOR_PATH@) is None))),
        (r matches Err(e) && e is AnchorMissing) <==> (xml::xml_well_formed(xml@)
            && xml::query_ids_of(xml@, xpath@) is Some && xml::query_ids_of(
            xml@,
            xml::ANCHOR_PATH@,
        ) is Some && xml::anchor_count_of(xml@) == 0),
        (r matches Err(e) && e is AnchorAmbiguous) <==> (xml::xml_well_formed(xml@)
            && xml::query_ids_of(xml@, xpath@) is Some && xml::query_ids_of(
            xml@,
            xml::ANCHOR_PATH@,
        ) is Some && xml::anchor_count_of(xml@) > 1),
        (r is Ok || (r matches Err(e) && e is Serialize)) ==> (xml::xml_well_formed(xml@)
            && xml::query_ids_of(xml@, xpath@) is Some && xml::anchor_count_of(xml@) == 1),
        r matches Ok(t) ==> ({
            let q = xml::query_ids_of(xml@, xpath@)->0;
            exists|fresh: Seq<Seq<char>>|
                {
                    &&& fresh.len() == captured_ids(q).len()
                    &&& (forall|i: int| 0 <= i < fresh.len() ==> id::valid_id(#[trigger] fresh[i]))
                    &&& t@ == xml::serialized_with(
                        xml@,
                        outlet_tuples(collection@, captured_ids(q), fresh),
                    )
                }
        }),
{
    let d = match xml::parse_xml(xml) {
        Ok(d) => d,
        Err(m) => {
            return Err(TransformError::Parse(m));
        },
    };
    let found = match query_ids(&d, xpath) {
        Ok(v) => v,
        Err(m) => {
            return Err(TransformError::Query(m));
        },
    };
    let anchors = match query_ids(&d, xml::ANCHOR_PATH) {
        Ok(v) => v,
        Err(m) => {
            return Err(TransformError::Query(m));
        },
    };
    match check_anchor(anchors.len()) {
        Ok(()) => {},
        Err(e) => {
            return Err(e);
        },
    }
    let destinations = capture_ids(&found);
    let planned = plan_outlets(&destinations, collection);
    let ghost q = xml::query_ids_of(xml@, xpath@)->0;
    let mut doc = d;
    let mut k: usize = 0;
    while k < planned.len()
        invariant
            k <= planned.len(),
            xml::xml_well_formed(xml@),
            xml::query_ids_of(xml@, xpath@) == Some(q),
            xml::query_ids_of(xml@, xml::ANCHOR_PATH@) is Some,
            xml::anchor_count_of(xml@) == 1,
            doc.text() == xml@,
            planned@.len() == destinations.deep_view().len(),
            destinations.deep_view() == captured_ids(q),
            forall|j: int|
                0 <= j < planned@.len() ==> outlet_for(
                    #[trigger] planned@[j],
                    collection@,
                    destinations.deep_view()[j],
                ),
            doc.appended() == outlet_tuples(
                collection@,
                destinations.deep_view(),
                planned_ids(planned@),
            ).take(k as int),
        decreases planned.len() - k,
    {
        xml::append_outlet(&mut doc, &planned[k]);
        proof {
            let tuples = outlet_tuples(
                collection@,
                destinations.deep_view(),
                planned_ids(planned@),
            );
            assert(tuples.take(k as int + 1) =~= tuples.take(k as int).push(tuples[k as int]));
            assert(doc.appended() =~= tuples.take(k as int + 1));
        }
        k += 1;
    }
    proof {
        let tuples = outlet_tuples(collection@, destinations.deep_view(), planned_ids(planned@));
        assert(tuples.take(planned@.len() as int) =~= tuples);
    }
    match xml::serialize_document(&doc) {
        Ok(text) => {
            proof {
                let fresh = planned_ids(planned@);
                assert(fresh.len() == captured_ids(q).len());
                assert(forall|i: int| 0 <= i < fresh.len() ==> id::valid_id(#[trigger] fresh[i]));
                assert(text@ == xml::serialized_with(
                    xml@,
                    outlet_tuples(collection@, captured_ids(q), fresh),
                ));
            }
            Ok(text)
        },
        Err(m) => Err(TransformError::Serialize(m)),
    }
}

} // verus!

