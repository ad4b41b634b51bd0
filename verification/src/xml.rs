//! The trusted boundary around the XML library: parsing, XPath evaluation,
//! element synthesis and serialization are outside calls whose contracts
//! Verus believes.
//!
//! The boundary hands verified code a [`Doc`]: the parsed package together
//! with a ghost copy of the text it was parsed from and a ghost record of the
//! children appended so far. The fields are private, so a `Doc` exists only
//! through [`parse_xml`] and changes only through [`append_outlet`]; that is
//! what makes the contracts below sound, although the underlying library
//! mutates the tree through shared references: every reachable `Doc` value is
//! the parse of its recorded text plus exactly its recorded appends.
//!
//! Every outcome stated here is a deterministic function of the input texts:
//! parsing depends on the text alone, and evaluation, ordering
//! (`Nodeset::document_order` sorts, neutralizing the internal hash-set
//! order), attribute lookup and serialization depend only on the tree, which
//! the `Doc` pins to its text and appends.

use sxd_document::writer::Writer;
use sxd_document::Package;
use vstd::prelude::*;

verus! {

#[verifier::external_type_specification]
#[verifier::external_body]
pub struct ExPackage(Package);

/// The four attribute values of one appended `outletCollection` child:
/// `property`, `destination`, `collectionClass` and `id`, in that order.
pub type OutletTuple = (Seq<char>, Seq<char>, Seq<char>, Seq<char>);

/// The fixed structural path of the anchor element that receives the
/// synthesized children.
pub const ANCHOR_PATH: &'static str = "./document/objects/placeholder/connections";

/// Whether a text is well-formed XML: whether `sxd_document::parser::parse`
/// accepts it. Parsing is a function of the text alone.
pub uninterp spec fn xml_well_formed(s: Seq<char>) -> bool;

/// What evaluating an XPath expression against the fresh parse of a
/// well-formed text yields: `None` where the expression cannot be parsed or
/// executed; otherwise the `id` attribute values of the element nodes of the
/// result, in document order, `None` standing for an element without an `id`
/// attribute. A result that is a string, number or boolean yields
/// `Some(Seq::empty())`. A deterministic function of the two texts.
pub uninterp spec fn query_ids_of(xml: Seq<char>, xpath: Seq<char>) -> Option<
    Seq<Option<Seq<char>>>,
>;

/// How many elements stand at the fixed anchor path in the fresh parse of a
/// well-formed text.
pub open spec fn anchor_count_of(xml: Seq<char>) -> nat {
    match query_ids_of(xml, ANCHOR_PATH@) {
        Some(entries) => entries.len(),
        None => 0,
    }
}

/// What serializing the parse of a well-formed text comes to after appending,
/// to its unique anchor element, one `outletCollection` child per tuple — its
/// `property`, `destination`, `collectionClass` and `id` attributes set from
/// the tuple, in order — as written by the double-quote writer. Meaningful
/// where the anchor is unique or no tuple was appended; a deterministic
/// function of the text and the tuples.
pub uninterp spec fn serialized_with(xml: Seq<char>, appended: Seq<OutletTuple>) -> Seq<char>;

/// The per-node query entries collapsed to the element nodes, in order: the
/// outer `None` marks a non-element node, which contributes nothing.
pub open spec fn element_entries(s: Seq<Option<Option<Seq<char>>>>) -> Seq<Option<Seq<char>>>
    decreases s.len(),
{
    if s.len() == 0 {
        Seq::empty()
    } else {
        let rest = element_entries(s.drop_last());
        match s.last() {
            Some(e) => rest.push(e),
            None => rest,
        }
    }
}

/// A parsed document: the package, the text it was parsed from, and the
/// children appended to its anchor so far.
pub struct Doc {
    package: Package,
    src_text: Ghost<Seq<char>>,
    appended_children: Ghost<Seq<OutletTuple>>,
}

impl Doc {
    /// The text this document was parsed from.
    pub closed spec fn text(&self) -> Seq<char> {
        self.src_text@
    }

    /// The attribute tuples of the children appended to the anchor so far,
    /// in order.
    pub closed spec fn appended(&self) -> Seq<OutletTuple> {
        self.appended_children@
    }

    /// Whether the document is still exactly its parse: nothing appended.
    pub open spec fn is_fresh(&self) -> bool {
        self.appended() == Seq::<OutletTuple>::empty()
    }
}

/// Relies on `sxd_document::parser::parse`: it builds a document tree from
/// the text, and fails exactly on input it cannot parse as XML; the failure
/// carries the error location and causes.
#[verifier::external_body]
fn parse_package(xml: &str) -> (r: Result<Package, String>)
    ensures
        r is Ok <==> xml_well_formed(xml@),
{
    sxd_document::parser::parse(xml).map_err(|e| format!("{}", e))
}

/// Parses a text into a document, recording the text it came from and that
/// nothing has been appended yet.
pub(crate) fn parse_xml(xml: &str) -> (r: Result<Doc, String>)
    ensures
        r is Ok <==> xml_well_formed(xml@),
        r matches Ok(d) ==> d.text() == xml@ && d.appended() == Seq::<OutletTuple>::empty(),
{
    match parse_package(xml) {
        Ok(package) => Ok(
            Doc {
                package,
                src_text: Ghost(xml@),
                appended_children: Ghost(Seq::empty()),
            },
        ),
        Err(m) => Err(m),
    }
}

/// Relies on `sxd_xpath::evaluate_xpath` (XPath 1.0 semantics against the
/// document root), `Nodeset::document_order`, `Node::element` and
/// `Element::attribute_value`: the result is one entry per node of a node-set
/// result, in document order — `None` for a non-element node, `Some` of the
/// element's attribute entry otherwise; `Ok(None)` for a string, number or
/// boolean result; `Err` with the cause exactly where the expression cannot
/// be parsed or executed. The body converts each node one for one; nothing is
/// dropped or decided here.
#[verifier::external_body]
pub(crate) fn query_attr_entries(d: &Doc, xpath: &str, attr: &str) -> (r: Result<
    Option<Vec<Option<Option<String>>>>,
    String,
>)
    ensures
        d.is_fresh() ==> ((r is Err) <==> query_ids_of(d.text(), xpath@) is None),
        d.is_fresh() && attr@ == "id"@ ==> match r {
            Ok(Some(v)) => query_ids_of(d.text(), xpath@) == Some(element_entries(v.deep_view())),
            Ok(None) => query_ids_of(d.text(), xpath@) == Some(Seq::<Option<Seq<char>>>::empty()),
            Err(_) => true,
        },
{
    let document = d.package.as_document();
    match sxd_xpath::evaluate_xpath(&document, xpath) {
        Ok(sxd_xpath::Value::Nodeset(nodes)) => Ok(
            Some(
                nodes
                    .document_order()
                    .into_iter()
                    .map(|n| n.element().map(|e| e.attribute_value(attr).map(|v| v.to_owned())))
                    .collect(),
            ),
        ),
        Ok(_) => Ok(None),
        Err(e) => Err(format!("{}", e)),
    }
}

/// Relies on `sxd_xpath::evaluate_xpath` and `Nodeset::document_order_first`
/// to find the unique anchor element, and on
/// `Document::create_element`, `Element::set_attribute_value` and
/// `Element::append_child` to attach one freshly created `outletCollection`
/// child with the four attribute values moved from `oc`. The anchor path
/// names elements only, and the `requires` admits exactly the documents in
/// which it has one match (appending `outletCollection` children never adds
/// one), so the anchor lookup cannot miss; the appended child is always
/// freshly created, so no self-append cycle can arise.
#[verifier::external_body]
pub(crate) fn append_outlet(d: &mut Doc, oc: &crate::outlets::OutletCollection)
    requires
        anchor_count_of(old(d).text()) == 1,
    ensures
        final(d).text() == old(d).text(),
        final(d).appended() == old(d).appended().push(
            (oc.property@, oc.destination@, oc.collection_class@, oc.id@),
        ),
{
    let document = d.package.as_document();
    if let Ok(sxd_xpath::Value::Nodeset(nodes)) = sxd_xpath::evaluate_xpath(&document, ANCHOR_PATH)
    {
        if let Some(anchor) = nodes.document_order_first().and_then(|n| n.element()) {
            let element = document.create_element("outletCollection");
            element.set_attribute_value("property", &oc.property);
            element.set_attribute_value("destination", &oc.destination);
            element.set_attribute_value("collectionClass", &oc.collection_class);
            element.set_attribute_value("id", &oc.id);
            anchor.append_child(element);
        }
    }
}

/// Relies on `sxd_document::writer::Writer::format_document` with
/// `set_single_quotes(false)`: it serializes the whole tree to XML text,
/// quoting attribute values with double quotes (namespace declarations, which
/// the writer emits with single quotes, excepted; none of the appended
/// attributes is one). The writer can panic on a namespaced name with no
/// in-scope prefix, which a parsed document with plainly named appended
/// children cannot hold.
#[verifier::external_body]
pub(crate) fn serialize_document(d: &Doc) -> (r: Result<String, String>)
    ensures
        d.appended() == Seq::<OutletTuple>::empty() || anchor_count_of(d.text()) == 1 ==> (
        r matches Ok(t) ==> t@ == serialized_with(d.text(), d.appended())),
{
    let document = d.package.as_document();
    let mut out: Vec<u8> = Vec::new();
    match Writer::new().set_single_quotes(false).format_document(&document, &mut out) {
        Ok(()) => String::from_utf8(out).map_err(|e| format!("{}", e)),
        Err(e) => Err(format!("{}", e)),
    }
}

} // verus!
