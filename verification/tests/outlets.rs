use sxd_document::dom::{Document, Element};
use sxd_document::parser;
use xibt::outlets::{outlets, TransformError};

const XML_SINGLE_LABEL: &str = r#"
<document>
  <objects>
    <placeholder>
      <connections>
        <outlet destination="kd0-q0-77h" id="vgt-Qs-f9G" property="titleTextField"/>
      </connections>
    </placeholder>
    <foo>
      <bar>
        <label id="test-id">Whee</label>
      </bar>
    </foo>
  </objects>
</document>
"#;

const XML_MULTIPLE_LABEL: &str = r#"
<document>
  <objects>
    <placeholder>
      <connections>
        <outlet destination="kd0-q0-77h" id="vgt-Qs-f9G" property="titleTextField"/>
      </connections>
    </placeholder>
    <foo>
      <bar>
        <label id="test-1"><fontDescription /></label>
        <label id="test-2" />
        <label id="test-3"><fontDescription /></label>
      </bar>
    </foo>
  </objects>
</document>
"#;

fn run_outlets(input: &str, outlets_xpath: &str) -> String {
    outlets(input, "test_collection", outlets_xpath).unwrap()
}

fn elements_for_path<'d>(document: &'d Document<'d>, xpath: &str) -> Vec<Element<'d>> {
    match sxd_xpath::evaluate_xpath(document, xpath).unwrap() {
        sxd_xpath::Value::Nodeset(nodes) => nodes
            .document_order()
            .into_iter()
            .filter_map(|node| node.element())
            .collect(),
        _ => vec![],
    }
}

#[test]
fn extract_a_collection_reference() {
    let output = run_outlets(XML_SINGLE_LABEL, "//label");

    let package = parser::parse(&output).unwrap();
    let document = package.as_document();
    let collection_tags = elements_for_path(&document, r#"//connections/outletCollection"#);

    assert_eq!(collection_tags.len(), 1);
    assert_eq!(
        collection_tags
            .get(0)
            .unwrap()
            .attribute("destination")
            .unwrap()
            .value(),
        "test-id"
    );
}

#[test]
fn extract_specific_collection_references() {
    let output = run_outlets(XML_MULTIPLE_LABEL, "//label[fontDescription]");

    let package = parser::parse(&output).unwrap();
    let document = package.as_document();
    let collection_tags = elements_for_path(&document, r#"//connections/outletCollection"#);

    let mut destinations: Vec<&str> = collection_tags
        .iter()
        .map(|tag| tag.attribute("destination").unwrap().value())
        .collect();

    destinations.sort();

    assert_eq!(destinations, vec!("test-1", "test-3"));
}

#[test]
fn single_match_synthesizes_all_four_attributes() {
    let output = run_outlets(XML_SINGLE_LABEL, "//label");

    let package = parser::parse(&output).unwrap();
    let document = package.as_document();
    let collection_tags = elements_for_path(&document, "//connections/outletCollection");

    assert_eq!(collection_tags.len(), 1);
    let tag = collection_tags[0];
    assert_eq!(tag.attribute_value("property"), Some("test_collection"));
    assert_eq!(tag.attribute_value("destination"), Some("test-id"));
    assert_eq!(tag.attribute_value("collectionClass"), Some("NSMutableArray"));
    let id = tag.attribute_value("id").unwrap();
    assert!(id.starts_with("xibt_gen-"));
    assert_eq!(id.len(), 20);
}

#[test]
fn destinations_follow_document_order() {
    let output = run_outlets(XML_MULTIPLE_LABEL, "//label");

    let package = parser::parse(&output).unwrap();
    let document = package.as_document();
    let collection_tags = elements_for_path(&document, "//connections/outletCollection");

    let destinations: Vec<&str> = collection_tags
        .iter()
        .map(|tag| tag.attribute_value("destination").unwrap())
        .collect();

    assert_eq!(destinations, vec!["test-1", "test-2", "test-3"]);
}

#[test]
fn zero_matches_leaves_the_anchor_untouched() {
    let output = run_outlets(XML_SINGLE_LABEL, "//missingTag");

    let package = parser::parse(&output).unwrap();
    let document = package.as_document();

    assert_eq!(
        elements_for_path(&document, "//connections/outletCollection").len(),
        0
    );
    let existing = elements_for_path(&document, "//connections/outlet");
    assert_eq!(existing.len(), 1);
    assert_eq!(existing[0].attribute_value("destination"), Some("kd0-q0-77h"));
    assert_eq!(existing[0].attribute_value("id"), Some("vgt-Qs-f9G"));
    assert_eq!(existing[0].attribute_value("property"), Some("titleTextField"));
}

#[test]
fn targets_without_id_are_skipped() {
    let input = r#"
<document>
  <objects>
    <placeholder>
      <connections/>
    </placeholder>
    <label id="with-id"/>
    <label/>
  </objects>
</document>
"#;
    let output = outlets(input, "test_collection", "//label").unwrap();

    let package = parser::parse(&output).unwrap();
    let document = package.as_document();
    let collection_tags = elements_for_path(&document, "//connections/outletCollection");
    assert_eq!(collection_tags.len(), 1);
    assert_eq!(collection_tags[0].attribute_value("destination"), Some("with-id"));
}

#[test]
fn ambiguous_anchor_is_a_reported_error() {
    let input = r#"
<document>
  <objects>
    <placeholder>
      <connections/>
      <connections/>
    </placeholder>
    <label id="test-id"/>
  </objects>
</document>
"#;
    let err = outlets(input, "test_collection", "//label").unwrap_err();
    assert!(err.is_anchor_ambiguous());
    assert!(!err.is_anchor_missing());
}

#[test]
fn missing_anchor_is_a_reported_error() {
    let input = r#"
<document>
  <objects>
    <placeholder/>
    <label id="test-id"/>
  </objects>
</document>
"#;
    let err = outlets(input, "test_collection", "//label").unwrap_err();
    assert!(err.is_anchor_missing());
    assert!(!err.is_anchor_ambiguous());
}

#[test]
fn malformed_xml_is_a_parse_error() {
    let err = outlets("<document><unclosed>", "test_collection", "//label").unwrap_err();
    assert!(err.is_parse());
    assert!(err.message().starts_with("could not parse the XML: "));
}

#[test]
fn invalid_xpath_is_a_query_error() {
    let err = outlets(XML_SINGLE_LABEL, "test_collection", "//label[").unwrap_err();
    assert!(err.is_query());
    assert!(err.message().starts_with("could not evaluate the XPath expression: "));
}

#[test]
fn non_nodeset_xpath_results_synthesize_nothing() {
    let output = run_outlets(XML_SINGLE_LABEL, "count(//label)");

    let package = parser::parse(&output).unwrap();
    let document = package.as_document();
    assert_eq!(
        elements_for_path(&document, "//connections/outletCollection").len(),
        0
    );
}

#[test]
fn attribute_values_are_double_quoted() {
    let input = "<document><objects><placeholder><connections>\
<outlet destination='kd0-q0-77h' id='vgt-Qs-f9G'/>\
</connections></placeholder><label id='test-id'/></objects></document>";
    let output = outlets(input, "test_collection", "//label").unwrap();

    assert!(!output.contains('\''));
    assert!(output.contains("destination=\"kd0-q0-77h\""));
    assert!(output.contains("destination=\"test-id\""));
    assert!(output.contains("property=\"test_collection\""));
}

#[test]
fn anchor_error_messages_name_the_anchor_path() {
    assert_eq!(
        TransformError::AnchorMissing.message(),
        "no element found for ./document/objects/placeholder/connections"
    );
    assert_eq!(
        TransformError::AnchorAmbiguous.message(),
        "multiple elements found for ./document/objects/placeholder/connections"
    );
}
