use xmlgenerator::collect::{fetch_elements, fetch_types, get_facet, get_simple_type};
use xmlgenerator::find_root::{find_root_element, get_field_struct};
use xmlgenerator::model::{AttributeUse, ElementGenerator, RestrictionGenerator, RestrictionInfo};
use xmlgenerator::schema::{
    FacetDecl, FacetKind, RestrictionDecl, RestrictionItem, SchemaItem, SimpleContentItem,
    SimpleTypeDecl,
};
use xmlgenerator::xsd_source::parse_schema;
use xmlgenerator::XMLGeneratorError;

fn parse(body: &str) -> Vec<SchemaItem> {
    let text = format!(
        "<xs:schema xmlns:xs=\"http://www.w3.org/2001/XMLSchema\">{}</xs:schema>",
        body
    );
    parse_schema(&text).unwrap()
}

fn facet(kind: FacetKind, value: &str) -> FacetDecl {
    FacetDecl { kind, value: value.to_string(), fixed: false, annotated: false }
}

fn element(name: &str, type_ref: Option<&str>) -> ElementGenerator {
    let mut e = ElementGenerator::new();
    e.name = Some(name.to_string());
    e.type_info = type_ref.map(|t| t.to_string());
    e
}

#[test]
fn collecting_types_twice_gives_equal_tables() {
    let items = parse(
        "<xs:simpleType name=\"Code\"><xs:restriction base=\"xs:string\"><xs:pattern value=\"[A-Z]{3}\"/></xs:restriction></xs:simpleType><xs:complexType name=\"T\"><xs:sequence><xs:element name=\"x\" type=\"xs:boolean\"/></xs:sequence><xs:attribute name=\"id\" type=\"xs:string\"/></xs:complexType>",
    );
    let first = fetch_types(&items).unwrap();
    let second = fetch_types(&items).unwrap();
    assert_eq!(first.len(), 2);
    assert!(first == second);
    assert_eq!(first[0].type_info, vec!["string".to_string(), "[A-Z]{3}".to_string()]);
    assert_eq!(first[1].groups.len(), 1);
    assert_eq!(first[1].attributes[0].name, "id");
    assert_eq!(first[1].attributes[0].attribute_type, AttributeUse::Optional);
}

#[test]
fn simple_type_without_restriction_is_string() {
    let simple = SimpleTypeDecl { name: Some("Plain".to_string()), has_final: false, content: vec![] };
    let t = get_simple_type(&simple).unwrap();
    assert_eq!(t.name, "Plain");
    assert_eq!(t.type_info, vec!["string".to_string()]);
}

#[test]
fn restriction_chain_keeps_facet_order() {
    let restriction = RestrictionDecl {
        base: Some("integer".to_string()),
        content: vec![
            RestrictionItem::Facet(facet(FacetKind::MinInclusive, "1")),
            RestrictionItem::Facet(facet(FacetKind::MaxInclusive, "9")),
        ],
    };
    let simple = SimpleTypeDecl {
        name: Some("Digit".to_string()),
        has_final: false,
        content: vec![SimpleContentItem::Restriction(restriction)],
    };
    let t = get_simple_type(&simple).unwrap();
    assert_eq!(t.type_info, vec!["integer".to_string(), "1".to_string(), "9".to_string()]);
}

#[test]
fn fixed_and_assertion_facets_are_unsupported() {
    let mut fixed = facet(FacetKind::Length, "3");
    fixed.fixed = true;
    match get_facet(&fixed) {
        Err(XMLGeneratorError::XSDParserError(m)) => assert_eq!(m, "Unsupported: Fixed facet type"),
        other => panic!("unexpected: {:?}", other),
    }
    match get_facet(&facet(FacetKind::Assertion, "")) {
        Err(XMLGeneratorError::XSDParserError(m)) => assert_eq!(m, "Unsupported: Assertion"),
        other => panic!("unexpected: {:?}", other),
    }
    assert_eq!(get_facet(&facet(FacetKind::Pattern, "a+")).unwrap(), "a+");
}

#[test]
fn top_level_elements_in_order() {
    let items = parse("<xs:element name=\"A\" type=\"xs:string\"/><xs:element name=\"B\" type=\"A\" minOccurs=\"0\" maxOccurs=\"unbounded\"/>");
    let elements = fetch_elements(&items).unwrap();
    assert_eq!(elements.len(), 2);
    assert_eq!(elements[0].name, Some("A".to_string()));
    assert_eq!(elements[1].type_info, Some("A".to_string()));
    assert_eq!(elements[1].min, 0);
    assert_eq!(elements[1].max, None);
}

#[test]
fn single_element_without_references_is_root() {
    let elements = vec![element("Only", Some("string"))];
    let root = find_root_element(&elements).unwrap();
    assert_eq!(root.name, Some("Only".to_string()));
}

#[test]
fn root_is_the_element_nobody_mentions() {
    let elements = vec![element("Child", Some("string")), element("Root", Some("Child"))];
    let root = find_root_element(&elements).unwrap();
    assert_eq!(root.name, Some("Root".to_string()));
}

#[test]
fn no_elements_is_a_format_error() {
    let elements: Vec<ElementGenerator> = vec![];
    match find_root_element(&elements) {
        Err(XMLGeneratorError::DataTypesFormatError(m)) => assert_eq!(m, "No elements found"),
        other => panic!("unexpected: {:?}", other.map(|e| e.name.clone())),
    }
}

#[test]
fn field_struct_is_the_first_with_that_name() {
    let elements = vec![element("A", None), element("B", Some("x")), element("B", Some("y"))];
    let found = get_field_struct(&elements, &"B".to_string()).unwrap();
    assert_eq!(found.type_info, Some("x".to_string()));
    assert!(get_field_struct(&elements, &"C".to_string()).is_none());
}

#[test]
fn restriction_records_start_empty() {
    let info = RestrictionInfo::new();
    assert!(info.name.is_empty() && info.facets.is_empty());
    let generator = RestrictionGenerator::new();
    assert!(generator.name.is_empty() && generator.facets.is_empty());
}

#[test]
fn element_equality_includes_the_reference() {
    let mut a = ElementGenerator::new();
    a.reference = Some("X".to_string());
    let mut b = ElementGenerator::new();
    b.reference = Some("Y".to_string());
    assert!(a != b);
    let mut c = ElementGenerator::new();
    c.reference = Some("X".to_string());
    c.min = 7;
    assert!(a == c);
}
