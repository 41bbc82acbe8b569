use fake::{Fake, Faker};
use xmlgenerator::{generate_xml, FloatSource, XMLGeneratorError};

struct Floats;

impl FloatSource for Floats {
    fn decimal_text(&mut self) -> String {
        Faker.fake::<f32>().to_string()
    }

    fn double_text(&mut self) -> String {
        Faker.fake::<f64>().to_string()
    }
}

fn schema(body: &str) -> String {
    format!(
        "<?xml version=\"1.0\" encoding=\"UTF-8\"?>\n<xs:schema xmlns:xs=\"http://www.w3.org/2001/XMLSchema\">{}</xs:schema>",
        body
    )
}

fn generate(body: &str) -> Result<String, XMLGeneratorError> {
    generate_xml(&schema(body), &mut Floats)
}

fn check_format_error(result: Result<String, XMLGeneratorError>, expected: &str) {
    match result {
        Err(XMLGeneratorError::DataTypesFormatError(message)) => assert_eq!(message, expected),
        other => panic!("unexpected result: {:?}", other),
    }
}

fn between<'a>(text: &'a str, open: &str, close: &str) -> &'a str {
    let start = text.find(open).expect("opening tag") + open.len();
    let end = text[start..].find(close).expect("closing tag") + start;
    &text[start..end]
}

const RECURSIVE: &str = "<xs:element name=\"A\"><xs:complexType><xs:sequence><xs:element ref=\"A\"/></xs:sequence></xs:complexType></xs:element>";
const TWO_ROOTS: &str = "<xs:element name=\"A\" type=\"xs:string\"/><xs:element name=\"B\" type=\"xs:string\"/>";

#[test]
fn test_invalid_test_invalid_file() {
    check_format_error(generate(RECURSIVE), "No independent elements found");
    check_format_error(generate(TWO_ROOTS), "Multiple independent (root) elements found");
}

#[test]
fn test_generator_test_invalid_file() {
    check_format_error(generate(RECURSIVE), "No independent elements found");
    check_format_error(generate(TWO_ROOTS), "Multiple independent (root) elements found");
}

fn check_invalid_xml() {
    let empty_xml_string = "<?xml version=\"1.0\" encoding=\"UTF-8\"?>".to_string();
    let expected_error: String = "XML Error: Unexpected event: Eof!; position=0".to_string();
    let xml = generate_xml(&empty_xml_string, &mut Floats);
    assert!(xml.is_err());
    match xml.unwrap_err() {
        XMLGeneratorError::DataTypeError(_) => panic!("Invalid data type"),
        XMLGeneratorError::XSDParserError(err) => assert_eq!(err, expected_error),
        XMLGeneratorError::DataTypesFormatError(_) => panic!("Invalid data error"),
        XMLGeneratorError::XMLBuilderError(_) => panic!("XML generation error"),
    }
}

#[test]
fn test_invalid_test_invalid_xml() {
    check_invalid_xml();
}

#[test]
fn test_generator_test_invalid_xml() {
    check_invalid_xml();
}

#[test]
fn test_examples() {
    let working = [
        "<xs:element name=\"Note\" type=\"xs:string\"/>",
        "<xs:complexType name=\"Child\"><xs:sequence><xs:element name=\"Count\" type=\"xs:integer\"/></xs:sequence></xs:complexType><xs:element name=\"Root\" type=\"Child\"/>",
        "<xs:element name=\"Order\"><xs:complexType><xs:sequence><xs:element name=\"Id\" type=\"xs:positiveInteger\"/><xs:element name=\"Price\" type=\"xs:decimal\"/><xs:element name=\"Weight\" type=\"xs:double\"/><xs:element name=\"Paid\" type=\"xs:boolean\"/></xs:sequence><xs:attribute name=\"ref\" type=\"xs:string\" use=\"required\"/></xs:complexType></xs:element>",
    ];
    for body in working {
        match generate(body) {
            Ok(result) => println!("{}", result),
            Err(err) => panic!("{:?}", err),
        }
    }
}

#[test]
fn single_string_element_is_the_root() {
    let xml = generate("<xs:element name=\"Note\" type=\"xs:string\"/>").unwrap();
    assert!(xml.starts_with("<?xml version=\"1.1\" encoding=\"UTF-8\"?>"));
    assert!(xml.contains("<Note"));
}

#[test]
fn named_complex_type_gives_integer_child() {
    let xml = generate(
        "<xs:element name=\"Root\" type=\"Child\"/><xs:complexType name=\"Child\"><xs:sequence><xs:element name=\"Count\" type=\"xs:integer\"/></xs:sequence></xs:complexType>",
    )
    .unwrap();
    assert!(xml.contains("<Root>"));
    let count = between(&xml, "<Count>", "</Count>");
    assert!(count.parse::<i32>().is_ok(), "not an i32: {}", count);
}

#[test]
fn two_unrelated_elements_have_no_single_root() {
    check_format_error(generate(TWO_ROOTS), "Multiple independent (root) elements found");
}

#[test]
fn self_typed_element_is_a_cycle() {
    check_format_error(
        generate("<xs:complexType name=\"A\"><xs:sequence><xs:element name=\"x\" type=\"A\"/></xs:sequence></xs:complexType><xs:element name=\"A\" type=\"A\"/>"),
        "No independent elements found",
    );
}

#[test]
fn required_attribute_and_boolean_child() {
    let xml = generate(
        "<xs:complexType name=\"RootType\"><xs:sequence><xs:element name=\"x\" type=\"xs:boolean\"/></xs:sequence><xs:attribute name=\"id\" type=\"xs:string\" use=\"required\"/></xs:complexType><xs:element name=\"Root\" type=\"RootType\"/>",
    )
    .unwrap();
    assert!(xml.contains("<Root id=\""));
    let x = between(&xml, "<x>", "</x>");
    assert!(x == "true" || x == "false", "not a boolean: {}", x);
}

#[test]
fn pattern_facet_sample_matches() {
    let xml = generate(
        "<xs:simpleType name=\"Code\"><xs:restriction base=\"xs:string\"><xs:pattern value=\"[A-Z]{3}\"/></xs:restriction></xs:simpleType><xs:element name=\"C\" type=\"Code\"/>",
    )
    .unwrap();
    let c = between(&xml, "<C>", "</C>");
    assert_eq!(c.chars().count(), 3);
    assert!(c.chars().all(|ch| ch.is_ascii_uppercase()), "not [A-Z]{{3}}: {}", c);
}

#[test]
fn empty_schema_has_no_elements() {
    check_format_error(generate(""), "No elements found");
}

#[test]
fn unknown_type_is_a_data_type_error() {
    match generate("<xs:element name=\"A\" type=\"Missing\"/>") {
        Err(XMLGeneratorError::DataTypeError(message)) => assert_eq!(message, "Cannot find data type: Missing"),
        other => panic!("unexpected result: {:?}", other),
    }
}

#[test]
fn unsupported_construct_is_a_parser_error() {
    match generate("<xs:element name=\"A\" type=\"xs:string\" nillable=\"true\"/>") {
        Err(XMLGeneratorError::XSDParserError(message)) => assert_eq!(message, "Unsupported: Nillable elements"),
        other => panic!("unexpected result: {:?}", other),
    }
}

#[test]
fn text_after_text_is_a_builder_error() {
    match generate(
        "<xs:simpleType name=\"T\"><xs:restriction base=\"xs:string\"/></xs:simpleType><xs:element name=\"A\"><xs:simpleType><xs:restriction base=\"xs:string\"/></xs:simpleType><xs:simpleType><xs:restriction base=\"xs:string\"/></xs:simpleType></xs:element>",
    ) {
        Err(XMLGeneratorError::XMLBuilderError(message)) => assert_eq!(
            message,
            "Error encountered during insertion: Cannot insert text in a non-empty element"
        ),
        other => panic!("unexpected result: {:?}", other),
    }
}

#[test]
fn cycle_through_named_types_is_reported() {
    check_format_error(
        generate("<xs:element name=\"A\" type=\"T\"/><xs:complexType name=\"T\"><xs:sequence><xs:element name=\"b\" type=\"T\"/></xs:sequence></xs:complexType>"),
        "Element nesting does not end: the schema is cyclic",
    );
}

#[test]
fn lower_bound_gives_that_many_instances() {
    let xml = generate(
        "<xs:element name=\"List\"><xs:complexType><xs:sequence><xs:element name=\"Item\" type=\"xs:integer\" minOccurs=\"3\" maxOccurs=\"5\"/><xs:element name=\"Never\" type=\"xs:string\" minOccurs=\"0\" maxOccurs=\"0\"/><xs:element name=\"Maybe\" type=\"xs:string\" minOccurs=\"0\"/></xs:sequence></xs:complexType></xs:element>",
    )
    .unwrap();
    assert_eq!(xml.matches("<Item>").count(), 3);
    assert!(!xml.contains("<Never"));
    assert_eq!(xml.matches("<Maybe").count(), 1);
}

#[test]
fn missing_reference_is_a_builder_error() {
    match generate("<xs:element name=\"A\"><xs:complexType><xs:sequence><xs:element ref=\"Missing\"/></xs:sequence></xs:complexType></xs:element>") {
        Err(XMLGeneratorError::XMLBuilderError(message)) => assert_eq!(message, "Reference not found"),
        other => panic!("unexpected result: {:?}", other),
    }
}

#[test]
fn reference_takes_the_target_name() {
    let xml = generate(
        "<xs:element name=\"Leaf\" type=\"xs:boolean\"/><xs:element name=\"Top\"><xs:complexType><xs:sequence><xs:element ref=\"Leaf\"/></xs:sequence></xs:complexType></xs:element>",
    )
    .unwrap();
    let leaf = between(&xml, "<Leaf>", "</Leaf>");
    assert!(leaf == "true" || leaf == "false");
}

#[test]
fn attribute_uses_are_honoured() {
    let xml = generate(
        "<xs:simpleType name=\"Code\"><xs:restriction base=\"xs:string\"><xs:pattern value=\"[a-c]{2}\"/></xs:restriction></xs:simpleType><xs:element name=\"Item\"><xs:complexType><xs:attribute name=\"req\" type=\"xs:integer\" use=\"required\"/><xs:attribute name=\"opt\" type=\"Code\" use=\"optional\"/><xs:attribute name=\"no\" type=\"xs:string\" use=\"prohibited\"/><xs:attribute name=\"inline\"><xs:simpleType><xs:restriction base=\"xs:string\"><xs:pattern value=\"z{4}\"/></xs:restriction></xs:simpleType></xs:attribute></xs:complexType></xs:element>",
    )
    .unwrap();
    let req = between(&xml, "req=\"", "\"");
    assert!(req.parse::<i32>().is_ok(), "not an i32: {}", req);
    let opt = between(&xml, "opt=\"", "\"");
    assert_eq!(opt.len(), 2);
    assert!(opt.chars().all(|c| ('a'..='c').contains(&c)));
    assert!(!xml.contains(" no=\""));
    assert_eq!(between(&xml, "inline=\"", "\""), "zzzz");
}

#[test]
fn element_with_name_and_reference_is_unsupported() {
    match generate("<xs:element name=\"B\" type=\"xs:string\"/><xs:element name=\"A\"><xs:complexType><xs:sequence><xs:element name=\"x\" ref=\"B\"/></xs:sequence></xs:complexType></xs:element>") {
        Err(XMLGeneratorError::XSDParserError(message)) => assert_eq!(message, "Unsupported: Element with both a name and a reference"),
        other => panic!("unexpected result: {:?}", other),
    }
}

#[test]
fn attribute_of_complex_type_is_a_format_error() {
    match generate("<xs:complexType name=\"Empty\"/><xs:element name=\"A\"><xs:complexType><xs:attribute name=\"a\" type=\"Empty\"/></xs:complexType></xs:element>") {
        Err(XMLGeneratorError::DataTypesFormatError(message)) => assert_eq!(message, "Attributes need a simple type"),
        other => panic!("unexpected result: {:?}", other),
    }
}
