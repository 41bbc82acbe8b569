use xmlgenerator::rust_structs::{
    find_root, generate_struct_tree, has_root, get_field_struct, get_string, wrapper_occurrences, FieldInfo,
    FieldType, StructInfo,
};
use xmlgenerator::{FloatSource, XMLGeneratorError};

struct FixedFloats;

impl FloatSource for FixedFloats {
    fn decimal_text(&mut self) -> String {
        "0.5".to_string()
    }

    fn double_text(&mut self) -> String {
        "0.25".to_string()
    }
}

fn field(name: &str, scalar: &str) -> FieldInfo {
    FieldInfo {
        name: name.to_string(),
        field_type: FieldType { name: scalar.to_string(), min_occurrences: None, max_occurrences: None },
        attributes: vec![],
    }
}

fn structure(name: &str, fields: Vec<FieldInfo>) -> StructInfo {
    StructInfo { name: name.to_string(), attrs: vec![], fields }
}

#[test]
fn root_struct_is_the_first_not_used_as_a_field() {
    let structs = vec![
        structure("Inner", vec![field("count", "u32")]),
        structure("Outer", vec![field("inner", "Inner")]),
    ];
    assert!(has_root(&structs));
    assert_eq!(find_root(&structs).name, "Outer");
    assert_eq!(get_field_struct(&structs, &"Inner".to_string()).unwrap().fields.len(), 1);
}

#[test]
fn struct_tree_nests_fields() {
    let structs = vec![
        structure("Inner", vec![field("count", "u32"), field("ratio", "f64")]),
        structure("Outer", vec![field("inner", "Inner"), field("flag", "bool"), field("other", "Unknown")]),
    ];
    let tree = generate_struct_tree(&structs, &mut FixedFloats).unwrap();
    assert_eq!(tree.name, "Outer");
    assert_eq!(tree.children.len(), 2);
    assert_eq!(tree.children[0].name, "Inner");
    assert_eq!(tree.children[0].children[0].name, "count");
    assert!(tree.children[0].children[0].text.as_ref().unwrap().parse::<u32>().is_ok());
    assert_eq!(tree.children[0].children[1].text, Some("0.25".to_string()));
    let flag = tree.children[1].text.clone().unwrap();
    assert!(flag == "true" || flag == "false");
}

#[test]
fn cyclic_structs_have_no_root() {
    let structs = vec![structure("A", vec![field("b", "B")]), structure("B", vec![field("a", "A")])];
    match generate_struct_tree(&structs, &mut FixedFloats) {
        Err(XMLGeneratorError::DataTypesFormatError(m)) => assert_eq!(m, "No root structs found"),
        other => panic!("unexpected: {:?}", other),
    }
}

#[test]
fn scalar_names_have_values() {
    for name in ["i8", "u8", "i16", "u16", "i32", "u32", "i64", "u64", "i128", "u128", "isize", "usize", "bool", "char", "String"] {
        assert!(get_string(&name.to_string(), &mut FixedFloats).is_some(), "{}", name);
    }
    assert!(get_string(&"i8".to_string(), &mut FixedFloats).unwrap().parse::<i8>().is_ok());
    assert_eq!(get_string(&"f32".to_string(), &mut FixedFloats), Some("0.5".to_string()));
    assert!(get_string(&"Other".to_string(), &mut FixedFloats).is_none());
}

#[test]
fn wrappers_give_bounds() {
    assert_eq!(wrapper_occurrences(&"Option".to_string()), Some((Some(0), Some(1))));
    assert_eq!(wrapper_occurrences(&"Vec".to_string()), Some((Some(0), None)));
    assert_eq!(wrapper_occurrences(&"Box".to_string()), None);
}

#[test]
fn struct_equality_is_structural() {
    let a = structure("A", vec![field("x", "u8")]);
    let b = structure("A", vec![field("x", "u8")]);
    let c = structure("A", vec![field("x", "u16")]);
    assert!(a == b);
    assert!(a != c);
}

use xmlgenerator::rust_code::{generate_struct_xml, get_data, parse_code};

#[test]
fn structs_are_read_from_code() {
    let code = "pub type Alias = Outer;\npub struct Outer { pub items: Vec<Inner>, pub note: Option<String> }\npub struct Inner { #[serde(rename = \"v\")] pub value: u16 }".to_string();
    let items = parse_code(&code).unwrap();
    let (aliases, structs) = get_data(&items).unwrap();
    assert_eq!(aliases.len(), 1);
    assert_eq!(aliases[0].name, "Alias");
    assert_eq!(structs.len(), 2);
    assert_eq!(structs[0].name, "Outer");
    assert_eq!(structs[0].fields[0].field_type.name, "Inner");
    assert_eq!(structs[0].fields[0].field_type.min_occurrences, Some(0));
    assert_eq!(structs[0].fields[0].field_type.max_occurrences, None);
    assert_eq!(structs[0].fields[1].field_type.max_occurrences, Some(1));
    assert_eq!(structs[1].fields[0].attributes.len(), 1);
}

#[test]
fn xml_from_code_has_the_root_struct() {
    let code = "pub struct Outer { pub inner: Inner }\npub struct Inner { pub value: u16 }".to_string();
    let xml = generate_struct_xml(&code, &mut FixedFloats).unwrap();
    assert!(xml.contains("<Outer>"));
    assert!(xml.contains("<value>"));
}

#[test]
fn unsupported_items_are_rejected() {
    let code = "fn helper() {}".to_string();
    match generate_struct_xml(&code, &mut FixedFloats) {
        Err(XMLGeneratorError::DataTypesFormatError(m)) => assert!(m.starts_with("Unsupported: ")),
        other => panic!("unexpected: {:?}", other),
    }
    match generate_struct_xml(&"pub struct".to_string(), &mut FixedFloats) {
        Err(XMLGeneratorError::XSDParserError(_)) => {}
        other => panic!("unexpected: {:?}", other),
    }
}
