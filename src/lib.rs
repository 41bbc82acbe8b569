//! Generates XML documents of fake data that follow an XSD schema.
//!
//! The schema's components are collected into a table of types and a list of elements, the
//! one element that no other mentions is selected as the root, and an element tree is emitted
//! from it with random values at the leaves, drawn according to each leaf's simple type.
//! Everything from the collected components to the tree is verified; parsing the schema text
//! and writing the XML out are left to xsd-parser and xml-builder.

use vstd::prelude::*;

pub mod error;
pub mod model;
pub mod find_root;
pub mod values;
pub mod tree;
pub mod builder;
pub mod schema;
pub mod collect;
pub mod pipeline;
pub mod xsd_source;
pub mod output;
pub mod laws;
pub mod rust_structs;
pub mod rust_code;

pub use error::XMLGeneratorError;
pub use values::FloatSource;

verus! {

/// Generates an XML document of fake data that follows an XSD schema given as text.
///
/// The schema is parsed, its types and elements are collected, the one element that no other
/// mentions becomes the root, and a tree is emitted from it and written out as XML 1.1. The
/// text of floating-point leaves comes from `floats`.
pub fn generate_xml<F: FloatSource>(xsd_string: &String, floats: &mut F) -> (r: Result<String, XMLGeneratorError>)
    ensures
        match xsd_source::parsed_schema(xsd_string@) {
            Err(m) => r is Err && (r->Err_0)@ == error::ErrorModel::XsdParser(m),
            Ok(items) => match pipeline::document_of(items) {
                Err(e) => r is Err && (r->Err_0)@ == e,
                Ok(shape) => r is Ok && exists|root: tree::XmlNode|
                    tree::conforms(root, shape) && (r->Ok_0)@ == output::rendered_document(tree::tree_view(root))
                        && (r->Ok_0)@.subrange(0, 40) == output::declaration()
                        && (r->Ok_0)@.subrange(40, 40 + shape.name.len() as int) == shape.name,
            },
        },
{
    let schemas = match xsd_source::parse_schema(xsd_string) {
        Ok(s) => s,
        Err(message) => {
            return Err(XMLGeneratorError::XSDParserError(message));
        },
    };
    let root = match pipeline::generate_tree(&schemas, floats) {
        Ok(root) => root,
        Err(e) => {
            return Err(e);
        },
    };
    proof {
        if let Ok(shape) = pipeline::document_of(schemas@) {
            tree::conforming_is_well_formed(root, shape);
        }
    }
    let r = output::generate_output(&root);
    proof {
        if let Ok(shape) = pipeline::document_of(schemas@) {
            assert(tree::conforms(root, shape));
        }
    }
    r
}

} // verus!
