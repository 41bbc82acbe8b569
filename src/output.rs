use vstd::prelude::*;
use xml_builder::{XMLBuilder, XMLElement, XMLError, XMLVersion};
use crate::error::XMLGeneratorError;
use crate::tree::{XmlNode, XmlTree, tree_view, well_formed};

verus! {

/// xml-builder's element under construction, carried through opaque.
#[verifier::external_type_specification]
#[verifier::external_body]
pub struct ExXMLElement(XMLElement);

/// xml-builder's error, turned into this library's by its message.
#[verifier::external_type_specification]
#[verifier::external_body]
pub struct ExXMLError(XMLError);

/// What an element of xml-builder holds, as it was handed in: its tag, its attributes in
/// order (values before escaping), and its content, text or children.
pub uninterp spec fn element_tree(e: XMLElement) -> XmlTree;

/// No element in this element's tree has a sorting flag of its own, so that the document's
/// setting (no sorting) decides the order of attributes everywhere.
pub uninterp spec fn unsorted(e: XMLElement) -> bool;

/// The document that xml-builder writes for a root element in which no element sorts its
/// attributes: XML 1.1, UTF-8, with xml-builder's defaults for indentation, line breaks and
/// attribute order.
pub uninterp spec fn rendered_document(root: XmlTree) -> Seq<char>;

pub open spec fn declaration() -> Seq<char> {
    "<?xml version=\"1.1\" encoding=\"UTF-8\"?>\n<"@
}

/// Relies on xml-builder's `XMLElement::new`: an element with the given tag and no content.
pub assume_specification[ XMLElement::new ](name: &str) -> (r: XMLElement)
    ensures
        element_tree(r) == (XmlTree { name: name@, attributes: Seq::empty(), text: None, children: Seq::empty() }),
        unsorted(r),
;

/// Relies on xml-builder's `XMLElement::add_attribute`: appends an attribute; never fails.
pub assume_specification[ XMLElement::add_attribute ](element: &mut XMLElement, name: &str, value: &str)
    ensures
        element_tree(*final(element)) == (XmlTree {
            attributes: element_tree(*old(element)).attributes.push((name@, value@)),
            ..element_tree(*old(element))
        }),
        unsorted(*final(element)) == unsorted(*old(element)),
;

/// Relies on xml-builder's `XMLElement::add_text`: text for an element with no content, else
/// an error and no change.
pub assume_specification[ XMLElement::add_text ](element: &mut XMLElement, text: String) -> (r: Result<(), XMLError>)
    ensures
        element_tree(*old(element)).text is None && element_tree(*old(element)).children.len() == 0 ==> r is Ok
            && element_tree(*final(element)) == (XmlTree { text: Some(text@), ..element_tree(*old(element)) }),
        !(element_tree(*old(element)).text is None && element_tree(*old(element)).children.len() == 0) ==> r is Err
            && element_tree(*final(element)) == element_tree(*old(element)),
        unsorted(*final(element)) == unsorted(*old(element)),
;

/// Relies on xml-builder's `XMLElement::add_child`: a child for an element without text, else
/// an error and no change.
pub assume_specification[ XMLElement::add_child ](element: &mut XMLElement, child: XMLElement) -> (r: Result<(), XMLError>)
    ensures
        element_tree(*old(element)).text is None ==> r is Ok && element_tree(*final(element)) == (XmlTree {
            children: element_tree(*old(element)).children.push(element_tree(child)),
            ..element_tree(*old(element))
        }),
        element_tree(*old(element)).text is Some ==> r is Err && element_tree(*final(element)) == element_tree(*old(element))
            && unsorted(*final(element)) == unsorted(*old(element)),
        element_tree(*old(element)).text is None ==> unsorted(*final(element)) == (unsorted(*old(element)) && unsorted(child)),
;

/// Relies on the `Display` of xml-builder's `XMLError`: its message.
#[verifier::external_body]
fn xml_error_text(e: &XMLError) -> String {
    e.to_string()
}

/// Relies on xml-builder's `XMLBuilder` (XML 1.1, UTF-8, default layout, no sorting of
/// attributes, which no element of the tree overrides) writing a document with the given root into a byte vector, which cannot fail, from text, which is UTF-8: the
/// declaration and a line break come first, then the root's tag.
#[verifier::external_body]
fn render_document(root: XMLElement) -> (r: String)
    requires
        unsorted(root),
    ensures
        r@ == rendered_document(element_tree(root)),
        r@.len() >= 40 + element_tree(root).name.len(),
        r@.subrange(0, 40) == declaration(),
        r@.subrange(40, 40 + element_tree(root).name.len() as int) == element_tree(root).name,
{
    let mut xml = XMLBuilder::new().version(XMLVersion::XML1_1).encoding("UTF-8".into()).build();
    xml.set_root_element(root);
    let mut writer: Vec<u8> = Vec::new();
    let _ = xml.generate(&mut writer);
    String::from_utf8(writer).unwrap_or_default()
}

/// The writer's element for a node: same tag, attributes in order, then text or children.
pub fn to_xml_element(node: &XmlNode) -> (r: Result<XMLElement, XMLGeneratorError>)
    ensures
        r is Err ==> (r->Err_0)@ is XmlBuilder,
        r is Ok ==> unsorted(r->Ok_0),
        well_formed(*node) ==> r is Ok && element_tree(r->Ok_0) == tree_view(*node),
    decreases node,
{
    let ghost t = tree_view(*node);
    let mut element = XMLElement::new(node.name.as_str());
    assert(t.attributes.take(0) =~= Seq::<(Seq<char>, Seq<char>)>::empty());
    let mut i: usize = 0;
    while i < node.attributes.len()
        invariant
            t == tree_view(*node),
            i <= node.attributes.len(),
            element_tree(element) == (XmlTree { attributes: t.attributes.take(i as int), text: None, children: Seq::empty(), ..t }),
            unsorted(element),
        decreases node.attributes.len() - i,
    {
        let (name, value) = &node.attributes[i];
        element.add_attribute(name.as_str(), value.as_str());
        assert(t.attributes.take(i + 1) =~= t.attributes.take(i as int).push((name@, value@)));
        i += 1;
    }
    assert(t.attributes.take(i as int) =~= t.attributes);
    if let Some(text) = &node.text {
        if let Err(e) = element.add_text(text.clone()) {
            return Err(XMLGeneratorError::XMLBuilderError(xml_error_text(&e)));
        }
    }
    assert(t.children.take(0) =~= Seq::<XmlTree>::empty());
    let mut k: usize = 0;
    while k < node.children.len()
        invariant
            t == tree_view(*node),
            k <= node.children.len(),
            well_formed(*node) ==> element_tree(element) == (XmlTree { children: t.children.take(k as int), ..t }),
            unsorted(element),
        decreases node.children.len() - k,
    {
        let child = match to_xml_element(&node.children[k]) {
            Ok(c) => c,
            Err(e) => {
                return Err(e);
            },
        };
        if let Err(e) = element.add_child(child) {
            return Err(XMLGeneratorError::XMLBuilderError(xml_error_text(&e)));
        }
        assert(t.children.take(k + 1) =~= t.children.take(k as int).push(tree_view(node.children[k as int])));
        k += 1;
    }
    assert(t.children.take(k as int) =~= t.children);
    Ok(element)
}

/// Writes a tree out as an XML 1.1 document in UTF-8.
pub fn generate_output(root: &XmlNode) -> (r: Result<String, XMLGeneratorError>)
    ensures
        r is Err ==> (r->Err_0)@ is XmlBuilder,
        well_formed(*root) ==> r is Ok && (r->Ok_0)@ == rendered_document(tree_view(*root))
            && (r->Ok_0)@.subrange(0, 40) == declaration()
            && (r->Ok_0)@.subrange(40, 40 + root.name@.len() as int) == root.name@,
{
    let element = match to_xml_element(root) {
        Ok(e) => e,
        Err(e) => {
            return Err(e);
        },
    };
    Ok(render_document(element))
}

} // verus!
