use vstd::prelude::*;

verus! {

/// An element of the produced document: its tag, its attributes in order, and either text or
/// child elements.
#[derive(Debug)]
pub struct XmlNode {
    pub name: String,
    pub attributes: Vec<(String, String)>,
    pub text: Option<String>,
    pub children: Vec<XmlNode>,
}

/// What emission decides of an element, leaving out the drawn values: tag, attribute names
/// with the type chain of each value, the type chain of the text, and the children.
pub struct Shape {
    pub name: Seq<char>,
    pub attributes: Seq<(Seq<char>, Seq<Seq<char>>)>,
    pub text: Option<Seq<Seq<char>>>,
    pub children: Seq<Shape>,
}

pub open spec fn new_shape(name: Seq<char>) -> Shape {
    Shape { name, attributes: Seq::empty(), text: None, children: Seq::empty() }
}

/// The node agrees with the shape: same tags and attribute names throughout, and every drawn
/// value is one that the generator of its type chain can produce.
pub open spec fn conforms(n: XmlNode, s: Shape) -> bool
    decreases n,
{
    &&& n.name@ == s.name
    &&& n.attributes.len() == s.attributes.len()
    &&& forall|i: int|
        0 <= i < s.attributes.len() ==> (#[trigger] n.attributes[i]).0@ == s.attributes[i].0
            && crate::values::is_value_of(s.attributes[i].1, n.attributes[i].1@)
    &&& match (n.text, s.text) {
        (None, None) => true,
        (Some(t), Some(tokens)) => crate::values::is_value_of(tokens, t@),
        _ => false,
    }
    &&& n.text is Some ==> n.children.len() == 0
    &&& n.children.len() == s.children.len()
    &&& forall|i: int|
        0 <= i < n.children.len() ==> conforms(#[trigger] n.children[i], s.children[i])
}

/// `new` holds all of `old`: the same tag, `old`'s attributes and children as its first ones,
/// and `old`'s text where it had some.
pub open spec fn keeps(old: XmlNode, new: XmlNode) -> bool {
    &&& new.name == old.name
    &&& old.attributes.len() <= new.attributes.len()
    &&& forall|i: int| 0 <= i < old.attributes.len() ==> new.attributes[i] == old.attributes[i]
    &&& old.children.len() <= new.children.len()
    &&& forall|i: int| 0 <= i < old.children.len() ==> new.children[i] == old.children[i]
    &&& old.text is Some ==> new.text == old.text
}

/// The two nodes hold the same tag, attributes, text and children.
pub open spec fn same_node(a: XmlNode, b: XmlNode) -> bool {
    &&& a.name == b.name
    &&& a.text == b.text
    &&& a.attributes@ == b.attributes@
    &&& a.children@ == b.children@
}

/// Puts back the node as it was before additions that `keeps` describes.
pub fn restore(node: &mut XmlNode, attributes: usize, children: usize, had_text: bool, Ghost(before): Ghost<XmlNode>)
    requires
        keeps(before, *old(node)),
        attributes == before.attributes.len(),
        children == before.children.len(),
        had_text == before.text is Some,
    ensures
        same_node(before, *final(node)),
{
    node.attributes.truncate(attributes);
    node.children.truncate(children);
    if !had_text {
        node.text = None;
    }
    assert(node.attributes@ =~= before.attributes@);
    assert(node.children@ =~= before.children@);
}

/// An element as plain values: tag, attributes in order, text, children.
pub struct XmlTree {
    pub name: Seq<char>,
    pub attributes: Seq<(Seq<char>, Seq<char>)>,
    pub text: Option<Seq<char>>,
    pub children: Seq<XmlTree>,
}

pub open spec fn tree_view(n: XmlNode) -> XmlTree
    decreases n,
{
    XmlTree {
        name: n.name@,
        attributes: Seq::new(n.attributes.len() as nat, |i: int| (n.attributes[i].0@, n.attributes[i].1@)),
        text: match n.text {
            Some(t) => Some(t@),
            None => None,
        },
        children: Seq::new(
            n.children.len() as nat,
            |i: int|
                if 0 <= i < n.children.len() {
                    tree_view(n.children[i])
                } else {
                    XmlTree { name: Seq::empty(), attributes: Seq::empty(), text: None, children: Seq::empty() }
                },
        ),
    }
}

/// No element holds both text and children, which the writer refuses.
pub open spec fn well_formed(n: XmlNode) -> bool
    decreases n,
{
    &&& n.text is Some ==> n.children.len() == 0
    &&& forall|i: int| 0 <= i < n.children.len() ==> well_formed(#[trigger] n.children[i])
}

/// A node that conforms to a shape is well formed.
pub proof fn conforming_is_well_formed(n: XmlNode, s: Shape)
    requires
        conforms(n, s),
    ensures
        well_formed(n),
    decreases n,
{
    assert forall|i: int| 0 <= i < n.children.len() implies well_formed(#[trigger] n.children[i]) by {
        conforming_is_well_formed(n.children[i], s.children[i]);
    }
}

impl XmlNode {
    pub fn new(name: &String) -> (r: XmlNode)
        ensures
            conforms(r, new_shape(name@)),
    {
        XmlNode { name: name.clone(), attributes: Vec::new(), text: None, children: Vec::new() }
    }
}

} // verus!
