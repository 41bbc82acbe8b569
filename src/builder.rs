use vstd::prelude::*;
use crate::error::{
    ErrorModel, XMLGeneratorError, builder_error, data_type_error, format_error, join_text,
};
use crate::model::{
    AttributeGenerator, AttributeModel, AttributeUse, ElementGenerator, ElementModel,
    TypeGenerator, TypeModel, element_models, model_name, texts, type_models,
};
use crate::tree::{Shape, XmlNode, conforms, keeps, new_shape, restore, same_node};
use crate::values::{FloatSource, generate, generate_type, generates, is_primitive};

verus! {

pub open spec fn text_conflict() -> ErrorModel {
    ErrorModel::XmlBuilder("Error encountered during insertion: Cannot insert text in a non-empty element"@)
}

pub open spec fn cycle_error() -> ErrorModel {
    ErrorModel::DataTypesFormat("Element nesting does not end: the schema is cyclic"@)
}

pub open spec fn shape_add_text(s: Shape, tokens: Seq<Seq<char>>) -> Result<Shape, ErrorModel> {
    if s.text is None && s.children.len() == 0 {
        Ok(Shape { text: Some(tokens), ..s })
    } else {
        Err(text_conflict())
    }
}

pub open spec fn shape_add_child(s: Shape, c: Shape) -> Option<Shape> {
    if s.text is None {
        Some(Shape { children: s.children.push(c), ..s })
    } else {
        None
    }
}

pub open spec fn shape_add_attribute(s: Shape, name: Seq<char>, tokens: Seq<Seq<char>>) -> Shape {
    Shape { attributes: s.attributes.push((name, tokens)), ..s }
}

/// The index of the first type named `name`, from index `i` on.
pub open spec fn find_type(types: Seq<TypeModel>, name: Seq<char>, i: int) -> Option<int>
    decreases types.len() - i,
{
    if i < 0 || i >= types.len() {
        None
    } else if types[i].name == name {
        Some(i)
    } else {
        find_type(types, name, i + 1)
    }
}

/// An attribute whose values come from a simple type of the table or declared inline.
pub open spec fn attribute_from_type(s: Shape, t: TypeModel, name: Seq<char>) -> Result<Shape, ErrorModel> {
    if t.elements.len() > 0 {
        Err(ErrorModel::DataTypesFormat("Attributes cannot contain complex elements"@))
    } else if t.groups.len() > 0 {
        Err(ErrorModel::DataTypesFormat("Attributes cannot include groups"@))
    } else if t.attributes.len() > 0 {
        Err(ErrorModel::DataTypesFormat("Attributes cannot have their own attributes"@))
    } else if t.type_info.len() == 0 {
        Err(ErrorModel::DataTypesFormat("Attributes need a simple type"@))
    } else if !generates(t.type_info) {
        Err(ErrorModel::DataType("Data type not found"@))
    } else {
        Ok(shape_add_attribute(s, name, t.type_info))
    }
}

/// One attribute: skipped when prohibited, else a value of its type.
pub open spec fn emit_attribute(a: AttributeModel, s: Shape, types: Seq<TypeModel>) -> Result<Shape, ErrorModel> {
    if a.attribute_type == AttributeUse::Prohibited {
        Ok(s)
    } else if a.name.len() == 0 {
        Err(ErrorModel::DataTypesFormat("Attribute Name is empty"@))
    } else {
        match a.inline_type {
            Some(t) => attribute_from_type(s, t, a.name),
            None => if a.value_type.len() == 0 {
                Err(ErrorModel::DataTypesFormat("Attribute type name is empty"@))
            } else if is_primitive(a.value_type) {
                Ok(shape_add_attribute(s, a.name, seq![a.value_type]))
            } else {
                match find_type(types, a.value_type, 0) {
                    Some(k) => attribute_from_type(s, types[k], a.name),
                    None => Err(ErrorModel::DataType("Cannot find data type: "@ + a.value_type)),
                }
            },
        }
    }
}

/// The attributes of a type from index `i` on, in order.
pub open spec fn emit_attributes(attrs: Seq<AttributeModel>, i: int, s: Shape, types: Seq<TypeModel>) -> Result<Shape, ErrorModel>
    decreases attrs.len() - i,
{
    if i < 0 || i >= attrs.len() {
        Ok(s)
    } else {
        match emit_attribute(attrs[i], s, types) {
            Ok(s2) => emit_attributes(attrs, i + 1, s2, types),
            Err(e) => Err(e),
        }
    }
}

/// Emission of an element declaration with `fuel` levels of nesting left.
pub open spec fn emit_element(e: ElementModel, types: Seq<TypeModel>, els: Seq<ElementModel>, fuel: nat) -> Result<Shape, ErrorModel>
    decreases fuel, 0int, 0int, 0int,
{
    if fuel == 0 {
        Err(cycle_error())
    } else {
        match e.reference {
            Some(r) => if e.type_info is Some {
                Err(ErrorModel::DataTypesFormat("Element is a reference and a type"@))
            } else if e.contents.len() > 0 {
                Err(ErrorModel::DataTypesFormat("Element references another element and contains content"@))
            } else {
                emit_reference(r, 0, types, els, (fuel - 1) as nat)
            },
            None => match e.name {
                None => Err(ErrorModel::DataTypesFormat("Element does not have a name or a reference"@)),
                Some(n) => match e.type_info {
                    Some(ti) => if e.contents.len() > 0 {
                        Err(ErrorModel::DataTypesFormat("Data has a type and contains type elements"@))
                    } else {
                        emit_named_type(ti, new_shape(n), types, els, (fuel - 1) as nat)
                    },
                    None => emit_contents(e, 0, new_shape(n), types, els, (fuel - 1) as nat),
                },
            },
        }
    }
}

/// The element that a reference names: the first in `els`, from index `i` on, known by it.
pub open spec fn emit_reference(r: Seq<char>, i: int, types: Seq<TypeModel>, els: Seq<ElementModel>, fuel: nat) -> Result<Shape, ErrorModel>
    decreases fuel, 1int, els.len() - i, 0int,
{
    if i < 0 || i >= els.len() {
        Err(ErrorModel::XmlBuilder("Reference not found"@))
    } else {
        match model_name(els[i]) {
            None => Err(ErrorModel::DataTypesFormat("Element does not have a name or a reference"@)),
            Some(n) => if n == r {
                emit_element(els[i], types, els, fuel)
            } else {
                emit_reference(r, i + 1, types, els, fuel)
            },
        }
    }
}

/// The inline types of an element from index `j` on, applied in order to its node.
pub open spec fn emit_contents(e: ElementModel, j: int, s: Shape, types: Seq<TypeModel>, els: Seq<ElementModel>, fuel: nat) -> Result<Shape, ErrorModel>
    decreases fuel, 3int, e.contents.len() - j, 0int,
{
    if j < 0 || j >= e.contents.len() {
        Ok(s)
    } else {
        match emit_type(e.contents[j], s, types, els, fuel) {
            Ok(s2) => emit_contents(e, j + 1, s2, types, els, fuel),
            Err(err) => Err(err),
        }
    }
}

/// A type given by name: a primitive value, else the first type of the table with that name.
pub open spec fn emit_named_type(name: Seq<char>, s: Shape, types: Seq<TypeModel>, els: Seq<ElementModel>, fuel: nat) -> Result<Shape, ErrorModel>
    decreases fuel, 3int, 0int, 0int,
{
    if is_primitive(name) {
        shape_add_text(s, seq![name])
    } else {
        match find_type(types, name, 0) {
            Some(k) => if 0 <= k < types.len() {
                emit_type(types[k], s, types, els, fuel)
            } else {
                Err(ErrorModel::DataType("Cannot find data type: "@ + name))
            },
            None => Err(ErrorModel::DataType("Cannot find data type: "@ + name)),
        }
    }
}

/// A type applied to a node: its text, its child elements, its groups' elements, its attributes.
pub open spec fn emit_type(t: TypeModel, s: Shape, types: Seq<TypeModel>, els: Seq<ElementModel>, fuel: nat) -> Result<Shape, ErrorModel>
    decreases fuel, 2int, 0int, 0int,
{
    let with_text = if t.type_info.len() > 0 {
        if t.elements.len() > 0 {
            Err(ErrorModel::DataTypesFormat("Type includes type information and elements"@))
        } else if t.groups.len() > 0 {
            Err(ErrorModel::DataTypesFormat("Type includes type information and groups"@))
        } else if !generates(t.type_info) {
            Err(ErrorModel::DataType("No output generated"@))
        } else {
            shape_add_text(s, t.type_info)
        }
    } else {
        Ok(s)
    };
    match with_text {
        Err(e) => Err(e),
        Ok(s1) => match emit_children(t, 0, s1, types, els, fuel) {
            Err(e) => Err(e),
            Ok(s2) => match emit_groups(t, 0, 0, s2, types, els, fuel) {
                Err(e) => Err(e),
                Ok(s3) => emit_attributes(t.attributes, 0, s3, types),
            },
        },
    }
}

/// How many instances of an element one child position gets: its lower bound when that is
/// above one, none when both bounds are zero, else one.
pub open spec fn occurrences(e: ElementModel) -> nat {
    if e.min > 1 {
        e.min
    } else if e.min == 0 && e.max == Some(0nat) {
        0
    } else {
        1
    }
}

pub open spec fn copies(c: Shape, n: nat) -> Seq<Shape> {
    Seq::new(n, |i: int| c)
}

/// The instances of one child position: the element emitted once and attached as many times
/// as it occurs; nothing where it occurs no time.
pub open spec fn emit_occurrences(e: ElementModel, s: Shape, types: Seq<TypeModel>, els: Seq<ElementModel>, fuel: nat, message: Seq<char>) -> Result<Shape, ErrorModel>
    decreases fuel, 1int, 0int, 0int,
{
    if occurrences(e) == 0 {
        Ok(s)
    } else {
        match emit_element(e, types, els, fuel) {
            Err(err) => Err(err),
            Ok(c) => if s.text is None {
                Ok(Shape { children: s.children + copies(c, occurrences(e)), ..s })
            } else {
                Err(ErrorModel::XmlBuilder(message))
            },
        }
    }
}

/// The child elements of a type from index `k` on.
pub open spec fn emit_children(t: TypeModel, k: int, s: Shape, types: Seq<TypeModel>, els: Seq<ElementModel>, fuel: nat) -> Result<Shape, ErrorModel>
    decreases fuel, 1int, t.elements.len() - k, 0int,
{
    if k < 0 || k >= t.elements.len() {
        Ok(s)
    } else {
        match emit_occurrences(t.elements[k], s, types, els, fuel, "Unable to add child to element"@) {
            Err(e) => Err(e),
            Ok(s2) => emit_children(t, k + 1, s2, types, els, fuel),
        }
    }
}

/// The elements of a type's groups, from element `k` of group `g` on.
pub open spec fn emit_groups(t: TypeModel, g: int, k: int, s: Shape, types: Seq<TypeModel>, els: Seq<ElementModel>, fuel: nat) -> Result<Shape, ErrorModel>
    decreases fuel, 1int, t.groups.len() - g, t.groups[g].elements.len() - k,
{
    if g < 0 || g >= t.groups.len() {
        Ok(s)
    } else if k < 0 || k >= t.groups[g].elements.len() {
        emit_groups(t, g + 1, 0, s, types, els, fuel)
    } else {
        match emit_occurrences(t.groups[g].elements[k], s, types, els, fuel, "Unable to add group child to element"@) {
            Err(e) => Err(e),
            Ok(s2) => emit_groups(t, g, k + 1, s2, types, els, fuel),
        }
    }
}

/// An exec result is the spec result with values drawn: a conforming node, or the same error.
pub open spec fn emitted(r: Result<XmlNode, XMLGeneratorError>, s: Result<Shape, ErrorModel>) -> bool {
    match s {
        Ok(sh) => r is Ok && conforms(r->Ok_0, sh),
        Err(m) => r is Err && (r->Err_0)@ == m,
    }
}

/// A step on a node: it now conforms to the spec result's shape, or the same error came.
pub open spec fn stepped(r: Result<(), XMLGeneratorError>, old: XmlNode, n: XmlNode, s: Result<Shape, ErrorModel>) -> bool {
    match s {
        Ok(sh) => r is Ok && conforms(n, sh) && keeps(old, n),
        Err(m) => r is Err && (r->Err_0)@ == m && same_node(old, n),
    }
}

fn add_text(node: &mut XmlNode, text: String, Ghost(s): Ghost<Shape>, Ghost(tokens): Ghost<Seq<Seq<char>>>) -> (r: Result<(), XMLGeneratorError>)
    requires
        conforms(*old(node), s),
        crate::values::is_value_of(tokens, text@),
    ensures
        stepped(r, *old(node), *final(node), shape_add_text(s, tokens)),
{
    if node.text.is_none() && node.children.len() == 0 {
        node.text = Some(text);
        Ok(())
    } else {
        Err(builder_error("Error encountered during insertion: Cannot insert text in a non-empty element"))
    }
}

fn add_child(node: &mut XmlNode, child: XmlNode, Ghost(s): Ghost<Shape>, Ghost(c): Ghost<Shape>) -> (r: bool)
    requires
        conforms(*old(node), s),
        conforms(child, c),
    ensures
        match shape_add_child(s, c) {
            Some(s2) => r && conforms(*final(node), s2) && keeps(*old(node), *final(node)),
            None => !r && same_node(*old(node), *final(node)),
        },
{
    if node.text.is_none() {
        node.children.push(child);
        let ghost s2 = Shape { children: s.children.push(c), ..s };
        assert(forall|i: int| 0 <= i < node.children.len() ==> conforms(#[trigger] node.children[i], s2.children[i]));
        true
    } else {
        false
    }
}

fn add_attribute(node: &mut XmlNode, name: &String, value: String, Ghost(s): Ghost<Shape>, Ghost(tokens): Ghost<Seq<Seq<char>>>)
    requires
        conforms(*old(node), s),
        crate::values::is_value_of(tokens, value@),
    ensures
        conforms(*final(node), shape_add_attribute(s, name@, tokens)),
        keeps(*old(node), *final(node)),
{
    node.attributes.push((name.clone(), value));
    let ghost s2 = shape_add_attribute(s, name@, tokens);
    assert(forall|i: int| 0 <= i < node.children.len() ==> conforms(#[trigger] node.children[i], s2.children[i]));
}

/// The first type of the table named `name`.
fn find_type_exec(data_types: &Vec<TypeGenerator>, name: &String) -> (r: Option<usize>)
    ensures
        match find_type(type_models(data_types@), name@, 0) {
            Some(k) => r == Some(k as usize) && 0 <= k < data_types.len(),
            None => r is None,
        },
{
    let ghost types = type_models(data_types@);
    let mut i: usize = 0;
    while i < data_types.len()
        invariant
            i <= data_types.len(),
            types == type_models(data_types@),
            find_type(types, name@, 0) == find_type(types, name@, i as int),
        decreases data_types.len() - i,
    {
        if data_types[i].name.eq(name) {
            return Some(i);
        }
        i += 1;
    }
    None
}

/// How many instances of an element one child position gets.
fn element_occurrences(element: &ElementGenerator) -> (r: usize)
    ensures
        r as nat == occurrences(element@),
{
    if element.min > 1 {
        element.min
    } else if element.min == 0 && element.max == Some(0usize) {
        0
    } else {
        1
    }
}

/// Attaches the instances of one child position to the node.
fn add_occurrences<F: FloatSource>(
    xml_element: &mut XmlNode,
    element: &ElementGenerator,
    data_types: &Vec<TypeGenerator>,
    elements: &Vec<ElementGenerator>,
    fuel: usize,
    floats: &mut F,
    message: &str,
    Ghost(s): Ghost<Shape>,
) -> (r: Result<(), XMLGeneratorError>)
    requires
        conforms(*old(xml_element), s),
    ensures
        stepped(r, *old(xml_element), *final(xml_element), emit_occurrences(element@, s, type_models(data_types@), element_models(elements@), fuel as nat, message@)),
    decreases fuel, 1int,
{
    let ghost types = type_models(data_types@);
    let ghost els = element_models(elements@);
    let n = element_occurrences(element);
    if n == 0 {
        return Ok(());
    }
    let ghost c = emit_element(element@, types, els, fuel as nat)->Ok_0;
    let ghost entry = *xml_element;
    let attributes = xml_element.attributes.len();
    let children = xml_element.children.len();
    let had_text = xml_element.text.is_some();
    let ghost mut cur = s;
    assert(s.children + copies(c, 0) =~= s.children);
    let mut j: usize = 0;
    while j < n
        invariant
            types == type_models(data_types@),
            els == element_models(elements@),
            n as nat == occurrences(element@),
            c == emit_element(element@, types, els, fuel as nat)->Ok_0,
            n > 0,
            j <= n,
            conforms(*xml_element, cur),
            keeps(entry, *xml_element),
            entry == *old(xml_element),
            attributes == entry.attributes.len(),
            children == entry.children.len(),
            had_text == entry.text is Some,
            j > 0 ==> emit_element(element@, types, els, fuel as nat) == Ok::<Shape, ErrorModel>(c),
            j > 0 ==> s.text is None,
            cur == (Shape { children: s.children + copies(c, j as nat), ..s }),
        decreases n - j,
    {
        let child = match element.generate(data_types, elements, fuel, floats) {
            Ok(child) => child,
            Err(e) => {
                restore(xml_element, attributes, children, had_text, Ghost(entry));
                return Err(e);
            },
        };
        if !add_child(xml_element, child, Ghost(cur), Ghost(c)) {
            restore(xml_element, attributes, children, had_text, Ghost(entry));
            return Err(builder_error(message));
        }
        proof {
            let next = Shape { children: s.children + copies(c, (j + 1) as nat), ..s };
            assert(shape_add_child(cur, c)->Some_0.children =~= next.children);
            cur = next;
        }
        j += 1;
    }
    assert(cur == (Shape { children: s.children + copies(c, occurrences(element@)), ..s }));
    Ok(())
}

/// Gives the node an attribute whose values come from type `generator`.
pub fn generate_attribute_from_type<F: FloatSource>(
    xml_element: &mut XmlNode,
    generator: &TypeGenerator,
    name: &String,
    floats: &mut F,
    Ghost(s): Ghost<Shape>,
) -> (r: Result<(), XMLGeneratorError>)
    requires
        conforms(*old(xml_element), s),
    ensures
        stepped(r, *old(xml_element), *final(xml_element), attribute_from_type(s, generator@, name@)),
{
    if generator.elements.len() > 0 {
        return Err(format_error("Attributes cannot contain complex elements"));
    }
    if generator.groups.len() > 0 {
        return Err(format_error("Attributes cannot include groups"));
    }
    if generator.attributes.len() > 0 {
        return Err(format_error("Attributes cannot have their own attributes"));
    }
    if generator.type_info.len() == 0 {
        return Err(format_error("Attributes need a simple type"));
    }
    match generate(&generator.type_info, floats) {
        Some(value) => {
            add_attribute(xml_element, name, value, Ghost(s), Ghost(texts(generator.type_info)));
            Ok(())
        },
        None => Err(data_type_error("Data type not found")),
    }
}

impl AttributeGenerator {
    /// Gives the node this attribute, unless it is prohibited.
    pub fn generate<F: FloatSource>(
        &self,
        xml_element: &mut XmlNode,
        data_types: &Vec<TypeGenerator>,
        floats: &mut F,
        Ghost(s): Ghost<Shape>,
    ) -> (r: Result<(), XMLGeneratorError>)
        requires
            conforms(*old(xml_element), s),
        ensures
            stepped(r, *old(xml_element), *final(xml_element), emit_attribute(self@, s, type_models(data_types@))),
    {
        if self.attribute_type == AttributeUse::Prohibited {
            return Ok(());
        }
        if self.name.as_str().is_empty() {
            return Err(format_error("Attribute Name is empty"));
        }
        if let Some(inline) = &self.inline_type {
            return generate_attribute_from_type(xml_element, inline, &self.name, floats, Ghost(s));
        }
        if self.value_type.as_str().is_empty() {
            return Err(format_error("Attribute type name is empty"));
        }
        if let Some(value) = generate_type(&self.value_type, floats) {
            add_attribute(xml_element, &self.name, value, Ghost(s), Ghost(Seq::empty().push(self.value_type@)));
            return Ok(());
        }
        match find_type_exec(data_types, &self.value_type) {
            Some(k) => generate_attribute_from_type(xml_element, &data_types[k], &self.name, floats, Ghost(s)),
            None => Err(XMLGeneratorError::DataTypeError(join_text("Cannot find data type: ", &self.value_type))),
        }
    }
}

/// Emits the element that `reference` names, the first in `elements` known by it.
pub fn generate_reference<F: FloatSource>(
    reference: &String,
    data_types: &Vec<TypeGenerator>,
    elements: &Vec<ElementGenerator>,
    fuel: usize,
    floats: &mut F,
) -> (r: Result<XmlNode, XMLGeneratorError>)
    ensures
        emitted(r, emit_reference(reference@, 0, type_models(data_types@), element_models(elements@), fuel as nat)),
    decreases fuel, 1int,
{
    let ghost types = type_models(data_types@);
    let ghost els = element_models(elements@);
    let mut i: usize = 0;
    while i < elements.len()
        invariant
            i <= elements.len(),
            types == type_models(data_types@),
            els == element_models(elements@),
            emit_reference(reference@, 0, types, els, fuel as nat) == emit_reference(reference@, i as int, types, els, fuel as nat),
        decreases elements.len() - i,
    {
        let element = &elements[i];
        let name = match element.get_name() {
            Ok(name) => name,
            Err(e) => {
                return Err(e);
            },
        };
        if name.eq(reference) {
            return element.generate(data_types, elements, fuel, floats);
        }
        i += 1;
    }
    Err(builder_error("Reference not found"))
}

/// Gives the node the content of the type named `value_type`: a primitive value, or the first
/// type of the table with that name.
pub fn generate_type_output<F: FloatSource>(
    xml_element: &mut XmlNode,
    value_type: &String,
    data_types: &Vec<TypeGenerator>,
    elements: &Vec<ElementGenerator>,
    fuel: usize,
    floats: &mut F,
    Ghost(s): Ghost<Shape>,
) -> (r: Result<(), XMLGeneratorError>)
    requires
        conforms(*old(xml_element), s),
    ensures
        stepped(r, *old(xml_element), *final(xml_element), emit_named_type(value_type@, s, type_models(data_types@), element_models(elements@), fuel as nat)),
    decreases fuel, 3int,
{
    if let Some(output) = generate_type(value_type, floats) {
        return add_text(xml_element, output, Ghost(s), Ghost(Seq::empty().push(value_type@)));
    }
    match find_type_exec(data_types, value_type) {
        Some(k) => data_types[k].generate(xml_element, data_types, elements, fuel, floats, Ghost(s)),
        None => Err(XMLGeneratorError::DataTypeError(join_text("Cannot find data type: ", value_type))),
    }
}

impl TypeGenerator {
    /// Applies this type to the node: text for a simple type, then child elements, the
    /// elements of each group, and the attributes.
    pub fn generate<F: FloatSource>(
        &self,
        xml_element: &mut XmlNode,
        data_types: &Vec<TypeGenerator>,
        elements: &Vec<ElementGenerator>,
        fuel: usize,
        floats: &mut F,
        Ghost(s): Ghost<Shape>,
    ) -> (r: Result<(), XMLGeneratorError>)
        requires
            conforms(*old(xml_element), s),
        ensures
            stepped(r, *old(xml_element), *final(xml_element), emit_type(self@, s, type_models(data_types@), element_models(elements@), fuel as nat)),
        decreases fuel, 2int,
    {
        let ghost t = self@;
        let ghost types = type_models(data_types@);
        let ghost els = element_models(elements@);
        let ghost entry = *xml_element;
        let attributes = xml_element.attributes.len();
        let children = xml_element.children.len();
        let had_text = xml_element.text.is_some();
        let ghost mut cur = s;
        if self.type_info.len() > 0 {
            if self.elements.len() > 0 {
                return Err(format_error("Type includes type information and elements"));
            }
            if self.groups.len() > 0 {
                return Err(format_error("Type includes type information and groups"));
            }
            match generate(&self.type_info, floats) {
                None => {
                    return Err(data_type_error("No output generated"));
                },
                Some(value) => {
                    let r = add_text(xml_element, value, Ghost(s), Ghost(texts(self.type_info)));
                    if r.is_err() {
                        return r;
                    }
                    proof {
                        cur = shape_add_text(s, t.type_info)->Ok_0;
                    }
                },
            }
        }
        let mut k: usize = 0;
        while k < self.elements.len()
            invariant
                t == self@,
                types == type_models(data_types@),
                els == element_models(elements@),
                k <= self.elements.len(),
                conforms(*xml_element, cur),
                keeps(entry, *xml_element),
                entry == *old(xml_element),
                attributes == entry.attributes.len(),
                children == entry.children.len(),
                had_text == entry.text is Some,
                emit_type(t, s, types, els, fuel as nat) == match emit_children(t, k as int, cur, types, els, fuel as nat) {
                    Err(e) => Err(e),
                    Ok(s2) => match emit_groups(t, 0, 0, s2, types, els, fuel as nat) {
                        Err(e) => Err(e),
                        Ok(s3) => emit_attributes(t.attributes, 0, s3, types),
                    },
                },
            decreases self.elements.len() - k,
        {
            let r = add_occurrences(xml_element, &self.elements[k], data_types, elements, fuel, floats, "Unable to add child to element", Ghost(cur));
            if r.is_err() {
                restore(xml_element, attributes, children, had_text, Ghost(entry));
                return r;
            }
            proof {
                cur = emit_occurrences(t.elements[k as int], cur, types, els, fuel as nat, "Unable to add child to element"@)->Ok_0;
            }
            k += 1;
        }
        let mut g: usize = 0;
        while g < self.groups.len()
            invariant
                t == self@,
                types == type_models(data_types@),
                els == element_models(elements@),
                g <= self.groups.len(),
                conforms(*xml_element, cur),
                keeps(entry, *xml_element),
                entry == *old(xml_element),
                attributes == entry.attributes.len(),
                children == entry.children.len(),
                had_text == entry.text is Some,
                emit_type(t, s, types, els, fuel as nat) == match emit_groups(t, g as int, 0, cur, types, els, fuel as nat) {
                    Err(e) => Err(e),
                    Ok(s3) => emit_attributes(t.attributes, 0, s3, types),
                },
            decreases self.groups.len() - g,
        {
            let group = &self.groups[g];
            let mut k: usize = 0;
            while k < group.elements.len()
                invariant
                    t == self@,
                    types == type_models(data_types@),
                    els == element_models(elements@),
                    g < self.groups.len(),
                    group == &self.groups[g as int],
                    k <= group.elements.len(),
                    conforms(*xml_element, cur),
                    keeps(entry, *xml_element),
                    entry == *old(xml_element),
                    attributes == entry.attributes.len(),
                    children == entry.children.len(),
                    had_text == entry.text is Some,
                    emit_type(t, s, types, els, fuel as nat) == match emit_groups(t, g as int, k as int, cur, types, els, fuel as nat) {
                        Err(e) => Err(e),
                        Ok(s3) => emit_attributes(t.attributes, 0, s3, types),
                    },
                decreases group.elements.len() - k,
            {
                let r = add_occurrences(xml_element, &group.elements[k], data_types, elements, fuel, floats, "Unable to add group child to element", Ghost(cur));
                if r.is_err() {
                    restore(xml_element, attributes, children, had_text, Ghost(entry));
                    return r;
                }
                proof {
                    cur = emit_occurrences(t.groups[g as int].elements[k as int], cur, types, els, fuel as nat, "Unable to add group child to element"@)->Ok_0;
                }
                k += 1;
            }
            g += 1;
        }
        let mut a: usize = 0;
        while a < self.attributes.len()
            invariant
                t == self@,
                types == type_models(data_types@),
                els == element_models(elements@),
                a <= self.attributes.len(),
                conforms(*xml_element, cur),
                keeps(entry, *xml_element),
                entry == *old(xml_element),
                attributes == entry.attributes.len(),
                children == entry.children.len(),
                had_text == entry.text is Some,
                emit_type(t, s, types, els, fuel as nat) == emit_attributes(t.attributes, a as int, cur, types),
            decreases self.attributes.len() - a,
        {
            let r = self.attributes[a].generate(xml_element, data_types, floats, Ghost(cur));
            assert(t.attributes[a as int] == self.attributes[a as int]@);
            if r.is_err() {
                restore(xml_element, attributes, children, had_text, Ghost(entry));
                return r;
            }
            proof {
                cur = emit_attribute(t.attributes[a as int], cur, types)->Ok_0;
            }
            a += 1;
        }
        Ok(())
    }
}

impl ElementGenerator {
    /// Emits this element with at most `fuel` levels of nesting.
    pub fn generate<F: FloatSource>(
        &self,
        data_types: &Vec<TypeGenerator>,
        elements: &Vec<ElementGenerator>,
        fuel: usize,
        floats: &mut F,
    ) -> (r: Result<XmlNode, XMLGeneratorError>)
        ensures
            emitted(r, emit_element(self@, type_models(data_types@), element_models(elements@), fuel as nat)),
        decreases fuel, 0int,
    {
        if fuel == 0 {
            return Err(format_error("Element nesting does not end: the schema is cyclic"));
        }
        if let Some(reference) = &self.reference {
            if self.type_info.is_some() {
                return Err(format_error("Element is a reference and a type"));
            }
            if self.contents.len() > 0 {
                return Err(format_error("Element references another element and contains content"));
            }
            return generate_reference(reference, data_types, elements, fuel - 1, floats);
        }
        let name = match self.get_name() {
            Ok(name) => name,
            Err(e) => {
                return Err(e);
            },
        };
        assert(self@.name == Some(name@));
        let mut root_element = XmlNode::new(name);
        if let Some(type_info) = &self.type_info {
            if self.contents.len() > 0 {
                return Err(format_error("Data has a type and contains type elements"));
            }
            let r = generate_type_output(&mut root_element, type_info, data_types, elements, fuel - 1, floats, Ghost(new_shape(name@)));
            if let Err(e) = r {
                return Err(e);
            }
        } else {
            let ghost e = self@;
            let ghost types = type_models(data_types@);
            let ghost els = element_models(elements@);
            let ghost mut cur = new_shape(name@);
            assert(emit_element(e, types, els, fuel as nat) == emit_contents(e, 0, new_shape(name@), types, els, (fuel - 1) as nat));
            let mut j: usize = 0;
            while j < self.contents.len()
                invariant
                    e == self@,
                    types == type_models(data_types@),
                    els == element_models(elements@),
                    fuel > 0,
                    emit_element(e, types, els, fuel as nat) == emit_contents(e, 0, new_shape(name@), types, els, (fuel - 1) as nat),
                    j <= self.contents.len(),
                    conforms(root_element, cur),
                    emit_contents(e, 0, new_shape(name@), types, els, (fuel - 1) as nat) == emit_contents(e, j as int, cur, types, els, (fuel - 1) as nat),
                decreases self.contents.len() - j,
            {
                let r = self.contents[j].generate(&mut root_element, data_types, elements, fuel - 1, floats, Ghost(cur));
                assert(e.contents[j as int] == self.contents[j as int]@);
                if let Err(err) = r {
                    return Err(err);
                }
                proof {
                    cur = emit_type(e.contents[j as int], cur, types, els, (fuel - 1) as nat)->Ok_0;
                }
                j += 1;
            }
        }
        Ok(root_element)
    }
}

} // verus!
