use vstd::prelude::*;
use crate::builder::{
    emit_attribute, emit_attributes, emit_children, emit_contents, emit_element, emit_groups,
    emit_occurrences, emit_reference, emit_type, shape_add_text,
};
use crate::collect::{element_of, elements_from, types_from};
use crate::error::ErrorModel;
use crate::find_root::{has_nameless_content, is_dependent, is_independent, root_of};
use crate::model::{AttributeModel, AttributeUse, ElementModel, TypeModel, model_name};
use crate::schema::SchemaItem;
use crate::tree::Shape;
use crate::values::{decimal_text, is_value_of};

verus! {

/// When root selection succeeds, the element it selects is the only one that no element
/// mentions: it never yields more than one.
pub proof fn root_is_the_only_independent(els: Seq<ElementModel>)
    ensures
        root_of(els) is Ok ==> {
            let k = root_of(els)->Ok_0;
            &&& is_independent(els, k)
            &&& forall|j: int| is_independent(els, j) ==> j == k
        },
{
    if root_of(els) is Ok {
        let k = root_of(els)->Ok_0;
        assert(is_independent(els, k));
        assert forall|j: int| is_independent(els, j) implies j == k by {
            if j != k {
                assert(is_independent(els, k) && is_independent(els, j));
            }
        }
    }
}

/// For elements whose children all have names and of which at most one is unmentioned, root
/// selection yields nothing exactly when there are no elements or every element is mentioned
/// by some element (a cycle).
pub proof fn root_missing_iff_empty_or_cyclic(els: Seq<ElementModel>)
    requires
        !has_nameless_content(els),
        forall|i: int, j: int| is_independent(els, i) && is_independent(els, j) ==> i == j,
    ensures
        root_of(els) is Err <==> (els.len() == 0 || forall|i: int|
            0 <= i < els.len() ==> is_dependent(els, #[trigger] els[i])),
{
    if els.len() > 0 && !(forall|i: int| 0 <= i < els.len() ==> is_dependent(els, #[trigger] els[i])) {
        let i = choose|i: int| 0 <= i < els.len() && !is_dependent(els, #[trigger] els[i]);
        assert(is_independent(els, i));
        assert(!(exists|i: int, j: int|
            i != j && #[trigger] is_independent(els, i) && #[trigger] is_independent(els, j)));
    }
}

/// Applying a type's attributes changes nothing of a node but its attributes.
proof fn attributes_keep_the_rest(attrs: Seq<AttributeModel>, i: int, s: Shape, types: Seq<TypeModel>)
    ensures
        emit_attributes(attrs, i, s, types) is Ok ==> {
            let s2 = emit_attributes(attrs, i, s, types)->Ok_0;
            s2.name == s.name && s2.text == s.text && s2.children == s.children
        },
    decreases attrs.len() - i,
{
    if 0 <= i < attrs.len() {
        if let Ok(s1) = emit_attribute(attrs[i], s, types) {
            attributes_keep_the_rest(attrs, i + 1, s1, types);
        }
    }
}

/// Emitting child elements changes nothing of a node but its children.
proof fn children_keep_the_rest(t: TypeModel, k: int, s: Shape, types: Seq<TypeModel>, els: Seq<ElementModel>, fuel: nat)
    ensures
        emit_children(t, k, s, types, els, fuel) is Ok ==> {
            let s2 = emit_children(t, k, s, types, els, fuel)->Ok_0;
            s2.name == s.name && s2.attributes == s.attributes
        },
    decreases t.elements.len() - k,
{
    if 0 <= k < t.elements.len() {
        if let Ok(s2) = emit_occurrences(t.elements[k], s, types, els, fuel, "Unable to add child to element"@) {
            children_keep_the_rest(t, k + 1, s2, types, els, fuel);
        }
    }
}

/// Emitting the elements of groups changes nothing of a node but its children.
proof fn groups_keep_the_rest(t: TypeModel, g: int, k: int, s: Shape, types: Seq<TypeModel>, els: Seq<ElementModel>, fuel: nat)
    ensures
        emit_groups(t, g, k, s, types, els, fuel) is Ok ==> {
            let s2 = emit_groups(t, g, k, s, types, els, fuel)->Ok_0;
            s2.name == s.name && s2.attributes == s.attributes
        },
    decreases t.groups.len() - g, t.groups[g].elements.len() - k,
{
    if 0 <= g < t.groups.len() {
        if k < 0 || k >= t.groups[g].elements.len() {
            groups_keep_the_rest(t, g + 1, 0, s, types, els, fuel);
        } else if let Ok(s2) = emit_occurrences(t.groups[g].elements[k], s, types, els, fuel, "Unable to add group child to element"@) {
            groups_keep_the_rest(t, g, k + 1, s2, types, els, fuel);
        }
    }
}

/// The names of the attributes of `attrs`, from index `i` on, that are not prohibited.
pub open spec fn used_names(attrs: Seq<AttributeModel>, i: int) -> Seq<Seq<char>>
    decreases attrs.len() - i,
{
    if i < 0 || i >= attrs.len() {
        Seq::empty()
    } else if attrs[i].attribute_type == AttributeUse::Prohibited {
        used_names(attrs, i + 1)
    } else {
        seq![attrs[i].name] + used_names(attrs, i + 1)
    }
}

pub open spec fn attribute_names(s: Shape) -> Seq<Seq<char>> {
    s.attributes.map_values(|p: (Seq<char>, Seq<Seq<char>>)| p.0)
}

proof fn attributes_are_the_used_ones(attrs: Seq<AttributeModel>, i: int, s: Shape, types: Seq<TypeModel>)
    ensures
        emit_attributes(attrs, i, s, types) is Ok ==> attribute_names(emit_attributes(attrs, i, s, types)->Ok_0)
            == attribute_names(s) + used_names(attrs, i),
    decreases attrs.len() - i,
{
    if 0 <= i < attrs.len() {
        if let Ok(s1) = emit_attribute(attrs[i], s, types) {
            attributes_are_the_used_ones(attrs, i + 1, s1, types);
            if attrs[i].attribute_type == AttributeUse::Prohibited {
                assert(s1 == s);
            } else {
                assert(s1.attributes == s.attributes.push((attrs[i].name, s1.attributes.last().1)));
                assert(attribute_names(s1) =~= attribute_names(s).push(attrs[i].name));
                assert(attribute_names(s1) + used_names(attrs, i + 1) =~= attribute_names(s) + (seq![attrs[i].name] + used_names(attrs, i + 1)));
            }
        }
    } else {
        assert(attribute_names(s) + Seq::<Seq<char>>::empty() =~= attribute_names(s));
    }
}

/// Applying a type to a node keeps its tag and adds, in order, the names of exactly the
/// type's attributes that are not prohibited: every required one is there, and no name comes
/// that is not a required or optional attribute of the type.
pub proof fn type_attributes_are_its_allowed_ones(t: TypeModel, s: Shape, types: Seq<TypeModel>, els: Seq<ElementModel>, fuel: nat)
    ensures
        emit_type(t, s, types, els, fuel) is Ok ==> {
            let s2 = emit_type(t, s, types, els, fuel)->Ok_0;
            &&& s2.name == s.name
            &&& attribute_names(s2) == attribute_names(s) + used_names(t.attributes, 0)
        },
{
    if emit_type(t, s, types, els, fuel) is Ok {
        let with_text = if t.type_info.len() > 0 { shape_add_text(s, t.type_info) } else { Ok(s) };
        let s1 = with_text->Ok_0;
        assert(s1.name == s.name && s1.attributes == s.attributes);
        children_keep_the_rest(t, 0, s1, types, els, fuel);
        let s2 = emit_children(t, 0, s1, types, els, fuel)->Ok_0;
        groups_keep_the_rest(t, 0, 0, s2, types, els, fuel);
        let s3 = emit_groups(t, 0, 0, s2, types, els, fuel)->Ok_0;
        attributes_keep_the_rest(t.attributes, 0, s3, types);
        attributes_are_the_used_ones(t.attributes, 0, s3, types);
    }
}

proof fn contents_keep_the_tag(e: ElementModel, j: int, s: Shape, types: Seq<TypeModel>, els: Seq<ElementModel>, fuel: nat)
    ensures
        emit_contents(e, j, s, types, els, fuel) is Ok ==> (emit_contents(e, j, s, types, els, fuel)->Ok_0).name == s.name,
    decreases e.contents.len() - j,
{
    if 0 <= j < e.contents.len() {
        type_attributes_are_its_allowed_ones(e.contents[j], s, types, els, fuel);
        if let Ok(s2) = emit_type(e.contents[j], s, types, els, fuel) {
            contents_keep_the_tag(e, j + 1, s2, types, els, fuel);
        }
    }
}

/// A declaration has a name or a reference, not both.
pub open spec fn single_naming(e: ElementModel) -> bool {
    !(e.name is Some && e.reference is Some)
}

proof fn reference_tag(r: Seq<char>, i: int, types: Seq<TypeModel>, els: Seq<ElementModel>, fuel: nat)
    requires
        forall|j: int| 0 <= j < els.len() ==> single_naming(#[trigger] els[j]),
    ensures
        emit_reference(r, i, types, els, fuel) is Ok ==> (emit_reference(r, i, types, els, fuel)->Ok_0).name == r,
    decreases fuel, els.len() - i,
{
    if 0 <= i < els.len() {
        if let Some(n) = model_name(els[i]) {
            if n == r {
                emitted_tag_is_the_declared_name(els[i], types, els, fuel);
            } else {
                reference_tag(r, i + 1, types, els, fuel);
            }
        }
    }
}

/// An emitted element is tagged with the name it is declared with or, for a reference, with
/// the name it refers to, which is the name of the element it stands for.
pub proof fn emitted_tag_is_the_declared_name(e: ElementModel, types: Seq<TypeModel>, els: Seq<ElementModel>, fuel: nat)
    requires
        single_naming(e),
        forall|j: int| 0 <= j < els.len() ==> single_naming(#[trigger] els[j]),
    ensures
        emit_element(e, types, els, fuel) is Ok ==> model_name(e) == Some(
            (emit_element(e, types, els, fuel)->Ok_0).name,
        ),
    decreases fuel, 0int,
{
    if fuel > 0 {
        let f = (fuel - 1) as nat;
        match e.reference {
            Some(r) => {
                reference_tag(r, 0, types, els, f);
            },
            None => if let Some(n) = e.name {
                let s = crate::tree::new_shape(n);
                match e.type_info {
                    Some(ti) => {
                        if !crate::values::is_primitive(ti) {
                            if let Some(k) = crate::builder::find_type(types, ti, 0) {
                                if 0 <= k < types.len() {
                                    type_attributes_are_its_allowed_ones(types[k], s, types, els, f);
                                }
                            }
                        }
                    },
                    None => {
                        contents_keep_the_tag(e, 0, s, types, els, f);
                    },
                }
            },
        }
    }
}

/// The text drawn for a leaf of base `integer` is the decimal text of a 32-bit signed integer,
/// for `positiveInteger` of a 32-bit unsigned one, and for `boolean` it is `true` or `false`.
pub proof fn leaf_text_by_base(base: Seq<char>, v: Seq<char>)
    requires
        is_value_of(seq![base], v),
    ensures
        base == "integer"@ ==> exists|i: i32| v == decimal_text(i as int),
        base == "positiveInteger"@ ==> exists|u: u32| v == decimal_text(u as int),
        base == "boolean"@ ==> (v == "true"@ || v == "false"@),
        base == "string"@ ==> crate::values::alphanumeric_text(v),
{
    reveal_strlit("string");
    reveal_strlit("integer");
    reveal_strlit("positiveInteger");
    reveal_strlit("boolean");
    assert(seq![base].len() == 1);
    assert("integer"@[0] != "boolean"@[0]);
    assert("positiveInteger"@.len() != "boolean"@.len());
    assert("positiveInteger"@.len() != "integer"@.len());
    assert("string"@.len() != "integer"@.len());
    assert("string"@.len() != "boolean"@.len());
    assert("string"@.len() != "positiveInteger"@.len());
}

/// A step that keeps a node and leaves its shape as it was, as a prohibited attribute does,
/// leaves the node itself as it was.
pub proof fn unchanged_shape_keeps_the_node(old: crate::tree::XmlNode, new: crate::tree::XmlNode, s: Shape)
    requires
        crate::tree::conforms(old, s),
        crate::tree::conforms(new, s),
        crate::tree::keeps(old, new),
    ensures
        crate::tree::same_node(old, new),
{
    assert(new.attributes@ =~= old.attributes@);
    assert(new.children@ =~= old.children@);
}

/// Collecting the type table twice from the same components gives equal tables.
pub proof fn type_collection_is_idempotent(items: Seq<SchemaItem>, first: Result<Seq<TypeModel>, ErrorModel>, second: Result<Seq<TypeModel>, ErrorModel>)
    requires
        first == types_from(items, 0),
        second == types_from(items, 0),
    ensures
        first == second,
{
}

/// Every element that collection yields has a name or a reference, never both.
pub proof fn collected_elements_are_singly_named(items: Seq<SchemaItem>, i: int)
    ensures
        elements_from(items, i) is Ok ==> forall|j: int|
            0 <= j < (elements_from(items, i)->Ok_0).len() ==> single_naming(
                #[trigger] (elements_from(items, i)->Ok_0)[j],
            ),
    decreases items.len() - i,
{
    if 0 <= i < items.len() {
        collected_elements_are_singly_named(items, i + 1);
        if let SchemaItem::Element(x) = items[i] {
            if let Ok(e) = element_of(x) {
                assert(single_naming(e));
            }
        }
    }
}

/// Each child position gets at least its lower bound of instances and, where the bounds are
/// consistent, at most its upper bound.
pub proof fn occurrences_within_bounds(e: ElementModel)
    ensures
        crate::builder::occurrences(e) >= e.min,
        match e.max {
            Some(m) => e.min <= m ==> crate::builder::occurrences(e) <= m,
            None => true,
        },
{
    assert(e.max == Some(0nat) && e.min <= 0 ==> e.min == 0);
}

/// The document's root element is tagged with the name of the element that root selection
/// picks among the collected top-level elements.
pub proof fn document_root_is_the_selected_element(items: Seq<SchemaItem>)
    ensures
        crate::pipeline::document_of(items) is Ok ==> {
            let els = elements_from(items, 0)->Ok_0;
            let k = root_of(els)->Ok_0;
            &&& 0 <= k < els.len()
            &&& model_name(els[k]) == Some((crate::pipeline::document_of(items)->Ok_0).name)
        },
{
    if crate::pipeline::document_of(items) is Ok {
        let types = types_from(items, 0)->Ok_0;
        let els = elements_from(items, 0)->Ok_0;
        let k = root_of(els)->Ok_0;
        collected_elements_are_singly_named(items, 0);
        assert(is_independent(els, k));
        emitted_tag_is_the_declared_name(els[k], types, els, crate::pipeline::fuel_for(types, els));
    }
}

} // verus!
