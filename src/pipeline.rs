use vstd::prelude::*;
use crate::builder::{emit_element, emitted};
use crate::collect::{elements_from, fetch_elements, fetch_types, types_from};
use crate::error::{ErrorModel, XMLGeneratorError};
use crate::find_root::{find_root_element, root_of};
use crate::model::{
    ElementGenerator, ElementModel, GroupModel, TypeGenerator, TypeModel, element_models,
    type_models,
};
use crate::schema::SchemaItem;
use crate::tree::{Shape, XmlNode};
use crate::values::FloatSource;

verus! {

/// The number of element declarations in an element, itself included.
pub open spec fn count_element(e: ElementModel) -> nat
    decreases e, 1int, 0int,
{
    1 + count_types(e.contents, e.contents.len() as int)
}

/// The element declarations in the first `n` types.
pub open spec fn count_types(ts: Seq<TypeModel>, n: int) -> nat
    decreases ts, 0int, n,
{
    if n <= 0 || n > ts.len() {
        0
    } else {
        count_types(ts, n - 1) + count_type(ts[n - 1])
    }
}

/// The element declarations in a type, directly and in its groups.
pub open spec fn count_type(t: TypeModel) -> nat
    decreases t, 1int, 0int,
{
    count_elements(t.elements, t.elements.len() as int) + count_groups(t.groups, t.groups.len() as int)
}

pub open spec fn count_elements(es: Seq<ElementModel>, n: int) -> nat
    decreases es, 0int, n,
{
    if n <= 0 || n > es.len() {
        0
    } else {
        count_elements(es, n - 1) + count_element(es[n - 1])
    }
}

pub open spec fn count_groups(gs: Seq<GroupModel>, n: int) -> nat
    decreases gs, 0int, n,
{
    if n <= 0 || n > gs.len() {
        0
    } else {
        count_groups(gs, n - 1) + count_elements(gs[n - 1].elements, gs[n - 1].elements.len() as int)
    }
}

pub open spec fn capped(n: nat) -> nat {
    if n > usize::MAX {
        usize::MAX as nat
    } else {
        n
    }
}

/// The nesting that emission may reach: one level for each element declaration, since a
/// declaration met twice on one path would be met without end.
pub open spec fn fuel_for(types: Seq<TypeModel>, els: Seq<ElementModel>) -> nat {
    capped(count_elements(els, els.len() as int) + count_types(types, types.len() as int))
}

/// The document tree that a schema's components give, leaving out the drawn values.
pub open spec fn document_of(items: Seq<SchemaItem>) -> Result<Shape, ErrorModel> {
    match types_from(items, 0) {
        Err(e) => Err(e),
        Ok(types) => match elements_from(items, 0) {
            Err(e) => Err(e),
            Ok(els) => match root_of(els) {
                Err(e) => Err(e),
                Ok(k) => emit_element(els[k], types, els, fuel_for(types, els)),
            },
        },
    }
}

fn add_capped(a: usize, b: usize) -> (r: usize)
    ensures
        r as nat == capped(a as nat + b as nat),
{
    a.saturating_add(b)
}

fn count_in_element(e: &ElementGenerator) -> (r: usize)
    ensures
        r as nat == capped(count_element(e@)),
    decreases e,
{
    let mut acc: usize = 0;
    let mut i: usize = 0;
    while i < e.contents.len()
        invariant
            i <= e.contents.len(),
            acc as nat == capped(count_types(e@.contents, i as int)),
        decreases e.contents.len() - i,
    {
        let n = count_in_type(&e.contents[i]);
        assert(e@.contents[i as int] == e.contents[i as int]@);
        acc = add_capped(acc, n);
        i += 1;
    }
    add_capped(acc, 1)
}

fn count_in_type(t: &TypeGenerator) -> (r: usize)
    ensures
        r as nat == capped(count_type(t@)),
    decreases t,
{
    let mut acc: usize = 0;
    let mut i: usize = 0;
    while i < t.elements.len()
        invariant
            i <= t.elements.len(),
            acc as nat == capped(count_elements(t@.elements, i as int)),
        decreases t.elements.len() - i,
    {
        let n = count_in_element(&t.elements[i]);
        assert(t@.elements[i as int] == t.elements[i as int]@);
        acc = add_capped(acc, n);
        i += 1;
    }
    let mut g: usize = 0;
    let ghost elements_part = count_elements(t@.elements, t@.elements.len() as int);
    while g < t.groups.len()
        invariant
            g <= t.groups.len(),
            acc as nat == capped(elements_part + count_groups(t@.groups, g as int)),
        decreases t.groups.len() - g,
    {
        let group = &t.groups[g];
        let ghost gm = t@.groups[g as int];
        assert(gm == group@);
        let mut k: usize = 0;
        let ghost before = elements_part + count_groups(t@.groups, g as int);
        while k < group.elements.len()
            invariant
                g < t.groups.len(),
                group == &t.groups[g as int],
                gm == group@,
                k <= group.elements.len(),
                acc as nat == capped(before + count_elements(gm.elements, k as int)),
            decreases group.elements.len() - k,
        {
            let n = count_in_element(&group.elements[k]);
            assert(gm.elements[k as int] == group.elements[k as int]@);
            acc = add_capped(acc, n);
            k += 1;
        }
        g += 1;
    }
    acc
}

/// The nesting bound for a type table and its elements.
pub fn nesting_bound(data_types: &Vec<TypeGenerator>, elements: &Vec<ElementGenerator>) -> (r: usize)
    ensures
        r as nat == fuel_for(type_models(data_types@), element_models(elements@)),
{
    let ghost types = type_models(data_types@);
    let ghost els = element_models(elements@);
    let mut acc: usize = 0;
    let mut i: usize = 0;
    while i < elements.len()
        invariant
            els == element_models(elements@),
            i <= elements.len(),
            acc as nat == capped(count_elements(els, i as int)),
        decreases elements.len() - i,
    {
        let n = count_in_element(&elements[i]);
        acc = add_capped(acc, n);
        i += 1;
    }
    let ghost elements_part = count_elements(els, els.len() as int);
    let mut j: usize = 0;
    while j < data_types.len()
        invariant
            types == type_models(data_types@),
            j <= data_types.len(),
            acc as nat == capped(elements_part + count_types(types, j as int)),
        decreases data_types.len() - j,
    {
        let n = count_in_type(&data_types[j]);
        acc = add_capped(acc, n);
        j += 1;
    }
    acc
}

/// Builds the document tree for a schema's components: collects the type table and the
/// elements, selects the root, and emits it.
pub fn generate_tree<F: FloatSource>(schemas: &Vec<SchemaItem>, floats: &mut F) -> (r: Result<XmlNode, XMLGeneratorError>)
    ensures
        emitted(r, document_of(schemas@)),
{
    let data_types = match fetch_types(schemas) {
        Ok(t) => t,
        Err(e) => {
            return Err(e);
        },
    };
    let elements = match fetch_elements(schemas) {
        Ok(e) => e,
        Err(e) => {
            return Err(e);
        },
    };
    let root_element = match find_root_element(&elements) {
        Ok(root) => root,
        Err(e) => {
            return Err(e);
        },
    };
    let fuel = nesting_bound(&data_types, &elements);
    root_element.generate(&data_types, &elements, fuel, floats)
}

} // verus!
