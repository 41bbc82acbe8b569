use vstd::prelude::*;
use crate::error::{ErrorModel, XMLGeneratorError, format_error};
use crate::model::{ElementGenerator, ElementModel, TypeGenerator, TypeModel, model_name};

verus! {

/// Some child of the type, directly or inside one of its groups, is known by the name `n`.
pub open spec fn child_named(t: TypeModel, n: Seq<char>) -> bool {
    ||| exists|k: int| 0 <= k < t.elements.len() && model_name(#[trigger] t.elements[k]) == Some(n)
    ||| exists|g: int, k: int|
        0 <= g < t.groups.len() && 0 <= k < t.groups[g].elements.len() && model_name(
            #[trigger] t.groups[g].elements[k],
        ) == Some(n)
}

/// Some child of the type, directly or inside one of its groups, has neither name nor reference.
pub open spec fn has_nameless_child(t: TypeModel) -> bool {
    ||| exists|k: int| 0 <= k < t.elements.len() && model_name(#[trigger] t.elements[k]) is None
    ||| exists|g: int, k: int|
        0 <= g < t.groups.len() && 0 <= k < t.groups[g].elements.len() && model_name(
            #[trigger] t.groups[g].elements[k],
        ) is None
}

/// The element mentions the name `n`: as its reference, as its type, or as the name of a
/// child of one of its inline types.
pub open spec fn refers_to(e: ElementModel, n: Seq<char>) -> bool {
    ||| e.reference == Some(n)
    ||| (e.type_info == Some(n) && n.len() > 0)
    ||| exists|c: int| 0 <= c < e.contents.len() && child_named(#[trigger] e.contents[c], n)
}

/// Some element of `els` mentions the name of `e`.
pub open spec fn is_dependent(els: Seq<ElementModel>, e: ElementModel) -> bool {
    match e.name {
        Some(n) => exists|i: int| 0 <= i < els.len() && refers_to(#[trigger] els[i], n),
        None => false,
    }
}

pub open spec fn is_independent(els: Seq<ElementModel>, i: int) -> bool {
    0 <= i < els.len() && !is_dependent(els, els[i])
}

/// An inline type of some element has a child with neither name nor reference.
pub open spec fn has_nameless_content(els: Seq<ElementModel>) -> bool {
    exists|i: int, c: int|
        0 <= i < els.len() && 0 <= c < els[i].contents.len() && has_nameless_child(
            #[trigger] els[i].contents[c],
        )
}

/// The element that no other element mentions, by its index, or why there is none.
pub open spec fn root_of(els: Seq<ElementModel>) -> Result<int, ErrorModel> {
    if els.len() == 0 {
        Err(ErrorModel::DataTypesFormat("No elements found"@))
    } else if has_nameless_content(els) {
        Err(ErrorModel::DataTypesFormat("Element does not have a name or a reference"@))
    } else if forall|i: int| 0 <= i < els.len() ==> !is_independent(els, i) {
        Err(ErrorModel::DataTypesFormat("No independent elements found"@))
    } else if exists|i: int, j: int|
        i != j && #[trigger] is_independent(els, i) && #[trigger] is_independent(els, j) {
        Err(ErrorModel::DataTypesFormat("Multiple independent (root) elements found"@))
    } else {
        Ok(choose|i: int| is_independent(els, i))
    }
}

fn names_child(t: &TypeGenerator, n: &String) -> (r: bool)
    ensures
        r == child_named(t@, n@),
{
    let mut k: usize = 0;
    while k < t.elements.len()
        invariant
            k <= t.elements.len(),
            forall|k2: int| 0 <= k2 < k ==> model_name(#[trigger] t@.elements[k2]) != Some(n@),
        decreases t.elements.len() - k,
    {
        let e = &t.elements[k];
        if let Ok(name) = e.get_name() {
            if name.eq(n) {
                assert(model_name(t@.elements[k as int]) == Some(n@));
                return true;
            }
        }
        k += 1;
    }
    let mut g: usize = 0;
    while g < t.groups.len()
        invariant
            g <= t.groups.len(),
            forall|k2: int| 0 <= k2 < t@.elements.len() ==> model_name(#[trigger] t@.elements[k2]) != Some(n@),
            forall|g2: int, k2: int|
                0 <= g2 < g && 0 <= k2 < t@.groups[g2].elements.len() ==> model_name(
                    #[trigger] t@.groups[g2].elements[k2],
                ) != Some(n@),
        decreases t.groups.len() - g,
    {
        let group = &t.groups[g];
        let mut k: usize = 0;
        while k < group.elements.len()
            invariant
                g < t.groups.len(),
                group == &t.groups[g as int],
                k <= group.elements.len(),
                forall|k2: int| 0 <= k2 < k ==> model_name(#[trigger] t@.groups[g as int].elements[k2]) != Some(n@),
            decreases group.elements.len() - k,
        {
            if let Ok(name) = group.elements[k].get_name() {
                if name.eq(n) {
                    assert(model_name(t@.groups[g as int].elements[k as int]) == Some(n@));
                    return true;
                }
            }
            k += 1;
        }
        g += 1;
    }
    false
}

fn nameless_child(t: &TypeGenerator) -> (r: bool)
    ensures
        r == has_nameless_child(t@),
{
    let mut k: usize = 0;
    while k < t.elements.len()
        invariant
            k <= t.elements.len(),
            forall|k2: int| 0 <= k2 < k ==> model_name(#[trigger] t@.elements[k2]) is Some,
        decreases t.elements.len() - k,
    {
        if t.elements[k].get_name().is_err() {
            assert(model_name(t@.elements[k as int]) is None);
            return true;
        }
        k += 1;
    }
    let mut g: usize = 0;
    while g < t.groups.len()
        invariant
            g <= t.groups.len(),
            forall|k2: int| 0 <= k2 < t@.elements.len() ==> model_name(#[trigger] t@.elements[k2]) is Some,
            forall|g2: int, k2: int|
                0 <= g2 < g && 0 <= k2 < t@.groups[g2].elements.len() ==> model_name(
                    #[trigger] t@.groups[g2].elements[k2],
                ) is Some,
        decreases t.groups.len() - g,
    {
        let group = &t.groups[g];
        let mut k: usize = 0;
        while k < group.elements.len()
            invariant
                g < t.groups.len(),
                group == &t.groups[g as int],
                k <= group.elements.len(),
                forall|k2: int| 0 <= k2 < k ==> model_name(#[trigger] t@.groups[g as int].elements[k2]) is Some,
            decreases group.elements.len() - k,
        {
            if group.elements[k].get_name().is_err() {
                assert(model_name(t@.groups[g as int].elements[k as int]) is None);
                return true;
            }
            k += 1;
        }
        g += 1;
    }
    false
}

fn refers(e: &ElementGenerator, n: &String) -> (r: bool)
    ensures
        r == refers_to(e@, n@),
{
    if let Some(reference) = &e.reference {
        if reference.eq(n) {
            return true;
        }
    }
    if let Some(type_info) = &e.type_info {
        if !type_info.as_str().is_empty() && type_info.eq(n) {
            return true;
        }
    }
    let mut c: usize = 0;
    while c < e.contents.len()
        invariant
            c <= e.contents.len(),
            forall|c2: int| 0 <= c2 < c ==> !child_named(#[trigger] e@.contents[c2], n@),
        decreases e.contents.len() - c,
    {
        if names_child(&e.contents[c], n) {
            assert(child_named(e@.contents[c as int], n@));
            return true;
        }
        c += 1;
    }
    false
}

fn dependent(generators: &Vec<ElementGenerator>, j: usize) -> (r: bool)
    requires
        j < generators.len(),
    ensures
        r == is_dependent(crate::model::element_models(generators@), generators[j as int]@),
{
    let ghost els = crate::model::element_models(generators@);
    match &generators[j].name {
        None => false,
        Some(n) => {
            assert(generators[j as int]@.name == Some(n@));
            let mut i: usize = 0;
            while i < generators.len()
                invariant
                    i <= generators.len(),
                    j < generators.len(),
                    generators[j as int]@.name == Some(n@),
                    els == crate::model::element_models(generators@),
                    forall|i2: int| 0 <= i2 < i ==> !refers_to(#[trigger] els[i2], n@),
                decreases generators.len() - i,
            {
                if refers(&generators[i], n) {
                    assert(refers_to(els[i as int], n@));
                    return true;
                }
                i += 1;
            }
            false
        },
    }
}

/// The first element whose own name is `field`.
pub fn get_field_struct<'a>(generators: &'a Vec<ElementGenerator>, field: &String) -> (r: Option<
    &'a ElementGenerator,
>)
    ensures
        match r {
            Some(g) => exists|k: int|
                0 <= k < generators.len() && *g == generators[k] && generators[k]@.name == Some(
                    field@,
                ) && forall|k2: int|
                    0 <= k2 < k ==> #[trigger] generators[k2]@.name != Some(field@),
            None => forall|k: int|
                0 <= k < generators.len() ==> #[trigger] generators[k]@.name != Some(field@),
        },
{
    let mut k: usize = 0;
    while k < generators.len()
        invariant
            k <= generators.len(),
            forall|k2: int| 0 <= k2 < k ==> #[trigger] generators[k2]@.name != Some(field@),
        decreases generators.len() - k,
    {
        let generator = &generators[k];
        if let Some(name) = &generator.name {
            if name.eq(field) {
                return Some(generator);
            }
        }
        k += 1;
    }
    None
}

/// Selects the root: the one element whose name no element mentions.
pub fn find_root_element(generators: &Vec<ElementGenerator>) -> (r: Result<
    &ElementGenerator,
    XMLGeneratorError,
>)
    ensures
        match root_of(crate::model::element_models(generators@)) {
            Ok(k) => r is Ok && 0 <= k < generators.len() && *r.unwrap() == generators[k],
            Err(e) => r is Err && (r->Err_0)@ == e,
        },
{
    let ghost els = crate::model::element_models(generators@);
    if generators.len() == 0 {
        return Err(format_error("No elements found"));
    }
    let mut i: usize = 0;
    while i < generators.len()
        invariant
            i <= generators.len(),
            els == crate::model::element_models(generators@),
            forall|i2: int, c: int|
                0 <= i2 < i && 0 <= c < els[i2].contents.len() ==> !has_nameless_child(
                    #[trigger] els[i2].contents[c],
                ),
        decreases generators.len() - i,
    {
        let generator = &generators[i];
        let mut c: usize = 0;
        while c < generator.contents.len()
            invariant
                i < generators.len(),
                generator == &generators[i as int],
                els == crate::model::element_models(generators@),
                c <= generator.contents.len(),
                forall|c2: int| 0 <= c2 < c ==> !has_nameless_child(#[trigger] els[i as int].contents[c2]),
            decreases generator.contents.len() - c,
        {
            if nameless_child(&generator.contents[c]) {
                assert(has_nameless_child(els[i as int].contents[c as int]));
                return Err(format_error("Element does not have a name or a reference"));
            }
            c += 1;
        }
        i += 1;
    }
    let mut found: Option<usize> = None;
    let mut j: usize = 0;
    while j < generators.len()
        invariant
            j <= generators.len(),
            els == crate::model::element_models(generators@),
            !has_nameless_content(els),
            match found {
                None => forall|j2: int| 0 <= j2 < j ==> !is_independent(els, j2),
                Some(f) => f < j && is_independent(els, f as int) && forall|j2: int|
                    0 <= j2 < j && j2 != f ==> !is_independent(els, j2),
            },
        decreases generators.len() - j,
    {
        if !dependent(generators, j) {
            assert(is_independent(els, j as int));
            match found {
                Some(f) => {
                    assert(is_independent(els, f as int) && is_independent(els, j as int));
                    return Err(format_error("Multiple independent (root) elements found"));
                },
                None => {
                    found = Some(j);
                },
            }
        }
        j += 1;
    }
    match found {
        None => Err(format_error("No independent elements found")),
        Some(f) => {
            assert(!(exists|i: int, j: int|
                i != j && #[trigger] is_independent(els, i) && #[trigger] is_independent(els, j)));
            assert(is_independent(els, f as int));
            let ghost k = choose|k: int| is_independent(els, k);
            assert(k == f);
            Ok(&generators[f])
        },
    }
}

} // verus!
