use vstd::prelude::*;
use crate::error::{ErrorModel, XMLGeneratorError, lemma_push_concat, parser_error, same_outcome};
use crate::model::{
    AttributeGenerator, AttributeModel, ElementGenerator, ElementModel, GroupGenerator,
    GroupModel, RestrictionInfo, TypeGenerator, TypeModel, empty_type, texts,
};
use crate::model::{opt_nat, opt_text};
use crate::schema::{
    AttributeDecl, ComplexItem, ComplexTypeDecl, ElementDecl, ElementItem, FacetDecl, FacetKind,
    GroupDecl, GroupItem, RestrictionDecl, RestrictionItem, SchemaItem, SimpleContentItem,
    SimpleTypeDecl,
};
use crate::model::{element_models, type_models};

verus! {

pub open spec fn text_or_empty(o: Option<String>) -> Seq<char> {
    match o {
        Some(s) => s@,
        None => Seq::empty(),
    }
}

pub open spec fn unsupported(what: Seq<char>) -> ErrorModel {
    ErrorModel::XsdParser(what)
}

/// The value of a facet, unless the facet is an assertion, fixed, or annotated.
pub open spec fn facet_value(f: FacetDecl) -> Result<Seq<char>, ErrorModel> {
    if f.kind == FacetKind::Assertion {
        Err(unsupported("Unsupported: Assertion"@))
    } else if f.fixed {
        Err(unsupported("Unsupported: Fixed facet type"@))
    } else if f.annotated {
        Err(unsupported("Unsupported: Annotation"@))
    } else {
        Ok(f.value@)
    }
}

pub open spec fn restriction_item_value(c: RestrictionItem) -> Result<Seq<char>, ErrorModel> {
    match c {
        RestrictionItem::Annotation => Err(unsupported("Unsupported: Annotation"@)),
        RestrictionItem::SimpleType => Err(unsupported("Unsupported: SimpleType"@)),
        RestrictionItem::Facet(f) => facet_value(f),
    }
}

/// The facet values of a restriction's content from index `i` on, in order.
pub open spec fn facets_from(content: Seq<RestrictionItem>, i: int) -> Result<Seq<Seq<char>>, ErrorModel>
    decreases content.len() - i,
{
    if i < 0 || i >= content.len() {
        Ok(Seq::empty())
    } else {
        match restriction_item_value(content[i]) {
            Err(e) => Err(e),
            Ok(v) => match facets_from(content, i + 1) {
                Err(e) => Err(e),
                Ok(rest) => Ok(seq![v] + rest),
            },
        }
    }
}

/// A restriction folded to its base name and its facet values.
pub open spec fn restriction_of(r: RestrictionDecl) -> Result<(Seq<char>, Seq<Seq<char>>), ErrorModel> {
    match facets_from(r.content@, 0) {
        Err(e) => Err(e),
        Ok(fs) => Ok((text_or_empty(r.base), fs)),
    }
}

/// The tokens one item of a simple type contributes: base name then facet values.
pub open spec fn simple_item_tokens(c: SimpleContentItem) -> Result<Seq<Seq<char>>, ErrorModel> {
    match c {
        SimpleContentItem::Annotation => Err(unsupported("Unsupported: Annotation"@)),
        SimpleContentItem::List => Err(unsupported("Unsupported: List"@)),
        SimpleContentItem::Union => Err(unsupported("Unsupported: Union"@)),
        SimpleContentItem::Restriction(r) => match restriction_of(r) {
            Err(e) => Err(e),
            Ok((n, fs)) => Ok(seq![n] + fs),
        },
    }
}

pub open spec fn simple_tokens_from(content: Seq<SimpleContentItem>, i: int) -> Result<Seq<Seq<char>>, ErrorModel>
    decreases content.len() - i,
{
    if i < 0 || i >= content.len() {
        Ok(Seq::empty())
    } else {
        match simple_item_tokens(content[i]) {
            Err(e) => Err(e),
            Ok(v) => match simple_tokens_from(content, i + 1) {
                Err(e) => Err(e),
                Ok(rest) => Ok(v + rest),
            },
        }
    }
}

/// A simple type: its name and its chain of base names and facet values, `string` when it
/// has no content.
pub open spec fn simple_type_of(s: SimpleTypeDecl) -> Result<TypeModel, ErrorModel> {
    if s.has_final {
        Err(unsupported("Unsupported: Final"@))
    } else if s.content.len() == 0 {
        Ok(TypeModel { name: text_or_empty(s.name), type_info: seq!["string"@], min: 1, ..empty_type() })
    } else {
        match simple_tokens_from(s.content@, 0) {
            Err(e) => Err(e),
            Ok(ts) => Ok(TypeModel { name: text_or_empty(s.name), type_info: ts, min: 1, ..empty_type() }),
        }
    }
}

pub fn get_facet_type(facet_type: &FacetDecl) -> (r: Result<String, XMLGeneratorError>)
    requires
        facet_type.kind != FacetKind::Assertion,
    ensures
        same_outcome(r, facet_value(*facet_type)),
{
    if facet_type.fixed {
        return Err(parser_error("Unsupported: Fixed facet type"));
    }
    if facet_type.annotated {
        return Err(parser_error("Unsupported: Annotation"));
    }
    Ok(facet_type.value.clone())
}

pub fn get_facet(facet: &FacetDecl) -> (r: Result<String, XMLGeneratorError>)
    ensures
        same_outcome(r, facet_value(*facet)),
{
    if facet.kind == FacetKind::Assertion {
        return Err(parser_error("Unsupported: Assertion"));
    }
    get_facet_type(facet)
}

pub fn get_restriction_content(content: &RestrictionItem) -> (r: Result<String, XMLGeneratorError>)
    ensures
        same_outcome(r, restriction_item_value(*content)),
{
    match content {
        RestrictionItem::Annotation => Err(parser_error("Unsupported: Annotation")),
        RestrictionItem::SimpleType => Err(parser_error("Unsupported: SimpleType")),
        RestrictionItem::Facet(x) => get_facet(x),
    }
}

/// Folds a restriction into its base name and its facet values in order.
pub fn get_restriction(restriction: &RestrictionDecl) -> (r: Result<RestrictionInfo, XMLGeneratorError>)
    ensures
        match restriction_of(*restriction) {
            Ok((n, fs)) => r is Ok && (r->Ok_0).name@ == n && texts((r->Ok_0).facets) == fs,
            Err(e) => r is Err && (r->Err_0)@ == e,
        },
{
    let mut info = RestrictionInfo::new();
    if let Some(base) = &restriction.base {
        info.name = base.clone();
    }
    let ghost content = restriction.content@;
    assert(texts(info.facets) =~= Seq::<Seq<char>>::empty());
    let mut i: usize = 0;
    while i < restriction.content.len()
        invariant
            content == restriction.content@,
            i <= content.len(),
            info.name@ == text_or_empty(restriction.base),
            facets_from(content, 0) == match facets_from(content, i as int) {
                Ok(rest) => Ok(texts(info.facets) + rest),
                Err(e) => Err(e),
            },
        decreases content.len() - i,
    {
        let facet = match get_restriction_content(&restriction.content[i]) {
            Ok(v) => v,
            Err(e) => {
                return Err(e);
            },
        };
        let ghost before = texts(info.facets);
        info.facets.push(facet);
        proof {
            assert(texts(info.facets) =~= before.push(facet@));
            if let Ok(rest) = facets_from(content, i + 1) {
                lemma_push_concat(before, facet@, rest);
            }
        }
        i += 1;
    }
    assert(texts(info.facets) + Seq::<Seq<char>>::empty() =~= texts(info.facets));
    Ok(info)
}

pub fn get_content_restriction(content: &SimpleContentItem) -> (r: Result<RestrictionInfo, XMLGeneratorError>)
    ensures
        match content {
            SimpleContentItem::Restriction(x) => match restriction_of(*x) {
                Ok((n, fs)) => r is Ok && (r->Ok_0).name@ == n && texts((r->Ok_0).facets) == fs,
                Err(e) => r is Err && (r->Err_0)@ == e,
            },
            _ => r is Err && simple_item_tokens(*content) == Err::<Seq<Seq<char>>, ErrorModel>((r->Err_0)@),
        },
{
    match content {
        SimpleContentItem::Annotation => Err(parser_error("Unsupported: Annotation")),
        SimpleContentItem::Restriction(x) => get_restriction(x),
        SimpleContentItem::List => Err(parser_error("Unsupported: List")),
        SimpleContentItem::Union => Err(parser_error("Unsupported: Union")),
    }
}

/// Builds a simple type: its base names and facet values in order, `string` when it has none.
pub fn get_simple_type(simple: &SimpleTypeDecl) -> (r: Result<TypeGenerator, XMLGeneratorError>)
    ensures
        same_outcome(r, simple_type_of(*simple)),
{
    let mut type_generator = TypeGenerator::new();
    if let Some(name) = &simple.name {
        type_generator.name = name.clone();
    }
    if simple.has_final {
        return Err(parser_error("Unsupported: Final"));
    }
    if simple.content.len() == 0 {
        type_generator.type_info.push("string".to_owned());
        assert(type_generator@.type_info =~= seq!["string"@]);
        assert(type_generator@ =~= simple_type_of(*simple)->Ok_0);
        return Ok(type_generator);
    }
    let ghost content = simple.content@;
    assert(texts(type_generator.type_info) =~= Seq::<Seq<char>>::empty());
    let mut i: usize = 0;
    while i < simple.content.len()
        invariant
            content == simple.content@,
            !simple.has_final,
            content.len() > 0,
            i <= content.len(),
            type_generator.name@ == text_or_empty(simple.name),
            type_generator@ == (TypeModel { name: type_generator.name@, type_info: texts(type_generator.type_info), min: 1, ..empty_type() }),
            simple_tokens_from(content, 0) == match simple_tokens_from(content, i as int) {
                Ok(rest) => Ok(texts(type_generator.type_info) + rest),
                Err(e) => Err(e),
            },
        decreases content.len() - i,
    {
        let restriction = match get_content_restriction(&simple.content[i]) {
            Ok(v) => v,
            Err(e) => {
                return Err(e);
            },
        };
        let ghost before = texts(type_generator.type_info);
        let ghost item = seq![restriction.name@] + texts(restriction.facets);
        type_generator.type_info.push(restriction.name.clone());
        let mut k: usize = 0;
        while k < restriction.facets.len()
            invariant
                k <= restriction.facets.len(),
                type_generator.name@ == text_or_empty(simple.name),
                type_generator@ == (TypeModel { name: type_generator.name@, type_info: texts(type_generator.type_info), min: 1, ..empty_type() }),
                texts(type_generator.type_info) == before + seq![restriction.name@] + texts(restriction.facets).take(k as int),
            decreases restriction.facets.len() - k,
        {
            let ghost prev = texts(type_generator.type_info);
            type_generator.type_info.push(restriction.facets[k].clone());
            assert(texts(type_generator.type_info) =~= prev.push(restriction.facets[k as int]@));
            assert(texts(restriction.facets).take(k + 1) =~= texts(restriction.facets).take(k as int).push(restriction.facets[k as int]@));
            k += 1;
        }
        proof {
            assert(texts(restriction.facets).take(k as int) =~= texts(restriction.facets));
            assert(texts(type_generator.type_info) =~= before + item);
            if let Ok(rest) = simple_tokens_from(content, i + 1) {
                assert(before + (item + rest) =~= (before + item) + rest);
            }
        }
        i += 1;
    }
    assert(texts(type_generator.type_info) + Seq::<Seq<char>>::empty() =~= texts(type_generator.type_info));
    Ok(type_generator)
}

/// An attribute: its name, use and named type, or a simple type declared inside it.
pub open spec fn attribute_of(a: AttributeDecl) -> Result<AttributeModel, ErrorModel> {
    if a.reference is Some {
        Err(unsupported("Unsupported: Attribute references"@))
    } else if a.has_default {
        Err(unsupported("Unsupported: Default attribute"@))
    } else if a.has_fixed {
        Err(unsupported("Unsupported: Fixed attribute"@))
    } else if a.has_form {
        Err(unsupported("Unsupported: Form attribute"@))
    } else if a.has_target_namespace {
        Err(unsupported("Unsupported: Target namespace attribute"@))
    } else if a.has_inheritable {
        Err(unsupported("Unsupported: Inheritable attribute"@))
    } else if a.has_annotation {
        Err(unsupported("Unsupported: Annotation"@))
    } else {
        let base = AttributeModel {
            name: text_or_empty(a.name),
            attribute_type: a.usage,
            value_type: text_or_empty(a.type_ref),
            inline_type: None,
        };
        match a.simple_type {
            None => Ok(base),
            Some(st) => if a.type_ref is Some {
                Err(unsupported("Unsupported: Simple type attribute with a named type"@))
            } else {
                match simple_type_of(st) {
                    Err(e) => Err(e),
                    Ok(t) => Ok(AttributeModel { inline_type: Some(t), ..base }),
                }
            },
        }
    }
}

pub open spec fn opt_prepend<A>(o: Option<A>, s: Seq<A>) -> Seq<A> {
    match o {
        Some(x) => seq![x] + s,
        None => s,
    }
}

pub open spec fn opt_view<T: View>(o: Option<T>) -> Option<T::V> {
    match o {
        Some(x) => Some(x@),
        None => None,
    }
}

pub open spec fn opt_push<A>(s: Seq<A>, o: Option<A>) -> Seq<A> {
    match o {
        Some(x) => s.push(x),
        None => s,
    }
}

/// An element declaration with its inline types.
pub open spec fn element_of(e: ElementDecl) -> Result<ElementModel, ErrorModel>
    decreases e, 1int, 0int,
{
    if e.reference is Some && e.name is Some {
        Err(unsupported("Unsupported: Element with both a name and a reference"@))
    } else if e.has_substitution_group {
        Err(unsupported("Unsupported: Element Substitution Groups"@))
    } else if e.has_default {
        Err(unsupported("Unsupported: Default Element"@))
    } else if e.has_fixed {
        Err(unsupported("Unsupported: Fixed elements"@))
    } else if e.has_nillable {
        Err(unsupported("Unsupported: Nillable elements"@))
    } else if e.is_abstract {
        Err(unsupported("Unsupported: Abstract elements"@))
    } else if e.has_final {
        Err(unsupported("Unsupported: Final elements"@))
    } else if e.has_block {
        Err(unsupported("Unsupported: Block elements"@))
    } else if e.has_form {
        Err(unsupported("Unsupported: Form elements"@))
    } else if e.target_namespace is Some && e.target_namespace->Some_0@.len() > 0 {
        Err(unsupported("Unsupported: Namespace elements"@))
    } else {
        match element_contents_from(e, 0) {
            Err(err) => Err(err),
            Ok(cs) => Ok(ElementModel {
                name: opt_text(e.name),
                contents: cs,
                type_info: opt_text(e.type_ref),
                reference: opt_text(e.reference),
                min: e.min_occurs as nat,
                max: opt_nat(e.max_occurs),
            }),
        }
    }
}

pub open spec fn element_contents_from(e: ElementDecl, i: int) -> Result<Seq<TypeModel>, ErrorModel>
    decreases e, 0int, e.content.len() - i,
{
    if i < 0 || i >= e.content.len() {
        Ok(Seq::empty())
    } else {
        match element_item_of(e.content[i]) {
            Err(err) => Err(err),
            Ok(t) => match element_contents_from(e, i + 1) {
                Err(err) => Err(err),
                Ok(rest) => Ok(seq![t] + rest),
            },
        }
    }
}

/// An inline type of an element.
pub open spec fn element_item_of(c: ElementItem) -> Result<TypeModel, ErrorModel>
    decreases c, 1int, 0int,
{
    match c {
        ElementItem::Annotation => Err(unsupported("Unsupported: Annotation"@)),
        ElementItem::SimpleType(x) => simple_type_of(x),
        ElementItem::ComplexType(x) => complex_type_of(x),
        ElementItem::Alternative => Err(unsupported("Unsupported: Alternative"@)),
        ElementItem::Unique => Err(unsupported("Unsupported: Unique"@)),
        ElementItem::Key => Err(unsupported("Unsupported: Key"@)),
        ElementItem::Keyref => Err(unsupported("Unsupported: Keyref"@)),
    }
}

/// A complex type: its name, the groups of its compositors and its attributes, in order.
pub open spec fn complex_type_of(c: ComplexTypeDecl) -> Result<TypeModel, ErrorModel>
    decreases c, 1int, 0int,
{
    if c.has_mixed {
        Err(unsupported("Unsupported: Mixed types"@))
    } else if c.is_abstract {
        Err(unsupported("Unsupported: Abstract types"@))
    } else if c.has_final {
        Err(unsupported("Unsupported: Final types"@))
    } else if c.has_block {
        Err(unsupported("Unsupported: Block types"@))
    } else if !c.default_attributes_apply {
        Err(unsupported("Unsupported: Non-default attributes"@))
    } else {
        match complex_items_from(c, 0) {
            Err(e) => Err(e),
            Ok((gs, ats)) => Ok(TypeModel {
                name: text_or_empty(c.name),
                groups: gs,
                attributes: ats,
                min: 1,
                ..empty_type()
            }),
        }
    }
}

pub open spec fn complex_items_from(c: ComplexTypeDecl, i: int) -> Result<(Seq<GroupModel>, Seq<AttributeModel>), ErrorModel>
    decreases c, 0int, c.content.len() - i,
{
    if i < 0 || i >= c.content.len() {
        Ok((Seq::empty(), Seq::empty()))
    } else {
        match complex_item_group(c.content[i]) {
            Err(e) => Err(e),
            Ok(og) => match complex_item_attribute(c.content[i]) {
                Err(e) => Err(e),
                Ok(oa) => match complex_items_from(c, i + 1) {
                    Err(e) => Err(e),
                    Ok((gs, ats)) => Ok((opt_prepend(og, gs), opt_prepend(oa, ats))),
                },
            },
        }
    }
}

pub open spec fn complex_item_unsupported(c: ComplexItem) -> Option<ErrorModel> {
    match c {
        ComplexItem::Annotation => Some(unsupported("Unsupported: Annotation"@)),
        ComplexItem::SimpleContent => Some(unsupported("Unsupported: SimpleContent"@)),
        ComplexItem::ComplexContent => Some(unsupported("Unsupported: ComplexContent"@)),
        ComplexItem::OpenContent => Some(unsupported("Unsupported: OpenContent"@)),
        ComplexItem::AttributeGroup => Some(unsupported("Unsupported: AttributeGroup"@)),
        ComplexItem::AnyAttribute => Some(unsupported("Unsupported: AnyAttribute"@)),
        ComplexItem::Assert => Some(unsupported("Unsupported: Assert"@)),
        _ => None,
    }
}

/// The group that an item of a complex type contributes, if it is a compositor.
pub open spec fn complex_item_group(c: ComplexItem) -> Result<Option<GroupModel>, ErrorModel>
    decreases c, 1int, 0int,
{
    match c {
        ComplexItem::Group(g) => match group_of(g) {
            Ok(m) => Ok(Some(m)),
            Err(e) => Err(e),
        },
        ComplexItem::All(g) => match group_of(g) {
            Ok(m) => Ok(Some(m)),
            Err(e) => Err(e),
        },
        ComplexItem::Choice(g) => match group_of(g) {
            Ok(m) => Ok(Some(m)),
            Err(e) => Err(e),
        },
        ComplexItem::Sequence(g) => match group_of(g) {
            Ok(m) => Ok(Some(m)),
            Err(e) => Err(e),
        },
        ComplexItem::Attribute(_) => Ok(None),
        _ => Err(complex_item_unsupported(c)->Some_0),
    }
}

/// The attribute that an item of a complex type contributes, if it is one.
pub open spec fn complex_item_attribute(c: ComplexItem) -> Result<Option<AttributeModel>, ErrorModel> {
    match c {
        ComplexItem::Attribute(a) => match attribute_of(a) {
            Ok(m) => Ok(Some(m)),
            Err(e) => Err(e),
        },
        ComplexItem::Group(_) | ComplexItem::All(_) | ComplexItem::Choice(_) | ComplexItem::Sequence(_) => Ok(None),
        _ => Err(complex_item_unsupported(c)->Some_0),
    }
}

/// A compositor: its cardinality and its elements in order.
pub open spec fn group_of(g: GroupDecl) -> Result<GroupModel, ErrorModel>
    decreases g, 1int, 0int,
{
    if g.has_name {
        Err(unsupported("Unsupported: Named groups"@))
    } else if g.has_ref {
        Err(unsupported("Unsupported: Group references"@))
    } else {
        match group_items_from(g, 0) {
            Err(e) => Err(e),
            Ok(es) => Ok(GroupModel { elements: es, min: g.min_occurs as nat, max: opt_nat(g.max_occurs) }),
        }
    }
}

pub open spec fn group_items_from(g: GroupDecl, i: int) -> Result<Seq<ElementModel>, ErrorModel>
    decreases g, 0int, g.content.len() - i,
{
    if i < 0 || i >= g.content.len() {
        Ok(Seq::empty())
    } else {
        match group_item_of(g.content[i]) {
            Err(e) => Err(e),
            Ok(x) => match group_items_from(g, i + 1) {
                Err(e) => Err(e),
                Ok(rest) => Ok(seq![x] + rest),
            },
        }
    }
}

pub open spec fn group_item_of(c: GroupItem) -> Result<ElementModel, ErrorModel>
    decreases c, 1int, 0int,
{
    match c {
        GroupItem::Annotation => Err(unsupported("Unsupported: Annotation"@)),
        GroupItem::Element(e) => element_of(e),
        GroupItem::Any => Err(unsupported("Unsupported: Any"@)),
        _ => Err(unsupported("Unsupported: Embedded groups"@)),
    }
}

fn clone_text(o: &Option<String>) -> (r: Option<String>)
    ensures
        opt_text(r) == opt_text(*o),
        r is Some == o is Some,
{
    match o {
        Some(s) => Some(s.clone()),
        None => None,
    }
}

/// Builds an attribute from its declaration.
pub fn get_attribute(attribute: &AttributeDecl) -> (r: Result<AttributeGenerator, XMLGeneratorError>)
    ensures
        same_outcome(r, attribute_of(*attribute)),
{
    let mut attribute_info = AttributeGenerator::new();
    if let Some(name) = &attribute.name {
        attribute_info.name = name.clone();
    }
    if attribute.reference.is_some() {
        return Err(parser_error("Unsupported: Attribute references"));
    }
    if let Some(type_ref) = &attribute.type_ref {
        attribute_info.value_type = type_ref.clone();
    }
    attribute_info.attribute_type = attribute.usage;
    if attribute.has_default {
        return Err(parser_error("Unsupported: Default attribute"));
    }
    if attribute.has_fixed {
        return Err(parser_error("Unsupported: Fixed attribute"));
    }
    if attribute.has_form {
        return Err(parser_error("Unsupported: Form attribute"));
    }
    if attribute.has_target_namespace {
        return Err(parser_error("Unsupported: Target namespace attribute"));
    }
    if attribute.has_inheritable {
        return Err(parser_error("Unsupported: Inheritable attribute"));
    }
    if attribute.has_annotation {
        return Err(parser_error("Unsupported: Annotation"));
    }
    if let Some(simple) = &attribute.simple_type {
        if attribute.type_ref.is_some() {
            return Err(parser_error("Unsupported: Simple type attribute with a named type"));
        }
        match get_simple_type(simple) {
            Ok(t) => {
                attribute_info.inline_type = Some(t);
            },
            Err(e) => {
                return Err(e);
            },
        }
    }
    Ok(attribute_info)
}

/// The inline type of an element: a simple or a complex type.
pub fn get_element_content(content: &ElementItem) -> (r: Result<TypeGenerator, XMLGeneratorError>)
    ensures
        same_outcome(r, element_item_of(*content)),
    decreases content, 1int,
{
    match content {
        ElementItem::Annotation => Err(parser_error("Unsupported: Annotation")),
        ElementItem::SimpleType(x) => get_simple_type(x),
        ElementItem::ComplexType(x) => get_complex_type(x),
        ElementItem::Alternative => Err(parser_error("Unsupported: Alternative")),
        ElementItem::Unique => Err(parser_error("Unsupported: Unique")),
        ElementItem::Key => Err(parser_error("Unsupported: Key")),
        ElementItem::Keyref => Err(parser_error("Unsupported: Keyref")),
    }
}

/// Builds an element from its declaration, with its inline types.
pub fn get_element_type(element: &ElementDecl) -> (r: Result<ElementGenerator, XMLGeneratorError>)
    ensures
        same_outcome(r, element_of(*element)),
    decreases element, 1int,
{
    let mut generator = ElementGenerator::new();
    generator.name = clone_text(&element.name);
    if element.reference.is_some() {
        if generator.name.is_some() {
            return Err(parser_error("Unsupported: Element with both a name and a reference"));
        }
        generator.reference = clone_text(&element.reference);
    }
    generator.type_info = clone_text(&element.type_ref);
    if element.has_substitution_group {
        return Err(parser_error("Unsupported: Element Substitution Groups"));
    }
    generator.min = element.min_occurs;
    generator.max = element.max_occurs;
    if element.has_default {
        return Err(parser_error("Unsupported: Default Element"));
    }
    if element.has_fixed {
        return Err(parser_error("Unsupported: Fixed elements"));
    }
    if element.has_nillable {
        return Err(parser_error("Unsupported: Nillable elements"));
    }
    if element.is_abstract {
        return Err(parser_error("Unsupported: Abstract elements"));
    }
    if element.has_final {
        return Err(parser_error("Unsupported: Final elements"));
    }
    if element.has_block {
        return Err(parser_error("Unsupported: Block elements"));
    }
    if element.has_form {
        return Err(parser_error("Unsupported: Form elements"));
    }
    if let Some(namespace) = &element.target_namespace {
        if !namespace.as_str().is_empty() {
            return Err(parser_error("Unsupported: Namespace elements"));
        }
    }
    let ghost e = *element;
    assert(generator@.contents =~= Seq::<TypeModel>::empty());
    let mut i: usize = 0;
    while i < element.content.len()
        invariant
            e == *element,
            element_of(e) == match element_contents_from(e, 0) {
                Err(err) => Err(err),
                Ok(cs) => Ok(ElementModel {
                    name: opt_text(e.name),
                    contents: cs,
                    type_info: opt_text(e.type_ref),
                    reference: opt_text(e.reference),
                    min: e.min_occurs as nat,
                    max: opt_nat(e.max_occurs),
                }),
            },
            i <= element.content.len(),
            generator@ == (ElementModel {
                name: opt_text(e.name),
                contents: generator@.contents,
                type_info: opt_text(e.type_ref),
                reference: opt_text(e.reference),
                min: e.min_occurs as nat,
                max: opt_nat(e.max_occurs),
            }),
            element_contents_from(e, 0) == match element_contents_from(e, i as int) {
                Ok(rest) => Ok(generator@.contents + rest),
                Err(err) => Err(err),
            },
        decreases element.content.len() - i,
    {
        let content = match get_element_content(&element.content[i]) {
            Ok(t) => t,
            Err(err) => {
                return Err(err);
            },
        };
        let ghost before = generator@.contents;
        let ghost t = content@;
        generator.contents.push(content);
        proof {
            assert(generator@.contents =~= before.push(t));
            if let Ok(rest) = element_contents_from(e, i + 1) {
                lemma_push_concat(before, t, rest);
            }
        }
        i += 1;
    }
    assert(generator@.contents + Seq::<TypeModel>::empty() =~= generator@.contents);
    Ok(generator)
}

/// The elements of one item of a compositor.
pub fn get_group_content(content: &GroupItem) -> (r: Result<ElementGenerator, XMLGeneratorError>)
    ensures
        same_outcome(r, group_item_of(*content)),
    decreases content, 1int,
{
    match content {
        GroupItem::Annotation => Err(parser_error("Unsupported: Annotation")),
        GroupItem::Element(x) => get_element_type(x),
        GroupItem::Group => Err(parser_error("Unsupported: Embedded groups")),
        GroupItem::All => Err(parser_error("Unsupported: Embedded groups")),
        GroupItem::Choice => Err(parser_error("Unsupported: Embedded groups")),
        GroupItem::Sequence => Err(parser_error("Unsupported: Embedded groups")),
        GroupItem::Any => Err(parser_error("Unsupported: Any")),
    }
}

/// Builds a group from a compositor: its cardinality and its elements.
pub fn get_group(group: &GroupDecl) -> (r: Result<GroupGenerator, XMLGeneratorError>)
    ensures
        same_outcome(r, group_of(*group)),
    decreases group, 1int,
{
    let mut group_info = GroupGenerator::new();
    if group.has_name {
        return Err(parser_error("Unsupported: Named groups"));
    }
    if group.has_ref {
        return Err(parser_error("Unsupported: Group references"));
    }
    group_info.min = group.min_occurs;
    group_info.max = group.max_occurs;
    let ghost g = *group;
    let mut i: usize = 0;
    while i < group.content.len()
        invariant
            g == *group,
            !g.has_name && !g.has_ref,
            i <= group.content.len(),
            group_info@ == (GroupModel { elements: group_info@.elements, min: g.min_occurs as nat, max: opt_nat(g.max_occurs) }),
            group_items_from(g, 0) == match group_items_from(g, i as int) {
                Ok(rest) => Ok(group_info@.elements + rest),
                Err(err) => Err(err),
            },
        decreases group.content.len() - i,
    {
        let element = match get_group_content(&group.content[i]) {
            Ok(x) => x,
            Err(err) => {
                return Err(err);
            },
        };
        let ghost before = group_info@.elements;
        let ghost x = element@;
        group_info.elements.push(element);
        proof {
            assert(group_info@.elements =~= before.push(x));
            if let Ok(rest) = group_items_from(g, i + 1) {
                lemma_push_concat(before, x, rest);
            }
        }
        i += 1;
    }
    assert(group_info@.elements + Seq::<ElementModel>::empty() =~= group_info@.elements);
    Ok(group_info)
}

/// The group that an item of a complex type contributes, if it is a compositor.
pub fn get_complex_group(content: &ComplexItem) -> (r: Result<Option<GroupGenerator>, XMLGeneratorError>)
    ensures
        match complex_item_group(*content) {
            Ok(Some(m)) => r is Ok && (r->Ok_0) is Some && (r->Ok_0)->Some_0@ == m,
            Ok(None) => r is Ok && (r->Ok_0) is None,
            Err(e) => r is Err && (r->Err_0)@ == e,
        },
    decreases content, 1int,
{
    let group = match content {
        ComplexItem::Annotation => {
            return Err(parser_error("Unsupported: Annotation"));
        },
        ComplexItem::SimpleContent => {
            return Err(parser_error("Unsupported: SimpleContent"));
        },
        ComplexItem::ComplexContent => {
            return Err(parser_error("Unsupported: ComplexContent"));
        },
        ComplexItem::OpenContent => {
            return Err(parser_error("Unsupported: OpenContent"));
        },
        ComplexItem::Group(x) => get_group(x),
        ComplexItem::All(x) => get_group(x),
        ComplexItem::Choice(x) => get_group(x),
        ComplexItem::Sequence(x) => get_group(x),
        ComplexItem::Attribute(_) => {
            return Ok(None);
        },
        ComplexItem::AttributeGroup => {
            return Err(parser_error("Unsupported: AttributeGroup"));
        },
        ComplexItem::AnyAttribute => {
            return Err(parser_error("Unsupported: AnyAttribute"));
        },
        ComplexItem::Assert => {
            return Err(parser_error("Unsupported: Assert"));
        },
    };
    match group {
        Ok(g) => Ok(Some(g)),
        Err(e) => Err(e),
    }
}

/// The attribute that an item of a complex type contributes, if it is one.
pub fn get_complex_attributes(content: &ComplexItem) -> (r: Result<Option<AttributeGenerator>, XMLGeneratorError>)
    ensures
        match complex_item_attribute(*content) {
            Ok(Some(m)) => r is Ok && (r->Ok_0) is Some && (r->Ok_0)->Some_0@ == m,
            Ok(None) => r is Ok && (r->Ok_0) is None,
            Err(e) => r is Err && (r->Err_0)@ == e,
        },
{
    match content {
        ComplexItem::Annotation => Err(parser_error("Unsupported: Annotation")),
        ComplexItem::SimpleContent => Err(parser_error("Unsupported: SimpleContent")),
        ComplexItem::ComplexContent => Err(parser_error("Unsupported: ComplexContent")),
        ComplexItem::OpenContent => Err(parser_error("Unsupported: OpenContent")),
        ComplexItem::Group(_) => Ok(None),
        ComplexItem::All(_) => Ok(None),
        ComplexItem::Choice(_) => Ok(None),
        ComplexItem::Sequence(_) => Ok(None),
        ComplexItem::Attribute(x) => match get_attribute(x) {
            Ok(a) => Ok(Some(a)),
            Err(e) => Err(e),
        },
        ComplexItem::AttributeGroup => Err(parser_error("Unsupported: AttributeGroup")),
        ComplexItem::AnyAttribute => Err(parser_error("Unsupported: AnyAttribute")),
        ComplexItem::Assert => Err(parser_error("Unsupported: Assert")),
    }
}

/// Builds a complex type: its groups and attributes in the order of its content.
#[verifier::rlimit(40)]
pub fn get_complex_type(complex: &ComplexTypeDecl) -> (r: Result<TypeGenerator, XMLGeneratorError>)
    ensures
        same_outcome(r, complex_type_of(*complex)),
    decreases complex, 1int,
{
    let mut type_generator = TypeGenerator::new();
    if let Some(name) = &complex.name {
        type_generator.name = name.clone();
    }
    if complex.has_mixed {
        return Err(parser_error("Unsupported: Mixed types"));
    }
    if complex.is_abstract {
        return Err(parser_error("Unsupported: Abstract types"));
    }
    if complex.has_final {
        return Err(parser_error("Unsupported: Final types"));
    }
    if complex.has_block {
        return Err(parser_error("Unsupported: Block types"));
    }
    if !complex.default_attributes_apply {
        return Err(parser_error("Unsupported: Non-default attributes"));
    }
    let ghost c = *complex;
    let mut i: usize = 0;
    while i < complex.content.len()
        invariant
            c == *complex,
            complex_type_of(c) == match complex_items_from(c, 0) {
                Err(e) => Err(e),
                Ok((gs, ats)) => Ok(TypeModel {
                    name: text_or_empty(c.name),
                    groups: gs,
                    attributes: ats,
                    min: 1,
                    ..empty_type()
                }),
            },
            i <= complex.content.len(),
            type_generator@ == (TypeModel {
                name: text_or_empty(c.name),
                groups: type_generator@.groups,
                attributes: type_generator@.attributes,
                min: 1,
                ..empty_type()
            }),
            complex_items_from(c, 0) == match complex_items_from(c, i as int) {
                Ok((gs, ats)) => Ok((type_generator@.groups + gs, type_generator@.attributes + ats)),
                Err(err) => Err(err),
            },
        decreases complex.content.len() - i,
    {
        let content = &complex.content[i];
        let group = match get_complex_group(content) {
            Ok(g) => g,
            Err(e) => {
                return Err(e);
            },
        };
        let attribute = match get_complex_attributes(content) {
            Ok(a) => a,
            Err(e) => {
                return Err(e);
            },
        };
        let ghost gbefore = type_generator@.groups;
        let ghost abefore = type_generator@.attributes;
        let ghost og = opt_view(group);
        let ghost oa = opt_view(attribute);
        if let Some(g) = group {
            type_generator.groups.push(g);
        }
        if let Some(a) = attribute {
            type_generator.attributes.push(a);
        }
        proof {
            assert(type_generator@.groups =~= opt_push(gbefore, og));
            assert(type_generator@.attributes =~= opt_push(abefore, oa));
            if let Ok((gs, ats)) = complex_items_from(c, i + 1) {
                match og {
                    Some(x) => lemma_push_concat(gbefore, x, gs),
                    None => {},
                }
                match oa {
                    Some(x) => lemma_push_concat(abefore, x, ats),
                    None => {},
                }
            }
        }
        i += 1;
    }
    assert(type_generator@.groups + Seq::<GroupModel>::empty() =~= type_generator@.groups);
    assert(type_generator@.attributes + Seq::<AttributeModel>::empty() =~= type_generator@.attributes);
    Ok(type_generator)
}

/// The error for a top-level component that neither collector takes.
pub open spec fn schema_item_unsupported(c: SchemaItem) -> Option<ErrorModel> {
    match c {
        SchemaItem::Include => Some(unsupported("Unsupported: Include"@)),
        SchemaItem::Import => Some(unsupported("Unsupported: Import"@)),
        SchemaItem::Redefine => Some(unsupported("Unsupported: Redefine"@)),
        SchemaItem::Override => Some(unsupported("Unsupported: Override"@)),
        SchemaItem::Annotation => Some(unsupported("Unsupported: Annotation"@)),
        SchemaItem::DefaultOpenContent => Some(unsupported("Unsupported: DefaultOpenContent"@)),
        SchemaItem::Group => Some(unsupported("Unsupported: Top-level group"@)),
        SchemaItem::AttributeGroup => Some(unsupported("Unsupported: AttributeGroup"@)),
        SchemaItem::Attribute => Some(unsupported("Unsupported: Attribute"@)),
        SchemaItem::Notation => Some(unsupported("Unsupported: Notation"@)),
        _ => None,
    }
}

/// The type that a top-level component declares, if it declares one.
pub open spec fn schema_type_of(c: SchemaItem) -> Result<Option<TypeModel>, ErrorModel> {
    match c {
        SchemaItem::SimpleType(x) => if text_or_empty(x.name).len() == 0 {
            Err(unsupported("Unsupported: Empty type"@))
        } else {
            match simple_type_of(x) {
                Ok(t) => Ok(Some(t)),
                Err(e) => Err(e),
            }
        },
        SchemaItem::ComplexType(x) => match complex_type_of(x) {
            Ok(t) => Ok(Some(t)),
            Err(e) => Err(e),
        },
        SchemaItem::Element(_) => Ok(None),
        _ => Err(schema_item_unsupported(c)->Some_0),
    }
}

/// The element that a top-level component declares, if it declares one.
pub open spec fn schema_element_of(c: SchemaItem) -> Result<Option<ElementModel>, ErrorModel> {
    match c {
        SchemaItem::Element(x) => match element_of(x) {
            Ok(e) => Ok(Some(e)),
            Err(err) => Err(err),
        },
        SchemaItem::SimpleType(_) => Ok(None),
        SchemaItem::ComplexType(_) => Ok(None),
        _ => Err(schema_item_unsupported(c)->Some_0),
    }
}

/// The type table of a schema's components from index `i` on, in order.
pub open spec fn types_from(items: Seq<SchemaItem>, i: int) -> Result<Seq<TypeModel>, ErrorModel>
    decreases items.len() - i,
{
    if i < 0 || i >= items.len() {
        Ok(Seq::empty())
    } else {
        match schema_type_of(items[i]) {
            Err(e) => Err(e),
            Ok(o) => match types_from(items, i + 1) {
                Err(e) => Err(e),
                Ok(rest) => Ok(opt_prepend(o, rest)),
            },
        }
    }
}

/// The top-level elements of a schema's components from index `i` on, in order.
pub open spec fn elements_from(items: Seq<SchemaItem>, i: int) -> Result<Seq<ElementModel>, ErrorModel>
    decreases items.len() - i,
{
    if i < 0 || i >= items.len() {
        Ok(Seq::empty())
    } else {
        match schema_element_of(items[i]) {
            Err(e) => Err(e),
            Ok(o) => match elements_from(items, i + 1) {
                Err(e) => Err(e),
                Ok(rest) => Ok(opt_prepend(o, rest)),
            },
        }
    }
}

/// The type of one top-level component, if it declares one.
pub fn fetch_type(content: &SchemaItem) -> (r: Result<Option<TypeGenerator>, XMLGeneratorError>)
    ensures
        match schema_type_of(*content) {
            Ok(o) => r is Ok && opt_view(r->Ok_0) == o,
            Err(e) => r is Err && (r->Err_0)@ == e,
        },
{
    let t = match content {
        SchemaItem::Include => { return Err(parser_error("Unsupported: Include")); },
        SchemaItem::Import => { return Err(parser_error("Unsupported: Import")); },
        SchemaItem::Redefine => { return Err(parser_error("Unsupported: Redefine")); },
        SchemaItem::Override => { return Err(parser_error("Unsupported: Override")); },
        SchemaItem::Annotation => { return Err(parser_error("Unsupported: Annotation")); },
        SchemaItem::DefaultOpenContent => { return Err(parser_error("Unsupported: DefaultOpenContent")); },
        SchemaItem::SimpleType(x) => {
            let anonymous = match &x.name {
                Some(n) => n.as_str().is_empty(),
                None => true,
            };
            if anonymous {
                return Err(parser_error("Unsupported: Empty type"));
            }
            get_simple_type(x)
        },
        SchemaItem::ComplexType(x) => get_complex_type(x),
        SchemaItem::Group => { return Err(parser_error("Unsupported: Top-level group")); },
        SchemaItem::AttributeGroup => { return Err(parser_error("Unsupported: AttributeGroup")); },
        SchemaItem::Element(_) => { return Ok(None); },
        SchemaItem::Attribute => { return Err(parser_error("Unsupported: Attribute")); },
        SchemaItem::Notation => { return Err(parser_error("Unsupported: Notation")); },
    };
    match t {
        Ok(t) => Ok(Some(t)),
        Err(e) => Err(e),
    }
}

/// The element of one top-level component, if it declares one.
pub fn fetch_element(content: &SchemaItem) -> (r: Result<Option<ElementGenerator>, XMLGeneratorError>)
    ensures
        match schema_element_of(*content) {
            Ok(o) => r is Ok && opt_view(r->Ok_0) == o,
            Err(e) => r is Err && (r->Err_0)@ == e,
        },
{
    match content {
        SchemaItem::Include => Err(parser_error("Unsupported: Include")),
        SchemaItem::Import => Err(parser_error("Unsupported: Import")),
        SchemaItem::Redefine => Err(parser_error("Unsupported: Redefine")),
        SchemaItem::Override => Err(parser_error("Unsupported: Override")),
        SchemaItem::Annotation => Err(parser_error("Unsupported: Annotation")),
        SchemaItem::DefaultOpenContent => Err(parser_error("Unsupported: DefaultOpenContent")),
        SchemaItem::SimpleType(_) => Ok(None),
        SchemaItem::ComplexType(_) => Ok(None),
        SchemaItem::Group => Err(parser_error("Unsupported: Top-level group")),
        SchemaItem::AttributeGroup => Err(parser_error("Unsupported: AttributeGroup")),
        SchemaItem::Element(x) => match get_element_type(x) {
            Ok(e) => Ok(Some(e)),
            Err(err) => Err(err),
        },
        SchemaItem::Attribute => Err(parser_error("Unsupported: Attribute")),
        SchemaItem::Notation => Err(parser_error("Unsupported: Notation")),
    }
}

/// Collects the type table: every top-level simple and complex type, in order.
pub fn fetch_types(schemas: &Vec<SchemaItem>) -> (r: Result<Vec<TypeGenerator>, XMLGeneratorError>)
    ensures
        match types_from(schemas@, 0) {
            Ok(ts) => r is Ok && type_models((r->Ok_0)@) == ts,
            Err(e) => r is Err && (r->Err_0)@ == e,
        },
{
    let mut types: Vec<TypeGenerator> = Vec::new();
    let ghost items = schemas@;
    assert(type_models(types@) =~= Seq::<TypeModel>::empty());
    let mut i: usize = 0;
    while i < schemas.len()
        invariant
            items == schemas@,
            i <= items.len(),
            types_from(items, 0) == match types_from(items, i as int) {
                Ok(rest) => Ok(type_models(types@) + rest),
                Err(e) => Err(e),
            },
        decreases items.len() - i,
    {
        let data_type = match fetch_type(&schemas[i]) {
            Ok(t) => t,
            Err(e) => {
                return Err(e);
            },
        };
        let ghost before = type_models(types@);
        let ghost o = opt_view(data_type);
        if let Some(t) = data_type {
            types.push(t);
        }
        proof {
            assert(type_models(types@) =~= opt_push(before, o));
            if let Ok(rest) = types_from(items, i + 1) {
                match o {
                    Some(x) => lemma_push_concat(before, x, rest),
                    None => {},
                }
            }
        }
        i += 1;
    }
    assert(type_models(types@) + Seq::<TypeModel>::empty() =~= type_models(types@));
    Ok(types)
}

/// Collects the top-level elements, in order.
pub fn fetch_elements(schemas: &Vec<SchemaItem>) -> (r: Result<Vec<ElementGenerator>, XMLGeneratorError>)
    ensures
        match elements_from(schemas@, 0) {
            Ok(es) => r is Ok && element_models((r->Ok_0)@) == es,
            Err(e) => r is Err && (r->Err_0)@ == e,
        },
{
    let mut elements: Vec<ElementGenerator> = Vec::new();
    let ghost items = schemas@;
    assert(element_models(elements@) =~= Seq::<ElementModel>::empty());
    let mut i: usize = 0;
    while i < schemas.len()
        invariant
            items == schemas@,
            i <= items.len(),
            elements_from(items, 0) == match elements_from(items, i as int) {
                Ok(rest) => Ok(element_models(elements@) + rest),
                Err(e) => Err(e),
            },
        decreases items.len() - i,
    {
        let element = match fetch_element(&schemas[i]) {
            Ok(t) => t,
            Err(e) => {
                return Err(e);
            },
        };
        let ghost before = element_models(elements@);
        let ghost o = opt_view(element);
        if let Some(t) = element {
            elements.push(t);
        }
        proof {
            assert(element_models(elements@) =~= opt_push(before, o));
            if let Ok(rest) = elements_from(items, i + 1) {
                match o {
                    Some(x) => lemma_push_concat(before, x, rest),
                    None => {},
                }
            }
        }
        i += 1;
    }
    assert(element_models(elements@) + Seq::<ElementModel>::empty() =~= element_models(elements@));
    Ok(elements)
}

} // verus!
