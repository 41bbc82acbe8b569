use vstd::prelude::*;
use xsd_parser::models::schema::xs::{
    AttributeType, AttributeUseType, ComplexBaseType, ComplexBaseTypeContent, ElementType,
    ElementTypeContent, Facet, FacetType, GroupType, GroupTypeContent, Restriction,
    RestrictionContent, SchemaContent, SimpleBaseType, SimpleBaseTypeContent,
};
use xsd_parser::models::schema::{MaxOccurs, QName};
use crate::model::AttributeUse;
use crate::schema::{
    AttributeDecl, ComplexItem, ComplexTypeDecl, ElementDecl, ElementItem, FacetDecl, FacetKind,
    GroupDecl, GroupItem, RestrictionDecl, RestrictionItem, SchemaItem, SimpleContentItem,
    SimpleTypeDecl,
};

verus! {

/// xsd-parser's `QName`, read only by the conversions below.
#[verifier::external_type_specification]
#[verifier::external_body]
pub struct ExQName(QName);

/// xsd-parser's `MaxOccurs`, read only by the conversions below.
#[verifier::external_type_specification]
#[verifier::external_body]
pub struct ExMaxOccurs(MaxOccurs);

/// xsd-parser's `SchemaContent`, read only by the conversions below.
#[verifier::external_type_specification]
#[verifier::external_body]
pub struct ExSchemaContent(SchemaContent);

/// xsd-parser's `SimpleBaseType`, read only by the conversions below.
#[verifier::external_type_specification]
#[verifier::external_body]
pub struct ExSimpleBaseType(SimpleBaseType);

/// xsd-parser's `Restriction`, read only by the conversions below.
#[verifier::external_type_specification]
#[verifier::external_body]
pub struct ExRestriction(Restriction);

/// xsd-parser's `Facet`, read only by the conversions below.
#[verifier::external_type_specification]
#[verifier::external_body]
pub struct ExFacet(Facet);

/// xsd-parser's `FacetType`, read only by the conversions below.
#[verifier::external_type_specification]
#[verifier::external_body]
pub struct ExFacetType(FacetType);

/// xsd-parser's `ComplexBaseType`, read only by the conversions below.
#[verifier::external_type_specification]
#[verifier::external_body]
pub struct ExComplexBaseType(ComplexBaseType);

/// xsd-parser's `ComplexBaseTypeContent`, read only by the conversions below.
#[verifier::external_type_specification]
#[verifier::external_body]
pub struct ExComplexBaseTypeContent(ComplexBaseTypeContent);

/// xsd-parser's `GroupType`, read only by the conversions below.
#[verifier::external_type_specification]
#[verifier::external_body]
pub struct ExGroupType(GroupType);

/// xsd-parser's `ElementType`, read only by the conversions below.
#[verifier::external_type_specification]
#[verifier::external_body]
pub struct ExElementType(ElementType);

/// xsd-parser's `ElementTypeContent`, read only by the conversions below.
#[verifier::external_type_specification]
#[verifier::external_body]
pub struct ExElementTypeContent(ElementTypeContent);

/// xsd-parser's `AttributeType`, read only by the conversions below.
#[verifier::external_type_specification]
#[verifier::external_body]
pub struct ExAttributeType(AttributeType);

/// xsd-parser's `AttributeUseType`, read only by the conversions below.
#[verifier::external_type_specification]
#[verifier::external_body]
pub struct ExAttributeUseType(AttributeUseType);

/// Relies on xsd-parser's `QName::local_name`: the name without its prefix.
#[verifier::external_body]
fn local_name(q: &QName) -> String {
    String::from_utf8_lossy(q.local_name()).into_owned()
}

/// Relies on xsd-parser's `MaxOccurs`: `None` for `unbounded`.
#[verifier::external_body]
fn max_occurs(m: &MaxOccurs) -> Option<usize> {
    match m {
        MaxOccurs::Unbounded => None,
        MaxOccurs::Bounded(x) => Some(*x),
    }
}

/// Relies on xsd-parser's `AttributeUseType`: the `use` of an attribute.
#[verifier::external_body]
fn attribute_use(u: &AttributeUseType) -> AttributeUse {
    match u {
        AttributeUseType::Prohibited => AttributeUse::Prohibited,
        AttributeUseType::Optional => AttributeUse::Optional,
        AttributeUseType::Required => AttributeUse::Required,
    }
}

/// Relies on xsd-parser's `FacetType`: a facet's value, `fixed` flag and annotation.
#[verifier::external_body]
fn facet_decl(kind: FacetKind, x: &FacetType) -> FacetDecl {
    FacetDecl { kind, value: x.value.clone(), fixed: x.fixed, annotated: x.annotation.is_some() }
}

/// Relies on xsd-parser's `Facet`: the kind of a facet and its content.
#[verifier::external_body]
fn facet(f: &Facet) -> FacetDecl {
    match f {
        Facet::MinExclusive(x) => facet_decl(FacetKind::MinExclusive, x),
        Facet::MinInclusive(x) => facet_decl(FacetKind::MinInclusive, x),
        Facet::MaxExclusive(x) => facet_decl(FacetKind::MaxExclusive, x),
        Facet::MaxInclusive(x) => facet_decl(FacetKind::MaxInclusive, x),
        Facet::TotalDigits(x) => facet_decl(FacetKind::TotalDigits, x),
        Facet::FractionDigits(x) => facet_decl(FacetKind::FractionDigits, x),
        Facet::Length(x) => facet_decl(FacetKind::Length, x),
        _ => other_facet(f),
    }
}

/// Relies on xsd-parser's `Facet`: the kind and content of the facets that `facet` leaves.
#[verifier::external_body]
fn other_facet(f: &Facet) -> FacetDecl {
    match f {
        Facet::MinLength(x) => facet_decl(FacetKind::MinLength, x),
        Facet::MaxLength(x) => facet_decl(FacetKind::MaxLength, x),
        Facet::Enumeration(x) => facet_decl(FacetKind::Enumeration, x),
        Facet::WhiteSpace(x) => facet_decl(FacetKind::WhiteSpace, x),
        Facet::Pattern(x) => facet_decl(FacetKind::Pattern, x),
        Facet::ExplicitTimezone(x) => facet_decl(FacetKind::ExplicitTimezone, x),
        _ => FacetDecl { kind: FacetKind::Assertion, value: String::new(), fixed: false, annotated: false },
    }
}

/// Relies on xsd-parser's `Restriction`: the base name and the content in order.
#[verifier::external_body]
fn restriction(r: &Restriction) -> RestrictionDecl {
    let item = |c: &RestrictionContent| match c {
        RestrictionContent::Annotation(_) => RestrictionItem::Annotation,
        RestrictionContent::SimpleType(_) => RestrictionItem::SimpleType,
        RestrictionContent::Facet(f) => RestrictionItem::Facet(facet(f)),
    };
    RestrictionDecl { base: r.base.as_ref().map(local_name), content: r.content.iter().map(item).collect() }
}

/// Relies on xsd-parser's `SimpleBaseType`: name, `final`, and content in order.
#[verifier::external_body]
fn simple_type(s: &SimpleBaseType) -> SimpleTypeDecl {
    let item = |c: &SimpleBaseTypeContent| match c {
        SimpleBaseTypeContent::Annotation(_) => SimpleContentItem::Annotation,
        SimpleBaseTypeContent::Restriction(r) => SimpleContentItem::Restriction(restriction(r)),
        SimpleBaseTypeContent::List(_) => SimpleContentItem::List,
        SimpleBaseTypeContent::Union(_) => SimpleContentItem::Union,
    };
    SimpleTypeDecl { name: s.name.clone(), has_final: s.final_.is_some(), content: s.content.iter().map(item).collect() }
}

/// Relies on xsd-parser's `AttributeType`: what an attribute declaration holds.
#[verifier::external_body]
fn attribute(a: &AttributeType) -> AttributeDecl {
    AttributeDecl {
        name: a.name.clone(), reference: a.ref_.as_ref().map(local_name),
        type_ref: a.type_.as_ref().map(local_name), usage: attribute_use(&a.use_),
        has_default: a.default.is_some(), has_fixed: a.fixed.is_some(),
        has_form: a.form.is_some(), has_target_namespace: a.target_namespace.is_some(),
        has_inheritable: a.inheritable.is_some(), has_annotation: a.annotation.is_some(),
        simple_type: a.simple_type.as_ref().map(simple_type),
    }
}

/// Relies on xsd-parser's `ElementTypeContent`: the kind of an element's child.
#[verifier::external_body]
fn element_content(c: &ElementTypeContent) -> ElementItem {
    match c {
        ElementTypeContent::Annotation(_) => ElementItem::Annotation,
        ElementTypeContent::SimpleType(x) => ElementItem::SimpleType(simple_type(x)),
        ElementTypeContent::ComplexType(x) => ElementItem::ComplexType(complex_type(x)),
        ElementTypeContent::Alternative(_) => ElementItem::Alternative,
        ElementTypeContent::Unique(_) => ElementItem::Unique,
        ElementTypeContent::Key(_) => ElementItem::Key,
        ElementTypeContent::Keyref(_) => ElementItem::Keyref,
    }
}

/// Relies on xsd-parser's `ElementType`: what an element declaration holds.
#[verifier::external_body]
fn element(e: &ElementType) -> ElementDecl {
    ElementDecl {
        name: e.name.clone(), reference: e.ref_.as_ref().map(local_name),
        type_ref: e.type_.as_ref().map(local_name), has_substitution_group: e.substitution_group.is_some(),
        min_occurs: e.min_occurs, max_occurs: max_occurs(&e.max_occurs),
        has_default: e.default.is_some(), has_fixed: e.fixed.is_some(), has_nillable: e.nillable.is_some(),
        is_abstract: e.abstract_, has_final: e.final_.is_some(), has_block: e.block.is_some(),
        has_form: e.form.is_some(), target_namespace: e.target_namespace.clone(),
        content: e.content.iter().map(element_content).collect(),
    }
}

/// Relies on xsd-parser's `GroupType`: a compositor's name, reference, bounds and content.
#[verifier::external_body]
fn group(g: &GroupType) -> GroupDecl {
    let item = |c: &GroupTypeContent| match c {
        GroupTypeContent::Annotation(_) => GroupItem::Annotation,
        GroupTypeContent::Element(e) => GroupItem::Element(element(e)),
        GroupTypeContent::Group(_) => GroupItem::Group,
        GroupTypeContent::All(_) => GroupItem::All,
        GroupTypeContent::Choice(_) => GroupItem::Choice,
        GroupTypeContent::Sequence(_) => GroupItem::Sequence,
        GroupTypeContent::Any(_) => GroupItem::Any,
    };
    let content = g.content.iter().map(item).collect();
    GroupDecl { has_name: g.name.is_some(), has_ref: g.ref_.is_some(), min_occurs: g.min_occurs, max_occurs: max_occurs(&g.max_occurs), content }
}

/// Relies on xsd-parser's `ComplexBaseTypeContent`: the kind of a complex type's child.
#[verifier::external_body]
fn complex_content(c: &ComplexBaseTypeContent) -> ComplexItem {
    match c {
        ComplexBaseTypeContent::Annotation(_) => ComplexItem::Annotation,
        ComplexBaseTypeContent::SimpleContent(_) => ComplexItem::SimpleContent,
        ComplexBaseTypeContent::ComplexContent(_) => ComplexItem::ComplexContent,
        ComplexBaseTypeContent::OpenContent(_) => ComplexItem::OpenContent,
        ComplexBaseTypeContent::Group(x) => ComplexItem::Group(group(x)),
        ComplexBaseTypeContent::All(x) => ComplexItem::All(group(x)),
        ComplexBaseTypeContent::Choice(x) => ComplexItem::Choice(group(x)),
        ComplexBaseTypeContent::Sequence(x) => ComplexItem::Sequence(group(x)),
        ComplexBaseTypeContent::Attribute(x) => ComplexItem::Attribute(attribute(x)),
        ComplexBaseTypeContent::AttributeGroup(_) => ComplexItem::AttributeGroup,
        ComplexBaseTypeContent::AnyAttribute(_) => ComplexItem::AnyAttribute,
        ComplexBaseTypeContent::Assert(_) => ComplexItem::Assert,
    }
}

/// Relies on xsd-parser's `ComplexBaseType`: name, flags and content in order.
#[verifier::external_body]
fn complex_type(c: &ComplexBaseType) -> ComplexTypeDecl {
    ComplexTypeDecl {
        name: c.name.clone(), has_mixed: c.mixed.is_some(), is_abstract: c.abstract_,
        has_final: c.final_.is_some(), has_block: c.block.is_some(),
        default_attributes_apply: c.default_attributes_apply,
        content: c.content.iter().map(complex_content).collect(),
    }
}

/// Relies on xsd-parser's `SchemaContent`: the kind of a top-level component.
#[verifier::external_body]
fn schema_item(c: &SchemaContent) -> SchemaItem {
    match c {
        SchemaContent::Include(_) => SchemaItem::Include,
        SchemaContent::Import(_) => SchemaItem::Import,
        SchemaContent::Redefine(_) => SchemaItem::Redefine,
        SchemaContent::Override(_) => SchemaItem::Override,
        SchemaContent::Annotation(_) => SchemaItem::Annotation,
        SchemaContent::DefaultOpenContent(_) => SchemaItem::DefaultOpenContent,
        SchemaContent::SimpleType(x) => SchemaItem::SimpleType(simple_type(x)),
        SchemaContent::ComplexType(x) => SchemaItem::ComplexType(complex_type(x)),
        SchemaContent::Group(_) => SchemaItem::Group,
        SchemaContent::AttributeGroup(_) => SchemaItem::AttributeGroup,
        SchemaContent::Element(x) => SchemaItem::Element(element(x)),
        SchemaContent::Attribute(_) => SchemaItem::Attribute,
        SchemaContent::Notation(_) => SchemaItem::Notation,
    }
}

/// The components that xsd-parser reads from a schema text, or its message.
pub uninterp spec fn parsed_schema(xsd: Seq<char>) -> Result<Seq<SchemaItem>, Seq<char>>;

/// Relies on xsd-parser's `Parser` (with the default namespaces) reading a schema from text:
/// the components of every parsed schema in order, or the parser's message.
#[verifier::external_body]
pub fn parse_schema(xsd: &String) -> (r: Result<Vec<SchemaItem>, String>)
    ensures
        match parsed_schema(xsd@) {
            Ok(items) => r is Ok && (r->Ok_0)@ == items,
            Err(m) => r is Err && (r->Err_0)@ == m,
        },
{
    let parser = xsd_parser::Parser::new().with_default_namespaces();
    let schemas = parser.add_schema_from_str(xsd).map_err(|e| e.to_string())?.finish();
    Ok(schemas.schemas().flat_map(|(_, schema)| schema.content.iter().map(schema_item)).collect())
}

} // verus!
