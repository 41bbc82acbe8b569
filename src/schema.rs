use vstd::prelude::*;
use crate::model::AttributeUse;

verus! {

/// The kinds of facet that a restriction can hold.
#[derive(Clone, Copy, Debug, PartialEq, Eq, Structural)]
pub enum FacetKind {
    MinExclusive,
    MinInclusive,
    MaxExclusive,
    MaxInclusive,
    TotalDigits,
    FractionDigits,
    Length,
    MinLength,
    MaxLength,
    Enumeration,
    WhiteSpace,
    Pattern,
    Assertion,
    ExplicitTimezone,
}

/// A facet: its kind, its value, and whether it is fixed or annotated.
#[derive(Debug)]
pub struct FacetDecl {
    pub kind: FacetKind,
    pub value: String,
    pub fixed: bool,
    pub annotated: bool,
}

#[derive(Debug)]
pub enum RestrictionItem {
    Annotation,
    SimpleType,
    Facet(FacetDecl),
}

/// A restriction: the local name of its base, and its content in order.
#[derive(Debug)]
pub struct RestrictionDecl {
    pub base: Option<String>,
    pub content: Vec<RestrictionItem>,
}

#[derive(Debug)]
pub enum SimpleContentItem {
    Annotation,
    Restriction(RestrictionDecl),
    List,
    Union,
}

#[derive(Debug)]
pub struct SimpleTypeDecl {
    pub name: Option<String>,
    pub has_final: bool,
    pub content: Vec<SimpleContentItem>,
}

#[derive(Debug)]
pub enum ElementItem {
    Annotation,
    SimpleType(SimpleTypeDecl),
    ComplexType(ComplexTypeDecl),
    Alternative,
    Unique,
    Key,
    Keyref,
}

/// An element declaration, with the local names of its reference and its type.
#[derive(Debug)]
pub struct ElementDecl {
    pub name: Option<String>,
    pub reference: Option<String>,
    pub type_ref: Option<String>,
    pub has_substitution_group: bool,
    pub min_occurs: usize,
    /// `None` for `unbounded`.
    pub max_occurs: Option<usize>,
    pub has_default: bool,
    pub has_fixed: bool,
    pub has_nillable: bool,
    pub is_abstract: bool,
    pub has_final: bool,
    pub has_block: bool,
    pub has_form: bool,
    pub target_namespace: Option<String>,
    pub content: Vec<ElementItem>,
}

#[derive(Debug)]
pub enum GroupItem {
    Annotation,
    Element(ElementDecl),
    Group,
    All,
    Choice,
    Sequence,
    Any,
}

/// A compositor: `group`, `all`, `choice` or `sequence`.
#[derive(Debug)]
pub struct GroupDecl {
    pub has_name: bool,
    pub has_ref: bool,
    pub min_occurs: usize,
    /// `None` for `unbounded`.
    pub max_occurs: Option<usize>,
    pub content: Vec<GroupItem>,
}

/// An attribute declaration, with the local names of its reference and its type.
#[derive(Debug)]
pub struct AttributeDecl {
    pub name: Option<String>,
    pub reference: Option<String>,
    pub type_ref: Option<String>,
    pub usage: AttributeUse,
    pub has_default: bool,
    pub has_fixed: bool,
    pub has_form: bool,
    pub has_target_namespace: bool,
    pub has_inheritable: bool,
    pub has_annotation: bool,
    pub simple_type: Option<SimpleTypeDecl>,
}

#[derive(Debug)]
pub enum ComplexItem {
    Annotation,
    SimpleContent,
    ComplexContent,
    OpenContent,
    Group(GroupDecl),
    All(GroupDecl),
    Choice(GroupDecl),
    Sequence(GroupDecl),
    Attribute(AttributeDecl),
    AttributeGroup,
    AnyAttribute,
    Assert,
}

#[derive(Debug)]
pub struct ComplexTypeDecl {
    pub name: Option<String>,
    pub has_mixed: bool,
    pub is_abstract: bool,
    pub has_final: bool,
    pub has_block: bool,
    pub default_attributes_apply: bool,
    pub content: Vec<ComplexItem>,
}

/// A top-level component of a schema.
#[derive(Debug)]
pub enum SchemaItem {
    Include,
    Import,
    Redefine,
    Override,
    Annotation,
    DefaultOpenContent,
    SimpleType(SimpleTypeDecl),
    ComplexType(ComplexTypeDecl),
    Group,
    AttributeGroup,
    Element(ElementDecl),
    Attribute,
    Notation,
}

} // verus!
