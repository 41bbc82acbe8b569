use vstd::prelude::*;
use crate::error::{XMLGeneratorError, format_error};

verus! {

/// How an attribute is used on its element.
#[derive(Clone, Copy, Debug, PartialEq, Eq, Structural)]
pub enum AttributeUse {
    Prohibited,
    Optional,
    Required,
}

/// An attribute of a complex type: its name, its use, and where its values come from.
#[derive(Debug)]
pub struct AttributeGenerator {
    pub name: String,
    pub attribute_type: AttributeUse,
    /// The named simple type of the values; empty when the type is given inline.
    pub value_type: String,
    /// A simple type declared inside the attribute.
    pub inline_type: Option<TypeGenerator>,
}

/// The elements of one compositor (`sequence`, `choice`, `all`, `group`), in order.
#[derive(Debug)]
pub struct GroupGenerator {
    pub elements: Vec<ElementGenerator>,
    pub min: usize,
    pub max: Option<usize>,
}

/// The record that the group collector fills: the same as a compositor's group.
pub type GroupInfo = GroupGenerator;

/// A simple or complex type.
#[derive(Debug)]
pub struct TypeGenerator {
    /// Empty for an anonymous type.
    pub name: String,
    /// For a simple type: its base name followed by its facet values; empty for a complex type.
    pub type_info: Vec<String>,
    pub elements: Vec<ElementGenerator>,
    pub groups: Vec<GroupGenerator>,
    pub attributes: Vec<AttributeGenerator>,
    pub min: u32,
    pub max: Option<u32>,
}

/// An element declaration: a name or a reference to another element, and its content.
#[derive(Debug)]
pub struct ElementGenerator {
    pub name: Option<String>,
    /// Types declared inside the element.
    pub contents: Vec<TypeGenerator>,
    /// The name of the element's type.
    pub type_info: Option<String>,
    /// The name of the element this one stands for.
    pub reference: Option<String>,
    pub min: usize,
    pub max: Option<usize>,
}

/// The base of a simple-type restriction and its facet values in order.
#[derive(Debug)]
pub struct RestrictionInfo {
    pub name: String,
    pub facets: Vec<String>,
}

/// A restriction as the generators see it: base name and facet values.
#[derive(Debug)]
pub struct RestrictionGenerator {
    pub name: String,
    pub facets: Vec<String>,
}

pub struct AttributeModel {
    pub name: Seq<char>,
    pub attribute_type: AttributeUse,
    pub value_type: Seq<char>,
    pub inline_type: Option<TypeModel>,
}

pub struct GroupModel {
    pub elements: Seq<ElementModel>,
    pub min: nat,
    pub max: Option<nat>,
}

pub struct TypeModel {
    pub name: Seq<char>,
    pub type_info: Seq<Seq<char>>,
    pub elements: Seq<ElementModel>,
    pub groups: Seq<GroupModel>,
    pub attributes: Seq<AttributeModel>,
    pub min: nat,
    pub max: Option<nat>,
}

pub struct ElementModel {
    pub name: Option<Seq<char>>,
    pub contents: Seq<TypeModel>,
    pub type_info: Option<Seq<char>>,
    pub reference: Option<Seq<char>>,
    pub min: nat,
    pub max: Option<nat>,
}

pub open spec fn opt_text(o: Option<String>) -> Option<Seq<char>> {
    match o {
        Some(s) => Some(s@),
        None => None,
    }
}

pub open spec fn opt_nat(o: Option<usize>) -> Option<nat> {
    match o {
        Some(n) => Some(n as nat),
        None => None,
    }
}

pub open spec fn texts(v: Vec<String>) -> Seq<Seq<char>> {
    Seq::new(v.len() as nat, |i: int| v[i]@)
}

pub open spec fn empty_type() -> TypeModel {
    TypeModel {
        name: Seq::empty(),
        type_info: Seq::empty(),
        elements: Seq::empty(),
        groups: Seq::empty(),
        attributes: Seq::empty(),
        min: 0,
        max: None,
    }
}

pub open spec fn empty_element() -> ElementModel {
    ElementModel {
        name: None,
        contents: Seq::empty(),
        type_info: None,
        reference: None,
        min: 0,
        max: None,
    }
}

pub open spec fn attribute_model(a: AttributeGenerator) -> AttributeModel
    decreases a,
{
    AttributeModel {
        name: a.name@,
        attribute_type: a.attribute_type,
        value_type: a.value_type@,
        inline_type: match a.inline_type {
            Some(t) => Some(type_model(t)),
            None => None,
        },
    }
}

pub open spec fn group_model(g: GroupGenerator) -> GroupModel
    decreases g,
{
    GroupModel {
        elements: Seq::new(
            g.elements.len() as nat,
            |i: int|
                if 0 <= i < g.elements.len() {
                    element_model(g.elements[i])
                } else {
                    empty_element()
                },
        ),
        min: g.min as nat,
        max: opt_nat(g.max),
    }
}

pub open spec fn type_model(t: TypeGenerator) -> TypeModel
    decreases t,
{
    TypeModel {
        name: t.name@,
        type_info: texts(t.type_info),
        elements: Seq::new(
            t.elements.len() as nat,
            |i: int|
                if 0 <= i < t.elements.len() {
                    element_model(t.elements[i])
                } else {
                    empty_element()
                },
        ),
        groups: Seq::new(
            t.groups.len() as nat,
            |i: int|
                if 0 <= i < t.groups.len() {
                    group_model(t.groups[i])
                } else {
                    GroupModel { elements: Seq::empty(), min: 0, max: None }
                },
        ),
        attributes: Seq::new(
            t.attributes.len() as nat,
            |i: int|
                if 0 <= i < t.attributes.len() {
                    attribute_model(t.attributes[i])
                } else {
                    AttributeModel {
                        name: Seq::empty(),
                        attribute_type: AttributeUse::Required,
                        value_type: Seq::empty(),
                        inline_type: None,
                    }
                },
        ),
        min: t.min as nat,
        max: match t.max {
            Some(m) => Some(m as nat),
            None => None,
        },
    }
}

pub open spec fn element_model(e: ElementGenerator) -> ElementModel
    decreases e,
{
    ElementModel {
        name: opt_text(e.name),
        contents: Seq::new(
            e.contents.len() as nat,
            |i: int|
                if 0 <= i < e.contents.len() {
                    type_model(e.contents[i])
                } else {
                    empty_type()
                },
        ),
        type_info: opt_text(e.type_info),
        reference: opt_text(e.reference),
        min: e.min as nat,
        max: opt_nat(e.max),
    }
}

pub open spec fn type_models(v: Seq<TypeGenerator>) -> Seq<TypeModel> {
    Seq::new(v.len(), |i: int| type_model(v[i]))
}

pub open spec fn element_models(v: Seq<ElementGenerator>) -> Seq<ElementModel> {
    Seq::new(v.len(), |i: int| element_model(v[i]))
}

impl View for TypeGenerator {
    type V = TypeModel;

    open spec fn view(&self) -> TypeModel {
        type_model(*self)
    }
}

impl View for ElementGenerator {
    type V = ElementModel;

    open spec fn view(&self) -> ElementModel {
        element_model(*self)
    }
}

impl View for GroupGenerator {
    type V = GroupModel;

    open spec fn view(&self) -> GroupModel {
        group_model(*self)
    }
}

impl View for AttributeGenerator {
    type V = AttributeModel;

    open spec fn view(&self) -> AttributeModel {
        attribute_model(*self)
    }
}

/// The name an element is known by: its own name, or else the name it refers to.
pub open spec fn model_name(e: ElementModel) -> Option<Seq<char>> {
    match e.name {
        Some(n) => Some(n),
        None => e.reference,
    }
}

impl ElementGenerator {
    pub fn new() -> (r: ElementGenerator)
        ensures
            r@ == (ElementModel { min: 1, ..empty_element() }),
    {
        let r = ElementGenerator {
            name: None,
            contents: Vec::new(),
            type_info: None,
            reference: None,
            min: 1,
            max: None,
        };
        assert(r@.contents =~= Seq::<TypeModel>::empty());
        r
    }

    /// The element's own name, or else the name it refers to.
    pub fn get_name(&self) -> (r: Result<&String, XMLGeneratorError>)
        ensures
            match model_name(self@) {
                Some(n) => r is Ok && r.unwrap()@ == n,
                None => r is Err && r.unwrap_err()@ == crate::error::ErrorModel::DataTypesFormat(
                    "Element does not have a name or a reference"@,
                ),
            },
    {
        if let Some(name) = &self.name {
            return Ok(name);
        }
        if let Some(reference) = &self.reference {
            return Ok(reference);
        }
        Err(format_error("Element does not have a name or a reference"))
    }
}

impl TypeGenerator {
    pub fn new() -> (r: TypeGenerator)
        ensures
            r@ == (TypeModel { min: 1, ..empty_type() }),
    {
        let r = TypeGenerator {
            name: String::new(),
            type_info: Vec::new(),
            elements: Vec::new(),
            groups: Vec::new(),
            attributes: Vec::new(),
            min: 1,
            max: None,
        };
        assert(r@.type_info =~= Seq::<Seq<char>>::empty());
        assert(r@.elements =~= Seq::<ElementModel>::empty());
        assert(r@.groups =~= Seq::<GroupModel>::empty());
        assert(r@.attributes =~= Seq::<AttributeModel>::empty());
        r
    }
}

impl GroupGenerator {
    pub fn new() -> (r: GroupGenerator)
        ensures
            r@ == (GroupModel { elements: Seq::empty(), min: 0, max: None }),
    {
        let r = GroupGenerator { elements: Vec::new(), min: 0, max: None };
        assert(r@.elements =~= Seq::<ElementModel>::empty());
        r
    }
}

impl AttributeGenerator {
    pub fn new() -> (r: AttributeGenerator)
        ensures
            r@ == (AttributeModel {
                name: Seq::empty(),
                attribute_type: AttributeUse::Required,
                value_type: Seq::empty(),
                inline_type: None,
            }),
    {
        AttributeGenerator {
            name: String::new(),
            attribute_type: AttributeUse::Required,
            value_type: String::new(),
            inline_type: None,
        }
    }
}

impl RestrictionInfo {
    pub fn new() -> (r: RestrictionInfo)
        ensures
            r.name@ == Seq::<char>::empty(),
            r.facets@ == Seq::<String>::empty(),
    {
        RestrictionInfo { name: String::new(), facets: Vec::new() }
    }
}

impl RestrictionGenerator {
    pub fn new() -> (r: RestrictionGenerator)
        ensures
            r.name@ == Seq::<char>::empty(),
            r.facets@ == Seq::<String>::empty(),
    {
        RestrictionGenerator { name: String::new(), facets: Vec::new() }
    }
}

/// Structural equality of elements: name, reference, type and inline types; the bounds are
/// left out.
pub open spec fn elements_match(a: ElementModel, b: ElementModel) -> bool
    decreases a,
{
    &&& a.name == b.name
    &&& a.reference == b.reference
    &&& a.type_info == b.type_info
    &&& a.contents.len() == b.contents.len()
    &&& forall|i: int| 0 <= i < a.contents.len() ==> types_match(#[trigger] a.contents[i], b.contents[i])
}

pub open spec fn groups_match(a: GroupModel, b: GroupModel) -> bool
    decreases a,
{
    &&& a.min == b.min
    &&& a.max == b.max
    &&& a.elements.len() == b.elements.len()
    &&& forall|i: int| 0 <= i < a.elements.len() ==> elements_match(#[trigger] a.elements[i], b.elements[i])
}

pub open spec fn attributes_match(a: AttributeModel, b: AttributeModel) -> bool
    decreases a,
{
    &&& a.name == b.name
    &&& a.value_type == b.value_type
    &&& a.attribute_type == b.attribute_type
    &&& match (a.inline_type, b.inline_type) {
        (None, None) => true,
        (Some(x), Some(y)) => types_match(x, y),
        _ => false,
    }
}

/// Structural equality of types: every field, with elements, groups and attributes compared
/// in order.
pub open spec fn types_match(a: TypeModel, b: TypeModel) -> bool
    decreases a,
{
    &&& a.name == b.name
    &&& a.type_info == b.type_info
    &&& a.min == b.min
    &&& a.max == b.max
    &&& a.elements.len() == b.elements.len()
    &&& forall|i: int| 0 <= i < a.elements.len() ==> elements_match(#[trigger] a.elements[i], b.elements[i])
    &&& a.groups.len() == b.groups.len()
    &&& forall|i: int| 0 <= i < a.groups.len() ==> groups_match(#[trigger] a.groups[i], b.groups[i])
    &&& a.attributes.len() == b.attributes.len()
    &&& forall|i: int| 0 <= i < a.attributes.len() ==> attributes_match(#[trigger] a.attributes[i], b.attributes[i])
}

fn same_opt_text(a: &Option<String>, b: &Option<String>) -> (r: bool)
    ensures
        r == (opt_text(*a) == opt_text(*b)),
{
    match (a, b) {
        (None, None) => true,
        (Some(x), Some(y)) => x.eq(y),
        _ => false,
    }
}

fn same_texts(a: &Vec<String>, b: &Vec<String>) -> (r: bool)
    ensures
        r == (texts(*a) == texts(*b)),
{
    if a.len() != b.len() {
        assert(texts(*a).len() != texts(*b).len());
        return false;
    }
    let mut i: usize = 0;
    while i < a.len()
        invariant
            a.len() == b.len(),
            i <= a.len(),
            forall|j: int| 0 <= j < i ==> a[j]@ == b[j]@,
        decreases a.len() - i,
    {
        if !a[i].eq(&b[i]) {
            assert(texts(*a)[i as int] != texts(*b)[i as int]);
            return false;
        }
        i += 1;
    }
    assert(texts(*a) =~= texts(*b));
    true
}

fn element_eq(a: &ElementGenerator, b: &ElementGenerator) -> (r: bool)
    ensures
        r == elements_match(a@, b@),
    decreases a,
{
    if !same_opt_text(&a.name, &b.name) || !same_opt_text(&a.reference, &b.reference)
        || !same_opt_text(&a.type_info, &b.type_info) {
        return false;
    }
    if a.contents.len() != b.contents.len() {
        return false;
    }
    let mut i: usize = 0;
    while i < a.contents.len()
        invariant
            a.contents.len() == b.contents.len(),
            i <= a.contents.len(),
            forall|j: int| 0 <= j < i ==> types_match(#[trigger] a@.contents[j], b@.contents[j]),
        decreases a.contents.len() - i,
    {
        if !type_eq(&a.contents[i], &b.contents[i]) {
            assert(!types_match(a@.contents[i as int], b@.contents[i as int]));
            return false;
        }
        i += 1;
    }
    true
}

fn group_eq(a: &GroupGenerator, b: &GroupGenerator) -> (r: bool)
    ensures
        r == groups_match(a@, b@),
    decreases a,
{
    if a.min != b.min || a.max != b.max || a.elements.len() != b.elements.len() {
        assert(a.max != b.max ==> opt_nat(a.max) != opt_nat(b.max));
        return false;
    }
    let mut i: usize = 0;
    while i < a.elements.len()
        invariant
            a.elements.len() == b.elements.len(),
            i <= a.elements.len(),
            forall|j: int| 0 <= j < i ==> elements_match(#[trigger] a@.elements[j], b@.elements[j]),
        decreases a.elements.len() - i,
    {
        if !element_eq(&a.elements[i], &b.elements[i]) {
            assert(!elements_match(a@.elements[i as int], b@.elements[i as int]));
            return false;
        }
        i += 1;
    }
    true
}

fn attribute_eq(a: &AttributeGenerator, b: &AttributeGenerator) -> (r: bool)
    ensures
        r == attributes_match(a@, b@),
    decreases a,
{
    if !a.name.eq(&b.name) || !a.value_type.eq(&b.value_type) || a.attribute_type != b.attribute_type {
        return false;
    }
    match (&a.inline_type, &b.inline_type) {
        (None, None) => true,
        (Some(x), Some(y)) => type_eq(x, y),
        _ => false,
    }
}

fn type_eq(a: &TypeGenerator, b: &TypeGenerator) -> (r: bool)
    ensures
        r == types_match(a@, b@),
    decreases a,
{
    if !a.name.eq(&b.name) || !same_texts(&a.type_info, &b.type_info) || a.min != b.min {
        return false;
    }
    if a.max != b.max {
        assert(a@.max != b@.max);
        return false;
    }
    if a.elements.len() != b.elements.len() || a.groups.len() != b.groups.len()
        || a.attributes.len() != b.attributes.len() {
        return false;
    }
    let mut i: usize = 0;
    while i < a.elements.len()
        invariant
            a.elements.len() == b.elements.len(),
            i <= a.elements.len(),
            forall|j: int| 0 <= j < i ==> elements_match(#[trigger] a@.elements[j], b@.elements[j]),
        decreases a.elements.len() - i,
    {
        if !element_eq(&a.elements[i], &b.elements[i]) {
            assert(!elements_match(a@.elements[i as int], b@.elements[i as int]));
            return false;
        }
        i += 1;
    }
    let mut g: usize = 0;
    while g < a.groups.len()
        invariant
            a.groups.len() == b.groups.len(),
            g <= a.groups.len(),
            forall|j: int| 0 <= j < g ==> groups_match(#[trigger] a@.groups[j], b@.groups[j]),
        decreases a.groups.len() - g,
    {
        if !group_eq(&a.groups[g], &b.groups[g]) {
            assert(!groups_match(a@.groups[g as int], b@.groups[g as int]));
            return false;
        }
        g += 1;
    }
    let mut k: usize = 0;
    while k < a.attributes.len()
        invariant
            a.attributes.len() == b.attributes.len(),
            k <= a.attributes.len(),
            forall|j: int| 0 <= j < k ==> attributes_match(#[trigger] a@.attributes[j], b@.attributes[j]),
        decreases a.attributes.len() - k,
    {
        if !attribute_eq(&a.attributes[k], &b.attributes[k]) {
            assert(!attributes_match(a@.attributes[k as int], b@.attributes[k as int]));
            return false;
        }
        k += 1;
    }
    true
}

impl PartialEq for ElementGenerator {
    fn eq(&self, other: &Self) -> (r: bool)
        ensures
            r == elements_match(self@, other@),
    {
        element_eq(self, other)
    }
}

impl vstd::std_specs::cmp::PartialEqSpecImpl for ElementGenerator {
    open spec fn obeys_eq_spec() -> bool {
        true
    }

    open spec fn eq_spec(&self, other: &ElementGenerator) -> bool {
        elements_match(self@, other@)
    }
}

impl PartialEq for TypeGenerator {
    fn eq(&self, other: &Self) -> (r: bool)
        ensures
            r == types_match(self@, other@),
    {
        type_eq(self, other)
    }
}

impl vstd::std_specs::cmp::PartialEqSpecImpl for TypeGenerator {
    open spec fn obeys_eq_spec() -> bool {
        true
    }

    open spec fn eq_spec(&self, other: &TypeGenerator) -> bool {
        types_match(self@, other@)
    }
}

impl PartialEq for GroupGenerator {
    fn eq(&self, other: &Self) -> (r: bool)
        ensures
            r == groups_match(self@, other@),
    {
        group_eq(self, other)
    }
}

impl vstd::std_specs::cmp::PartialEqSpecImpl for GroupGenerator {
    open spec fn obeys_eq_spec() -> bool {
        true
    }

    open spec fn eq_spec(&self, other: &GroupGenerator) -> bool {
        groups_match(self@, other@)
    }
}

impl PartialEq for AttributeGenerator {
    fn eq(&self, other: &Self) -> (r: bool)
        ensures
            r == attributes_match(self@, other@),
    {
        attribute_eq(self, other)
    }
}

impl vstd::std_specs::cmp::PartialEqSpecImpl for AttributeGenerator {
    open spec fn obeys_eq_spec() -> bool {
        true
    }

    open spec fn eq_spec(&self, other: &AttributeGenerator) -> bool {
        attributes_match(self@, other@)
    }
}

} // verus!
