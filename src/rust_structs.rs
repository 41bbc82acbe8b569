use vstd::prelude::*;
use fake::{Dummy, Fake, Faker};
use crate::error::{ErrorModel, XMLGeneratorError, format_error};
use crate::model::texts;
use crate::tree::{Shape, XmlNode, new_shape};
use crate::values::{FloatSource, alphanumeric_text, decimal_text, fake_text, int_text, same_text};

verus! {

/// The type of a struct field: the named type and, for `Option` and `Vec`, its bounds.
#[derive(Debug)]
pub struct FieldType {
    pub name: String,
    pub min_occurrences: Option<u64>,
    pub max_occurrences: Option<u64>,
}

/// A named struct field, its type and its attributes as text.
#[derive(Debug)]
pub struct FieldInfo {
    pub name: String,
    pub field_type: FieldType,
    pub attributes: Vec<String>,
}

/// A struct of the code generated for a schema: its name, attributes and fields.
#[derive(Debug)]
pub struct StructInfo {
    pub name: String,
    pub attrs: Vec<String>,
    pub fields: Vec<FieldInfo>,
}

pub open spec fn field_types_match(a: FieldType, b: FieldType) -> bool {
    a.name@ == b.name@ && a.min_occurrences == b.min_occurrences && a.max_occurrences == b.max_occurrences
}

pub open spec fn fields_match(a: FieldInfo, b: FieldInfo) -> bool {
    a.name@ == b.name@ && field_types_match(a.field_type, b.field_type) && texts(a.attributes) == texts(b.attributes)
}

pub open spec fn structs_match(a: StructInfo, b: StructInfo) -> bool {
    &&& a.name@ == b.name@
    &&& texts(a.attrs) == texts(b.attrs)
    &&& a.fields.len() == b.fields.len()
    &&& forall|i: int| 0 <= i < a.fields.len() ==> fields_match(#[trigger] a.fields[i], b.fields[i])
}

fn same_texts(a: &Vec<String>, b: &Vec<String>) -> (r: bool)
    ensures
        r == (texts(*a) == texts(*b)),
{
    if a.len() != b.len() {
        assert(texts(*a).len() != texts(*b).len());
        return false;
    }
    let mut i: usize = 0;
    while i < a.len()
        invariant
            a.len() == b.len(),
            i <= a.len(),
            forall|j: int| 0 <= j < i ==> a[j]@ == b[j]@,
        decreases a.len() - i,
    {
        if !a[i].eq(&b[i]) {
            assert(texts(*a)[i as int] != texts(*b)[i as int]);
            return false;
        }
        i += 1;
    }
    assert(texts(*a) =~= texts(*b));
    true
}

impl PartialEq for FieldType {
    fn eq(&self, other: &Self) -> (r: bool)
        ensures
            r == field_types_match(*self, *other),
    {
        self.name.eq(&other.name) && self.min_occurrences == other.min_occurrences
            && self.max_occurrences == other.max_occurrences
    }
}

impl vstd::std_specs::cmp::PartialEqSpecImpl for FieldType {
    open spec fn obeys_eq_spec() -> bool {
        true
    }

    open spec fn eq_spec(&self, other: &FieldType) -> bool {
        field_types_match(*self, *other)
    }
}

impl PartialEq for FieldInfo {
    fn eq(&self, other: &Self) -> (r: bool)
        ensures
            r == fields_match(*self, *other),
    {
        self.name.eq(&other.name) && self.field_type.eq(&other.field_type) && same_texts(&self.attributes, &other.attributes)
    }
}

impl vstd::std_specs::cmp::PartialEqSpecImpl for FieldInfo {
    open spec fn obeys_eq_spec() -> bool {
        true
    }

    open spec fn eq_spec(&self, other: &FieldInfo) -> bool {
        fields_match(*self, *other)
    }
}

impl PartialEq for StructInfo {
    fn eq(&self, other: &Self) -> (r: bool)
        ensures
            r == structs_match(*self, *other),
    {
        if !self.name.eq(&other.name) || !same_texts(&self.attrs, &other.attrs) {
            return false;
        }
        if self.fields.len() != other.fields.len() {
            return false;
        }
        let mut i: usize = 0;
        while i < self.fields.len()
            invariant
                self.fields.len() == other.fields.len(),
                i <= self.fields.len(),
                forall|j: int| 0 <= j < i ==> fields_match(#[trigger] self.fields[j], other.fields[j]),
            decreases self.fields.len() - i,
        {
            if !self.fields[i].eq(&other.fields[i]) {
                return false;
            }
            i += 1;
        }
        true
    }
}

impl vstd::std_specs::cmp::PartialEqSpecImpl for StructInfo {
    open spec fn obeys_eq_spec() -> bool {
        true
    }

    open spec fn eq_spec(&self, other: &StructInfo) -> bool {
        structs_match(*self, *other)
    }
}

/// The bounds that a wrapper type gives a field: `Option` at most one, `Vec` any number.
pub fn wrapper_occurrences(wrapper: &String) -> (r: Option<(Option<u64>, Option<u64>)>)
    ensures
        wrapper@ == "Option"@ ==> r == Some((Some(0u64), Some(1u64))),
        wrapper@ == "Vec"@ ==> r == Some((Some(0u64), None::<u64>)),
        wrapper@ != "Option"@ && wrapper@ != "Vec"@ ==> r is None,
{
    proof {
        reveal_strlit("Option");
        reveal_strlit("Vec");
        assert("Option"@.len() != "Vec"@.len());
    }
    if same_text(wrapper, "Option") {
        Some((Some(0), Some(1)))
    } else if same_text(wrapper, "Vec") {
        Some((Some(0), None))
    } else {
        None
    }
}

/// Some field of some struct has the type named `name`.
pub open spec fn is_field_type(structs: Seq<StructInfo>, name: Seq<char>) -> bool {
    exists|i: int, f: int|
        0 <= i < structs.len() && 0 <= f < structs[i].fields.len()
            && (#[trigger] structs[i].fields[f]).field_type.name@ == name
}

/// The first struct, from index `i` on, that is not the type of any field.
pub open spec fn first_root(structs: Seq<StructInfo>, i: int) -> Option<int>
    decreases structs.len() - i,
{
    if i < 0 || i >= structs.len() {
        None
    } else if !is_field_type(structs, structs[i].name@) {
        Some(i)
    } else {
        first_root(structs, i + 1)
    }
}

/// The first struct named `field`.
pub fn get_field_struct<'a>(structs: &'a Vec<StructInfo>, field: &String) -> (r: Option<&'a StructInfo>)
    ensures
        match r {
            Some(s) => exists|k: int|
                0 <= k < structs.len() && *s == structs[k] && structs[k].name@ == field@
                    && forall|k2: int| 0 <= k2 < k ==> #[trigger] structs[k2].name@ != field@,
            None => forall|k: int| 0 <= k < structs.len() ==> #[trigger] structs[k].name@ != field@,
        },
{
    let mut k: usize = 0;
    while k < structs.len()
        invariant
            k <= structs.len(),
            forall|k2: int| 0 <= k2 < k ==> #[trigger] structs[k2].name@ != field@,
        decreases structs.len() - k,
    {
        if structs[k].name.eq(field) {
            return Some(&structs[k]);
        }
        k += 1;
    }
    None
}

fn used_as_field_type(structs: &Vec<StructInfo>, name: &String) -> (r: bool)
    ensures
        r == is_field_type(structs@, name@),
{
    let mut i: usize = 0;
    while i < structs.len()
        invariant
            i <= structs.len(),
            forall|i2: int, f: int|
                0 <= i2 < i && 0 <= f < structs[i2].fields.len() ==> (#[trigger] structs[i2].fields[f]).field_type.name@ != name@,
        decreases structs.len() - i,
    {
        let fields = &structs[i].fields;
        let mut f: usize = 0;
        while f < fields.len()
            invariant
                i < structs.len(),
                fields == &structs[i as int].fields,
                f <= fields.len(),
                forall|f2: int| 0 <= f2 < f ==> (#[trigger] structs[i as int].fields[f2]).field_type.name@ != name@,
            decreases fields.len() - f,
        {
            if fields[f].field_type.name.eq(name) {
                assert(structs@[i as int].fields[f as int].field_type.name@ == name@);
                return true;
            }
            f += 1;
        }
        i += 1;
    }
    false
}

/// Some struct is the type of no field.
pub fn has_root(structs: &Vec<StructInfo>) -> (r: bool)
    ensures
        r == first_root(structs@, 0) is Some,
{
    let mut i: usize = 0;
    while i < structs.len()
        invariant
            i <= structs.len(),
            first_root(structs@, 0) == first_root(structs@, i as int),
        decreases structs.len() - i,
    {
        if !used_as_field_type(structs, &structs[i].name) {
            return true;
        }
        i += 1;
    }
    false
}

/// The root struct: the first that is the type of no field.
pub fn find_root(structs: &Vec<StructInfo>) -> (r: &StructInfo)
    requires
        first_root(structs@, 0) is Some,
    ensures
        0 <= first_root(structs@, 0)->Some_0 < structs.len(),
        *r == structs[first_root(structs@, 0)->Some_0],
{
    let mut i: usize = 0;
    while i < structs.len()
        invariant
            i <= structs.len(),
            first_root(structs@, 0) == first_root(structs@, i as int),
        decreases structs.len() - i,
    {
        if !used_as_field_type(structs, &structs[i].name) {
            return &structs[i];
        }
        i += 1;
    }
    &structs[0]
}

/// The Rust scalar types that have a generator.
pub open spec fn is_rust_scalar(name: Seq<char>) -> bool {
    ||| name == "i8"@ || name == "u8"@ || name == "i16"@ || name == "u16"@
    ||| name == "i32"@ || name == "u32"@ || name == "i64"@ || name == "u64"@
    ||| name == "i128"@ || name == "u128"@ || name == "isize"@ || name == "usize"@
    ||| name == "f32"@ || name == "f64"@ || name == "bool"@ || name == "char"@
    ||| name == "String"@
}

/// Relies on fake's `Faker` for `Output`: a random value of the type.
#[verifier::external_body]
fn fake_value<Output: Dummy<Faker>>() -> Output {
    Faker.fake::<Output>()
}

/// Relies on `i128`'s `to_string`: the decimal text of the integer.
#[verifier::external_body]
fn wide_int_text(v: i128) -> (r: String)
    ensures
        r@ == decimal_text(v as int),
{
    v.to_string()
}

/// Relies on `u128`'s `to_string`: the decimal text of the integer.
#[verifier::external_body]
fn unsigned_wide_text(v: u128) -> (r: String)
    ensures
        r@ == decimal_text(v as int),
{
    v.to_string()
}

/// Relies on `char`'s `to_string`: a text of that one character.
#[verifier::external_body]
fn char_text(c: char) -> (r: String)
    ensures
        r@ == seq![c],
{
    c.to_string()
}

/// `v` is a text that the generator of the Rust scalar type `scalar` can produce.
pub open spec fn rust_scalar_value(scalar: Seq<char>, v: Seq<char>) -> bool {
    if scalar == "i8"@ {
        exists|x: i8| v == decimal_text(x as int)
    } else if scalar == "u8"@ {
        exists|x: u8| v == decimal_text(x as int)
    } else if scalar == "i16"@ {
        exists|x: i16| v == decimal_text(x as int)
    } else if scalar == "u16"@ {
        exists|x: u16| v == decimal_text(x as int)
    } else if scalar == "i32"@ {
        exists|x: i32| v == decimal_text(x as int)
    } else if scalar == "u32"@ {
        exists|x: u32| v == decimal_text(x as int)
    } else if scalar == "i64"@ {
        exists|x: i64| v == decimal_text(x as int)
    } else if scalar == "u64"@ {
        exists|x: u64| v == decimal_text(x as int)
    } else if scalar == "isize"@ {
        exists|x: isize| v == decimal_text(x as int)
    } else if scalar == "usize"@ {
        exists|x: usize| v == decimal_text(x as int)
    } else if scalar == "i128"@ {
        exists|x: i128| v == decimal_text(x as int)
    } else if scalar == "u128"@ {
        exists|x: u128| v == decimal_text(x as int)
    } else if scalar == "f32"@ {
        true
    } else if scalar == "f64"@ {
        true
    } else if scalar == "bool"@ {
        v == "true"@ || v == "false"@
    } else if scalar == "char"@ {
        exists|c: char| v == seq![c]
    } else if scalar == "String"@ {
        alphanumeric_text(v)
    } else {
        false
    }
}

/// A random value's text for a Rust scalar type named `scalar`, or `None`.
pub fn get_string<F: FloatSource>(scalar: &String, floats: &mut F) -> (r: Option<String>)
    ensures
        r is Some == is_rust_scalar(scalar@),
        r is Some ==> rust_scalar_value(scalar@, r->Some_0@),
{
    if same_text(scalar, "i8") {
        let x = fake_value::<i8>();
        let text = int_text(x as i64);
        assert(text@ == decimal_text(x as int));
        Some(text)
    } else if same_text(scalar, "u8") {
        let x = fake_value::<u8>();
        let text = int_text(x as i64);
        assert(text@ == decimal_text(x as int));
        Some(text)
    } else if same_text(scalar, "i16") {
        let x = fake_value::<i16>();
        let text = int_text(x as i64);
        assert(text@ == decimal_text(x as int));
        Some(text)
    } else if same_text(scalar, "u16") {
        let x = fake_value::<u16>();
        let text = int_text(x as i64);
        assert(text@ == decimal_text(x as int));
        Some(text)
    } else if same_text(scalar, "i32") {
        let x = fake_value::<i32>();
        let text = int_text(x as i64);
        assert(text@ == decimal_text(x as int));
        Some(text)
    } else if same_text(scalar, "u32") {
        let x = fake_value::<u32>();
        let text = int_text(x as i64);
        assert(text@ == decimal_text(x as int));
        Some(text)
    } else if same_text(scalar, "i64") {
        let x = fake_value::<i64>();
        let text = int_text(x as i64);
        assert(text@ == decimal_text(x as int));
        Some(text)
    } else if same_text(scalar, "u64") {
        let x = fake_value::<u64>();
        let text = wide_int_text(x as i128);
        assert(text@ == decimal_text(x as int));
        Some(text)
    } else if same_text(scalar, "isize") {
        let x = fake_value::<isize>();
        let text = wide_int_text(x as i128);
        assert(text@ == decimal_text(x as int));
        Some(text)
    } else if same_text(scalar, "usize") {
        let x = fake_value::<usize>();
        let text = wide_int_text(x as i128);
        assert(text@ == decimal_text(x as int));
        Some(text)
    } else if same_text(scalar, "i128") {
        let x = fake_value::<i128>();
        let text = wide_int_text(x as i128);
        assert(text@ == decimal_text(x as int));
        Some(text)
    } else if same_text(scalar, "u128") {
        let x = fake_value::<u128>();
        let text = unsigned_wide_text(x);
        assert(text@ == decimal_text(x as int));
        Some(text)
    } else if same_text(scalar, "f32") {
        Some(floats.decimal_text())
    } else if same_text(scalar, "f64") {
        Some(floats.double_text())
    } else if same_text(scalar, "bool") {
        if fake_value::<bool>() {
            Some("true".to_owned())
        } else {
            Some("false".to_owned())
        }
    } else if same_text(scalar, "char") {
        let c = fake_value::<char>();
        let text = char_text(c);
        assert(text@ == seq![c]);
        Some(text)
    } else if same_text(scalar, "String") {
        Some(fake_text())
    } else {
        None
    }
}

/// The node has the shape: same tags throughout, no attributes, and text exactly where the
/// shape has some.
pub open spec fn struct_conforms(n: XmlNode, s: Shape) -> bool
    decreases n,
{
    &&& n.name@ == s.name
    &&& n.attributes.len() == 0
    &&& s.attributes.len() == 0
    &&& (n.text is Some) == (s.text is Some)
    &&& (n.text is Some && s.text is Some) ==> s.text->Some_0.len() == 1 && rust_scalar_value(
        s.text->Some_0[0],
        n.text->Some_0@,
    )
    &&& n.text is Some ==> n.children.len() == 0
    &&& n.children.len() == s.children.len()
    &&& forall|i: int|
        0 <= i < n.children.len() ==> struct_conforms(#[trigger] n.children[i], s.children[i])
}

/// A node that conforms to a struct shape is well formed.
pub proof fn struct_conforming_is_well_formed(n: XmlNode, s: Shape)
    requires
        struct_conforms(n, s),
    ensures
        crate::tree::well_formed(n),
    decreases n,
{
    assert forall|i: int| 0 <= i < n.children.len() implies crate::tree::well_formed(#[trigger] n.children[i]) by {
        struct_conforming_is_well_formed(n.children[i], s.children[i]);
    }
}

pub open spec fn struct_cycle() -> ErrorModel {
    ErrorModel::DataTypesFormat("Struct nesting does not end: the types are cyclic"@)
}

/// The index of the first struct named `name`, from index `i` on.
pub open spec fn first_struct(structs: Seq<StructInfo>, name: Seq<char>, i: int) -> Option<int>
    decreases structs.len() - i,
{
    if i < 0 || i >= structs.len() {
        None
    } else if structs[i].name@ == name {
        Some(i)
    } else {
        first_struct(structs, name, i + 1)
    }
}

/// The element of a struct: tagged with its name, with a child for each field that has one.
pub open spec fn struct_element(s: StructInfo, structs: Seq<StructInfo>, fuel: nat) -> Result<Shape, ErrorModel>
    decreases fuel, 0int, 0int,
{
    if fuel == 0 {
        Err(struct_cycle())
    } else {
        fields_tree(s, 0, new_shape(s.name@), structs, (fuel - 1) as nat)
    }
}

/// The child of a field: a scalar leaf tagged with the field's name, the element of the
/// struct its type names, or nothing.
pub open spec fn field_child(f: FieldInfo, structs: Seq<StructInfo>, fuel: nat) -> Result<Option<Shape>, ErrorModel>
    decreases fuel, 2int, 0int,
{
    if is_rust_scalar(f.field_type.name@) {
        Ok(Some(Shape { text: Some(seq![f.field_type.name@]), ..new_shape(f.name@) }))
    } else {
        match first_struct(structs, f.field_type.name@, 0) {
            Some(k) => if 0 <= k < structs.len() {
                match struct_element(structs[k], structs, fuel) {
                    Ok(c) => Ok(Some(c)),
                    Err(e) => Err(e),
                }
            } else {
                Ok(None)
            },
            None => Ok(None),
        }
    }
}

pub open spec fn fields_tree(s: StructInfo, i: int, acc: Shape, structs: Seq<StructInfo>, fuel: nat) -> Result<Shape, ErrorModel>
    decreases fuel, 3int, s.fields.len() - i,
{
    if i < 0 || i >= s.fields.len() {
        Ok(acc)
    } else {
        match field_child(s.fields[i], structs, fuel) {
            Err(e) => Err(e),
            Ok(None) => fields_tree(s, i + 1, acc, structs, fuel),
            Ok(Some(c)) => fields_tree(s, i + 1, Shape { children: acc.children.push(c), ..acc }, structs, fuel),
        }
    }
}

pub open spec fn struct_emitted(r: Result<XmlNode, XMLGeneratorError>, s: Result<Shape, ErrorModel>) -> bool {
    match s {
        Ok(sh) => r is Ok && struct_conforms(r->Ok_0, sh),
        Err(m) => r is Err && (r->Err_0)@ == m,
    }
}

/// The element of the struct that a field's type names, if there is one.
pub fn get_element<F: FloatSource>(field: &FieldInfo, structs: &Vec<StructInfo>, fuel: usize, floats: &mut F) -> (r: Result<Option<XmlNode>, XMLGeneratorError>)
    ensures
        match first_struct(structs@, field.field_type.name@, 0) {
            Some(k) => 0 <= k < structs.len() && match struct_element(structs[k], structs@, fuel as nat) {
                Ok(sh) => r is Ok && (r->Ok_0) is Some && struct_conforms((r->Ok_0)->Some_0, sh),
                Err(m) => r is Err && (r->Err_0)@ == m,
            },
            None => r is Ok && (r->Ok_0) is None,
        },
    decreases fuel, 1int,
{
    let mut k: usize = 0;
    while k < structs.len()
        invariant
            k <= structs.len(),
            first_struct(structs@, field.field_type.name@, 0) == first_struct(structs@, field.field_type.name@, k as int),
        decreases structs.len() - k,
    {
        if structs[k].name.eq(&field.field_type.name) {
            return match generate_element(&structs[k], structs, fuel, floats) {
                Ok(element) => Ok(Some(element)),
                Err(e) => Err(e),
            };
        }
        k += 1;
    }
    Ok(None)
}

/// The child of a field: a leaf with a random value for a scalar type, else the element of
/// the struct its type names.
pub fn get_child<F: FloatSource>(field: &FieldInfo, structs: &Vec<StructInfo>, fuel: usize, floats: &mut F) -> (r: Result<Option<XmlNode>, XMLGeneratorError>)
    ensures
        match field_child(*field, structs@, fuel as nat) {
            Ok(Some(sh)) => r is Ok && (r->Ok_0) is Some && struct_conforms((r->Ok_0)->Some_0, sh),
            Ok(None) => r is Ok && (r->Ok_0) is None,
            Err(m) => r is Err && (r->Err_0)@ == m,
        },
    decreases fuel, 2int,
{
    if let Some(value) = get_string(&field.field_type.name, floats) {
        let mut child = XmlNode::new(&field.name);
        child.text = Some(value);
        return Ok(Some(child));
    }
    get_element(field, structs, fuel, floats)
}

/// The element of a struct, with a child for each of its fields that has one.
pub fn generate_element<F: FloatSource>(root: &StructInfo, structs: &Vec<StructInfo>, fuel: usize, floats: &mut F) -> (r: Result<XmlNode, XMLGeneratorError>)
    ensures
        struct_emitted(r, struct_element(*root, structs@, fuel as nat)),
    decreases fuel, 0int,
{
    if fuel == 0 {
        return Err(format_error("Struct nesting does not end: the types are cyclic"));
    }
    let mut element = XmlNode::new(&root.name);
    let ghost mut cur = new_shape(root.name@);
    let mut i: usize = 0;
    while i < root.fields.len()
        invariant
            fuel > 0,
            i <= root.fields.len(),
            struct_conforms(element, cur),
            element.text is None,
            struct_element(*root, structs@, fuel as nat) == fields_tree(*root, i as int, cur, structs@, (fuel - 1) as nat),
        decreases root.fields.len() - i,
    {
        match get_child(&root.fields[i], structs, fuel - 1, floats) {
            Err(e) => {
                return Err(e);
            },
            Ok(None) => {},
            Ok(Some(child)) => {
                let ghost c = field_child(root.fields[i as int], structs@, (fuel - 1) as nat)->Ok_0->Some_0;
                element.children.push(child);
                proof {
                    cur = Shape { children: cur.children.push(c), ..cur };
                    assert(forall|j: int| 0 <= j < element.children.len() ==> struct_conforms(#[trigger] element.children[j], cur.children[j]));
                }
            },
        }
        i += 1;
    }
    Ok(element)
}

/// One level of nesting for each struct and one more, capped to what a `usize` holds.
pub open spec fn struct_fuel(n: int) -> nat {
    if n + 1 > usize::MAX {
        usize::MAX as nat
    } else {
        (n + 1) as nat
    }
}

/// Counts the structs and caps the count: a path of nested structs longer than that repeats a
/// struct and would never end.
pub fn struct_nesting_bound(structs: &Vec<StructInfo>) -> (r: usize)
    ensures
        r as nat == struct_fuel(structs.len() as int),
{
    structs.len().saturating_add(1)
}

/// The element tree of the root struct: the first struct that is the type of no field.
pub fn generate_struct_tree<F: FloatSource>(structs: &Vec<StructInfo>, floats: &mut F) -> (r: Result<XmlNode, XMLGeneratorError>)
    ensures
        match first_root(structs@, 0) {
            Some(k) => 0 <= k < structs.len() && struct_emitted(r, struct_element(structs[k], structs@, struct_fuel(structs.len() as int))),
            None => r is Err && (r->Err_0)@ == ErrorModel::DataTypesFormat("No root structs found"@),
        },
{
    if !has_root(structs) {
        return Err(format_error("No root structs found"));
    }
    let root = find_root(structs);
    let fuel = struct_nesting_bound(structs);
    generate_element(root, structs, fuel, floats)
}

} // verus!
