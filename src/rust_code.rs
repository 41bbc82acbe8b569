use vstd::prelude::*;
use syn::__private::ToTokens;
use syn::{Field, GenericArgument, Item, PathArguments, PathSegment, Type, TypePath};
use crate::error::{ErrorModel, XMLGeneratorError, format_error, join_text};
use crate::model::{opt_text, texts};
use crate::rust_structs::{
    FieldInfo, FieldType, StructInfo, first_root, generate_struct_tree, wrapper_occurrences,
};
use crate::values::FloatSource;
use crate::tree::XmlNode;
use crate::rust_structs::{struct_conforms, struct_element, struct_fuel};

verus! {

/// A type as written in generated code: a path, or anything else by its text.
#[derive(Debug)]
pub enum TypeExpr {
    Path(PathType),
    Unsupported(String),
}

/// A path type: the path as a single name when it is one, the text of a qualified self type,
/// and the segments.
#[derive(Debug)]
pub struct PathType {
    pub ident: Option<String>,
    pub qself: Option<String>,
    pub segments: Vec<PathSegmentExpr>,
}

#[derive(Debug)]
pub struct PathSegmentExpr {
    pub ident: String,
    pub arguments: PathArgs,
}

#[derive(Debug)]
pub enum PathArgs {
    Empty,
    Angle(Vec<GenericArg>),
    Parenthesized(String),
}

#[derive(Debug)]
pub enum GenericArg {
    Type(TypeExpr),
    Unsupported(String),
}

/// A struct field: its name if it has one, its type, its attributes as text.
#[derive(Debug)]
pub struct FieldDef {
    pub ident: Option<String>,
    pub ty: TypeExpr,
    pub attrs: Vec<String>,
}

#[derive(Debug)]
pub struct StructDef {
    pub name: String,
    pub attrs: Vec<String>,
    pub fields: Vec<FieldDef>,
}

#[derive(Debug)]
pub struct AliasDef {
    pub name: String,
    pub value: TypeExpr,
    pub attrs: Vec<String>,
}

/// An item of generated code: a struct, a type alias, or anything else by its text.
#[derive(Debug)]
pub enum ItemDef {
    Struct(StructDef),
    Alias(AliasDef),
    Unsupported(String),
}

/// A type alias of generated code, by its name and attributes.
#[derive(Debug)]
pub struct TypeAlias {
    pub name: String,
    pub attrs: Vec<String>,
}

/// syn's `Type`, read only by the conversions below.
#[verifier::external_type_specification]
#[verifier::external_body]
pub struct ExType(Type);

/// syn's `TypePath`, read only by the conversions below.
#[verifier::external_type_specification]
#[verifier::external_body]
pub struct ExTypePath(TypePath);

/// syn's `PathSegment`, read only by the conversions below.
#[verifier::external_type_specification]
#[verifier::external_body]
pub struct ExPathSegment(PathSegment);

/// syn's `GenericArgument`, read only by the conversions below.
#[verifier::external_type_specification]
#[verifier::external_body]
pub struct ExGenericArgument(GenericArgument);

/// syn's `Field`, read only by the conversions below.
#[verifier::external_type_specification]
#[verifier::external_body]
pub struct ExField(Field);

/// syn's `Item`, read only by the conversions below.
#[verifier::external_type_specification]
#[verifier::external_body]
pub struct ExItem(Item);

/// Relies on syn's `Type`: a path type, or the text of any other.
#[verifier::external_body]
fn type_expr(ty: &Type) -> TypeExpr {
    match ty {
        Type::Path(p) => TypeExpr::Path(path_type(p)),
        _ => TypeExpr::Unsupported(ty.to_token_stream().to_string()),
    }
}

/// Relies on syn's `TypePath` and `Path::get_ident`: a path type's parts.
#[verifier::external_body]
fn path_type(p: &TypePath) -> PathType {
    PathType {
        ident: p.path.get_ident().map(|ident| ident.to_string()),
        qself: p.qself.as_ref().map(|q| q.ty.to_token_stream().to_string()),
        segments: p.path.segments.iter().map(path_segment).collect(),
    }
}

/// Relies on syn's `PathSegment`: a segment's name and its arguments.
#[verifier::external_body]
fn path_segment(s: &PathSegment) -> PathSegmentExpr {
    let arguments = match &s.arguments {
        PathArguments::None => PathArgs::Empty,
        PathArguments::AngleBracketed(a) => PathArgs::Angle(a.args.iter().map(generic_arg).collect()),
        PathArguments::Parenthesized(x) => PathArgs::Parenthesized(x.to_token_stream().to_string()),
    };
    PathSegmentExpr { ident: s.ident.to_string(), arguments }
}

/// Relies on syn's `GenericArgument`: a type argument, or the text of any other.
#[verifier::external_body]
fn generic_arg(a: &GenericArgument) -> GenericArg {
    match a {
        GenericArgument::Type(t) => GenericArg::Type(type_expr(t)),
        _ => GenericArg::Unsupported(a.to_token_stream().to_string()),
    }
}

/// Relies on syn's `Field`: a field's name, type and attributes.
#[verifier::external_body]
fn field_def(f: &Field) -> FieldDef {
    FieldDef {
        ident: f.ident.as_ref().map(|ident| ident.to_string()),
        ty: type_expr(&f.ty),
        attrs: f.attrs.iter().map(|attr| attr.to_token_stream().to_string()).collect(),
    }
}

/// Relies on syn's `Item`: a struct, a type alias, or the text of any other item.
#[verifier::external_body]
fn item_def(item: &Item) -> ItemDef {
    let attrs = |a: &Vec<syn::Attribute>| a.iter().map(|attr| attr.to_token_stream().to_string()).collect();
    match item {
        Item::Struct(s) => ItemDef::Struct(StructDef { name: s.ident.to_string(), attrs: attrs(&s.attrs), fields: s.fields.iter().map(field_def).collect() }),
        Item::Type(t) => ItemDef::Alias(AliasDef { name: t.ident.to_string(), value: type_expr(&t.ty), attrs: attrs(&t.attrs) }),
        _ => ItemDef::Unsupported(item.to_token_stream().to_string()),
    }
}

/// The items that syn reads from a file of Rust code, or its message.
pub uninterp spec fn parsed_code(code: Seq<char>) -> Result<Seq<ItemDef>, Seq<char>>;

/// Relies on `syn::parse_file`: the items of a file of Rust code, or the parser's message.
#[verifier::external_body]
pub fn parse_code(code: &String) -> (r: Result<Vec<ItemDef>, String>)
    ensures
        match parsed_code(code@) {
            Ok(items) => r is Ok && (r->Ok_0)@ == items,
            Err(m) => r is Err && (r->Err_0)@ == m,
        },
{
    syn::parse_file(code).map(|f| f.items.iter().map(item_def).collect()).map_err(|e| e.to_string())
}

pub struct FieldTypeModel {
    pub name: Seq<char>,
    pub min: Option<u64>,
    pub max: Option<u64>,
}

pub struct FieldModel {
    pub name: Seq<char>,
    pub field_type: FieldTypeModel,
    pub attributes: Seq<Seq<char>>,
}

pub struct StructModel {
    pub name: Seq<char>,
    pub attrs: Seq<Seq<char>>,
    pub fields: Seq<FieldModel>,
}

pub open spec fn field_type_model(t: FieldType) -> FieldTypeModel {
    FieldTypeModel { name: t.name@, min: t.min_occurrences, max: t.max_occurrences }
}

pub open spec fn field_model(f: FieldInfo) -> FieldModel {
    FieldModel { name: f.name@, field_type: field_type_model(f.field_type), attributes: texts(f.attributes) }
}

pub open spec fn struct_model(s: StructInfo) -> StructModel {
    StructModel {
        name: s.name@,
        attrs: texts(s.attrs),
        fields: Seq::new(s.fields.len() as nat, |i: int| field_model(s.fields[i])),
    }
}

pub open spec fn unsupported_code(what: Seq<char>) -> ErrorModel {
    ErrorModel::DataTypesFormat("Unsupported: "@ + what)
}

/// The bounds that a wrapper type gives a field.
pub open spec fn occurrences_of(wrapper: Seq<char>) -> Option<(Option<u64>, Option<u64>)> {
    if wrapper == "Option"@ {
        Some((Some(0u64), Some(1u64)))
    } else if wrapper == "Vec"@ {
        Some((Some(0u64), None))
    } else {
        None
    }
}

/// The field type that a type expression stands for.
pub open spec fn type_field(ty: TypeExpr) -> Result<FieldTypeModel, ErrorModel>
    decreases ty, 2int, 0int,
{
    match ty {
        TypeExpr::Path(p) => path_field(p),
        TypeExpr::Unsupported(t) => Err(unsupported_code(t@)),
    }
}

/// A path names its type directly (by a single name or a qualified self type) or wraps it.
pub open spec fn path_field(p: PathType) -> Result<FieldTypeModel, ErrorModel>
    decreases p, 2int, 0int,
{
    let name = match p.qself {
        Some(q) => Some(q@),
        None => opt_text(p.ident),
    };
    match name {
        Some(n) => Ok(FieldTypeModel { name: n, min: None, max: None }),
        None => wrapped_field(p),
    }
}

/// A wrapped type: the type in the first segment's arguments, with the wrapper's bounds.
pub open spec fn wrapped_field(p: PathType) -> Result<FieldTypeModel, ErrorModel>
    decreases p, 1int, 0int,
{
    if p.segments.len() == 0 {
        Err(ErrorModel::DataTypesFormat("No type found"@))
    } else {
        match segment_field(p.segments[0]) {
            Err(e) => Err(e),
            Ok(inner) => match occurrences_of(p.segments[0].ident@) {
                Some((mi, ma)) => Ok(FieldTypeModel { min: mi, max: ma, ..inner }),
                None => Err(unsupported_code(p.segments[0].ident@)),
            },
        }
    }
}

pub open spec fn segment_field(seg: PathSegmentExpr) -> Result<FieldTypeModel, ErrorModel>
    decreases seg, 2int, 0int,
{
    match seg.arguments {
        PathArgs::Angle(_) => args_field(seg, 0, None),
        PathArgs::Empty => Err(ErrorModel::DataTypesFormat("Unsupported: path without arguments"@)),
        PathArgs::Parenthesized(t) => Err(unsupported_code(t@)),
    }
}

/// The one type among a segment's arguments from index `i` on, `found` being the one before.
pub open spec fn args_field(seg: PathSegmentExpr, i: int, found: Option<FieldTypeModel>) -> Result<FieldTypeModel, ErrorModel>
    decreases seg, 1int, seg.arguments->Angle_0.len() - i,
{
    if !(seg.arguments is Angle) {
        Err(ErrorModel::DataTypesFormat("Unsupported: path without arguments"@))
    } else if i < 0 || i >= seg.arguments->Angle_0.len() {
        match found {
            Some(f) => Ok(f),
            None => Err(ErrorModel::DataTypesFormat("No arguments found"@)),
        }
    } else {
        match seg.arguments->Angle_0[i] {
            GenericArg::Unsupported(t) => Err(unsupported_code(t@)),
            GenericArg::Type(t) => match type_field(t) {
                Err(e) => Err(e),
                Ok(f) => if found is Some {
                    Err(ErrorModel::DataTypesFormat("Unsupported: several type arguments"@))
                } else {
                    args_field(seg, i + 1, Some(f))
                },
            },
        }
    }
}

pub open spec fn same_field_type(r: Result<FieldType, XMLGeneratorError>, s: Result<FieldTypeModel, ErrorModel>) -> bool {
    match s {
        Ok(m) => r is Ok && field_type_model(r->Ok_0) == m,
        Err(e) => r is Err && (r->Err_0)@ == e,
    }
}

fn copy_texts(v: &Vec<String>) -> (r: Vec<String>)
    ensures
        texts(r) == texts(*v),
{
    let mut r: Vec<String> = Vec::new();
    let mut i: usize = 0;
    while i < v.len()
        invariant
            i <= v.len(),
            r.len() == i,
            forall|j: int| 0 <= j < i ==> r[j]@ == v[j]@,
        decreases v.len() - i,
    {
        r.push(v[i].clone());
        i += 1;
    }
    assert(texts(r) =~= texts(*v));
    r
}

/// The field type that a type expression stands for.
pub fn get_field_type(field_type: &TypeExpr) -> (r: Result<FieldType, XMLGeneratorError>)
    ensures
        same_field_type(r, type_field(*field_type)),
    decreases field_type, 2int, 0int,
{
    match field_type {
        TypeExpr::Path(x) => find_field_type(x),
        TypeExpr::Unsupported(t) => Err(XMLGeneratorError::DataTypesFormatError(join_text("Unsupported: ", t))),
    }
}

/// A path's type: its single name or qualified self type, else the type it wraps.
pub fn find_field_type(type_path: &PathType) -> (r: Result<FieldType, XMLGeneratorError>)
    ensures
        same_field_type(r, path_field(*type_path)),
    decreases type_path, 2int, 0int,
{
    let mut name = match &type_path.ident {
        Some(ident) => Some(ident.clone()),
        None => None,
    };
    if let Some(qself) = &type_path.qself {
        name = Some(qself.clone());
    }
    match name {
        Some(name) => Ok(FieldType { name, min_occurrences: None, max_occurrences: None }),
        None => generate_field_type(type_path),
    }
}

/// The type that a wrapper (`Option`, `Vec`) holds, with the wrapper's bounds.
pub fn generate_field_type(type_path: &PathType) -> (r: Result<FieldType, XMLGeneratorError>)
    ensures
        same_field_type(r, wrapped_field(*type_path)),
    decreases type_path, 1int, 0int,
{
    if type_path.segments.len() == 0 {
        return Err(format_error("No type found"));
    }
    let segment = &type_path.segments[0];
    let mut field_type = match get_arguments(segment) {
        Ok(t) => t,
        Err(e) => {
            return Err(e);
        },
    };
    proof {
        reveal_strlit("Option");
        reveal_strlit("Vec");
        assert("Option"@.len() != "Vec"@.len());
    }
    match wrapper_occurrences(&segment.ident) {
        Some((min, max)) => {
            field_type.min_occurrences = min;
            field_type.max_occurrences = max;
            Ok(field_type)
        },
        None => Err(XMLGeneratorError::DataTypesFormatError(join_text("Unsupported: ", &segment.ident))),
    }
}

/// The type among a segment's angle-bracketed arguments.
pub fn get_arguments(segment: &PathSegmentExpr) -> (r: Result<FieldType, XMLGeneratorError>)
    ensures
        same_field_type(r, segment_field(*segment)),
    decreases segment, 2int, 0int,
{
    match &segment.arguments {
        PathArgs::Empty => Err(format_error("Unsupported: path without arguments")),
        PathArgs::Angle(_) => sort_args(segment),
        PathArgs::Parenthesized(t) => Err(XMLGeneratorError::DataTypesFormatError(join_text("Unsupported: ", t))),
    }
}

/// The one type argument of a segment; other kinds of argument, or several, are unsupported.
pub fn sort_args(segment: &PathSegmentExpr) -> (r: Result<FieldType, XMLGeneratorError>)
    requires
        segment.arguments is Angle,
    ensures
        same_field_type(r, args_field(*segment, 0, None)),
    decreases segment, 1int, 0int,
{
    let args = match &segment.arguments {
        PathArgs::Angle(args) => args,
        _ => {
            return Err(format_error("Unsupported: path without arguments"));
        },
    };
    let mut output: Option<FieldType> = None;
    let mut i: usize = 0;
    while i < args.len()
        invariant
            segment.arguments is Angle,
            args == &segment.arguments->Angle_0,
            i <= args.len(),
            args_field(*segment, 0, None) == args_field(*segment, i as int, match output {
                Some(f) => Some(field_type_model(f)),
                None => None,
            }),
        decreases args.len() - i,
    {
        match &args[i] {
            GenericArg::Unsupported(t) => {
                return Err(XMLGeneratorError::DataTypesFormatError(join_text("Unsupported: ", t)));
            },
            GenericArg::Type(t) => {
                let result = match get_field_type(t) {
                    Ok(f) => f,
                    Err(e) => {
                        return Err(e);
                    },
                };
                if output.is_some() {
                    return Err(format_error("Unsupported: several type arguments"));
                }
                output = Some(result);
            },
        }
        i += 1;
    }
    match output {
        Some(f) => Ok(f),
        None => Err(format_error("No arguments found")),
    }
}

pub open spec fn opt_struct_model(o: Option<StructInfo>) -> Option<StructModel> {
    match o {
        Some(x) => Some(struct_model(x)),
        None => None,
    }
}

/// A named field with the type it stands for and its attributes.
pub open spec fn field_of(f: FieldDef) -> Result<FieldModel, ErrorModel> {
    match f.ident {
        None => Err(ErrorModel::DataTypesFormat("Unsupported: unnamed field"@)),
        Some(ident) => match type_field(f.ty) {
            Err(e) => Err(e),
            Ok(t) => Ok(FieldModel { name: ident@, field_type: t, attributes: texts(f.attrs) }),
        },
    }
}

pub open spec fn fields_from(s: StructDef, i: int) -> Result<Seq<FieldModel>, ErrorModel>
    decreases s.fields.len() - i,
{
    if i < 0 || i >= s.fields.len() {
        Ok(Seq::empty())
    } else {
        match field_of(s.fields[i]) {
            Err(e) => Err(e),
            Ok(f) => match fields_from(s, i + 1) {
                Err(e) => Err(e),
                Ok(rest) => Ok(seq![f] + rest),
            },
        }
    }
}

pub open spec fn struct_of(s: StructDef) -> Result<StructModel, ErrorModel> {
    match fields_from(s, 0) {
        Err(e) => Err(e),
        Ok(fs) => Ok(StructModel { name: s.name@, attrs: texts(s.attrs), fields: fs }),
    }
}

pub open spec fn item_struct(item: ItemDef) -> Result<Option<StructModel>, ErrorModel> {
    match item {
        ItemDef::Struct(x) => match struct_of(x) {
            Ok(m) => Ok(Some(m)),
            Err(e) => Err(e),
        },
        ItemDef::Alias(_) => Ok(None),
        ItemDef::Unsupported(t) => Err(unsupported_code(t@)),
    }
}

pub open spec fn item_alias(item: ItemDef) -> Result<Option<Seq<char>>, ErrorModel> {
    match item {
        ItemDef::Alias(a) => Ok(Some(a.name@)),
        ItemDef::Struct(_) => Ok(None),
        ItemDef::Unsupported(t) => Err(unsupported_code(t@)),
    }
}

/// The structs of generated code from index `i` on, in order; any item but a struct or a
/// type alias is unsupported.
pub open spec fn structs_from(items: Seq<ItemDef>, i: int) -> Result<Seq<StructModel>, ErrorModel>
    decreases items.len() - i,
{
    if i < 0 || i >= items.len() {
        Ok(Seq::empty())
    } else {
        match item_alias(items[i]) {
            Err(e) => Err(e),
            Ok(_) => match item_struct(items[i]) {
                Err(e) => Err(e),
                Ok(o) => match structs_from(items, i + 1) {
                    Err(e) => Err(e),
                    Ok(rest) => Ok(crate::collect::opt_prepend(o, rest)),
                },
            },
        }
    }
}

/// A field of a struct: its name, the type it stands for, its attributes.
pub fn get_field(field: &FieldDef) -> (r: Result<FieldInfo, XMLGeneratorError>)
    ensures
        match field_of(*field) {
            Ok(m) => r is Ok && field_model(r->Ok_0) == m,
            Err(e) => r is Err && (r->Err_0)@ == e,
        },
{
    let name = match &field.ident {
        Some(ident) => ident.clone(),
        None => {
            return Err(format_error("Unsupported: unnamed field"));
        },
    };
    let field_type = match get_field_type(&field.ty) {
        Ok(t) => t,
        Err(e) => {
            return Err(e);
        },
    };
    let attributes = copy_texts(&field.attrs);
    Ok(FieldInfo { name, field_type, attributes })
}

/// A struct with its fields in order.
pub fn get_struct_info(struct_item: &StructDef) -> (r: Result<StructInfo, XMLGeneratorError>)
    ensures
        match struct_of(*struct_item) {
            Ok(m) => r is Ok && struct_model(r->Ok_0) == m,
            Err(e) => r is Err && (r->Err_0)@ == e,
        },
{
    let mut fields: Vec<FieldInfo> = Vec::new();
    let ghost sd = *struct_item;
    let mut i: usize = 0;
    while i < struct_item.fields.len()
        invariant
            sd == *struct_item,
            i <= struct_item.fields.len(),
            fields_from(sd, 0) == match fields_from(sd, i as int) {
                Ok(rest) => Ok(Seq::new(fields.len() as nat, |k: int| field_model(fields[k])) + rest),
                Err(e) => Err(e),
            },
        decreases struct_item.fields.len() - i,
    {
        let field = match get_field(&struct_item.fields[i]) {
            Ok(f) => f,
            Err(e) => {
                return Err(e);
            },
        };
        let ghost before = Seq::new(fields.len() as nat, |k: int| field_model(fields[k]));
        let ghost m = field_model(field);
        fields.push(field);
        proof {
            assert(Seq::new(fields.len() as nat, |k: int| field_model(fields[k])) =~= before.push(m));
            if let Ok(rest) = fields_from(sd, i + 1) {
                crate::error::lemma_push_concat(before, m, rest);
            }
        }
        i += 1;
    }
    let r = StructInfo { name: struct_item.name.clone(), attrs: copy_texts(&struct_item.attrs), fields };
    assert(struct_model(r).fields + Seq::<FieldModel>::empty() =~= struct_model(r).fields);
    Ok(r)
}

/// The struct that an item declares, if it is one.
pub fn get_struct(item: &ItemDef) -> (r: Result<Option<StructInfo>, XMLGeneratorError>)
    ensures
        match item_struct(*item) {
            Ok(Some(m)) => r is Ok && (r->Ok_0) is Some && struct_model((r->Ok_0)->Some_0) == m,
            Ok(None) => r is Ok && (r->Ok_0) is None,
            Err(e) => r is Err && (r->Err_0)@ == e,
        },
{
    match item {
        ItemDef::Struct(x) => match get_struct_info(x) {
            Ok(s) => Ok(Some(s)),
            Err(e) => Err(e),
        },
        ItemDef::Alias(_) => Ok(None),
        ItemDef::Unsupported(t) => Err(XMLGeneratorError::DataTypesFormatError(join_text("Unsupported: ", t))),
    }
}

/// The type alias that an item declares, if it is one.
pub fn get_type_alias(item: &ItemDef) -> (r: Result<Option<TypeAlias>, XMLGeneratorError>)
    ensures
        match item_alias(*item) {
            Ok(Some(n)) => r is Ok && (r->Ok_0) is Some && ((r->Ok_0)->Some_0).name@ == n,
            Ok(None) => r is Ok && (r->Ok_0) is None,
            Err(e) => r is Err && (r->Err_0)@ == e,
        },
{
    match item {
        ItemDef::Alias(a) => Ok(Some(TypeAlias { name: a.name.clone(), attrs: copy_texts(&a.attrs) })),
        ItemDef::Struct(_) => Ok(None),
        ItemDef::Unsupported(t) => Err(XMLGeneratorError::DataTypesFormatError(join_text("Unsupported: ", t))),
    }
}

/// The type aliases and the structs of generated code, each in order.
pub fn get_data(items: &Vec<ItemDef>) -> (r: Result<(Vec<TypeAlias>, Vec<StructInfo>), XMLGeneratorError>)
    ensures
        match structs_from(items@, 0) {
            Ok(ms) => r is Ok && Seq::new((r->Ok_0).1.len() as nat, |k: int| struct_model((r->Ok_0).1[k])) == ms,
            Err(e) => r is Err && (r->Err_0)@ == e,
        },
{
    let mut type_aliases: Vec<TypeAlias> = Vec::new();
    let mut structs: Vec<StructInfo> = Vec::new();
    let ghost all = items@;
    let mut i: usize = 0;
    while i < items.len()
        invariant
            all == items@,
            i <= items.len(),
            structs_from(all, 0) == match structs_from(all, i as int) {
                Ok(rest) => Ok(Seq::new(structs.len() as nat, |k: int| struct_model(structs[k])) + rest),
                Err(e) => Err(e),
            },
        decreases items.len() - i,
    {
        match get_type_alias(&items[i]) {
            Ok(Some(alias)) => type_aliases.push(alias),
            Ok(None) => {},
            Err(e) => {
                return Err(e);
            },
        }
        let found = match get_struct(&items[i]) {
            Ok(s) => s,
            Err(e) => {
                return Err(e);
            },
        };
        let ghost before = Seq::new(structs.len() as nat, |k: int| struct_model(structs[k]));
        let ghost o = opt_struct_model(found);
        if let Some(x) = found {
            structs.push(x);
        }
        proof {
            assert(Seq::new(structs.len() as nat, |k: int| struct_model(structs[k])) =~= crate::collect::opt_push(before, o));
            if let Ok(rest) = structs_from(all, i + 1) {
                match o {
                    Some(x) => crate::error::lemma_push_concat(before, x, rest),
                    None => {},
                }
            }
        }
        i += 1;
    }
    assert(Seq::new(structs.len() as nat, |k: int| struct_model(structs[k])) + Seq::<StructModel>::empty()
        =~= Seq::new(structs.len() as nat, |k: int| struct_model(structs[k])));
    Ok((type_aliases, structs))
}

/// The outcome for a list of structs: no root, the error of the tree from the root, or the
/// written document of a tree with the root's shape.
pub open spec fn struct_document(r: Result<String, XMLGeneratorError>, structs: Seq<StructInfo>) -> bool {
    match first_root(structs, 0) {
        None => r is Err && (r->Err_0)@ == ErrorModel::DataTypesFormat("No root structs found"@),
        Some(k) => match struct_element(structs[k], structs, struct_fuel(structs.len() as int)) {
            Err(e) => r is Err && (r->Err_0)@ == e,
            Ok(sh) => r is Ok && exists|n: XmlNode|
                #[trigger] struct_conforms(n, sh) && (r->Ok_0)@ == crate::output::rendered_document(crate::tree::tree_view(n)),
        },
    }
}

/// Generates an XML document of fake data from Rust code generated for a schema: its structs
/// are read, the struct that no field uses becomes the root, and the tree from it is written
/// out as XML 1.1.
pub fn generate_struct_xml<F: FloatSource>(code: &String, floats: &mut F) -> (r: Result<String, XMLGeneratorError>)
    ensures
        match parsed_code(code@) {
            Err(m) => r is Err && (r->Err_0)@ == ErrorModel::XsdParser(m),
            Ok(items) => match structs_from(items, 0) {
                Err(e) => r is Err && (r->Err_0)@ == e,
                Ok(ms) => exists|structs: Seq<StructInfo>|
                    Seq::new(structs.len(), |k: int| struct_model(structs[k])) == ms && struct_document(r, structs),
            },
        },
{
    let items = match parse_code(code) {
        Ok(items) => items,
        Err(message) => {
            return Err(XMLGeneratorError::XSDParserError(message));
        },
    };
    let (_type_aliases, structs) = match get_data(&items) {
        Ok(data) => data,
        Err(e) => {
            return Err(e);
        },
    };
    let ghost ms = Seq::new(structs@.len(), |k: int| struct_model(structs@[k]));
    assert(ms =~= Seq::new(structs.len() as nat, |k: int| struct_model(structs[k])));
    let root = match generate_struct_tree(&structs, floats) {
        Ok(root) => root,
        Err(e) => {
            let r: Result<String, XMLGeneratorError> = Err(e);
            assert(struct_document(r, structs@));
            return r;
        },
    };
    let ghost k = first_root(structs@, 0)->Some_0;
    let ghost bound = struct_fuel(structs.len() as int);
    let ghost sh = struct_element(structs@[k], structs@, bound)->Ok_0;
    proof {
        crate::rust_structs::struct_conforming_is_well_formed(root, sh);
    }
    let r = crate::output::generate_output(&root);
    assert(struct_conforms(root, sh) && (r->Ok_0)@ == crate::output::rendered_document(crate::tree::tree_view(root)));
    assert(struct_document(r, structs@));
    r
}

} // verus!
