use vstd::prelude::*;
use vstd::string::StringExecFns;

verus! {

/// The errors that generating a document can end in; each carries a message.
#[derive(Debug)]
pub enum XMLGeneratorError {
    /// No value can be produced for a leaf: its type is unknown or has no generator.
    DataTypeError(String),
    /// The schema text could not be parsed, or it uses a construct that is not supported.
    XSDParserError(String),
    /// The collected schema breaks an invariant: no root, several roots, contradictory
    /// declarations.
    DataTypesFormatError(String),
    /// The element tree could not be assembled or written out.
    XMLBuilderError(String),
}

/// What an error is, with its message as text.
pub enum ErrorModel {
    DataType(Seq<char>),
    XsdParser(Seq<char>),
    DataTypesFormat(Seq<char>),
    XmlBuilder(Seq<char>),
}

impl View for XMLGeneratorError {
    type V = ErrorModel;

    open spec fn view(&self) -> ErrorModel {
        match self {
            XMLGeneratorError::DataTypeError(m) => ErrorModel::DataType(m@),
            XMLGeneratorError::XSDParserError(m) => ErrorModel::XsdParser(m@),
            XMLGeneratorError::DataTypesFormatError(m) => ErrorModel::DataTypesFormat(m@),
            XMLGeneratorError::XMLBuilderError(m) => ErrorModel::XmlBuilder(m@),
        }
    }
}

pub fn data_type_error(msg: &str) -> (r: XMLGeneratorError)
    ensures
        r@ == ErrorModel::DataType(msg@),
{
    XMLGeneratorError::DataTypeError(msg.to_owned())
}

pub fn parser_error(msg: &str) -> (r: XMLGeneratorError)
    ensures
        r@ == ErrorModel::XsdParser(msg@),
{
    XMLGeneratorError::XSDParserError(msg.to_owned())
}

pub fn format_error(msg: &str) -> (r: XMLGeneratorError)
    ensures
        r@ == ErrorModel::DataTypesFormat(msg@),
{
    XMLGeneratorError::DataTypesFormatError(msg.to_owned())
}

pub fn builder_error(msg: &str) -> (r: XMLGeneratorError)
    ensures
        r@ == ErrorModel::XmlBuilder(msg@),
{
    XMLGeneratorError::XMLBuilderError(msg.to_owned())
}

} // verus!

verus! {

/// The two texts one after the other.
pub fn join_text(a: &str, b: &String) -> (r: String)
    ensures
        r@ == a@ + b@,
{
    a.to_owned().concat(b.as_str())
}

} // verus!

verus! {

/// An exec result against a spec result over views: the value's view, or the same error.
pub open spec fn same_outcome<T: View>(r: Result<T, XMLGeneratorError>, s: Result<T::V, ErrorModel>) -> bool {
    match s {
        Ok(m) => r is Ok && (r->Ok_0)@ == m,
        Err(e) => r is Err && (r->Err_0)@ == e,
    }
}

/// Appending one item and then a rest is appending the item's sequence with the rest.
pub proof fn lemma_push_concat<A>(acc: Seq<A>, x: A, rest: Seq<A>)
    ensures
        acc + (seq![x] + rest) == acc.push(x) + rest,
{
    assert(acc + (seq![x] + rest) =~= acc.push(x) + rest);
}

} // verus!
