use vstd::prelude::*;
use fake::{Fake, Faker};
use rand::{RngExt, SeedableRng};
use crate::model::texts;
use vstd::std_specs::iter::IteratorSpec;

verus! {

/// Draws the text of random floating-point numbers, which this library leaves to its caller.
pub trait FloatSource {
    /// The text of a random 32-bit float.
    fn decimal_text(&mut self) -> String;

    /// The text of a random 64-bit float.
    fn double_text(&mut self) -> String;
}

/// The text of `s` in lower case, as `str::to_lowercase` gives it.
pub uninterp spec fn lower_of(s: Seq<char>) -> Seq<char>;

/// The one string that the seeded sampler draws from the language of a pattern, or `None`
/// where the pattern does not compile or the sample is not UTF-8 (for the patterns that
/// `sampler_safe` admits).
pub uninterp spec fn pattern_sample(pattern: Seq<char>) -> Option<Seq<char>>;

pub open spec fn digit_chars() -> Seq<char> {
    seq!['0', '1', '2', '3', '4', '5', '6', '7', '8', '9']
}

/// The decimal digits of `n`, most significant first, without leading zeros.
pub open spec fn digits(n: nat) -> Seq<char>
    decreases n,
{
    if n < 10 {
        seq![digit_chars()[n as int]]
    } else {
        digits(n / 10).push(digit_chars()[(n % 10) as int])
    }
}

/// The decimal text of an integer: a minus sign for a negative one, then its digits.
pub open spec fn decimal_text(v: int) -> Seq<char> {
    if v < 0 {
        seq!['-'] + digits((-v) as nat)
    } else {
        digits(v as nat)
    }
}

/// The base names that have a generator of their own.
pub open spec fn is_primitive(name: Seq<char>) -> bool {
    ||| name == "boolean"@
    ||| name == "decimal"@
    ||| name == "double"@
    ||| name == "integer"@
    ||| name == "positiveInteger"@
    ||| name == "string"@
}

/// `v` is a text that the generator of base `name` can produce.
pub open spec fn primitive_value(name: Seq<char>, v: Seq<char>) -> bool {
    if name == "boolean"@ {
        v == "true"@ || v == "false"@
    } else if name == "integer"@ {
        exists|i: i32| v == decimal_text(i as int)
    } else if name == "positiveInteger"@ {
        exists|u: u32| v == decimal_text(u as int)
    } else if name == "string"@ {
        alphanumeric_text(v)
    } else {
        is_primitive(name)
    }
}

pub open spec fn is_alphanumeric(c: char) -> bool {
    ('a' <= c && c <= 'z') || ('A' <= c && c <= 'Z') || ('0' <= c && c <= '9')
}

/// Printable text as fake draws it: 5 to 19 ASCII letters and digits.
pub open spec fn alphanumeric_text(v: Seq<char>) -> bool {
    5 <= v.len() < 20 && forall|i: int| 0 <= i < v.len() ==> is_alphanumeric(#[trigger] v[i])
}

/// A base and one pattern facet, where the base is `string` in any case.
pub open spec fn is_pattern_chain(tokens: Seq<Seq<char>>) -> bool {
    tokens.len() == 2 && lower_of(tokens[0]) == "string"@
}

/// The value generator produces a value for this chain of base and facets.
pub open spec fn generates(tokens: Seq<Seq<char>>) -> bool {
    ||| (tokens.len() == 1 && is_primitive(tokens[0]))
    ||| (is_pattern_chain(tokens) && sampler_safe(tokens[1]) && pattern_sample(tokens[1]) is Some)
}

/// `v` is a value that the value generator can produce for this chain.
pub open spec fn is_value_of(tokens: Seq<Seq<char>>, v: Seq<char>) -> bool {
    ||| (tokens.len() == 1 && primitive_value(tokens[0], v))
    ||| (is_pattern_chain(tokens) && sampler_safe(tokens[1]) && pattern_sample(tokens[1]) == Some(v))
}

/// Relies on fake's `Faker` for `bool`: a random truth value.
#[verifier::external_body]
fn fake_bool() -> bool {
    Faker.fake::<bool>()
}

/// Relies on fake's `Faker` for `i32`: a random 32-bit signed integer.
#[verifier::external_body]
fn fake_i32() -> i32 {
    Faker.fake::<i32>()
}

/// Relies on fake's `Faker` for `u32`: a random 32-bit unsigned integer.
#[verifier::external_body]
fn fake_u32() -> u32 {
    Faker.fake::<u32>()
}

/// Relies on fake's `Faker` for `String`: 5 to 19 characters drawn from `Alphanumeric`.
#[verifier::external_body]
pub(crate) fn fake_text() -> (r: String)
    ensures
        alphanumeric_text(r@),
{
    Faker.fake::<String>()
}

/// Relies on `i64`'s `to_string`: the decimal text of the integer.
#[verifier::external_body]
pub(crate) fn int_text(v: i64) -> (r: String)
    ensures
        r@ == decimal_text(v as int),
{
    v.to_string()
}

/// Relies on `str::to_lowercase`: the result depends on the characters alone.
#[verifier::external_body]
fn lowercase(s: &String) -> (r: String)
    ensures
        r@ == lower_of(s@),
{
    s.to_lowercase()
}

/// Relies on rand_regex's `Regex::compile` (at most one extra repetition) and one sample of it
/// drawn with a xorshift generator of a fixed seed, so that a pattern always gives one string.
/// Only patterns whose repetition counts keep the compiler's counters from overflowing are
/// admitted.
#[verifier::external_body]
fn sample_pattern(pattern: &String) -> (r: Option<String>)
    requires
        sampler_safe(pattern@),
    ensures
        match pattern_sample(pattern@) {
            Some(v) => r is Some && r->Some_0@ == v,
            None => r is None,
        },
{
    let mut rng = rand_xorshift::XorShiftRng::from_seed([0; 16]);
    let generator = rand_regex::Regex::compile(pattern, 1).ok()?;
    rng.sample::<Result<String, std::string::FromUtf8Error>, _>(&generator).ok()
}

/// How much one character adds to a pattern's repetition weight: a `*`, `+` or `?` may double
/// the sampler's counts, a digit of a count in braces may multiply them by ten.
pub open spec fn char_weight(c: char, in_braces: bool) -> nat {
    if c == '*' || c == '+' || c == '?' {
        1
    } else if in_braces && '0' <= c && c <= '9' {
        4
    } else {
        0
    }
}

pub open spec fn braces_after(c: char, in_braces: bool) -> bool {
    if c == '{' {
        true
    } else if c == '}' {
        false
    } else {
        in_braces
    }
}

/// The repetition weight of a pattern from index `i` on: a bound, in powers of two, on the
/// product of all repetition counts in it.
pub open spec fn repetition_weight(p: Seq<char>, i: int, in_braces: bool) -> nat
    decreases p.len() - i,
{
    if i < 0 || i >= p.len() {
        0
    } else {
        char_weight(p[i], in_braces) + repetition_weight(p, i + 1, braces_after(p[i], in_braces))
    }
}

/// A pattern short enough, and with repetition counts small enough, that the sampler's
/// counters and capacity cannot overflow: the product of all repetition bounds stays within
/// 2^32, which every `u32` count and, on a 64-bit target, the `usize` capacity can hold.
pub open spec fn sampler_safe(p: Seq<char>) -> bool {
    &&& usize::MAX == u64::MAX
    &&& p.len() <= 500
    &&& repetition_weight(p, 0, false) <= 32
}

/// Decides `sampler_safe` for a pattern.
pub fn pattern_is_safe(pattern: &String) -> (r: bool)
    ensures
        r == sampler_safe(pattern@),
{
    let ghost p = pattern@;
    if (usize::MAX as u64) < u64::MAX {
        return false;
    }
    let mut it = pattern.as_str().chars();
    let mut i: usize = 0;
    let mut in_braces = false;
    let mut weight: usize = 0;
    proof {
        broadcast use vstd::string::axiom_spec_iter;
    }
    loop
        invariant
            p == pattern@,
            it.remaining() == p.skip(i as int),
            i <= p.len(),
            i <= 500,
            weight <= 32,
            usize::MAX == u64::MAX,
            repetition_weight(p, 0, false) == weight + repetition_weight(p, i as int, in_braces),
        decreases p.len() - i,
    {
        match it.next() {
            None => {
                assert(p.skip(i as int).len() == 0);
                assert(repetition_weight(p, i as int, in_braces) == 0);
                return true;
            },
            Some(c) => {
                assert(c == p[i as int]);
                let w: usize = if c == '*' || c == '+' || c == '?' {
                    1
                } else if in_braces && '0' <= c && c <= '9' {
                    4
                } else {
                    0
                };
                if weight + w > 32 {
                    return false;
                }
                weight = weight + w;
                in_braces = if c == '{' { true } else if c == '}' { false } else { in_braces };
                assert(p.skip(i as int).drop_first() =~= p.skip(i + 1));
                if i == 500 {
                    return false;
                }
                i = i + 1;
            },
        }
    }
}

/// `s` holds exactly the text `w`.
pub fn same_text(s: &String, w: &str) -> (r: bool)
    ensures
        r == (s@ == w@),
{
    let owned = w.to_owned();
    s.eq(&owned)
}

/// A value for a base name alone, or `None` where the base has no generator.
pub fn generate_type<F: FloatSource>(value_type: &String, floats: &mut F) -> (r: Option<String>)
    ensures
        r is Some == is_primitive(value_type@),
        r is Some ==> primitive_value(value_type@, r->Some_0@),
{
    if same_text(value_type, "boolean") {
        let t = if fake_bool() {
            "true".to_owned()
        } else {
            "false".to_owned()
        };
        Some(t)
    } else if same_text(value_type, "integer") {
        let v = fake_i32();
        let t = int_text(v as i64);
        assert(t@ == decimal_text(v as int));
        Some(t)
    } else if same_text(value_type, "positiveInteger") {
        let v = fake_u32();
        let t = int_text(v as i64);
        assert(t@ == decimal_text(v as int));
        Some(t)
    } else if same_text(value_type, "decimal") {
        proof {
            reveal_strlit("decimal");
            reveal_strlit("string");
            assert("decimal"@.len() != "string"@.len());
        }
        Some(floats.decimal_text())
    } else if same_text(value_type, "double") {
        proof {
            reveal_strlit("double");
            reveal_strlit("string");
            assert("double"@[0] != "string"@[0]);
        }
        Some(floats.double_text())
    } else if same_text(value_type, "string") {
        Some(fake_text())
    } else {
        None
    }
}

/// A sample of `pattern` where the base is `string` in any case; `None` otherwise.
pub fn generate_regex(value_type: &String, pattern: &String) -> (r: Option<String>)
    ensures
        lower_of(value_type@) != "string"@ ==> r is None,
        lower_of(value_type@) == "string"@ && !sampler_safe(pattern@) ==> r is None,
        lower_of(value_type@) == "string"@ && sampler_safe(pattern@) ==> match pattern_sample(pattern@) {
            Some(v) => r is Some && r->Some_0@ == v,
            None => r is None,
        },
{
    let lowered = lowercase(value_type);
    if !same_text(&lowered, "string") || !pattern_is_safe(pattern) {
        return None;
    }
    sample_pattern(pattern)
}

/// A value for a chain of base name and facets: the base alone, or `string` with a pattern.
pub fn generate<F: FloatSource>(value_type: &Vec<String>, floats: &mut F) -> (r: Option<String>)
    ensures
        r is Some == generates(texts(*value_type)),
        r is Some ==> is_value_of(texts(*value_type), r->Some_0@),
{
    let ghost tokens = texts(*value_type);
    if value_type.len() == 1 {
        let r = generate_type(&value_type[0], floats);
        assert(!is_pattern_chain(tokens));
        r
    } else if value_type.len() == 2 {
        let r = generate_regex(&value_type[0], &value_type[1]);
        assert(tokens[0] == value_type[0]@ && tokens[1] == value_type[1]@);
        r
    } else {
        None
    }
}

} // verus!
