//! Reading YAML text into a [`GenericValue`] through serde_yaml.
use vstd::prelude::*;
use crate::value::{GenericValue, Numeric};

verus! {

#[verifier::external_type_specification]
#[verifier::external_body]
pub struct ExYamlValue(serde_yaml::Value);

#[verifier::external_type_specification]
#[verifier::external_body]
pub struct ExYamlNumber(serde_yaml::Number);

/// The value that serde_yaml reads from a YAML document, or none where the
/// text is not one well-formed document.
pub uninterp spec fn yaml_document(text: Seq<char>) -> Option<GenericValue>;

/// Relies on serde_yaml::Number::as_u64 and as_i64 to tell a non-negative
/// integer from a negative one, and on its Display for the text of a float.
#[verifier::external_body]
fn number_of(n: &serde_yaml::Number) -> Numeric {
    match (n.as_u64(), n.as_i64()) {
        (Some(u), _) => Numeric::PosInt(u),
        (None, Some(i)) => Numeric::NegInt(i),
        (None, None) => Numeric::Float(n.to_string()),
    }
}

/// Carries a serde_yaml::Value over variant by variant; a tagged value
/// becomes the value it tags.
#[verifier::external_body]
fn generic_of(v: serde_yaml::Value) -> GenericValue {
    match v {
        serde_yaml::Value::Null => GenericValue::Null,
        serde_yaml::Value::Bool(b) => GenericValue::Bool(b),
        serde_yaml::Value::Number(n) => GenericValue::Number(number_of(&n)),
        serde_yaml::Value::String(s) => GenericValue::String(s),
        serde_yaml::Value::Sequence(l) => GenericValue::List(l.into_iter().map(generic_of).collect()),
        serde_yaml::Value::Mapping(m) => GenericValue::Mapping(
            m.into_iter().map(|(k, x)| (generic_of(k), generic_of(x))).collect(),
        ),
        serde_yaml::Value::Tagged(t) => generic_of(t.value),
    }
}

/// Relies on serde_yaml::from_str reading `text` as one YAML document: the
/// value depends on the text alone; on failure the parser's message is kept.
#[verifier::external_body]
pub(crate) fn parse_yaml(text: &str) -> (r: Result<GenericValue, String>)
    ensures
        r is Ok <==> yaml_document(text@) is Some,
        r matches Ok(v) ==> yaml_document(text@) == Some(v),
{
    match serde_yaml::from_str::<serde_yaml::Value>(text) {
        Ok(v) => Ok(generic_of(v)),
        Err(e) => Err(e.to_string()),
    }
}

} // verus!
