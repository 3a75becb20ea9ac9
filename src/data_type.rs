//! The closed set of parameter data types and the resolver from type tokens.
use vstd::prelude::*;
use crate::text::{eq_ignore_case, str_eq_ignore_case};

verus! {

/// The data type declared for a parameter.
#[derive(Clone, Copy, Debug, PartialEq, Eq, Structural)]
pub enum DATA_TYPE {
    STRING,
    BOOL,
    SWITCH,
    UI32,
    UI64,
    I32,
    I64,
    F32,
    F64,
    CREDENTIAL,
    NONE,
}

/// The data type that a type token names, ignoring ASCII case. Tokens outside
/// the table, the empty one included, name `NONE`.
pub open spec fn resolve_spec(t: Seq<char>) -> DATA_TYPE {
    if eq_ignore_case(t, "string"@) {
        DATA_TYPE::STRING
    } else if eq_ignore_case(t, "int"@) || eq_ignore_case(t, "int32"@) {
        DATA_TYPE::I32
    } else if eq_ignore_case(t, "int64"@) {
        DATA_TYPE::I64
    } else if eq_ignore_case(t, "single"@) || eq_ignore_case(t, "float"@) {
        DATA_TYPE::F32
    } else if eq_ignore_case(t, "double"@) {
        DATA_TYPE::F64
    } else if eq_ignore_case(t, "pscredential"@) {
        DATA_TYPE::CREDENTIAL
    } else {
        DATA_TYPE::NONE
    }
}

/// Looks a type token up in the table of known types. Never fails: an unknown
/// or empty token gives `DATA_TYPE::NONE`.
pub fn resolve(token: &str) -> (r: DATA_TYPE)
    ensures
        r == resolve_spec(token@),
{
    if str_eq_ignore_case(token, "string") {
        DATA_TYPE::STRING
    } else if str_eq_ignore_case(token, "int") || str_eq_ignore_case(token, "int32") {
        DATA_TYPE::I32
    } else if str_eq_ignore_case(token, "int64") {
        DATA_TYPE::I64
    } else if str_eq_ignore_case(token, "single") || str_eq_ignore_case(token, "float") {
        DATA_TYPE::F32
    } else if str_eq_ignore_case(token, "double") {
        DATA_TYPE::F64
    } else if str_eq_ignore_case(token, "pscredential") {
        DATA_TYPE::CREDENTIAL
    } else {
        DATA_TYPE::NONE
    }
}

} // verus!
