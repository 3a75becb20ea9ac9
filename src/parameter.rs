//! The result of parsing a declaration, and the ways parsing can fail.
use vstd::prelude::*;
use crate::data_type::DATA_TYPE;

verus! {

/// Why a declaration could not be parsed.
#[derive(Clone, Copy, Debug, PartialEq, Eq, Structural)]
pub enum ParameterError {
    /// No name was ever started: the input holds no `$`, or each `$` stands
    /// inside a section that is closed again.
    NotFound,
    /// A `$` is present but the structure around it is malformed, or a
    /// section, attribute list or help comment is left open.
    FailedToParse,
}

impl ParameterError {
    /// A short description of the error.
    pub fn message(&self) -> (r: String)
        ensures
            *self == ParameterError::NotFound ==> r@ == "no parameter found"@,
            *self == ParameterError::FailedToParse ==> r@ == "failed to parse parameter"@,
    {
        match self {
            ParameterError::NotFound => String::from_str("no parameter found"),
            ParameterError::FailedToParse => String::from_str("failed to parse parameter"),
        }
    }
}

/// A parsed parameter declaration.
#[derive(Debug, PartialEq, Eq)]
pub struct Parameter {
    pub name: String,
    pub data_type: DATA_TYPE,
    pub default_value: Option<bool>,
    pub mandatory: bool,
    pub parameter_set_name: Option<String>,
    pub help: Option<String>,
}

/// The mathematical value of a `Parameter`.
pub struct ParameterModel {
    pub name: Seq<char>,
    pub data_type: DATA_TYPE,
    pub default_value: Option<bool>,
    pub mandatory: bool,
    pub parameter_set_name: Option<Seq<char>>,
    pub help: Option<Seq<char>>,
}

pub open spec fn opt_view(o: Option<String>) -> Option<Seq<char>> {
    match o {
        Some(s) => Some(s@),
        None => None,
    }
}

impl View for Parameter {
    type V = ParameterModel;

    open spec fn view(&self) -> ParameterModel {
        ParameterModel {
            name: self.name@,
            data_type: self.data_type,
            default_value: self.default_value,
            mandatory: self.mandatory,
            parameter_set_name: opt_view(self.parameter_set_name),
            help: opt_view(self.help),
        }
    }
}

impl Parameter {
    /// A parameter with an empty name, no type, no default, not mandatory, in
    /// no parameter set and without help.
    pub fn new_empty() -> (r: Self)
        ensures
            r@ == (ParameterModel {
                name: Seq::empty(),
                data_type: DATA_TYPE::NONE,
                default_value: None,
                mandatory: false,
                parameter_set_name: None,
                help: None,
            }),
    {
        Parameter {
            name: String::new(),
            data_type: DATA_TYPE::NONE,
            default_value: None,
            mandatory: false,
            parameter_set_name: None,
            help: None,
        }
    }

    /// A parameter with the given fields.
    pub fn new(
        name: String,
        data_type: DATA_TYPE,
        default_value: Option<bool>,
        mandatory: bool,
        parameter_set_name: Option<String>,
        help: Option<String>,
    ) -> (r: Self)
        ensures
            r.name == name,
            r.data_type == data_type,
            r.default_value == default_value,
            r.mandatory == mandatory,
            r.parameter_set_name == parameter_set_name,
            r.help == help,
    {
        Parameter { name, data_type, default_value, mandatory, parameter_set_name, help }
    }
}

} // verus!
