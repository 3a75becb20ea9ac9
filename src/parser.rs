//! Parsing of one parameter declaration into a `Parameter`.
use vstd::prelude::*;
use crate::parameter::{Parameter, ParameterError, ParameterModel};
use crate::scanner::{Phase, ScanModel, Scanner, initial, run_from};
use crate::text::{eq_ignore_case, is_blank, is_blank_char, str_eq_ignore_case};

verus! {

/// The input with every whitespace character removed.
pub open spec fn remove_blanks(s: Seq<char>) -> Seq<char>
    decreases s.len(),
{
    if s.len() == 0 {
        s
    } else if is_blank(s.last()) {
        remove_blanks(s.drop_last())
    } else {
        remove_blanks(s.drop_last()).push(s.last())
    }
}

/// The parameter that a scan ending in `s` describes, with the given default.
pub open spec fn model_of(s: ScanModel, default_value: Option<bool>) -> ParameterModel {
    ParameterModel {
        name: s.name,
        data_type: s.data_type,
        default_value,
        mandatory: s.mandatory,
        parameter_set_name: s.set_name,
        help: s.help,
    }
}

/// The outcome of a scan that ended in state `s`:
/// - no `$` anywhere, or each `$` inside a section that was closed again, so
///   that no name was ever started: `NotFound`;
/// - a structural error, a section, attribute list or help comment left open
///   around a `$`, an empty name, or a default value other than `true` /
///   `false` (ASCII case ignored): `FailedToParse`;
/// - else the parameter, with a default value only where `=` followed the name.
pub open spec fn finish_spec(s: ScanModel) -> Result<ParameterModel, ParameterError> {
    if !s.seen_dollar {
        Err(ParameterError::NotFound)
    } else if s.failed {
        Err(ParameterError::FailedToParse)
    } else {
        match s.phase {
            Phase::Before => if s.in_section || s.in_subsection || s.in_comment {
                Err(ParameterError::FailedToParse)
            } else {
                Err(ParameterError::NotFound)
            },
            Phase::Name => if s.name.len() == 0 {
                Err(ParameterError::FailedToParse)
            } else {
                Ok(model_of(s, None))
            },
            Phase::Default => if eq_ignore_case(s.default_buf, "true"@) {
                Ok(model_of(s, Some(true)))
            } else if eq_ignore_case(s.default_buf, "false"@) {
                Ok(model_of(s, Some(false)))
            } else {
                Err(ParameterError::FailedToParse)
            },
        }
    }
}

/// What parsing the declaration `p` gives: the scanner runs over `p` without
/// its whitespace, and its last state decides.
pub open spec fn parse_spec(p: Seq<char>) -> Result<ParameterModel, ParameterError> {
    finish_spec(run_from(initial(), remove_blanks(p)))
}

pub open spec fn result_view(r: Result<Parameter, ParameterError>) -> Result<
    ParameterModel,
    ParameterError,
> {
    match r {
        Ok(v) => Ok(v@),
        Err(e) => Err(e),
    }
}

fn finish(sc: Scanner) -> (r: Result<Parameter, ParameterError>)
    ensures
        result_view(r) == finish_spec(sc@),
{
    if !sc.seen_dollar {
        return Err(ParameterError::NotFound);
    }
    if sc.failed {
        return Err(ParameterError::FailedToParse);
    }
    let default_value = match sc.phase {
        Phase::Before => {
            if sc.in_section || sc.in_subsection || sc.in_comment {
                return Err(ParameterError::FailedToParse);
            }
            return Err(ParameterError::NotFound);
        },
        Phase::Name => {
            if sc.name.unicode_len() == 0 {
                return Err(ParameterError::FailedToParse);
            }
            None
        },
        Phase::Default => {
            if str_eq_ignore_case(sc.default_buf.as_str(), "true") {
                Some(true)
            } else if str_eq_ignore_case(sc.default_buf.as_str(), "false") {
                Some(false)
            } else {
                return Err(ParameterError::FailedToParse);
            }
        },
    };
    Ok(
        Parameter::new(
            sc.name,
            sc.data_type,
            default_value,
            sc.mandatory,
            sc.set_name,
            sc.help,
        ),
    )
}

/// Parses one parameter declaration such as
/// `[Parameter(Mandatory=$true)] [string] $Name = $false`.
pub fn parse_parameter(p: &str) -> (r: Result<Parameter, ParameterError>)
    ensures
        result_view(r) == parse_spec(p@),
{
    let n = p.unicode_len();
    let mut sc = Scanner::new();
    let mut i: usize = 0;
    while i < n
        invariant
            n == p@.len(),
            i <= n,
            sc@ == run_from(initial(), remove_blanks(p@.take(i as int))),
        decreases n - i,
    {
        let c = p.get_char(i);
        proof {
            let pre = p@.take(i as int);
            assert(p@.take(i + 1).drop_last() =~= pre);
            assert(remove_blanks(pre).push(c).drop_last() =~= remove_blanks(pre));
        }
        if !is_blank_char(c) {
            sc.step(c);
        }
        i = i + 1;
    }
    proof {
        assert(p@.take(n as int) =~= p@);
    }
    finish(sc)
}

} // verus!
