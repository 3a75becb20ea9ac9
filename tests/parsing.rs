use param_block::{parse_parameter, resolve, Parameter, ParameterError, DATA_TYPE};

fn expected(
    name: &str,
    data_type: DATA_TYPE,
    default_value: Option<bool>,
    mandatory: bool,
    parameter_set_name: Option<&str>,
) -> Parameter {
    Parameter::new(
        name.to_string(),
        data_type,
        default_value,
        mandatory,
        parameter_set_name.map(|s| s.to_string()),
        None,
    )
}

#[test]
fn bare_declaration_with_true_default() {
    assert_eq!(
        parse_parameter("$Name = true"),
        Ok(expected("Name", DATA_TYPE::NONE, Some(true), false, None))
    );
    assert_eq!(
        parse_parameter("$Other2=false"),
        Ok(expected("Other2", DATA_TYPE::NONE, Some(false), false, None))
    );
}

#[test]
fn declaration_without_default() {
    assert_eq!(
        parse_parameter("[int64] $Count"),
        Ok(expected("Count", DATA_TYPE::I64, None, false, None))
    );
}

#[test]
fn every_table_token_types_the_parameter() {
    for t in ["string", "int", "int32", "int64", "single", "float", "double", "pscredential", ""] {
        let input = format!("[{}] $X", t);
        let p = parse_parameter(&input).unwrap();
        assert_eq!(p.data_type, resolve(t));
        assert_eq!(p.name, "X");
    }
    assert_eq!(parse_parameter("[single]$X").unwrap().data_type, DATA_TYPE::F32);
}

#[test]
fn unknown_type_token_gives_none() {
    assert_eq!(parse_parameter("[Boolean] $X").unwrap().data_type, DATA_TYPE::NONE);
    assert_eq!(parse_parameter("[System.String] $X").unwrap().data_type, DATA_TYPE::NONE);
}

#[test]
fn later_type_section_wins() {
    assert_eq!(parse_parameter("[int][string]$X").unwrap().data_type, DATA_TYPE::STRING);
    assert_eq!(
        parse_parameter("[double][ValidateNotNull()]$X").unwrap().data_type,
        DATA_TYPE::F64
    );
}

#[test]
fn parsing_twice_gives_equal_values() {
    let input = "[Parameter(Mandatory=$true, ParameterSetName=\"A\")][string]$Name=$false";
    assert_eq!(parse_parameter(input), parse_parameter(input));
    assert_eq!(parse_parameter("$"), parse_parameter("$"));
}

#[test]
fn whitespace_and_newlines_are_ignored() {
    assert_eq!(parse_parameter("$Name=$true"), parse_parameter("$Name = \n $true"));
    assert_eq!(
        parse_parameter("$Name=$true"),
        Ok(expected("Name", DATA_TYPE::NONE, Some(true), false, None))
    );
    assert_eq!(
        parse_parameter("[ str\ting ]\r\n$Na me"),
        Ok(expected("Name", DATA_TYPE::STRING, None, false, None))
    );
}

#[test]
fn mandatory_string_with_false_default() {
    assert_eq!(
        parse_parameter("[Parameter(Mandatory=$true)][string]$Name=$false"),
        Ok(expected("Name", DATA_TYPE::STRING, Some(false), true, None))
    );
}

#[test]
fn parameter_set_name_attribute() {
    let p = parse_parameter("[Parameter(ParameterSetName=$\"Advanced\")][string]$Name").unwrap();
    assert_eq!(p.parameter_set_name, Some("Advanced".to_string()));
    assert_eq!(p.mandatory, false);
    assert_eq!(p.data_type, DATA_TYPE::STRING);
    let q = parse_parameter("[Parameter(Mandatory=$false, ParameterSetName=\"Basic\")] $Y").unwrap();
    assert_eq!(q.parameter_set_name, Some("Basic".to_string()));
}

#[test]
fn attributes_ignore_case_and_unknown_keys() {
    assert_eq!(
        parse_parameter("[parameter(MANDATORY=$True, Position=0)][Int32]$N=$FALSE"),
        Ok(expected("N", DATA_TYPE::I32, Some(false), true, None))
    );
    assert_eq!(parse_parameter("[Parameter(Mandatory)]$N").unwrap().mandatory, true);
    assert_eq!(parse_parameter("[Alias(Mandatory=$true)]$N").unwrap().mandatory, false);
}

#[test]
fn no_dollar_anywhere_is_not_found() {
    assert_eq!(parse_parameter("[string] Name = true"), Err(ParameterError::NotFound));
    assert_eq!(parse_parameter(""), Err(ParameterError::NotFound));
    assert_eq!(parse_parameter("  \n "), Err(ParameterError::NotFound));
    assert_eq!(parse_parameter("]]("), Err(ParameterError::NotFound));
}

#[test]
fn unclosed_scope_around_dollar_fails() {
    assert_eq!(parse_parameter("[Parameter(Mandatory=$true"), Err(ParameterError::FailedToParse));
    assert_eq!(parse_parameter("[string$X"), Err(ParameterError::FailedToParse));
    assert_eq!(parse_parameter("[Parameter(Mandatory=$true)$X"), Err(ParameterError::FailedToParse));
}

#[test]
fn unclosed_scope_without_dollar_is_not_found() {
    assert_eq!(parse_parameter("[Parameter(Mandatory=true"), Err(ParameterError::NotFound));
    assert_eq!(parse_parameter("[string"), Err(ParameterError::NotFound));
}

#[test]
fn closed_sections_without_name_are_not_found() {
    assert_eq!(parse_parameter("[Parameter(Mandatory=$true)]"), Err(ParameterError::NotFound));
    assert_eq!(parse_parameter("[Parameter(Mandatory=$true)][string]"), Err(ParameterError::NotFound));
}

#[test]
fn default_literal_is_strict() {
    assert_eq!(parse_parameter("$X=t,r,u,e"), Err(ParameterError::FailedToParse));
    assert_eq!(parse_parameter("$X=$$true"), Err(ParameterError::FailedToParse));
    assert_eq!(parse_parameter("$X=tr$ue"), Err(ParameterError::FailedToParse));
    assert_eq!(parse_parameter("$X=\"true\""), Err(ParameterError::FailedToParse));
    assert_eq!(parse_parameter("$X=$true,"), Err(ParameterError::FailedToParse));
    assert_eq!(parse_parameter("$X = $ TRUE").unwrap().default_value, Some(true));
}

#[test]
fn malformed_structure_after_name_fails() {
    assert_eq!(
        parse_parameter("[Parameter(Mandatory=$true)]$Name["),
        Err(ParameterError::FailedToParse)
    );
    assert_eq!(parse_parameter("$Name=$true)"), Err(ParameterError::FailedToParse));
    assert_eq!(parse_parameter("]$Name"), Err(ParameterError::FailedToParse));
    assert_eq!(parse_parameter("[[string]]$Name"), Err(ParameterError::FailedToParse));
}

#[test]
fn bad_literals_and_empty_names_fail() {
    assert_eq!(parse_parameter("$Name=$maybe"), Err(ParameterError::FailedToParse));
    assert_eq!(parse_parameter("$Name="), Err(ParameterError::FailedToParse));
    assert_eq!(parse_parameter("$"), Err(ParameterError::FailedToParse));
    assert_eq!(parse_parameter("$=true"), Err(ParameterError::FailedToParse));
    assert_eq!(
        parse_parameter("[Parameter(Mandatory=$yes)]$N"),
        Err(ParameterError::FailedToParse)
    );
    assert_eq!(parse_parameter("[Parameter(=1)]$N"), Err(ParameterError::FailedToParse));
    assert_eq!(parse_parameter("=$N"), Err(ParameterError::FailedToParse));
}

#[test]
fn error_messages() {
    assert_eq!(ParameterError::NotFound.message(), "no parameter found");
    assert_eq!(ParameterError::FailedToParse.message(), "failed to parse parameter");
}

#[test]
fn help_comment_before_declaration() {
    let p = parse_parameter("<# The user's name #>\n[string] $Name").unwrap();
    assert_eq!(p.help, Some("Theuser'sname".to_string()));
    assert_eq!(p.name, "Name");
    assert_eq!(p.data_type, DATA_TYPE::STRING);
    let q = parse_parameter("<#first#><#second#>$X").unwrap();
    assert_eq!(q.help, Some("second".to_string()));
    assert_eq!(parse_parameter("$X").unwrap().help, None);
}

#[test]
fn unterminated_help_comment_fails() {
    assert_eq!(parse_parameter("<# help $X"), Err(ParameterError::FailedToParse));
    assert_eq!(parse_parameter("<# help"), Err(ParameterError::NotFound));
}
