#![allow(non_snake_case)]

use param_block::{parse_parameter, resolve, Parameter, DATA_TYPE};

#[test]
fn test_parse_parameter() {
    let p = r"[Parameter(
        Mandatory=$false
    )]
    [Boolean]
    $Boolean=$true";

    let res = parse_parameter(p);
    assert_ne!(res.is_err(), true);
}

#[test]
fn test_DATA_TYPES() {
    let table: Vec<(&str, DATA_TYPE)> = vec![
        ("string", DATA_TYPE::STRING),
        ("int", DATA_TYPE::I32),
        ("int32", DATA_TYPE::I32),
        ("int64", DATA_TYPE::I64),
        ("single", DATA_TYPE::F32),
        ("float", DATA_TYPE::F32),
        ("double", DATA_TYPE::F64),
        ("pscredential", DATA_TYPE::CREDENTIAL),
        ("", DATA_TYPE::NONE),
    ];
    table.into_iter().for_each(|(k, v)| match k {
        "string" => {
            assert_eq!(v, DATA_TYPE::STRING);
            assert_eq!(resolve(k), DATA_TYPE::STRING)
        }
        "int" => {
            assert_eq!(v, DATA_TYPE::I32);
            assert_eq!(resolve(k), DATA_TYPE::I32)
        }
        "int32" => {
            assert_eq!(v, DATA_TYPE::I32);
            assert_eq!(resolve(k), DATA_TYPE::I32)
        }
        "int64" => {
            assert_eq!(v, DATA_TYPE::I64);
            assert_eq!(resolve(k), DATA_TYPE::I64)
        }
        "single" => {
            assert_eq!(v, DATA_TYPE::F32);
            assert_eq!(resolve(k), DATA_TYPE::F32)
        }
        "float" => {
            assert_eq!(v, DATA_TYPE::F32);
            assert_eq!(resolve(k), DATA_TYPE::F32)
        }
        "double" => {
            assert_eq!(v, DATA_TYPE::F64);
            assert_eq!(resolve(k), DATA_TYPE::F64)
        }
        "pscredential" => {
            assert_eq!(v, DATA_TYPE::CREDENTIAL);
            assert_eq!(resolve(k), DATA_TYPE::CREDENTIAL)
        }
        "" => {
            assert_eq!(v, DATA_TYPE::NONE);
            assert_eq!(resolve(k), DATA_TYPE::NONE)
        }
        _ => panic!("type not in map. This shouldn't have happend!"),
    });
}

#[test]
fn test_new() {
    let p: Parameter = Parameter::new(
        "test".to_string(),
        DATA_TYPE::STRING,
        Some(false),
        true,
        None,
        None,
    );

    assert_eq!(p.name, "test".to_string());
    assert_eq!(p.data_type, DATA_TYPE::STRING);
    assert_eq!(p.default_value, Some(false));
    assert_eq!(p.mandatory, true);
    assert_eq!(p.parameter_set_name, None);
    assert_eq!(p.help, None);
}

#[test]
fn new_empty_has_no_fields_set() {
    let p = Parameter::new_empty();
    assert_eq!(p.name, "");
    assert_eq!(p.data_type, DATA_TYPE::NONE);
    assert_eq!(p.default_value, None);
    assert_eq!(p.mandatory, false);
    assert_eq!(p.parameter_set_name, None);
    assert_eq!(p.help, None);
}

#[test]
fn resolve_ignores_ascii_case() {
    assert_eq!(resolve("STRING"), DATA_TYPE::STRING);
    assert_eq!(resolve("Int32"), DATA_TYPE::I32);
    assert_eq!(resolve("PSCredential"), DATA_TYPE::CREDENTIAL);
    assert_eq!(resolve("Double"), DATA_TYPE::F64);
}

#[test]
fn resolve_unknown_and_empty_tokens_give_none() {
    assert_eq!(resolve(""), DATA_TYPE::NONE);
    assert_eq!(resolve("boolean"), DATA_TYPE::NONE);
    assert_eq!(resolve("strings"), DATA_TYPE::NONE);
    assert_eq!(resolve("in"), DATA_TYPE::NONE);
    assert_eq!(resolve("parameter"), DATA_TYPE::NONE);
}
