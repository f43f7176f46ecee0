//! Scenarios for the invocation argument validator.

use datafusion_tpch::args::{
    orchestrator_config, partition_arg_as_i32, use_disk_path, validate_args, ArgError, ArgValue,
    InvocationConfig, TpchError,
};

#[test]
fn zero_arguments_rejected() {
    let r = validate_args(&vec![]);
    assert!(matches!(r, Err(TpchError::InvalidArgument(ArgError::FirstNotFloat))));
}

#[test]
fn non_numeric_first_argument_rejected() {
    let r = validate_args(&vec![ArgValue::Int(1)]);
    assert!(matches!(r, Err(TpchError::InvalidArgument(ArgError::FirstNotFloat))));
    let r = validate_args(&vec![ArgValue::Text("1.0".to_string())]);
    assert!(matches!(r, Err(TpchError::InvalidArgument(ArgError::FirstNotFloat))));
    let r = validate_args(&vec![ArgValue::Other]);
    assert!(matches!(r, Err(TpchError::InvalidArgument(ArgError::FirstNotFloat))));
}

#[test]
fn missing_third_argument_rejected() {
    let r = validate_args(&vec![ArgValue::Float(1.0f64.to_bits()), ArgValue::Int(1)]);
    assert!(matches!(r, Err(TpchError::InvalidArgument(ArgError::ThirdNotInt))));
}

#[test]
fn second_argument_wrong_type_rejected() {
    let r = validate_args(&vec![
        ArgValue::Float(1.0f64.to_bits()),
        ArgValue::Bool(true),
        ArgValue::Text("x".to_string()),
    ]);
    assert!(matches!(r, Err(TpchError::InvalidArgument(ArgError::SecondNotInt))));
}

#[test]
fn negative_part_rejected() {
    let r = validate_args(&vec![
        ArgValue::Float(1.0f64.to_bits()),
        ArgValue::Int(-1),
        ArgValue::Int(4),
    ]);
    assert!(matches!(r, Err(TpchError::InvalidArgument(ArgError::NegativePartArg))));
}

#[test]
fn negative_num_parts_rejected() {
    let r = validate_args(&vec![
        ArgValue::Float(1.0f64.to_bits()),
        ArgValue::Int(1),
        ArgValue::Int(-1),
    ]);
    assert!(matches!(r, Err(TpchError::InvalidArgument(ArgError::NegativePartArg))));
}

#[test]
fn defaults_when_only_scale_factor() {
    let bits = 2.5f64.to_bits();
    let r = validate_args(&vec![ArgValue::Float(bits)]);
    assert_eq!(r.unwrap(), InvocationConfig { scale_factor_bits: bits, part: 1, num_parts: 1 });
}

#[test]
fn supplied_partition_arguments_kept() {
    let bits = 0.5f64.to_bits();
    let r = validate_args(&vec![ArgValue::Float(bits), ArgValue::Int(3), ArgValue::Int(8)]);
    assert_eq!(r.unwrap(), InvocationConfig { scale_factor_bits: bits, part: 3, num_parts: 8 });
}

#[test]
fn zero_partition_arguments_accepted() {
    let bits = 1.0f64.to_bits();
    let r = validate_args(&vec![ArgValue::Float(bits), ArgValue::Int(0), ArgValue::Int(0)]);
    assert_eq!(r.unwrap(), InvocationConfig { scale_factor_bits: bits, part: 0, num_parts: 0 });
}

#[test]
fn extra_arguments_ignored() {
    let bits = 1.0f64.to_bits();
    let r = validate_args(&vec![
        ArgValue::Float(bits),
        ArgValue::Int(1),
        ArgValue::Int(2),
        ArgValue::Text("extra".to_string()),
    ]);
    assert_eq!(r.unwrap(), InvocationConfig { scale_factor_bits: bits, part: 1, num_parts: 2 });
}

#[test]
fn partition_arguments_saturate_to_i32() {
    assert_eq!(partition_arg_as_i32(0), 0);
    assert_eq!(partition_arg_as_i32(4), 4);
    assert_eq!(partition_arg_as_i32(i32::MAX as i64), i32::MAX);
    assert_eq!(partition_arg_as_i32(i32::MAX as i64 + 1), i32::MAX);
    assert_eq!(partition_arg_as_i32(i64::MAX), i32::MAX);
    assert_eq!(partition_arg_as_i32(i32::MIN as i64 - 1), i32::MIN);
}

#[test]
fn error_messages_name_the_argument() {
    assert_eq!(ArgError::FirstNotFloat.message(), "First argument must be a float literal.");
    assert_eq!(ArgError::SecondNotInt.message(), "Second argument must be an i64 literal.");
    assert_eq!(ArgError::ThirdNotInt.message(), "Third argument must be an i64 literal.");
    assert_eq!(
        ArgError::NegativePartArg.message(),
        "Second and third arguments must be greater than 0."
    );
    let e = TpchError::Collaborator("catalog unavailable".to_string());
    assert_eq!(e.message(), "catalog unavailable");
}

#[test]
fn orchestrator_defaults_without_flag_and_path() {
    let bits = 1.0f64.to_bits();
    let c = orchestrator_config(&vec![ArgValue::Float(bits)]).unwrap();
    assert_eq!(c.scale_factor_bits, bits);
    assert!(!c.write_to_disk);
    assert_eq!(c.path, "");
    assert!(!use_disk_path(&c));
}

#[test]
fn orchestrator_flag_and_path_select_disk() {
    let bits = 1.0f64.to_bits();
    let c = orchestrator_config(&vec![
        ArgValue::Float(bits),
        ArgValue::Bool(true),
        ArgValue::Text("/data/tpch".to_string()),
    ])
    .unwrap();
    assert!(c.write_to_disk);
    assert_eq!(c.path, "/data/tpch");
    assert!(use_disk_path(&c));
}

#[test]
fn orchestrator_empty_path_stays_in_memory() {
    let bits = 1.0f64.to_bits();
    let c = orchestrator_config(&vec![
        ArgValue::Float(bits),
        ArgValue::Bool(true),
        ArgValue::Text(String::new()),
    ])
    .unwrap();
    assert!(c.write_to_disk);
    assert!(!use_disk_path(&c));
    let c = orchestrator_config(&vec![
        ArgValue::Float(bits),
        ArgValue::Bool(false),
        ArgValue::Text("/data/tpch".to_string()),
    ])
    .unwrap();
    assert!(!use_disk_path(&c));
}

#[test]
fn orchestrator_requires_float_first() {
    let r = orchestrator_config(&vec![]);
    assert!(matches!(r, Err(TpchError::InvalidArgument(ArgError::FirstNotFloat))));
    let r = orchestrator_config(&vec![ArgValue::Int(1)]);
    assert!(matches!(r, Err(TpchError::InvalidArgument(ArgError::FirstNotFloat))));
}

