//! Validation of the positional argument list of a table-function invocation.
//!
//! An invocation hands over a list of literal values. The single-table
//! functions expect a float scale factor and an optional, coupled pair of
//! integer partition arguments; the orchestrator expects a float scale factor,
//! an optional boolean write flag and an optional string path. Validation is a
//! pure function of the argument list.

use vstd::prelude::*;

verus! {

/// One positional argument, reduced to what validation reads of it.
///
/// `Float` carries the bit pattern of the 64-bit float literal: the scale
/// factor is passed through uninterpreted, so only its identity matters here.
/// Every literal of another type, every typed null and every non-literal
/// expression validates the same way; they all map to `Other`.
pub enum ArgValue {
    /// A 64-bit float literal, as its bit pattern.
    Float(u64),
    /// A 64-bit integer literal.
    Int(i64),
    /// A boolean literal.
    Bool(bool),
    /// A string literal.
    Text(String),
    /// Any other argument: a null, a literal of another type, or a
    /// non-literal expression.
    Other,
}

/// The validated configuration of a single-table invocation.
#[derive(Clone, Copy, PartialEq, Eq, Structural, Debug)]
pub struct InvocationConfig {
    /// Bit pattern of the scale-factor float literal.
    pub scale_factor_bits: u64,
    /// 1-based partition to generate; 1 when defaulted.
    pub part: i64,
    /// Number of partitions the table is split into; 1 when defaulted.
    pub num_parts: i64,
}

/// The reason an argument list was rejected.
#[derive(Clone, Copy, PartialEq, Eq, Structural, Debug)]
pub enum ArgError {
    /// Argument 0 is absent or not a float literal.
    FirstNotFloat,
    /// Argument 1 is present but not an integer literal.
    SecondNotInt,
    /// Argument 1 is present but argument 2 is absent or not an integer
    /// literal.
    ThirdNotInt,
    /// Both partition arguments are present but one of them is negative.
    NegativePartArg,
}

/// An invocation failure, by the taxonomy of this crate.
#[derive(PartialEq, Eq, Debug)]
pub enum TpchError {
    /// The argument list was rejected; validation never started any work.
    InvalidArgument(ArgError),
    /// An internal consistency check failed while assembling the table; the
    /// message is the collaborator's own description of the mismatch.
    Internal(String),
    /// A collaborator (generator, catalog) failed; the message is propagated
    /// from it.
    Collaborator(String),
}

/// The user-visible message of a validation failure, naming the offending
/// argument and the expected type.
pub open spec fn spec_arg_message(e: ArgError) -> Seq<char> {
    match e {
        ArgError::FirstNotFloat => "First argument must be a float literal."@,
        ArgError::SecondNotInt => "Second argument must be an i64 literal."@,
        ArgError::ThirdNotInt => "Third argument must be an i64 literal."@,
        ArgError::NegativePartArg => "Second and third arguments must be greater than 0."@,
    }
}

impl ArgError {
    /// The user-visible message, naming the offending argument.
    pub fn message(&self) -> (r: String)
        ensures
            r@ == spec_arg_message(*self),
    {
        match self {
            ArgError::FirstNotFloat => "First argument must be a float literal.".to_owned(),
            ArgError::SecondNotInt => "Second argument must be an i64 literal.".to_owned(),
            ArgError::ThirdNotInt => "Third argument must be an i64 literal.".to_owned(),
            ArgError::NegativePartArg => "Second and third arguments must be greater than 0."
                .to_owned(),
        }
    }
}

impl TpchError {
    /// The user-visible message: a validation failure names the offending
    /// argument, any other failure carries the collaborator's own words.
    pub fn message(&self) -> (r: String)
        ensures
            self matches TpchError::InvalidArgument(e) ==> r@ == spec_arg_message(*e),
            self matches TpchError::Internal(m) ==> r@ == m@,
            self matches TpchError::Collaborator(m) ==> r@ == m@,
    {
        match self {
            TpchError::InvalidArgument(e) => e.message(),
            TpchError::Internal(m) => m.clone(),
            TpchError::Collaborator(m) => m.clone(),
        }
    }
}

/// What a single-table argument list validates to.
///
/// Argument 0 must be a float literal. Arguments 1 and 2 are optional but
/// coupled: when argument 1 is present, argument 2 must be present too, both
/// must be integer literals and both must be non-negative. When both are
/// absent they default to `(1, 1)`. Extra arguments beyond the third are
/// ignored.
pub open spec fn spec_validate(args: Seq<ArgValue>) -> Result<InvocationConfig, ArgError> {
    if !(args.len() >= 1 && args[0] is Float) {
        Err(ArgError::FirstNotFloat)
    } else if args.len() == 1 {
        Ok(InvocationConfig { scale_factor_bits: args[0]->Float_0, part: 1, num_parts: 1 })
    } else if !(args[1] is Int) {
        Err(ArgError::SecondNotInt)
    } else if !(args.len() >= 3 && args[2] is Int) {
        Err(ArgError::ThirdNotInt)
    } else if args[1]->Int_0 < 0 || args[2]->Int_0 < 0 {
        Err(ArgError::NegativePartArg)
    } else {
        Ok(InvocationConfig {
            scale_factor_bits: args[0]->Float_0,
            part: args[1]->Int_0,
            num_parts: args[2]->Int_0,
        })
    }
}

/// Wraps a validation verdict into the crate's error taxonomy.
pub open spec fn as_invocation_result(r: Result<InvocationConfig, ArgError>) -> Result<
    InvocationConfig,
    TpchError,
> {
    match r {
        Ok(c) => Ok(c),
        Err(e) => Err(TpchError::InvalidArgument(e)),
    }
}

/// Validates the argument list of a single-table invocation.
pub fn validate_args(args: &Vec<ArgValue>) -> (r: Result<InvocationConfig, TpchError>)
    ensures
        r == as_invocation_result(spec_validate(args@)),
{
    if args.len() == 0 {
        return Err(TpchError::InvalidArgument(ArgError::FirstNotFloat));
    }
    let scale_factor_bits: u64 = match &args[0] {
        ArgValue::Float(bits) => *bits,
        _ => { return Err(TpchError::InvalidArgument(ArgError::FirstNotFloat)) },
    };
    if args.len() == 1 {
        return Ok(InvocationConfig { scale_factor_bits, part: 1, num_parts: 1 });
    }
    let part: i64 = match &args[1] {
        ArgValue::Int(v) => *v,
        _ => { return Err(TpchError::InvalidArgument(ArgError::SecondNotInt)) },
    };
    if args.len() == 2 {
        return Err(TpchError::InvalidArgument(ArgError::ThirdNotInt));
    }
    let num_parts: i64 = match &args[2] {
        ArgValue::Int(v) => *v,
        _ => { return Err(TpchError::InvalidArgument(ArgError::ThirdNotInt)) },
    };
    if part < 0 || num_parts < 0 {
        return Err(TpchError::InvalidArgument(ArgError::NegativePartArg));
    }
    Ok(InvocationConfig { scale_factor_bits, part, num_parts })
}

/// A validated configuration never holds a negative partition argument, and a
/// one-argument invocation gets the whole-table default `(1, 1)`.
pub proof fn lemma_config_well_formed(args: Seq<ArgValue>, c: InvocationConfig)
    requires
        spec_validate(args) == Ok::<InvocationConfig, ArgError>(c),
    ensures
        c.part >= 0,
        c.num_parts >= 0,
        args.len() == 1 ==> c.part == 1 && c.num_parts == 1,
{
}

/// Validation is a pure function of the argument list: two invocations with
/// identical arguments validate to identical configurations.
pub proof fn lemma_validation_deterministic(args1: Seq<ArgValue>, args2: Seq<ArgValue>)
    requires
        args1 == args2,
    ensures
        spec_validate(args1) == spec_validate(args2),
{
}

/// The shape of a validated orchestrator invocation, at the spec level.
pub struct OrchModel {
    /// Bit pattern of the scale-factor float literal.
    pub scale_factor_bits: u64,
    /// Whether the on-disk branch was requested.
    pub write_to_disk: bool,
    /// The destination path, empty when absent.
    pub path: Seq<char>,
}

/// The validated configuration of an orchestrator invocation.
pub struct OrchestratorConfig {
    /// Bit pattern of the scale-factor float literal.
    pub scale_factor_bits: u64,
    /// Whether the on-disk branch was requested.
    pub write_to_disk: bool,
    /// The destination path, empty when absent.
    pub path: String,
}

/// What an orchestrator argument list validates to.
///
/// Argument 0 must be a float literal, as for a single table. Argument 1 is
/// an optional boolean write flag and argument 2 an optional string path;
/// unlike the partition pair they are not coupled, and an absent or
/// differently-typed value silently falls back to its default (`false`, the
/// empty path) rather than failing.
pub open spec fn spec_orchestrator_config(args: Seq<ArgValue>) -> Result<OrchModel, ArgError> {
    if !(args.len() >= 1 && args[0] is Float) {
        Err(ArgError::FirstNotFloat)
    } else {
        Ok(
            OrchModel {
                scale_factor_bits: args[0]->Float_0,
                write_to_disk: args.len() >= 2 && args[1] is Bool && args[1]->Bool_0,
                path: if args.len() >= 3 && args[2] is Text {
                    args[2]->Text_0@
                } else {
                    Seq::empty()
                },
            },
        )
    }
}

/// Validates the argument list of an orchestrator invocation.
pub fn orchestrator_config(args: &Vec<ArgValue>) -> (r: Result<OrchestratorConfig, TpchError>)
    ensures
        spec_orchestrator_config(args@) matches Ok(m) ==> r matches Ok(c) && c.scale_factor_bits
            == m.scale_factor_bits && c.write_to_disk == m.write_to_disk && c.path@ == m.path,
        spec_orchestrator_config(args@) matches Err(e) ==> r == Err::<OrchestratorConfig, TpchError>(
            TpchError::InvalidArgument(e),
        ),
{
    if args.len() == 0 {
        return Err(TpchError::InvalidArgument(ArgError::FirstNotFloat));
    }
    let scale_factor_bits: u64 = match &args[0] {
        ArgValue::Float(bits) => *bits,
        _ => { return Err(TpchError::InvalidArgument(ArgError::FirstNotFloat)) },
    };
    let write_to_disk: bool = if args.len() >= 2 {
        match &args[1] {
            ArgValue::Bool(b) => *b,
            _ => false,
        }
    } else {
        false
    };
    let path: String = if args.len() >= 3 {
        match &args[2] {
            ArgValue::Text(s) => s.clone(),
            _ => String::new(),
        }
    } else {
        String::new()
    };
    Ok(OrchestratorConfig { scale_factor_bits, write_to_disk, path })
}

/// Narrows a validated 64-bit partition argument to the 32-bit value the row
/// generators take; values beyond that range saturate at the nearest bound.
pub fn partition_arg_as_i32(v: i64) -> (r: i32)
    ensures
        i32::MIN as i64 <= v <= i32::MAX as i64 ==> r as i64 == v,
        v > i32::MAX as i64 ==> r == i32::MAX,
        v < i32::MIN as i64 ==> r == i32::MIN,
{
    if v > i32::MAX as i64 {
        i32::MAX
    } else if v < i32::MIN as i64 {
        i32::MIN
    } else {
        v as i32
    }
}

/// Decides the orchestrator's branch from its validated configuration: the
/// on-disk branch is taken exactly when the write flag is set and the
/// destination path is non-empty.
pub fn use_disk_path(c: &OrchestratorConfig) -> (b: bool)
    ensures
        b == (c.write_to_disk && c.path@.len() > 0),
{
    c.write_to_disk && !c.path.as_str().is_empty()
}

} // verus!
