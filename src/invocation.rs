use vstd::prelude::*;

use crate::value::{Value, ValueType};

verus! {

/// mun_runtime's handle on a loaded module, held opaque.
#[verifier::external_type_specification]
#[verifier::external_body]
pub struct ExRuntime(mun_runtime::Runtime);

/// The error of a failed `Runtime::invoke`, held opaque.
#[verifier::external_type_specification]
#[verifier::external_body]
#[verifier::reject_recursive_types(T)]
pub struct ExInvokeErr<'name, T>(mun_runtime::InvokeErr<'name, T>);

/// Relies on mun_runtime's `Runtime::invoke`: it looks up `function_name` in the
/// loaded modules and calls it where the argument tuple and the return type match
/// its signature, and returns an error otherwise. What it returns depends on the
/// loaded module, so nothing is promised of it.
pub assume_specification<
    'runtime,
    'ret,
    'name,
    ReturnType: mun_runtime::ReturnTypeReflection + mun_runtime::Marshal<'ret> + 'ret,
    ArgTypes: mun_runtime::InvokeArgs,
>[ mun_runtime::Runtime::invoke::<ReturnType, ArgTypes> ](
    runtime: &'runtime mun_runtime::Runtime,
    function_name: &'name str,
    arguments: ArgTypes,
) -> Result<ReturnType, mun_runtime::InvokeErr<'name, ArgTypes>>
    where
        'runtime: 'ret,
;

/// The most arguments a script method can be called with.
pub const MAX_ARGUMENTS: usize = 1;

/// Why a dynamic call on a script instance failed.
#[allow(inconsistent_fields)]
#[derive(Debug, Clone, Copy, PartialEq, Eq, Structural)]
pub enum CallError {
    /// More arguments than `expected` were given; `argument` is how many.
    TooManyArguments { argument: usize, expected: usize },
    /// The argument at index `argument` is not of type `expected`.
    InvalidArgument { argument: usize, expected: ValueType },
    /// The module has no method of that name and shape returning an integer.
    InvalidMethod,
}

/// The shape of a call handed to the runtime: the argument tuple it receives.
#[derive(Debug, Clone, Copy, PartialEq, Eq, Structural)]
pub enum Invocation {
    Nullary,
    Unary(i64),
}

/// A loaded compiled module that methods can be invoked on by name. Each
/// method returns the callee's integer result, or `None` where the module has
/// no function of that name taking exactly that argument tuple and returning
/// a 64-bit integer.
pub trait RuntimeHandle {
    fn invoke_nullary(&self, name: &str) -> Option<i64>;

    fn invoke_unary(&self, name: &str, arg: i64) -> Option<i64>;
}

impl RuntimeHandle for mun_runtime::Runtime {
    fn invoke_nullary(&self, name: &str) -> Option<i64> {
        self.invoke::<i64, ()>(name, ()).ok()
    }

    fn invoke_unary(&self, name: &str, arg: i64) -> Option<i64> {
        self.invoke::<i64, (i64,)>(name, (arg,)).ok()
    }
}

/// How a call with arguments `args` is dispatched: no argument and one
/// integer argument are the accepted shapes; anything else is an error and
/// never reaches the runtime.
pub open spec fn plan(args: Seq<Value>) -> Result<Invocation, CallError> {
    if args.len() == 0 {
        Ok(Invocation::Nullary)
    } else if args.len() == 1 {
        match args[0].as_int() {
            Some(i) => Ok(Invocation::Unary(i)),
            None => Err(CallError::InvalidArgument { argument: 0, expected: ValueType::Int }),
        }
    } else {
        Err(CallError::TooManyArguments { argument: args.len() as usize, expected: MAX_ARGUMENTS })
    }
}

/// What a call returns once the runtime answered `ret`.
pub open spec fn outcome(ret: Option<i64>) -> Result<Value, CallError> {
    match ret {
        Some(v) => Ok(Value::Int(v)),
        None => Err(CallError::InvalidMethod),
    }
}

/// Only no argument and one argument are accepted shapes: two or more
/// arguments are always refused as too many, with one expected.
pub proof fn lemma_accepted_arities(args: Seq<Value>)
    ensures
        args.len() >= 2 ==> plan(args) == Err::<Invocation, CallError>(
            (CallError::TooManyArguments { argument: args.len() as usize, expected: 1 }),
        ),
        plan(args) is Ok <==> (args.len() == 0 || (args.len() == 1 && args[0].as_int() is Some)),
{
}

/// A single argument that is not an integer is refused as argument 0, where
/// an integer was expected; the call is planned no further.
pub proof fn lemma_non_integer_argument(x: Value)
    requires
        x.as_int() is None,
    ensures
        plan(seq![x]) == Err::<Invocation, CallError>(
            (CallError::InvalidArgument { argument: 0, expected: ValueType::Int }),
        ),
{
}

/// Checks the arity and the argument types of a call before anything is
/// handed to the runtime.
pub fn plan_call(args: &[Value]) -> (r: Result<Invocation, CallError>)
    ensures
        r == plan(args@),
{
    let n = args.len();
    if n == 0 {
        Ok(Invocation::Nullary)
    } else if n == 1 {
        match args[0].try_to_int() {
            Some(i) => Ok(Invocation::Unary(i)),
            None => Err(CallError::InvalidArgument { argument: 0, expected: ValueType::Int }),
        }
    } else {
        Err(CallError::TooManyArguments { argument: n, expected: MAX_ARGUMENTS })
    }
}

/// Wraps the runtime's answer into the host's value representation.
pub fn complete_call(ret: Option<i64>) -> (r: Result<Value, CallError>)
    ensures
        r == outcome(ret),
{
    match ret {
        Some(v) => Ok(Value::Int(v)),
        None => Err(CallError::InvalidMethod),
    }
}

/// Hands a planned call to the runtime, in exactly the planned shape.
pub fn dispatch<R: RuntimeHandle>(runtime: &R, name: &str, invocation: Invocation) -> Option<i64> {
    match invocation {
        Invocation::Nullary => runtime.invoke_nullary(name),
        Invocation::Unary(arg) => runtime.invoke_unary(name, arg),
    }
}

} // verus!
