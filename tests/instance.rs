use std::cell::Cell;
use std::rc::Rc;

use godot_mun::invocation::{plan_call, complete_call, CallError, Invocation, RuntimeHandle};
use godot_mun::property_store::PropertyInfo;
use godot_mun::script_instance::MunScriptInstance;
use godot_mun::value::{Value, ValueType};

/// A module exposing `answer() -> 42` and `double(x) -> 2x`, counting the
/// calls that reach it.
struct AnswerModule {
    calls: Rc<Cell<u32>>,
}

impl AnswerModule {
    fn new() -> Self {
        AnswerModule { calls: Rc::new(Cell::new(0)) }
    }
}

impl RuntimeHandle for AnswerModule {
    fn invoke_nullary(&self, name: &str) -> Option<i64> {
        self.calls.set(self.calls.get() + 1);
        if name == "answer" {
            Some(42)
        } else {
            None
        }
    }

    fn invoke_unary(&self, name: &str, arg: i64) -> Option<i64> {
        self.calls.set(self.calls.get() + 1);
        if name == "double" {
            Some(arg * 2)
        } else {
            None
        }
    }
}

fn instance() -> MunScriptInstance<AnswerModule> {
    MunScriptInstance::new(Some(AnswerModule::new()), 7).unwrap()
}

fn counted_instance() -> (MunScriptInstance<AnswerModule>, Rc<Cell<u32>>) {
    let module = AnswerModule::new();
    let calls = module.calls.clone();
    (MunScriptInstance::new(Some(module), 7).unwrap(), calls)
}

fn descriptor(name: &str) -> PropertyInfo {
    PropertyInfo { type_: ValueType::Int, name: name.to_string(), usage: 6 }
}

#[test]
fn set_undeclared_property_fails() {
    let mut i = instance();
    assert!(!i.set("speed".to_string(), Value::Int(3)));
    assert_eq!(i.get("speed".to_string()), None);
}

#[test]
fn set_then_get_last_write_wins() {
    let mut i = instance();
    assert!(i.declare_property(descriptor("speed"), Value::Int(1)));
    assert!(i.set("speed".to_string(), Value::Int(5)));
    assert!(i.set("speed".to_string(), Value::Str("fast".to_string())));
    assert_eq!(i.get("speed".to_string()), Some(Value::Str("fast".to_string())));
}

#[test]
fn present_null_is_not_absent() {
    let mut i = instance();
    assert!(i.declare_property(descriptor("target"), Value::Nil));
    assert_eq!(i.get("target".to_string()), Some(Value::Nil));
    assert_eq!(i.get("other".to_string()), None);
}

#[test]
fn declaring_twice_keeps_first() {
    let mut i = instance();
    assert!(i.declare_property(descriptor("hp"), Value::Int(10)));
    assert!(!i.declare_property(descriptor("hp"), Value::Int(20)));
    assert_eq!(i.get("hp".to_string()), Some(Value::Int(10)));
    assert_eq!(i.get_property_list(), vec![descriptor("hp")]);
}

#[test]
fn property_list_is_a_fresh_snapshot() {
    let mut i = instance();
    assert!(i.get_property_list().is_empty());
    i.declare_property(descriptor("a"), Value::Bool(true));
    i.declare_property(descriptor("b"), Value::Float(0));
    let list = i.get_property_list();
    assert_eq!(list, vec![descriptor("a"), descriptor("b")]);
    i.free_property_list(list);
    assert_eq!(i.get_property_list().len(), 2);
}

#[test]
fn invoke_answer_yields_42() {
    let (i, calls) = counted_instance();
    assert_eq!(i.call("answer".to_string(), &[]), Ok(Value::Int(42)));
    assert_eq!(calls.get(), 1);
}

#[test]
fn invoke_one_integer_argument() {
    let i = instance();
    assert_eq!(i.call("double".to_string(), &[Value::Int(21)]), Ok(Value::Int(42)));
}

#[test]
fn invoke_unknown_method_is_invalid() {
    let i = instance();
    assert_eq!(i.call("missing".to_string(), &[]), Err(CallError::InvalidMethod));
    assert_eq!(i.call("answer".to_string(), &[Value::Int(1)]), Err(CallError::InvalidMethod));
}

#[test]
fn invoke_two_arguments_is_too_many() {
    let (i, calls) = counted_instance();
    let r = i.call("double".to_string(), &[Value::Int(1), Value::Int(2)]);
    assert_eq!(r, Err(CallError::TooManyArguments { argument: 2, expected: 1 }));
    assert_eq!(calls.get(), 0);
}

#[test]
fn invoke_non_integer_is_rejected_before_runtime() {
    let (i, calls) = counted_instance();
    let r = i.call("double".to_string(), &[Value::Str("not-an-int".to_string())]);
    assert_eq!(r, Err(CallError::InvalidArgument { argument: 0, expected: ValueType::Int }));
    assert_eq!(calls.get(), 0);
}

#[test]
fn construct_without_module_gives_no_instance() {
    let r: Option<MunScriptInstance<AnswerModule>> = MunScriptInstance::new(None, 7);
    assert!(r.is_none());
}

#[test]
fn owning_script_is_stable() {
    let i = instance();
    assert_eq!(i.get_script(), 7);
    assert_eq!(i.get_script(), i.get_script());
    i.notification(13);
    assert_eq!(i.get_script(), 7);
}

#[test]
fn plan_shapes() {
    assert_eq!(plan_call(&[]), Ok(Invocation::Nullary));
    assert_eq!(plan_call(&[Value::Int(-3)]), Ok(Invocation::Unary(-3)));
    assert_eq!(
        plan_call(&[Value::Bool(true)]),
        Err(CallError::InvalidArgument { argument: 0, expected: ValueType::Int })
    );
    assert_eq!(
        plan_call(&[Value::Nil, Value::Nil, Value::Nil]),
        Err(CallError::TooManyArguments { argument: 3, expected: 1 })
    );
}

#[test]
fn complete_wraps_integer() {
    assert_eq!(complete_call(Some(42)), Ok(Value::Int(42)));
    assert_eq!(complete_call(None), Err(CallError::InvalidMethod));
}

#[test]
fn try_to_int_only_on_integers() {
    assert_eq!(Value::Int(9).try_to_int(), Some(9));
    assert_eq!(Value::Float(9).try_to_int(), None);
    assert_eq!(Value::Str("9".to_string()).try_to_int(), None);
    assert_eq!(Value::Object(9).value_type(), ValueType::Object);
}

#[test]
fn script_instance_create_follows_load_outcome() {
    let script = godot_mun::script::MunScript::new();
    let none: Option<MunScriptInstance<AnswerModule>> = script.instance_create(None, 3);
    assert!(none.is_none());
    let some = script.instance_create(Some(AnswerModule::new()), 3).unwrap();
    assert_eq!(some.get_script(), 3);
    assert_eq!(some.call("answer".to_string(), &[]), Ok(Value::Int(42)));
}
