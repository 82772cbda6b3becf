use vstd::prelude::*;

use crate::invocation::{
    complete_call, dispatch, outcome, plan, plan_call, CallError, RuntimeHandle,
};
use crate::name_map::{after_set, lookup};
use crate::property_store::{PropertyInfo, PropertyStore};
use crate::value::Value;

verus! {

/// A live binding between one loaded module and one host object: the
/// instance's properties, the descriptors the host reflects on, the module
/// its methods are invoked on, and the identity of the script that made it.
///
/// Reads take `&self` and writes `&mut self`, so a host that shares an
/// instance behind a reader/writer lock sees every read before or after a
/// write, never in between.
pub struct MunScriptInstance<R> {
    properties: PropertyStore,
    property_info: Vec<PropertyInfo>,
    runtime: R,
    script: u64,
}

impl<R: RuntimeHandle> MunScriptInstance<R> {
    pub closed spec fn wf(&self) -> bool {
        self.properties.wf()
    }

    /// The live property values, by name.
    pub closed spec fn properties(&self) -> Map<Seq<char>, Value> {
        self.properties.view()
    }

    /// The declared property descriptors, in order of declaration.
    pub closed spec fn property_list(&self) -> Seq<PropertyInfo> {
        self.property_info@
    }

    /// The host identity of the script this instance belongs to.
    pub closed spec fn script(&self) -> u64 {
        self.script
    }

    /// Builds an instance over the outcome of loading the module: with no
    /// loaded module there is no instance. A new instance has no properties.
    pub fn new(runtime: Option<R>, script: u64) -> (r: Option<Self>)
        ensures
            r is Some <==> runtime is Some,
            r matches Some(i) ==> {
                &&& i.wf()
                &&& i.properties() == Map::<Seq<char>, Value>::empty()
                &&& i.property_list() == Seq::<PropertyInfo>::empty()
                &&& i.script() == script
            },
    {
        match runtime {
            Some(runtime) => Some(
                MunScriptInstance {
                    properties: PropertyStore::new(),
                    property_info: Vec::new(),
                    runtime,
                    script,
                },
            ),
            None => None,
        }
    }

    /// Declares a property with its descriptor and initial value. Returns
    /// false and changes nothing where the name is already declared.
    pub fn declare_property(&mut self, descriptor: PropertyInfo, value: Value) -> (r: bool)
        requires
            old(self).wf(),
        ensures
            final(self).wf(),
            final(self).script() == old(self).script(),
            r == !old(self).properties().contains_key(descriptor.name@),
            r ==> final(self).properties() == old(self).properties().insert(
                descriptor.name@,
                value,
            ),
            r ==> final(self).property_list() == old(self).property_list().push(descriptor),
            !r ==> final(self).properties() == old(self).properties(),
            !r ==> final(self).property_list() == old(self).property_list(),
    {
        let added = self.properties.declare(descriptor.name.clone(), value);
        if added {
            self.property_info.push(descriptor);
        }
        added
    }

    /// Overwrites a declared property and returns true; returns false without
    /// any change where the property is not declared.
    pub fn set(&mut self, name: String, value: Value) -> (r: bool)
        requires
            old(self).wf(),
        ensures
            final(self).wf(),
            r == old(self).properties().contains_key(name@),
            final(self).properties() == after_set(old(self).properties(), name@, value),
            final(self).property_list() == old(self).property_list(),
            final(self).script() == old(self).script(),
    {
        self.properties.set(name, value)
    }

    /// The value of a declared property, or `None` where it is not declared.
    pub fn get(&self, name: String) -> (r: Option<Value>)
        requires
            self.wf(),
        ensures
            r == lookup(self.properties(), name@),
    {
        match self.properties.get(&name) {
            Some(v) => Some(v.clone()),
            None => None,
        }
    }

    /// A fresh copy of the declared property descriptors.
    pub fn get_property_list(&self) -> (r: Vec<PropertyInfo>)
        ensures
            r@ == self.property_list(),
    {
        let mut list: Vec<PropertyInfo> = Vec::new();
        let mut i: usize = 0;
        while i < self.property_info.len()
            invariant
                i <= self.property_info@.len(),
                list@ == self.property_info@.subrange(0, i as int),
            decreases self.property_info@.len() - i,
        {
            list.push(self.property_info[i].clone());
            i = i + 1;
        }
        assert(list@ =~= self.property_info@);
        list
    }

    /// Takes back a list handed out by `get_property_list`; nothing is kept.
    pub fn free_property_list(&self, _list: Vec<PropertyInfo>) {
    }

    /// Calls the module's method `method_name`. A call with more than one
    /// argument, or with one that is not an integer, fails before the runtime
    /// is reached. Otherwise the result is the method's integer, or
    /// `InvalidMethod` where the module has no such method.
    pub fn call(&self, method_name: String, args: &[Value]) -> (r: Result<Value, CallError>)
        ensures
            match plan(args@) {
                Err(e) => r == Err::<Value, CallError>(e),
                Ok(_) => exists|ret: Option<i64>| r == outcome(ret),
            },
    {
        match plan_call(args) {
            Err(e) => Err(e),
            Ok(invocation) => {
                let ret = dispatch(&self.runtime, method_name.as_str(), invocation);
                let r = complete_call(ret);
                assert(r == outcome(ret));
                r
            },
        }
    }

    /// The host identity of the script that produced this instance: always
    /// the same one.
    pub fn get_script(&self) -> (r: u64)
        ensures
            r == self.script(),
    {
        self.script
    }

    /// Receives a host event; no event changes the instance.
    pub fn notification(&self, _what: i32) {
    }
}

} // verus!
