use vstd::prelude::*;

use crate::header::{base_type_of, get_base_type};
use crate::invocation::RuntimeHandle;
use crate::script_instance::MunScriptInstance;

verus! {

/// A script resource: the source text of a Mun script, from which instances
/// are made for host objects.
pub struct MunScript {
    pub source_code: String,
}

impl MunScript {
    /// A script with no source text.
    pub fn new() -> (r: Self)
        ensures
            r.source_code@ == Seq::<char>::empty(),
    {
        MunScript { source_code: String::new() }
    }

    /// The base type that the source text declares in its header comment,
    /// or the empty string.
    pub fn get_instance_base_type(&self) -> (r: String)
        ensures
            r@ == base_type_of(self.source_code@),
    {
        get_base_type(self.source_code.as_str())
    }

    pub fn get_source_code(&self) -> (r: String)
        ensures
            r@ == self.source_code@,
    {
        self.source_code.clone()
    }

    pub fn set_source_code(&mut self, code: String)
        ensures
            final(self).source_code@ == code@,
    {
        self.source_code = code;
    }

    /// Makes an instance for a host object from the outcome of loading this
    /// script's compiled module; `script` is this script's host identity.
    pub fn instance_create<R: RuntimeHandle>(&self, runtime: Option<R>, script: u64) -> (r: Option<
        MunScriptInstance<R>,
    >)
        ensures
            r is Some <==> runtime is Some,
            r matches Some(i) ==> {
                &&& i.wf()
                &&& i.properties() == Map::<Seq<char>, crate::value::Value>::empty()
                &&& i.script() == script
            },
    {
        MunScriptInstance::new(runtime, script)
    }
}

} // verus!
