//! The interface of plugin functions: native functions that come with their
//! own calling code.

use crate::dynamic::Dynamic;
use crate::fn_register::NativeCallContext;
use crate::result::EvalAltResult;
use vstd::prelude::*;

verus! {

/// A native function that calls itself on a list of dynamic arguments.
pub trait PluginFunction {
    /// Call the function with the arguments given.
    fn call(&self, context: &NativeCallContext, args: &mut Vec<Dynamic>) -> Result<
        Dynamic,
        EvalAltResult,
    >;

    /// Whether the function is a method: its first argument is taken by
    /// exclusive reference.
    fn is_method_call(&self) -> bool;

    /// Whether the function takes any number of arguments.
    fn is_variadic(&self) -> bool;
}

} // verus!
