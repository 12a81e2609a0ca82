//! Turning host functions into uniform entries that take a list of dynamic
//! arguments.

use crate::dynamic::{union_tag, AccessMode, Dynamic, TypeTag, Variant};
use crate::result::EvalAltResult;
use vstd::prelude::*;

verus! {

/// Marks a first parameter that a method takes by exclusive reference.
pub struct Mut<T>(T);

/// What a native function learns of the call that reached it.
pub struct NativeCallContext {
    /// The name the function was called by.
    pub fn_name: String,
}

/// An exclusive, typed view of the value in an argument slot; what is
/// written through it stays in the slot.
pub fn by_ref<T: Variant>(data: &mut Dynamic) -> (r: &mut T)
    requires
        T::spec_from_union(old(data).value) is Some,
    ensures
        Some(*r) == T::spec_from_union(old(data).value),
        final(data).access == old(data).access,
        final(data).value == (*final(r)).spec_to_union(),
{
    T::downcast_mut(data)
}

/// The value in an argument slot, taken out: the slot is left holding the
/// unit value.
pub fn by_value<T: Variant>(data: &mut Dynamic) -> (r: T)
    requires
        T::spec_from_union(old(data).value) is Some,
    ensures
        Some(r) == T::spec_from_union(old(data).value),
        *final(data) == Dynamic::spec_unit(),
{
    let mut taken = Dynamic::unit();
    std::mem::swap(data, &mut taken);
    match T::from_union(taken.value) {
        Some(v) => v,
        None => unreached(),
    }
}

/// The shape of a host function's signature: whether it takes the call
/// context first, and whether it returns a `Result`.
#[derive(Debug, Clone, Copy, PartialEq, Eq, Structural)]
pub enum AbiShape {
    Plain,
    PlainWithContext,
    Fallible,
    FallibleWithContext,
}

/// How an entry calls its host function: its shape, and whether the first
/// parameter is taken by exclusive reference (a method) rather than by value.
#[derive(Debug, Clone, Copy, PartialEq, Eq, Structural)]
pub struct FnAbi {
    pub shape: AbiShape,
    pub method: bool,
}

/// A host function of some arity and shape, callable on a list of dynamic
/// arguments.
///
/// `Args` lists the parameter types (a method's first one marked [`Mut`], a
/// context first when the function takes one); `Ret` is `()` for a function
/// that returns its value, or the `Result` type of one that may fail.
///
/// A call trusts its caller: the arguments must already match the parameter
/// types, one by one. Arguments taken by value are left holding the unit
/// value; the first argument of a method keeps its (possibly changed) value.
/// The value of type `T` held by argument `i`.
pub open spec fn arg<T: Variant>(args: Seq<Dynamic>, i: int) -> T {
    T::spec_from_union(args[i].value).unwrap()
}

pub trait RegisterNativeFunction<Args, Ret>: Sized {
    /// The type of each parameter, in order.
    spec fn spec_param_types() -> Seq<TypeTag>;

    spec fn spec_abi() -> FnAbi;

    fn param_types() -> (r: Vec<TypeTag>)
        ensures
            r@ == Self::spec_param_types(),
    ;

    fn abi() -> (r: FnAbi)
        ensures
            r == Self::spec_abi(),
    ;

    /// The arguments suit this function, and its own precondition holds of
    /// their values.
    spec fn call_requires(&self, ctx: &NativeCallContext, args: Seq<Dynamic>) -> bool;

    /// What a call on `args` leaves in the argument slots (`after`) and
    /// returns (`r`).
    spec fn call_ensures(
        &self,
        ctx: &NativeCallContext,
        args: Seq<Dynamic>,
        after: Seq<Dynamic>,
        r: Result<Dynamic, EvalAltResult>,
    ) -> bool;

    fn call(&self, ctx: &NativeCallContext, args: &mut Vec<Dynamic>) -> (r: Result<
        Dynamic,
        EvalAltResult,
    >)
        requires
            self.call_requires(ctx, old(args)@),
        ensures
            self.call_ensures(ctx, old(args)@, final(args)@, r),
    ;
}

/// A host function of no parameters.
impl<
    RET: Variant,
    FN: Fn() -> RET,
> RegisterNativeFunction<
    (),
    (),
> for FN {
    open spec fn spec_param_types() -> Seq<TypeTag> {
        Seq::empty()
    }

    open spec fn spec_abi() -> FnAbi {
        FnAbi { shape: AbiShape::Plain, method: false }
    }

    fn param_types() -> (r: Vec<TypeTag>) {
        let r: Vec<TypeTag> = Vec::new();
        proof {
            assert(r@ =~= Self::spec_param_types());
        }
        r
    }

    fn abi() -> (r: FnAbi) {
        FnAbi { shape: AbiShape::Plain, method: false }
    }

    open spec fn call_requires(&self, ctx: &NativeCallContext, args: Seq<Dynamic>) -> bool {
        &&& args.len() == 0
        &&& self.requires(())
    }

    open spec fn call_ensures(
        &self,
        ctx: &NativeCallContext,
        args: Seq<Dynamic>,
        after: Seq<Dynamic>,
        r: Result<Dynamic, EvalAltResult>,
    ) -> bool {
        &&& after == Seq::<Dynamic>::empty()
        &&& exists|res: RET|
            #[trigger] self.ensures((), res)
            && r == Ok::<Dynamic, EvalAltResult>(
                Dynamic { value: res.spec_to_union(), access: AccessMode::ReadWrite },
            )
    }

    fn call(&self, ctx: &NativeCallContext, args: &mut Vec<Dynamic>) -> (r: Result<
        Dynamic,
        EvalAltResult,
    >) {
        let res = (self)();
        proof {
            assert(args@ =~= Seq::<Dynamic>::empty());
        }
        Ok(Dynamic::from(res))
    }
}

/// A host function of no parameters that takes the call context first.
impl<
    RET: Variant,
    FN: Fn(&NativeCallContext) -> RET,
> RegisterNativeFunction<
    (NativeCallContext,),
    (),
> for FN {
    open spec fn spec_param_types() -> Seq<TypeTag> {
        Seq::empty()
    }

    open spec fn spec_abi() -> FnAbi {
        FnAbi { shape: AbiShape::PlainWithContext, method: false }
    }

    fn param_types() -> (r: Vec<TypeTag>) {
        let r: Vec<TypeTag> = Vec::new();
        proof {
            assert(r@ =~= Self::spec_param_types());
        }
        r
    }

    fn abi() -> (r: FnAbi) {
        FnAbi { shape: AbiShape::PlainWithContext, method: false }
    }

    open spec fn call_requires(&self, ctx: &NativeCallContext, args: Seq<Dynamic>) -> bool {
        &&& args.len() == 0
        &&& self.requires((ctx,))
    }

    open spec fn call_ensures(
        &self,
        ctx: &NativeCallContext,
        args: Seq<Dynamic>,
        after: Seq<Dynamic>,
        r: Result<Dynamic, EvalAltResult>,
    ) -> bool {
        &&& after == Seq::<Dynamic>::empty()
        &&& exists|res: RET|
            #[trigger] self.ensures((ctx,), res)
            && r == Ok::<Dynamic, EvalAltResult>(
                Dynamic { value: res.spec_to_union(), access: AccessMode::ReadWrite },
            )
    }

    fn call(&self, ctx: &NativeCallContext, args: &mut Vec<Dynamic>) -> (r: Result<
        Dynamic,
        EvalAltResult,
    >) {
        let res = (self)(ctx);
        proof {
            assert(args@ =~= Seq::<Dynamic>::empty());
        }
        Ok(Dynamic::from(res))
    }
}

/// A host function of no parameters that may fail.
impl<
    RET: Variant,
    FN: Fn() -> Result<RET,
    EvalAltResult>,
> RegisterNativeFunction<
    (),
    Result<RET, EvalAltResult>,
> for FN {
    open spec fn spec_param_types() -> Seq<TypeTag> {
        Seq::empty()
    }

    open spec fn spec_abi() -> FnAbi {
        FnAbi { shape: AbiShape::Fallible, method: false }
    }

    fn param_types() -> (r: Vec<TypeTag>) {
        let r: Vec<TypeTag> = Vec::new();
        proof {
            assert(r@ =~= Self::spec_param_types());
        }
        r
    }

    fn abi() -> (r: FnAbi) {
        FnAbi { shape: AbiShape::Fallible, method: false }
    }

    open spec fn call_requires(&self, ctx: &NativeCallContext, args: Seq<Dynamic>) -> bool {
        &&& args.len() == 0
        &&& self.requires(())
    }

    open spec fn call_ensures(
        &self,
        ctx: &NativeCallContext,
        args: Seq<Dynamic>,
        after: Seq<Dynamic>,
        r: Result<Dynamic, EvalAltResult>,
    ) -> bool {
        &&& after == Seq::<Dynamic>::empty()
        &&& exists|res: Result<RET, EvalAltResult>|
            #[trigger] self.ensures((), res)
            && r == match res {
                Ok(ret) => Ok::<Dynamic, EvalAltResult>(
                    Dynamic { value: ret.spec_to_union(), access: AccessMode::ReadWrite },
                ),
                Err(e) => Err(e),
            }
    }

    fn call(&self, ctx: &NativeCallContext, args: &mut Vec<Dynamic>) -> (r: Result<
        Dynamic,
        EvalAltResult,
    >) {
        let res = (self)();
        proof {
            assert(args@ =~= Seq::<Dynamic>::empty());
        }
        match res {
            Ok(ret) => Ok(Dynamic::from(ret)),
            Err(e) => Err(e),
        }
    }
}

/// A host function of no parameters that takes the call context first, and that
/// may fail.
impl<
    RET: Variant,
    FN: Fn(&NativeCallContext) -> Result<RET,
    EvalAltResult>,
> RegisterNativeFunction<
    (NativeCallContext,),
    Result<RET, EvalAltResult>,
> for FN {
    open spec fn spec_param_types() -> Seq<TypeTag> {
        Seq::empty()
    }

    open spec fn spec_abi() -> FnAbi {
        FnAbi { shape: AbiShape::FallibleWithContext, method: false }
    }

    fn param_types() -> (r: Vec<TypeTag>) {
        let r: Vec<TypeTag> = Vec::new();
        proof {
            assert(r@ =~= Self::spec_param_types());
        }
        r
    }

    fn abi() -> (r: FnAbi) {
        FnAbi { shape: AbiShape::FallibleWithContext, method: false }
    }

    open spec fn call_requires(&self, ctx: &NativeCallContext, args: Seq<Dynamic>) -> bool {
        &&& args.len() == 0
        &&& self.requires((ctx,))
    }

    open spec fn call_ensures(
        &self,
        ctx: &NativeCallContext,
        args: Seq<Dynamic>,
        after: Seq<Dynamic>,
        r: Result<Dynamic, EvalAltResult>,
    ) -> bool {
        &&& after == Seq::<Dynamic>::empty()
        &&& exists|res: Result<RET, EvalAltResult>|
            #[trigger] self.ensures((ctx,), res)
            && r == match res {
                Ok(ret) => Ok::<Dynamic, EvalAltResult>(
                    Dynamic { value: ret.spec_to_union(), access: AccessMode::ReadWrite },
                ),
                Err(e) => Err(e),
            }
    }

    fn call(&self, ctx: &NativeCallContext, args: &mut Vec<Dynamic>) -> (r: Result<
        Dynamic,
        EvalAltResult,
    >) {
        let res = (self)(ctx);
        proof {
            assert(args@ =~= Seq::<Dynamic>::empty());
        }
        match res {
            Ok(ret) => Ok(Dynamic::from(ret)),
            Err(e) => Err(e),
        }
    }
}

/// A host function of one parameter.
impl<
    A: Variant,
    RET: Variant,
    FN: Fn(A) -> RET,
> RegisterNativeFunction<
    (A,),
    (),
> for FN {
    open spec fn spec_param_types() -> Seq<TypeTag> {
        seq![A::spec_type_tag()]
    }

    open spec fn spec_abi() -> FnAbi {
        FnAbi { shape: AbiShape::Plain, method: false }
    }

    fn param_types() -> (r: Vec<TypeTag>) {
        let r = vec![A::type_tag()];
        proof {
            assert(r@ =~= Self::spec_param_types());
        }
        r
    }

    fn abi() -> (r: FnAbi) {
        FnAbi { shape: AbiShape::Plain, method: false }
    }

    open spec fn call_requires(&self, ctx: &NativeCallContext, args: Seq<Dynamic>) -> bool {
        &&& args.len() == 1
        &&& A::spec_from_union(args[0].value) is Some
        &&& self.requires((arg::<A>(args, 0),))
    }

    open spec fn call_ensures(
        &self,
        ctx: &NativeCallContext,
        args: Seq<Dynamic>,
        after: Seq<Dynamic>,
        r: Result<Dynamic, EvalAltResult>,
    ) -> bool {
        &&& after == seq![Dynamic::spec_unit()]
        &&& exists|res: RET|
            #[trigger] self.ensures((arg::<A>(args, 0),), res)
            && r == Ok::<Dynamic, EvalAltResult>(
                Dynamic { value: res.spec_to_union(), access: AccessMode::ReadWrite },
            )
    }

    fn call(&self, ctx: &NativeCallContext, args: &mut Vec<Dynamic>) -> (r: Result<
        Dynamic,
        EvalAltResult,
    >) {
        let a = by_value::<A>(&mut args[0]);
        let res = (self)(a);
        proof {
            assert(args@ =~= seq![Dynamic::spec_unit()]);
        }
        Ok(Dynamic::from(res))
    }
}

/// A host function of one parameter that takes the call context first.
impl<
    A: Variant,
    RET: Variant,
    FN: Fn(&NativeCallContext, A) -> RET,
> RegisterNativeFunction<
    (NativeCallContext, A),
    (),
> for FN {
    open spec fn spec_param_types() -> Seq<TypeTag> {
        seq![A::spec_type_tag()]
    }

    open spec fn spec_abi() -> FnAbi {
        FnAbi { shape: AbiShape::PlainWithContext, method: false }
    }

    fn param_types() -> (r: Vec<TypeTag>) {
        let r = vec![A::type_tag()];
        proof {
            assert(r@ =~= Self::spec_param_types());
        }
        r
    }

    fn abi() -> (r: FnAbi) {
        FnAbi { shape: AbiShape::PlainWithContext, method: false }
    }

    open spec fn call_requires(&self, ctx: &NativeCallContext, args: Seq<Dynamic>) -> bool {
        &&& args.len() == 1
        &&& A::spec_from_union(args[0].value) is Some
        &&& self.requires((ctx, arg::<A>(args, 0)))
    }

    open spec fn call_ensures(
        &self,
        ctx: &NativeCallContext,
        args: Seq<Dynamic>,
        after: Seq<Dynamic>,
        r: Result<Dynamic, EvalAltResult>,
    ) -> bool {
        &&& after == seq![Dynamic::spec_unit()]
        &&& exists|res: RET|
            #[trigger] self.ensures((ctx, arg::<A>(args, 0)), res)
            && r == Ok::<Dynamic, EvalAltResult>(
                Dynamic { value: res.spec_to_union(), access: AccessMode::ReadWrite },
            )
    }

    fn call(&self, ctx: &NativeCallContext, args: &mut Vec<Dynamic>) -> (r: Result<
        Dynamic,
        EvalAltResult,
    >) {
        let a = by_value::<A>(&mut args[0]);
        let res = (self)(ctx, a);
        proof {
            assert(args@ =~= seq![Dynamic::spec_unit()]);
        }
        Ok(Dynamic::from(res))
    }
}

/// A host function of one parameter that may fail.
impl<
    A: Variant,
    RET: Variant,
    FN: Fn(A) -> Result<RET,
    EvalAltResult>,
> RegisterNativeFunction<
    (A,),
    Result<RET, EvalAltResult>,
> for FN {
    open spec fn spec_param_types() -> Seq<TypeTag> {
        seq![A::spec_type_tag()]
    }

    open spec fn spec_abi() -> FnAbi {
        FnAbi { shape: AbiShape::Fallible, method: false }
    }

    fn param_types() -> (r: Vec<TypeTag>) {
        let r = vec![A::type_tag()];
        proof {
            assert(r@ =~= Self::spec_param_types());
        }
        r
    }

    fn abi() -> (r: FnAbi) {
        FnAbi { shape: AbiShape::Fallible, method: false }
    }

    open spec fn call_requires(&self, ctx: &NativeCallContext, args: Seq<Dynamic>) -> bool {
        &&& args.len() == 1
        &&& A::spec_from_union(args[0].value) is Some
        &&& self.requires((arg::<A>(args, 0),))
    }

    open spec fn call_ensures(
        &self,
        ctx: &NativeCallContext,
        args: Seq<Dynamic>,
        after: Seq<Dynamic>,
        r: Result<Dynamic, EvalAltResult>,
    ) -> bool {
        &&& after == seq![Dynamic::spec_unit()]
        &&& exists|res: Result<RET, EvalAltResult>|
            #[trigger] self.ensures((arg::<A>(args, 0),), res)
            && r == match res {
                Ok(ret) => Ok::<Dynamic, EvalAltResult>(
                    Dynamic { value: ret.spec_to_union(), access: AccessMode::ReadWrite },
                ),
                Err(e) => Err(e),
            }
    }

    fn call(&self, ctx: &NativeCallContext, args: &mut Vec<Dynamic>) -> (r: Result<
        Dynamic,
        EvalAltResult,
    >) {
        let a = by_value::<A>(&mut args[0]);
        let res = (self)(a);
        proof {
            assert(args@ =~= seq![Dynamic::spec_unit()]);
        }
        match res {
            Ok(ret) => Ok(Dynamic::from(ret)),
            Err(e) => Err(e),
        }
    }
}

/// A host function of one parameter that takes the call context first, and that
/// may fail.
impl<
    A: Variant,
    RET: Variant,
    FN: Fn(&NativeCallContext, A) -> Result<RET,
    EvalAltResult>,
> RegisterNativeFunction<
    (NativeCallContext, A),
    Result<RET, EvalAltResult>,
> for FN {
    open spec fn spec_param_types() -> Seq<TypeTag> {
        seq![A::spec_type_tag()]
    }

    open spec fn spec_abi() -> FnAbi {
        FnAbi { shape: AbiShape::FallibleWithContext, method: false }
    }

    fn param_types() -> (r: Vec<TypeTag>) {
        let r = vec![A::type_tag()];
        proof {
            assert(r@ =~= Self::spec_param_types());
        }
        r
    }

    fn abi() -> (r: FnAbi) {
        FnAbi { shape: AbiShape::FallibleWithContext, method: false }
    }

    open spec fn call_requires(&self, ctx: &NativeCallContext, args: Seq<Dynamic>) -> bool {
        &&& args.len() == 1
        &&& A::spec_from_union(args[0].value) is Some
        &&& self.requires((ctx, arg::<A>(args, 0)))
    }

    open spec fn call_ensures(
        &self,
        ctx: &NativeCallContext,
        args: Seq<Dynamic>,
        after: Seq<Dynamic>,
        r: Result<Dynamic, EvalAltResult>,
    ) -> bool {
        &&& after == seq![Dynamic::spec_unit()]
        &&& exists|res: Result<RET, EvalAltResult>|
            #[trigger] self.ensures((ctx, arg::<A>(args, 0)), res)
            && r == match res {
                Ok(ret) => Ok::<Dynamic, EvalAltResult>(
                    Dynamic { value: ret.spec_to_union(), access: AccessMode::ReadWrite },
                ),
                Err(e) => Err(e),
            }
    }

    fn call(&self, ctx: &NativeCallContext, args: &mut Vec<Dynamic>) -> (r: Result<
        Dynamic,
        EvalAltResult,
    >) {
        let a = by_value::<A>(&mut args[0]);
        let res = (self)(ctx, a);
        proof {
            assert(args@ =~= seq![Dynamic::spec_unit()]);
        }
        match res {
            Ok(ret) => Ok(Dynamic::from(ret)),
            Err(e) => Err(e),
        }
    }
}

/// A host function of two parameters.
impl<
    A: Variant,
    B: Variant,
    RET: Variant,
    FN: Fn(A, B) -> RET,
> RegisterNativeFunction<
    (A, B),
    (),
> for FN {
    open spec fn spec_param_types() -> Seq<TypeTag> {
        seq![A::spec_type_tag(), B::spec_type_tag()]
    }

    open spec fn spec_abi() -> FnAbi {
        FnAbi { shape: AbiShape::Plain, method: false }
    }

    fn param_types() -> (r: Vec<TypeTag>) {
        let r = vec![A::type_tag(), B::type_tag()];
        proof {
            assert(r@ =~= Self::spec_param_types());
        }
        r
    }

    fn abi() -> (r: FnAbi) {
        FnAbi { shape: AbiShape::Plain, method: false }
    }

    open spec fn call_requires(&self, ctx: &NativeCallContext, args: Seq<Dynamic>) -> bool {
        &&& args.len() == 2
        &&& A::spec_from_union(args[0].value) is Some
        &&& B::spec_from_union(args[1].value) is Some
        &&& self.requires((arg::<A>(args, 0), arg::<B>(args, 1)))
    }

    open spec fn call_ensures(
        &self,
        ctx: &NativeCallContext,
        args: Seq<Dynamic>,
        after: Seq<Dynamic>,
        r: Result<Dynamic, EvalAltResult>,
    ) -> bool {
        &&& after == seq![Dynamic::spec_unit(), Dynamic::spec_unit()]
        &&& exists|res: RET|
            #[trigger] self.ensures((arg::<A>(args, 0), arg::<B>(args, 1)), res)
            && r == Ok::<Dynamic, EvalAltResult>(
                Dynamic { value: res.spec_to_union(), access: AccessMode::ReadWrite },
            )
    }

    fn call(&self, ctx: &NativeCallContext, args: &mut Vec<Dynamic>) -> (r: Result<
        Dynamic,
        EvalAltResult,
    >) {
        let a = by_value::<A>(&mut args[0]);
        let b = by_value::<B>(&mut args[1]);
        let res = (self)(a, b);
        proof {
            assert(args@ =~= seq![Dynamic::spec_unit(), Dynamic::spec_unit()]);
        }
        Ok(Dynamic::from(res))
    }
}

/// A host function of two parameters that takes the call context first.
impl<
    A: Variant,
    B: Variant,
    RET: Variant,
    FN: Fn(&NativeCallContext, A, B) -> RET,
> RegisterNativeFunction<
    (NativeCallContext, A, B),
    (),
> for FN {
    open spec fn spec_param_types() -> Seq<TypeTag> {
        seq![A::spec_type_tag(), B::spec_type_tag()]
    }

    open spec fn spec_abi() -> FnAbi {
        FnAbi { shape: AbiShape::PlainWithContext, method: false }
    }

    fn param_types() -> (r: Vec<TypeTag>) {
        let r = vec![A::type_tag(), B::type_tag()];
        proof {
            assert(r@ =~= Self::spec_param_types());
        }
        r
    }

    fn abi() -> (r: FnAbi) {
        FnAbi { shape: AbiShape::PlainWithContext, method: false }
    }

    open spec fn call_requires(&self, ctx: &NativeCallContext, args: Seq<Dynamic>) -> bool {
        &&& args.len() == 2
        &&& A::spec_from_union(args[0].value) is Some
        &&& B::spec_from_union(args[1].value) is Some
        &&& self.requires((ctx, arg::<A>(args, 0), arg::<B>(args, 1)))
    }

    open spec fn call_ensures(
        &self,
        ctx: &NativeCallContext,
        args: Seq<Dynamic>,
        after: Seq<Dynamic>,
        r: Result<Dynamic, EvalAltResult>,
    ) -> bool {
        &&& after == seq![Dynamic::spec_unit(), Dynamic::spec_unit()]
        &&& exists|res: RET|
            #[trigger] self.ensures((ctx, arg::<A>(args, 0), arg::<B>(args, 1)), res)
            && r == Ok::<Dynamic, EvalAltResult>(
                Dynamic { value: res.spec_to_union(), access: AccessMode::ReadWrite },
            )
    }

    fn call(&self, ctx: &NativeCallContext, args: &mut Vec<Dynamic>) -> (r: Result<
        Dynamic,
        EvalAltResult,
    >) {
        let a = by_value::<A>(&mut args[0]);
        let b = by_value::<B>(&mut args[1]);
        let res = (self)(ctx, a, b);
        proof {
            assert(args@ =~= seq![Dynamic::spec_unit(), Dynamic::spec_unit()]);
        }
        Ok(Dynamic::from(res))
    }
}

/// A host function of two parameters that may fail.
impl<
    A: Variant,
    B: Variant,
    RET: Variant,
    FN: Fn(A, B) -> Result<RET,
    EvalAltResult>,
> RegisterNativeFunction<
    (A, B),
    Result<RET, EvalAltResult>,
> for FN {
    open spec fn spec_param_types() -> Seq<TypeTag> {
        seq![A::spec_type_tag(), B::spec_type_tag()]
    }

    open spec fn spec_abi() -> FnAbi {
        FnAbi { shape: AbiShape::Fallible, method: false }
    }

    fn param_types() -> (r: Vec<TypeTag>) {
        let r = vec![A::type_tag(), B::type_tag()];
        proof {
            assert(r@ =~= Self::spec_param_types());
        }
        r
    }

    fn abi() -> (r: FnAbi) {
        FnAbi { shape: AbiShape::Fallible, method: false }
    }

    open spec fn call_requires(&self, ctx: &NativeCallContext, args: Seq<Dynamic>) -> bool {
        &&& args.len() == 2
        &&& A::spec_from_union(args[0].value) is Some
        &&& B::spec_from_union(args[1].value) is Some
        &&& self.requires((arg::<A>(args, 0), arg::<B>(args, 1)))
    }

    open spec fn call_ensures(
        &self,
        ctx: &NativeCallContext,
        args: Seq<Dynamic>,
        after: Seq<Dynamic>,
        r: Result<Dynamic, EvalAltResult>,
    ) -> bool {
        &&& after == seq![Dynamic::spec_unit(), Dynamic::spec_unit()]
        &&& exists|res: Result<RET, EvalAltResult>|
            #[trigger] self.ensures((arg::<A>(args, 0), arg::<B>(args, 1)), res)
            && r == match res {
                Ok(ret) => Ok::<Dynamic, EvalAltResult>(
                    Dynamic { value: ret.spec_to_union(), access: AccessMode::ReadWrite },
                ),
                Err(e) => Err(e),
            }
    }

    fn call(&self, ctx: &NativeCallContext, args: &mut Vec<Dynamic>) -> (r: Result<
        Dynamic,
        EvalAltResult,
    >) {
        let a = by_value::<A>(&mut args[0]);
        let b = by_value::<B>(&mut args[1]);
        let res = (self)(a, b);
        proof {
            assert(args@ =~= seq![Dynamic::spec_unit(), Dynamic::spec_unit()]);
        }
        match res {
            Ok(ret) => Ok(Dynamic::from(ret)),
            Err(e) => Err(e),
        }
    }
}

/// A host function of two parameters that takes the call context first, and
/// that may fail.
impl<
    A: Variant,
    B: Variant,
    RET: Variant,
    FN: Fn(&NativeCallContext, A, B) -> Result<RET,
    EvalAltResult>,
> RegisterNativeFunction<
    (NativeCallContext, A, B),
    Result<RET, EvalAltResult>,
> for FN {
    open spec fn spec_param_types() -> Seq<TypeTag> {
        seq![A::spec_type_tag(), B::spec_type_tag()]
    }

    open spec fn spec_abi() -> FnAbi {
        FnAbi { shape: AbiShape::FallibleWithContext, method: false }
    }

    fn param_types() -> (r: Vec<TypeTag>) {
        let r = vec![A::type_tag(), B::type_tag()];
        proof {
            assert(r@ =~= Self::spec_param_types());
        }
        r
    }

    fn abi() -> (r: FnAbi) {
        FnAbi { shape: AbiShape::FallibleWithContext, method: false }
    }

    open spec fn call_requires(&self, ctx: &NativeCallContext, args: Seq<Dynamic>) -> bool {
        &&& args.len() == 2
        &&& A::spec_from_union(args[0].value) is Some
        &&& B::spec_from_union(args[1].value) is Some
        &&& self.requires((ctx, arg::<A>(args, 0), arg::<B>(args, 1)))
    }

    open spec fn call_ensures(
        &self,
        ctx: &NativeCallContext,
        args: Seq<Dynamic>,
        after: Seq<Dynamic>,
        r: Result<Dynamic, EvalAltResult>,
    ) -> bool {
        &&& after == seq![Dynamic::spec_unit(), Dynamic::spec_unit()]
        &&& exists|res: Result<RET, EvalAltResult>|
            #[trigger] self.ensures((ctx, arg::<A>(args, 0), arg::<B>(args, 1)), res)
            && r == match res {
                Ok(ret) => Ok::<Dynamic, EvalAltResult>(
                    Dynamic { value: ret.spec_to_union(), access: AccessMode::ReadWrite },
                ),
                Err(e) => Err(e),
            }
    }

    fn call(&self, ctx: &NativeCallContext, args: &mut Vec<Dynamic>) -> (r: Result<
        Dynamic,
        EvalAltResult,
    >) {
        let a = by_value::<A>(&mut args[0]);
        let b = by_value::<B>(&mut args[1]);
        let res = (self)(ctx, a, b);
        proof {
            assert(args@ =~= seq![Dynamic::spec_unit(), Dynamic::spec_unit()]);
        }
        match res {
            Ok(ret) => Ok(Dynamic::from(ret)),
            Err(e) => Err(e),
        }
    }
}

/// A host function of three parameters.
impl<
    A: Variant,
    B: Variant,
    C: Variant,
    RET: Variant,
    FN: Fn(A, B, C) -> RET,
> RegisterNativeFunction<
    (A, B, C),
    (),
> for FN {
    open spec fn spec_param_types() -> Seq<TypeTag> {
        seq![A::spec_type_tag(), B::spec_type_tag(), C::spec_type_tag()]
    }

    open spec fn spec_abi() -> FnAbi {
        FnAbi { shape: AbiShape::Plain, method: false }
    }

    fn param_types() -> (r: Vec<TypeTag>) {
        let r = vec![A::type_tag(), B::type_tag(), C::type_tag()];
        proof {
            assert(r@ =~= Self::spec_param_types());
        }
        r
    }

    fn abi() -> (r: FnAbi) {
        FnAbi { shape: AbiShape::Plain, method: false }
    }

    open spec fn call_requires(&self, ctx: &NativeCallContext, args: Seq<Dynamic>) -> bool {
        &&& args.len() == 3
        &&& A::spec_from_union(args[0].value) is Some
        &&& B::spec_from_union(args[1].value) is Some
        &&& C::spec_from_union(args[2].value) is Some
        &&& self.requires((arg::<A>(args, 0), arg::<B>(args, 1), arg::<C>(args, 2)))
    }

    open spec fn call_ensures(
        &self,
        ctx: &NativeCallContext,
        args: Seq<Dynamic>,
        after: Seq<Dynamic>,
        r: Result<Dynamic, EvalAltResult>,
    ) -> bool {
        &&& after == seq![Dynamic::spec_unit(), Dynamic::spec_unit(), Dynamic::spec_unit()]
        &&& exists|res: RET|
            #[trigger] self.ensures((arg::<A>(args, 0), arg::<B>(args, 1), arg::<C>(args, 2)), res)
            && r == Ok::<Dynamic, EvalAltResult>(
                Dynamic { value: res.spec_to_union(), access: AccessMode::ReadWrite },
            )
    }

    fn call(&self, ctx: &NativeCallContext, args: &mut Vec<Dynamic>) -> (r: Result<
        Dynamic,
        EvalAltResult,
    >) {
        let a = by_value::<A>(&mut args[0]);
        let b = by_value::<B>(&mut args[1]);
        let c = by_value::<C>(&mut args[2]);
        let res = (self)(a, b, c);
        proof {
            assert(args@ =~= seq![Dynamic::spec_unit(), Dynamic::spec_unit(), Dynamic::spec_unit()]);
        }
        Ok(Dynamic::from(res))
    }
}

/// A host function of three parameters that takes the call context first.
impl<
    A: Variant,
    B: Variant,
    C: Variant,
    RET: Variant,
    FN: Fn(&NativeCallContext, A, B, C) -> RET,
> RegisterNativeFunction<
    (NativeCallContext, A, B, C),
    (),
> for FN {
    open spec fn spec_param_types() -> Seq<TypeTag> {
        seq![A::spec_type_tag(), B::spec_type_tag(), C::spec_type_tag()]
    }

    open spec fn spec_abi() -> FnAbi {
        FnAbi { shape: AbiShape::PlainWithContext, method: false }
    }

    fn param_types() -> (r: Vec<TypeTag>) {
        let r = vec![A::type_tag(), B::type_tag(), C::type_tag()];
        proof {
            assert(r@ =~= Self::spec_param_types());
        }
        r
    }

    fn abi() -> (r: FnAbi) {
        FnAbi { shape: AbiShape::PlainWithContext, method: false }
    }

    open spec fn call_requires(&self, ctx: &NativeCallContext, args: Seq<Dynamic>) -> bool {
        &&& args.len() == 3
        &&& A::spec_from_union(args[0].value) is Some
        &&& B::spec_from_union(args[1].value) is Some
        &&& C::spec_from_union(args[2].value) is Some
        &&& self.requires((ctx, arg::<A>(args, 0), arg::<B>(args, 1), arg::<C>(args, 2)))
    }

    open spec fn call_ensures(
        &self,
        ctx: &NativeCallContext,
        args: Seq<Dynamic>,
        after: Seq<Dynamic>,
        r: Result<Dynamic, EvalAltResult>,
    ) -> bool {
        &&& after == seq![Dynamic::spec_unit(), Dynamic::spec_unit(), Dynamic::spec_unit()]
        &&& exists|res: RET|
            #[trigger] self.ensures((ctx, arg::<A>(args, 0), arg::<B>(args, 1), arg::<C>(args, 2)), res)
            && r == Ok::<Dynamic, EvalAltResult>(
                Dynamic { value: res.spec_to_union(), access: AccessMode::ReadWrite },
            )
    }

    fn call(&self, ctx: &NativeCallContext, args: &mut Vec<Dynamic>) -> (r: Result<
        Dynamic,
        EvalAltResult,
    >) {
        let a = by_value::<A>(&mut args[0]);
        let b = by_value::<B>(&mut args[1]);
        let c = by_value::<C>(&mut args[2]);
        let res = (self)(ctx, a, b, c);
        proof {
            assert(args@ =~= seq![Dynamic::spec_unit(), Dynamic::spec_unit(), Dynamic::spec_unit()]);
        }
        Ok(Dynamic::from(res))
    }
}

/// A host function of three parameters that may fail.
impl<
    A: Variant,
    B: Variant,
    C: Variant,
    RET: Variant,
    FN: Fn(A, B, C) -> Result<RET,
    EvalAltResult>,
> RegisterNativeFunction<
    (A, B, C),
    Result<RET, EvalAltResult>,
> for FN {
    open spec fn spec_param_types() -> Seq<TypeTag> {
        seq![A::spec_type_tag(), B::spec_type_tag(), C::spec_type_tag()]
    }

    open spec fn spec_abi() -> FnAbi {
        FnAbi { shape: AbiShape::Fallible, method: false }
    }

    fn param_types() -> (r: Vec<TypeTag>) {
        let r = vec![A::type_tag(), B::type_tag(), C::type_tag()];
        proof {
            assert(r@ =~= Self::spec_param_types());
        }
        r
    }

    fn abi() -> (r: FnAbi) {
        FnAbi { shape: AbiShape::Fallible, method: false }
    }

    open spec fn call_requires(&self, ctx: &NativeCallContext, args: Seq<Dynamic>) -> bool {
        &&& args.len() == 3
        &&& A::spec_from_union(args[0].value) is Some
        &&& B::spec_from_union(args[1].value) is Some
        &&& C::spec_from_union(args[2].value) is Some
        &&& self.requires((arg::<A>(args, 0), arg::<B>(args, 1), arg::<C>(args, 2)))
    }

    open spec fn call_ensures(
        &self,
        ctx: &NativeCallContext,
        args: Seq<Dynamic>,
        after: Seq<Dynamic>,
        r: Result<Dynamic, EvalAltResult>,
    ) -> bool {
        &&& after == seq![Dynamic::spec_unit(), Dynamic::spec_unit(), Dynamic::spec_unit()]
        &&& exists|res: Result<RET, EvalAltResult>|
            #[trigger] self.ensures((arg::<A>(args, 0), arg::<B>(args, 1), arg::<C>(args, 2)), res)
            && r == match res {
                Ok(ret) => Ok::<Dynamic, EvalAltResult>(
                    Dynamic { value: ret.spec_to_union(), access: AccessMode::ReadWrite },
                ),
                Err(e) => Err(e),
            }
    }

    fn call(&self, ctx: &NativeCallContext, args: &mut Vec<Dynamic>) -> (r: Result<
        Dynamic,
        EvalAltResult,
    >) {
        let a = by_value::<A>(&mut args[0]);
        let b = by_value::<B>(&mut args[1]);
        let c = by_value::<C>(&mut args[2]);
        let res = (self)(a, b, c);
        proof {
            assert(args@ =~= seq![Dynamic::spec_unit(), Dynamic::spec_unit(), Dynamic::spec_unit()]);
        }
        match res {
            Ok(ret) => Ok(Dynamic::from(ret)),
            Err(e) => Err(e),
        }
    }
}

/// A host function of three parameters that takes the call context first, and
/// that may fail.
impl<
    A: Variant,
    B: Variant,
    C: Variant,
    RET: Variant,
    FN: Fn(&NativeCallContext, A, B, C) -> Result<RET,
    EvalAltResult>,
> RegisterNativeFunction<
    (NativeCallContext, A, B, C),
    Result<RET, EvalAltResult>,
> for FN {
    open spec fn spec_param_types() -> Seq<TypeTag> {
        seq![A::spec_type_tag(), B::spec_type_tag(), C::spec_type_tag()]
    }

    open spec fn spec_abi() -> FnAbi {
        FnAbi { shape: AbiShape::FallibleWithContext, method: false }
    }

    fn param_types() -> (r: Vec<TypeTag>) {
        let r = vec![A::type_tag(), B::type_tag(), C::type_tag()];
        proof {
            assert(r@ =~= Self::spec_param_types());
        }
        r
    }

    fn abi() -> (r: FnAbi) {
        FnAbi { shape: AbiShape::FallibleWithContext, method: false }
    }

    open spec fn call_requires(&self, ctx: &NativeCallContext, args: Seq<Dynamic>) -> bool {
        &&& args.len() == 3
        &&& A::spec_from_union(args[0].value) is Some
        &&& B::spec_from_union(args[1].value) is Some
        &&& C::spec_from_union(args[2].value) is Some
        &&& self.requires((ctx, arg::<A>(args, 0), arg::<B>(args, 1), arg::<C>(args, 2)))
    }

    open spec fn call_ensures(
        &self,
        ctx: &NativeCallContext,
        args: Seq<Dynamic>,
        after: Seq<Dynamic>,
        r: Result<Dynamic, EvalAltResult>,
    ) -> bool {
        &&& after == seq![Dynamic::spec_unit(), Dynamic::spec_unit(), Dynamic::spec_unit()]
        &&& exists|res: Result<RET, EvalAltResult>|
            #[trigger] self.ensures((ctx, arg::<A>(args, 0), arg::<B>(args, 1), arg::<C>(args, 2)), res)
            && r == match res {
                Ok(ret) => Ok::<Dynamic, EvalAltResult>(
                    Dynamic { value: ret.spec_to_union(), access: AccessMode::ReadWrite },
                ),
                Err(e) => Err(e),
            }
    }

    fn call(&self, ctx: &NativeCallContext, args: &mut Vec<Dynamic>) -> (r: Result<
        Dynamic,
        EvalAltResult,
    >) {
        let a = by_value::<A>(&mut args[0]);
        let b = by_value::<B>(&mut args[1]);
        let c = by_value::<C>(&mut args[2]);
        let res = (self)(ctx, a, b, c);
        proof {
            assert(args@ =~= seq![Dynamic::spec_unit(), Dynamic::spec_unit(), Dynamic::spec_unit()]);
        }
        match res {
            Ok(ret) => Ok(Dynamic::from(ret)),
            Err(e) => Err(e),
        }
    }
}

/// A host function of one parameter, called as a method: its first
/// parameter is the first argument's value itself, by exclusive reference.
impl<
    A: Variant,
    RET: Variant,
    FN: Fn(&mut A) -> RET,
> RegisterNativeFunction<
    (Mut<A>,),
    (),
> for FN {
    open spec fn spec_param_types() -> Seq<TypeTag> {
        seq![A::spec_type_tag()]
    }

    open spec fn spec_abi() -> FnAbi {
        FnAbi { shape: AbiShape::Plain, method: true }
    }

    fn param_types() -> (r: Vec<TypeTag>) {
        let r = vec![A::type_tag()];
        proof {
            assert(r@ =~= Self::spec_param_types());
        }
        r
    }

    fn abi() -> (r: FnAbi) {
        FnAbi { shape: AbiShape::Plain, method: true }
    }

    open spec fn call_requires(&self, ctx: &NativeCallContext, args: Seq<Dynamic>) -> bool {
        &&& args.len() == 1
        &&& A::spec_from_union(args[0].value) is Some
        &&& forall|a: &mut A| *a == arg::<A>(args, 0)
            ==> #[trigger] self.requires((a,))
    }

    open spec fn call_ensures(
        &self,
        ctx: &NativeCallContext,
        args: Seq<Dynamic>,
        after: Seq<Dynamic>,
        r: Result<Dynamic, EvalAltResult>,
    ) -> bool {
        &&& after.len() == 1
        &&& after[0].access == args[0].access
        &&& A::spec_from_union(after[0].value) is Some
        &&& exists|a: &mut A, res: RET|
            *a == arg::<A>(args, 0)
            && #[trigger] self.ensures((a,), res)
            && r == Ok::<Dynamic, EvalAltResult>(
                Dynamic { value: res.spec_to_union(), access: AccessMode::ReadWrite },
            )
    }

    fn call(&self, ctx: &NativeCallContext, args: &mut Vec<Dynamic>) -> (r: Result<
        Dynamic,
        EvalAltResult,
    >) {
        let a = by_ref::<A>(&mut args[0]);
        proof {
            assert(*a == arg::<A>(old(args)@, 0));
        }
        let res = (self)(a);
        proof {
            A::lemma_round_trip(*a);
        }
        Ok(Dynamic::from(res))
    }
}

/// A host function of one parameter that takes the call context first, called
/// as a method: its first
/// parameter is the first argument's value itself, by exclusive reference.
impl<
    A: Variant,
    RET: Variant,
    FN: Fn(&NativeCallContext, &mut A) -> RET,
> RegisterNativeFunction<
    (NativeCallContext, Mut<A>),
    (),
> for FN {
    open spec fn spec_param_types() -> Seq<TypeTag> {
        seq![A::spec_type_tag()]
    }

    open spec fn spec_abi() -> FnAbi {
        FnAbi { shape: AbiShape::PlainWithContext, method: true }
    }

    fn param_types() -> (r: Vec<TypeTag>) {
        let r = vec![A::type_tag()];
        proof {
            assert(r@ =~= Self::spec_param_types());
        }
        r
    }

    fn abi() -> (r: FnAbi) {
        FnAbi { shape: AbiShape::PlainWithContext, method: true }
    }

    open spec fn call_requires(&self, ctx: &NativeCallContext, args: Seq<Dynamic>) -> bool {
        &&& args.len() == 1
        &&& A::spec_from_union(args[0].value) is Some
        &&& forall|a: &mut A| *a == arg::<A>(args, 0)
            ==> #[trigger] self.requires((ctx, a))
    }

    open spec fn call_ensures(
        &self,
        ctx: &NativeCallContext,
        args: Seq<Dynamic>,
        after: Seq<Dynamic>,
        r: Result<Dynamic, EvalAltResult>,
    ) -> bool {
        &&& after.len() == 1
        &&& after[0].access == args[0].access
        &&& A::spec_from_union(after[0].value) is Some
        &&& exists|a: &mut A, res: RET|
            *a == arg::<A>(args, 0)
            && #[trigger] self.ensures((ctx, a), res)
            && r == Ok::<Dynamic, EvalAltResult>(
                Dynamic { value: res.spec_to_union(), access: AccessMode::ReadWrite },
            )
    }

    fn call(&self, ctx: &NativeCallContext, args: &mut Vec<Dynamic>) -> (r: Result<
        Dynamic,
        EvalAltResult,
    >) {
        let a = by_ref::<A>(&mut args[0]);
        proof {
            assert(*a == arg::<A>(old(args)@, 0));
        }
        let res = (self)(ctx, a);
        proof {
            A::lemma_round_trip(*a);
        }
        Ok(Dynamic::from(res))
    }
}

/// A host function of one parameter that may fail, called as a method: its
/// first
/// parameter is the first argument's value itself, by exclusive reference.
impl<
    A: Variant,
    RET: Variant,
    FN: Fn(&mut A) -> Result<RET,
    EvalAltResult>,
> RegisterNativeFunction<
    (Mut<A>,),
    Result<RET, EvalAltResult>,
> for FN {
    open spec fn spec_param_types() -> Seq<TypeTag> {
        seq![A::spec_type_tag()]
    }

    open spec fn spec_abi() -> FnAbi {
        FnAbi { shape: AbiShape::Fallible, method: true }
    }

    fn param_types() -> (r: Vec<TypeTag>) {
        let r = vec![A::type_tag()];
        proof {
            assert(r@ =~= Self::spec_param_types());
        }
        r
    }

    fn abi() -> (r: FnAbi) {
        FnAbi { shape: AbiShape::Fallible, method: true }
    }

    open spec fn call_requires(&self, ctx: &NativeCallContext, args: Seq<Dynamic>) -> bool {
        &&& args.len() == 1
        &&& A::spec_from_union(args[0].value) is Some
        &&& forall|a: &mut A| *a == arg::<A>(args, 0)
            ==> #[trigger] self.requires((a,))
    }

    open spec fn call_ensures(
        &self,
        ctx: &NativeCallContext,
        args: Seq<Dynamic>,
        after: Seq<Dynamic>,
        r: Result<Dynamic, EvalAltResult>,
    ) -> bool {
        &&& after.len() == 1
        &&& after[0].access == args[0].access
        &&& A::spec_from_union(after[0].value) is Some
        &&& exists|a: &mut A, res: Result<RET, EvalAltResult>|
            *a == arg::<A>(args, 0)
            && #[trigger] self.ensures((a,), res)
            && r == match res {
                Ok(ret) => Ok::<Dynamic, EvalAltResult>(
                    Dynamic { value: ret.spec_to_union(), access: AccessMode::ReadWrite },
                ),
                Err(e) => Err(e),
            }
    }

    fn call(&self, ctx: &NativeCallContext, args: &mut Vec<Dynamic>) -> (r: Result<
        Dynamic,
        EvalAltResult,
    >) {
        let a = by_ref::<A>(&mut args[0]);
        proof {
            assert(*a == arg::<A>(old(args)@, 0));
        }
        let res = (self)(a);
        proof {
            A::lemma_round_trip(*a);
        }
        match res {
            Ok(ret) => Ok(Dynamic::from(ret)),
            Err(e) => Err(e),
        }
    }
}

/// A host function of one parameter that takes the call context first, and that
/// may fail, called as a method: its first
/// parameter is the first argument's value itself, by exclusive reference.
impl<
    A: Variant,
    RET: Variant,
    FN: Fn(&NativeCallContext, &mut A) -> Result<RET,
    EvalAltResult>,
> RegisterNativeFunction<
    (NativeCallContext, Mut<A>),
    Result<RET, EvalAltResult>,
> for FN {
    open spec fn spec_param_types() -> Seq<TypeTag> {
        seq![A::spec_type_tag()]
    }

    open spec fn spec_abi() -> FnAbi {
        FnAbi { shape: AbiShape::FallibleWithContext, method: true }
    }

    fn param_types() -> (r: Vec<TypeTag>) {
        let r = vec![A::type_tag()];
        proof {
            assert(r@ =~= Self::spec_param_types());
        }
        r
    }

    fn abi() -> (r: FnAbi) {
        FnAbi { shape: AbiShape::FallibleWithContext, method: true }
    }

    open spec fn call_requires(&self, ctx: &NativeCallContext, args: Seq<Dynamic>) -> bool {
        &&& args.len() == 1
        &&& A::spec_from_union(args[0].value) is Some
        &&& forall|a: &mut A| *a == arg::<A>(args, 0)
            ==> #[trigger] self.requires((ctx, a))
    }

    open spec fn call_ensures(
        &self,
        ctx: &NativeCallContext,
        args: Seq<Dynamic>,
        after: Seq<Dynamic>,
        r: Result<Dynamic, EvalAltResult>,
    ) -> bool {
        &&& after.len() == 1
        &&& after[0].access == args[0].access
        &&& A::spec_from_union(after[0].value) is Some
        &&& exists|a: &mut A, res: Result<RET, EvalAltResult>|
            *a == arg::<A>(args, 0)
            && #[trigger] self.ensures((ctx, a), res)
            && r == match res {
                Ok(ret) => Ok::<Dynamic, EvalAltResult>(
                    Dynamic { value: ret.spec_to_union(), access: AccessMode::ReadWrite },
                ),
                Err(e) => Err(e),
            }
    }

    fn call(&self, ctx: &NativeCallContext, args: &mut Vec<Dynamic>) -> (r: Result<
        Dynamic,
        EvalAltResult,
    >) {
        let a = by_ref::<A>(&mut args[0]);
        proof {
            assert(*a == arg::<A>(old(args)@, 0));
        }
        let res = (self)(ctx, a);
        proof {
            A::lemma_round_trip(*a);
        }
        match res {
            Ok(ret) => Ok(Dynamic::from(ret)),
            Err(e) => Err(e),
        }
    }
}

/// A host function of two parameters, called as a method: its first
/// parameter is the first argument's value itself, by exclusive reference.
impl<
    A: Variant,
    B: Variant,
    RET: Variant,
    FN: Fn(&mut A, B) -> RET,
> RegisterNativeFunction<
    (Mut<A>, B),
    (),
> for FN {
    open spec fn spec_param_types() -> Seq<TypeTag> {
        seq![A::spec_type_tag(), B::spec_type_tag()]
    }

    open spec fn spec_abi() -> FnAbi {
        FnAbi { shape: AbiShape::Plain, method: true }
    }

    fn param_types() -> (r: Vec<TypeTag>) {
        let r = vec![A::type_tag(), B::type_tag()];
        proof {
            assert(r@ =~= Self::spec_param_types());
        }
        r
    }

    fn abi() -> (r: FnAbi) {
        FnAbi { shape: AbiShape::Plain, method: true }
    }

    open spec fn call_requires(&self, ctx: &NativeCallContext, args: Seq<Dynamic>) -> bool {
        &&& args.len() == 2
        &&& A::spec_from_union(args[0].value) is Some
        &&& B::spec_from_union(args[1].value) is Some
        &&& forall|a: &mut A| *a == arg::<A>(args, 0)
            ==> #[trigger] self.requires((a, arg::<B>(args, 1)))
    }

    open spec fn call_ensures(
        &self,
        ctx: &NativeCallContext,
        args: Seq<Dynamic>,
        after: Seq<Dynamic>,
        r: Result<Dynamic, EvalAltResult>,
    ) -> bool {
        &&& after.len() == 2
        &&& after[0].access == args[0].access
        &&& A::spec_from_union(after[0].value) is Some
        &&& after[1] == Dynamic::spec_unit()
        &&& exists|a: &mut A, res: RET|
            *a == arg::<A>(args, 0)
            && #[trigger] self.ensures((a, arg::<B>(args, 1)), res)
            && r == Ok::<Dynamic, EvalAltResult>(
                Dynamic { value: res.spec_to_union(), access: AccessMode::ReadWrite },
            )
    }

    fn call(&self, ctx: &NativeCallContext, args: &mut Vec<Dynamic>) -> (r: Result<
        Dynamic,
        EvalAltResult,
    >) {
        let b = by_value::<B>(&mut args[1]);
        let a = by_ref::<A>(&mut args[0]);
        proof {
            assert(*a == arg::<A>(old(args)@, 0));
            assert(b == arg::<B>(old(args)@, 1));
        }
        let res = (self)(a, b);
        proof {
            A::lemma_round_trip(*a);
        }
        Ok(Dynamic::from(res))
    }
}

/// A host function of two parameters that takes the call context first, called
/// as a method: its first
/// parameter is the first argument's value itself, by exclusive reference.
impl<
    A: Variant,
    B: Variant,
    RET: Variant,
    FN: Fn(&NativeCallContext, &mut A, B) -> RET,
> RegisterNativeFunction<
    (NativeCallContext, Mut<A>, B),
    (),
> for FN {
    open spec fn spec_param_types() -> Seq<TypeTag> {
        seq![A::spec_type_tag(), B::spec_type_tag()]
    }

    open spec fn spec_abi() -> FnAbi {
        FnAbi { shape: AbiShape::PlainWithContext, method: true }
    }

    fn param_types() -> (r: Vec<TypeTag>) {
        let r = vec![A::type_tag(), B::type_tag()];
        proof {
            assert(r@ =~= Self::spec_param_types());
        }
        r
    }

    fn abi() -> (r: FnAbi) {
        FnAbi { shape: AbiShape::PlainWithContext, method: true }
    }

    open spec fn call_requires(&self, ctx: &NativeCallContext, args: Seq<Dynamic>) -> bool {
        &&& args.len() == 2
        &&& A::spec_from_union(args[0].value) is Some
        &&& B::spec_from_union(args[1].value) is Some
        &&& forall|a: &mut A| *a == arg::<A>(args, 0)
            ==> #[trigger] self.requires((ctx, a, arg::<B>(args, 1)))
    }

    open spec fn call_ensures(
        &self,
        ctx: &NativeCallContext,
        args: Seq<Dynamic>,
        after: Seq<Dynamic>,
        r: Result<Dynamic, EvalAltResult>,
    ) -> bool {
        &&& after.len() == 2
        &&& after[0].access == args[0].access
        &&& A::spec_from_union(after[0].value) is Some
        &&& after[1] == Dynamic::spec_unit()
        &&& exists|a: &mut A, res: RET|
            *a == arg::<A>(args, 0)
            && #[trigger] self.ensures((ctx, a, arg::<B>(args, 1)), res)
            && r == Ok::<Dynamic, EvalAltResult>(
                Dynamic { value: res.spec_to_union(), access: AccessMode::ReadWrite },
            )
    }

    fn call(&self, ctx: &NativeCallContext, args: &mut Vec<Dynamic>) -> (r: Result<
        Dynamic,
        EvalAltResult,
    >) {
        let b = by_value::<B>(&mut args[1]);
        let a = by_ref::<A>(&mut args[0]);
        proof {
            assert(*a == arg::<A>(old(args)@, 0));
            assert(b == arg::<B>(old(args)@, 1));
        }
        let res = (self)(ctx, a, b);
        proof {
            A::lemma_round_trip(*a);
        }
        Ok(Dynamic::from(res))
    }
}

/// A host function of two parameters that may fail, called as a method: its
/// first
/// parameter is the first argument's value itself, by exclusive reference.
impl<
    A: Variant,
    B: Variant,
    RET: Variant,
    FN: Fn(&mut A, B) -> Result<RET,
    EvalAltResult>,
> RegisterNativeFunction<
    (Mut<A>, B),
    Result<RET, EvalAltResult>,
> for FN {
    open spec fn spec_param_types() -> Seq<TypeTag> {
        seq![A::spec_type_tag(), B::spec_type_tag()]
    }

    open spec fn spec_abi() -> FnAbi {
        FnAbi { shape: AbiShape::Fallible, method: true }
    }

    fn param_types() -> (r: Vec<TypeTag>) {
        let r = vec![A::type_tag(), B::type_tag()];
        proof {
            assert(r@ =~= Self::spec_param_types());
        }
        r
    }

    fn abi() -> (r: FnAbi) {
        FnAbi { shape: AbiShape::Fallible, method: true }
    }

    open spec fn call_requires(&self, ctx: &NativeCallContext, args: Seq<Dynamic>) -> bool {
        &&& args.len() == 2
        &&& A::spec_from_union(args[0].value) is Some
        &&& B::spec_from_union(args[1].value) is Some
        &&& forall|a: &mut A| *a == arg::<A>(args, 0)
            ==> #[trigger] self.requires((a, arg::<B>(args, 1)))
    }

    open spec fn call_ensures(
        &self,
        ctx: &NativeCallContext,
        args: Seq<Dynamic>,
        after: Seq<Dynamic>,
        r: Result<Dynamic, EvalAltResult>,
    ) -> bool {
        &&& after.len() == 2
        &&& after[0].access == args[0].access
        &&& A::spec_from_union(after[0].value) is Some
        &&& after[1] == Dynamic::spec_unit()
        &&& exists|a: &mut A, res: Result<RET, EvalAltResult>|
            *a == arg::<A>(args, 0)
            && #[trigger] self.ensures((a, arg::<B>(args, 1)), res)
            && r == match res {
                Ok(ret) => Ok::<Dynamic, EvalAltResult>(
                    Dynamic { value: ret.spec_to_union(), access: AccessMode::ReadWrite },
                ),
                Err(e) => Err(e),
            }
    }

    fn call(&self, ctx: &NativeCallContext, args: &mut Vec<Dynamic>) -> (r: Result<
        Dynamic,
        EvalAltResult,
    >) {
        let b = by_value::<B>(&mut args[1]);
        let a = by_ref::<A>(&mut args[0]);
        proof {
            assert(*a == arg::<A>(old(args)@, 0));
            assert(b == arg::<B>(old(args)@, 1));
        }
        let res = (self)(a, b);
        proof {
            A::lemma_round_trip(*a);
        }
        match res {
            Ok(ret) => Ok(Dynamic::from(ret)),
            Err(e) => Err(e),
        }
    }
}

/// A host function of two parameters that takes the call context first, and
/// that may fail, called as a method: its first
/// parameter is the first argument's value itself, by exclusive reference.
impl<
    A: Variant,
    B: Variant,
    RET: Variant,
    FN: Fn(&NativeCallContext, &mut A, B) -> Result<RET,
    EvalAltResult>,
> RegisterNativeFunction<
    (NativeCallContext, Mut<A>, B),
    Result<RET, EvalAltResult>,
> for FN {
    open spec fn spec_param_types() -> Seq<TypeTag> {
        seq![A::spec_type_tag(), B::spec_type_tag()]
    }

    open spec fn spec_abi() -> FnAbi {
        FnAbi { shape: AbiShape::FallibleWithContext, method: true }
    }

    fn param_types() -> (r: Vec<TypeTag>) {
        let r = vec![A::type_tag(), B::type_tag()];
        proof {
            assert(r@ =~= Self::spec_param_types());
        }
        r
    }

    fn abi() -> (r: FnAbi) {
        FnAbi { shape: AbiShape::FallibleWithContext, method: true }
    }

    open spec fn call_requires(&self, ctx: &NativeCallContext, args: Seq<Dynamic>) -> bool {
        &&& args.len() == 2
        &&& A::spec_from_union(args[0].value) is Some
        &&& B::spec_from_union(args[1].value) is Some
        &&& forall|a: &mut A| *a == arg::<A>(args, 0)
            ==> #[trigger] self.requires((ctx, a, arg::<B>(args, 1)))
    }

    open spec fn call_ensures(
        &self,
        ctx: &NativeCallContext,
        args: Seq<Dynamic>,
        after: Seq<Dynamic>,
        r: Result<Dynamic, EvalAltResult>,
    ) -> bool {
        &&& after.len() == 2
        &&& after[0].access == args[0].access
        &&& A::spec_from_union(after[0].value) is Some
        &&& after[1] == Dynamic::spec_unit()
        &&& exists|a: &mut A, res: Result<RET, EvalAltResult>|
            *a == arg::<A>(args, 0)
            && #[trigger] self.ensures((ctx, a, arg::<B>(args, 1)), res)
            && r == match res {
                Ok(ret) => Ok::<Dynamic, EvalAltResult>(
                    Dynamic { value: ret.spec_to_union(), access: AccessMode::ReadWrite },
                ),
                Err(e) => Err(e),
            }
    }

    fn call(&self, ctx: &NativeCallContext, args: &mut Vec<Dynamic>) -> (r: Result<
        Dynamic,
        EvalAltResult,
    >) {
        let b = by_value::<B>(&mut args[1]);
        let a = by_ref::<A>(&mut args[0]);
        proof {
            assert(*a == arg::<A>(old(args)@, 0));
            assert(b == arg::<B>(old(args)@, 1));
        }
        let res = (self)(ctx, a, b);
        proof {
            A::lemma_round_trip(*a);
        }
        match res {
            Ok(ret) => Ok(Dynamic::from(ret)),
            Err(e) => Err(e),
        }
    }
}

/// A host function of three parameters, called as a method: its first
/// parameter is the first argument's value itself, by exclusive reference.
impl<
    A: Variant,
    B: Variant,
    C: Variant,
    RET: Variant,
    FN: Fn(&mut A, B, C) -> RET,
> RegisterNativeFunction<
    (Mut<A>, B, C),
    (),
> for FN {
    open spec fn spec_param_types() -> Seq<TypeTag> {
        seq![A::spec_type_tag(), B::spec_type_tag(), C::spec_type_tag()]
    }

    open spec fn spec_abi() -> FnAbi {
        FnAbi { shape: AbiShape::Plain, method: true }
    }

    fn param_types() -> (r: Vec<TypeTag>) {
        let r = vec![A::type_tag(), B::type_tag(), C::type_tag()];
        proof {
            assert(r@ =~= Self::spec_param_types());
        }
        r
    }

    fn abi() -> (r: FnAbi) {
        FnAbi { shape: AbiShape::Plain, method: true }
    }

    open spec fn call_requires(&self, ctx: &NativeCallContext, args: Seq<Dynamic>) -> bool {
        &&& args.len() == 3
        &&& A::spec_from_union(args[0].value) is Some
        &&& B::spec_from_union(args[1].value) is Some
        &&& C::spec_from_union(args[2].value) is Some
        &&& forall|a: &mut A| *a == arg::<A>(args, 0)
            ==> #[trigger] self.requires((a, arg::<B>(args, 1), arg::<C>(args, 2)))
    }

    open spec fn call_ensures(
        &self,
        ctx: &NativeCallContext,
        args: Seq<Dynamic>,
        after: Seq<Dynamic>,
        r: Result<Dynamic, EvalAltResult>,
    ) -> bool {
        &&& after.len() == 3
        &&& after[0].access == args[0].access
        &&& A::spec_from_union(after[0].value) is Some
        &&& after[1] == Dynamic::spec_unit()
        &&& after[2] == Dynamic::spec_unit()
        &&& exists|a: &mut A, res: RET|
            *a == arg::<A>(args, 0)
            && #[trigger] self.ensures((a, arg::<B>(args, 1), arg::<C>(args, 2)), res)
            && r == Ok::<Dynamic, EvalAltResult>(
                Dynamic { value: res.spec_to_union(), access: AccessMode::ReadWrite },
            )
    }

    fn call(&self, ctx: &NativeCallContext, args: &mut Vec<Dynamic>) -> (r: Result<
        Dynamic,
        EvalAltResult,
    >) {
        let b = by_value::<B>(&mut args[1]);
        let c = by_value::<C>(&mut args[2]);
        let a = by_ref::<A>(&mut args[0]);
        proof {
            assert(*a == arg::<A>(old(args)@, 0));
            assert(b == arg::<B>(old(args)@, 1));
            assert(c == arg::<C>(old(args)@, 2));
        }
        let res = (self)(a, b, c);
        proof {
            A::lemma_round_trip(*a);
        }
        Ok(Dynamic::from(res))
    }
}

/// A host function of three parameters that takes the call context first,
/// called as a method: its first
/// parameter is the first argument's value itself, by exclusive reference.
impl<
    A: Variant,
    B: Variant,
    C: Variant,
    RET: Variant,
    FN: Fn(&NativeCallContext, &mut A, B, C) -> RET,
> RegisterNativeFunction<
    (NativeCallContext, Mut<A>, B, C),
    (),
> for FN {
    open spec fn spec_param_types() -> Seq<TypeTag> {
        seq![A::spec_type_tag(), B::spec_type_tag(), C::spec_type_tag()]
    }

    open spec fn spec_abi() -> FnAbi {
        FnAbi { shape: AbiShape::PlainWithContext, method: true }
    }

    fn param_types() -> (r: Vec<TypeTag>) {
        let r = vec![A::type_tag(), B::type_tag(), C::type_tag()];
        proof {
            assert(r@ =~= Self::spec_param_types());
        }
        r
    }

    fn abi() -> (r: FnAbi) {
        FnAbi { shape: AbiShape::PlainWithContext, method: true }
    }

    open spec fn call_requires(&self, ctx: &NativeCallContext, args: Seq<Dynamic>) -> bool {
        &&& args.len() == 3
        &&& A::spec_from_union(args[0].value) is Some
        &&& B::spec_from_union(args[1].value) is Some
        &&& C::spec_from_union(args[2].value) is Some
        &&& forall|a: &mut A| *a == arg::<A>(args, 0)
            ==> #[trigger] self.requires((ctx, a, arg::<B>(args, 1), arg::<C>(args, 2)))
    }

    open spec fn call_ensures(
        &self,
        ctx: &NativeCallContext,
        args: Seq<Dynamic>,
        after: Seq<Dynamic>,
        r: Result<Dynamic, EvalAltResult>,
    ) -> bool {
        &&& after.len() == 3
        &&& after[0].access == args[0].access
        &&& A::spec_from_union(after[0].value) is Some
        &&& after[1] == Dynamic::spec_unit()
        &&& after[2] == Dynamic::spec_unit()
        &&& exists|a: &mut A, res: RET|
            *a == arg::<A>(args, 0)
            && #[trigger] self.ensures((ctx, a, arg::<B>(args, 1), arg::<C>(args, 2)), res)
            && r == Ok::<Dynamic, EvalAltResult>(
                Dynamic { value: res.spec_to_union(), access: AccessMode::ReadWrite },
            )
    }

    fn call(&self, ctx: &NativeCallContext, args: &mut Vec<Dynamic>) -> (r: Result<
        Dynamic,
        EvalAltResult,
    >) {
        let b = by_value::<B>(&mut args[1]);
        let c = by_value::<C>(&mut args[2]);
        let a = by_ref::<A>(&mut args[0]);
        proof {
            assert(*a == arg::<A>(old(args)@, 0));
            assert(b == arg::<B>(old(args)@, 1));
            assert(c == arg::<C>(old(args)@, 2));
        }
        let res = (self)(ctx, a, b, c);
        proof {
            A::lemma_round_trip(*a);
        }
        Ok(Dynamic::from(res))
    }
}

/// A host function of three parameters that may fail, called as a method: its
/// first
/// parameter is the first argument's value itself, by exclusive reference.
impl<
    A: Variant,
    B: Variant,
    C: Variant,
    RET: Variant,
    FN: Fn(&mut A, B, C) -> Result<RET,
    EvalAltResult>,
> RegisterNativeFunction<
    (Mut<A>, B, C),
    Result<RET, EvalAltResult>,
> for FN {
    open spec fn spec_param_types() -> Seq<TypeTag> {
        seq![A::spec_type_tag(), B::spec_type_tag(), C::spec_type_tag()]
    }

    open spec fn spec_abi() -> FnAbi {
        FnAbi { shape: AbiShape::Fallible, method: true }
    }

    fn param_types() -> (r: Vec<TypeTag>) {
        let r = vec![A::type_tag(), B::type_tag(), C::type_tag()];
        proof {
            assert(r@ =~= Self::spec_param_types());
        }
        r
    }

    fn abi() -> (r: FnAbi) {
        FnAbi { shape: AbiShape::Fallible, method: true }
    }

    open spec fn call_requires(&self, ctx: &NativeCallContext, args: Seq<Dynamic>) -> bool {
        &&& args.len() == 3
        &&& A::spec_from_union(args[0].value) is Some
        &&& B::spec_from_union(args[1].value) is Some
        &&& C::spec_from_union(args[2].value) is Some
        &&& forall|a: &mut A| *a == arg::<A>(args, 0)
            ==> #[trigger] self.requires((a, arg::<B>(args, 1), arg::<C>(args, 2)))
    }

    open spec fn call_ensures(
        &self,
        ctx: &NativeCallContext,
        args: Seq<Dynamic>,
        after: Seq<Dynamic>,
        r: Result<Dynamic, EvalAltResult>,
    ) -> bool {
        &&& after.len() == 3
        &&& after[0].access == args[0].access
        &&& A::spec_from_union(after[0].value) is Some
        &&& after[1] == Dynamic::spec_unit()
        &&& after[2] == Dynamic::spec_unit()
        &&& exists|a: &mut A, res: Result<RET, EvalAltResult>|
            *a == arg::<A>(args, 0)
            && #[trigger] self.ensures((a, arg::<B>(args, 1), arg::<C>(args, 2)), res)
            && r == match res {
                Ok(ret) => Ok::<Dynamic, EvalAltResult>(
                    Dynamic { value: ret.spec_to_union(), access: AccessMode::ReadWrite },
                ),
                Err(e) => Err(e),
            }
    }

    fn call(&self, ctx: &NativeCallContext, args: &mut Vec<Dynamic>) -> (r: Result<
        Dynamic,
        EvalAltResult,
    >) {
        let b = by_value::<B>(&mut args[1]);
        let c = by_value::<C>(&mut args[2]);
        let a = by_ref::<A>(&mut args[0]);
        proof {
            assert(*a == arg::<A>(old(args)@, 0));
            assert(b == arg::<B>(old(args)@, 1));
            assert(c == arg::<C>(old(args)@, 2));
        }
        let res = (self)(a, b, c);
        proof {
            A::lemma_round_trip(*a);
        }
        match res {
            Ok(ret) => Ok(Dynamic::from(ret)),
            Err(e) => Err(e),
        }
    }
}

/// A host function of three parameters that takes the call context first, and
/// that may fail, called as a method: its first
/// parameter is the first argument's value itself, by exclusive reference.
impl<
    A: Variant,
    B: Variant,
    C: Variant,
    RET: Variant,
    FN: Fn(&NativeCallContext, &mut A, B, C) -> Result<RET,
    EvalAltResult>,
> RegisterNativeFunction<
    (NativeCallContext, Mut<A>, B, C),
    Result<RET, EvalAltResult>,
> for FN {
    open spec fn spec_param_types() -> Seq<TypeTag> {
        seq![A::spec_type_tag(), B::spec_type_tag(), C::spec_type_tag()]
    }

    open spec fn spec_abi() -> FnAbi {
        FnAbi { shape: AbiShape::FallibleWithContext, method: true }
    }

    fn param_types() -> (r: Vec<TypeTag>) {
        let r = vec![A::type_tag(), B::type_tag(), C::type_tag()];
        proof {
            assert(r@ =~= Self::spec_param_types());
        }
        r
    }

    fn abi() -> (r: FnAbi) {
        FnAbi { shape: AbiShape::FallibleWithContext, method: true }
    }

    open spec fn call_requires(&self, ctx: &NativeCallContext, args: Seq<Dynamic>) -> bool {
        &&& args.len() == 3
        &&& A::spec_from_union(args[0].value) is Some
        &&& B::spec_from_union(args[1].value) is Some
        &&& C::spec_from_union(args[2].value) is Some
        &&& forall|a: &mut A| *a == arg::<A>(args, 0)
            ==> #[trigger] self.requires((ctx, a, arg::<B>(args, 1), arg::<C>(args, 2)))
    }

    open spec fn call_ensures(
        &self,
        ctx: &NativeCallContext,
        args: Seq<Dynamic>,
        after: Seq<Dynamic>,
        r: Result<Dynamic, EvalAltResult>,
    ) -> bool {
        &&& after.len() == 3
        &&& after[0].access == args[0].access
        &&& A::spec_from_union(after[0].value) is Some
        &&& after[1] == Dynamic::spec_unit()
        &&& after[2] == Dynamic::spec_unit()
        &&& exists|a: &mut A, res: Result<RET, EvalAltResult>|
            *a == arg::<A>(args, 0)
            && #[trigger] self.ensures((ctx, a, arg::<B>(args, 1), arg::<C>(args, 2)), res)
            && r == match res {
                Ok(ret) => Ok::<Dynamic, EvalAltResult>(
                    Dynamic { value: ret.spec_to_union(), access: AccessMode::ReadWrite },
                ),
                Err(e) => Err(e),
            }
    }

    fn call(&self, ctx: &NativeCallContext, args: &mut Vec<Dynamic>) -> (r: Result<
        Dynamic,
        EvalAltResult,
    >) {
        let b = by_value::<B>(&mut args[1]);
        let c = by_value::<C>(&mut args[2]);
        let a = by_ref::<A>(&mut args[0]);
        proof {
            assert(*a == arg::<A>(old(args)@, 0));
            assert(b == arg::<B>(old(args)@, 1));
            assert(c == arg::<C>(old(args)@, 2));
        }
        let res = (self)(ctx, a, b, c);
        proof {
            A::lemma_round_trip(*a);
        }
        match res {
            Ok(ret) => Ok(Dynamic::from(ret)),
            Err(e) => Err(e),
        }
    }
}

/// A registered native function: the types of its parameters, how it is
/// called, and the function itself. It is made once and not changed.
pub struct CallableFunction<FN> {
    pub param_types: Vec<TypeTag>,
    pub abi: FnAbi,
    pub func: FN,
}

/// Make the entry of a host function.
pub fn into_callable_function<Args, Ret, FN: RegisterNativeFunction<Args, Ret>>(func: FN) -> (r:
    CallableFunction<FN>)
    ensures
        r.param_types@ == FN::spec_param_types(),
        r.abi == FN::spec_abi(),
        r.func == func,
{
    CallableFunction { param_types: FN::param_types(), abi: FN::abi(), func }
}

/// Whether each argument has the type of its parameter, and there is one
/// argument per parameter.
pub open spec fn args_fit(param_types: Seq<TypeTag>, args: Seq<Dynamic>) -> bool {
    &&& args.len() == param_types.len()
    &&& forall|i: int| 0 <= i < args.len() ==> union_tag(#[trigger] args[i].value) == param_types[i]
}

impl<FN> CallableFunction<FN> {
    /// Whether `args` match this function's parameter types; the check a
    /// caller makes before [`CallableFunction::call`].
    pub fn args_match(&self, args: &Vec<Dynamic>) -> (r: bool)
        ensures
            r == args_fit(self.param_types@, args@),
    {
        if args.len() != self.param_types.len() {
            return false;
        }
        let mut i: usize = 0;
        while i < args.len()
            invariant
                args@.len() == self.param_types@.len(),
                i <= args@.len(),
                forall|k: int| 0 <= k < i ==> union_tag(#[trigger] args@[k].value) == self.param_types@[k],
            decreases args@.len() - i,
        {
            if args[i].type_tag() != self.param_types[i] {
                return false;
            }
            i += 1;
        }
        true
    }

    /// Call the function on `args`, which must already suit it.
    pub fn call<Args, Ret>(&self, ctx: &NativeCallContext, args: &mut Vec<Dynamic>) -> (r: Result<
        Dynamic,
        EvalAltResult,
    >) where FN: RegisterNativeFunction<Args, Ret>
        requires
            self.func.call_requires(ctx, old(args)@),
        ensures
            self.func.call_ensures(ctx, old(args)@, final(args)@, r),
    {
        self.func.call(ctx, args)
    }
}

} // verus!
