//! Glue between native functions and a script engine's callback contract.
//!
//! From a structured description of a function signature and its
//! configuration, this library decides how every argument crossing the
//! boundary is checked and converted, how shared state reaches the callback,
//! how results and failures are surfaced, and whether a direct-call fast path
//! can be offered next to the interpreted one.
use vstd::prelude::*;

pub mod text;
pub mod types;
pub mod fast;
pub mod parse;
pub mod codegen;

use crate::codegen::{
    ArgExtraction, CallArg, CallPlan, StateExtraction, capsule_extraction, capsule_for, class_of,
    extraction_for, generate_arg_extractions, generate_call_and_return, generate_state_extraction,
    lemma_primitive_class, return_mode, slot_for,
};
use crate::fast::{
    FallbackReason, FastApiPlan, all_fast, fallback_for, fast_eligible, fast_type,
    generate_fast_api_code, plan_for,
};
use crate::parse::{
    AttrItem, ConfigError, MethodAttrs, first_fault, has_key, item_ok, name_of, state_of,
};
use crate::text::{concat2, is_word};
use crate::types::{FnInput, Param, TypeDesc, is_result_type, names_result};

verus! {

/// A described function: its name, its declared parameters in order, and its
/// declared return type (`None` when it declares none).
pub struct FunctionSignature {
    pub name: String,
    pub inputs: Vec<FnInput>,
    pub output: Option<TypeDesc>,
}

/// Which paths are generated for a function.
#[derive(Clone, Copy, Debug, PartialEq, Eq, Structural)]
pub enum GenerationPlan {
    /// The interpreted wrapper alone; the fast path was not asked for.
    SlowOnly,
    /// The interpreted wrapper alone, though the fast path was asked for.
    Fallback(FallbackReason),
    /// The interpreted wrapper and the direct-call artifacts.
    DualPath,
}

/// Everything generated for one function, besides the function itself.
pub struct Expansion {
    pub fn_name: String,
    /// The name under which the function is exposed to scripts.
    pub js_name: String,
    /// The interpreted wrapper, with the engine's three-part callback shape.
    pub wrapper_name: String,
    /// How the interpreted wrapper obtains the state.
    pub state: StateExtraction,
    /// How the interpreted wrapper obtains each parameter.
    pub args: Vec<ArgExtraction>,
    pub call: CallPlan,
    pub plan: GenerationPlan,
    /// The direct-call artifacts, present exactly for `DualPath`.
    pub fast: Option<FastApiPlan>,
}

/// An input named `scope` or `_scope`: the execution scope of the callback.
pub open spec fn is_scope_input(x: FnInput) -> bool {
    match x.name {
        Some(n) => n@ == "scope"@ || n@ == "_scope"@,
        None => false,
    }
}

/// An input named `state`: the shared state.
pub open spec fn is_state_input(x: FnInput) -> bool {
    match x.name {
        Some(n) => n@ == "state"@,
        None => false,
    }
}

/// The parameters whose values come from the script's arguments: the inputs
/// bound to a plain name, without the scope and the state, in order.
pub open spec fn params_of(s: Seq<FnInput>) -> Seq<Param>
    decreases s.len(),
{
    if s.len() == 0 {
        seq![]
    } else {
        let p = params_of(s.drop_last());
        let x = s.last();
        match x.name {
            Some(n) => if is_scope_input(x) || is_state_input(x) {
                p
            } else {
                p.push(Param { name: n, ty: x.ty })
            },
            None => p,
        }
    }
}

pub open spec fn uses_scope(s: Seq<FnInput>) -> bool {
    exists|i: int| 0 <= i < s.len() && is_scope_input(#[trigger] s[i])
}

pub open spec fn uses_state(s: Seq<FnInput>) -> bool {
    exists|i: int| 0 <= i < s.len() && is_state_input(#[trigger] s[i])
}

/// The arguments of the call: the scope, then the state, then the parameters.
pub open spec fn call_args_of(scope: bool, state: bool, params: Seq<Param>) -> Seq<CallArg> {
    (if scope {
        seq![CallArg::Scope]
    } else {
        seq![]
    }) + (if state {
        seq![CallArg::State]
    } else {
        seq![]
    }) + Seq::new(params.len(), |i: int| CallArg::Param(params[i].name))
}

/// Whether the configuration and the signature can be generated at all.
pub open spec fn config_ok(attr: Seq<AttrItem>, sig: FunctionSignature) -> bool {
    &&& forall|i: int| 0 <= i < attr.len() ==> item_ok(#[trigger] attr[i], attr.len())
    &&& !(uses_state(sig.inputs@) && state_of(attr) is None)
}

/// Whether the direct call is offered: it was asked for, and the signature
/// passes every gate.
pub open spec fn dual_path(attr: Seq<AttrItem>, sig: FunctionSignature) -> bool {
    has_key(attr, "fast"@) && fast_eligible(params_of(sig.inputs@), sig.output, uses_scope(sig.inputs@))
}

/// Splits the inputs into the parameters, and whether the scope and the
/// state are taken.
fn split_inputs(inputs: Vec<FnInput>) -> (r: (Vec<Param>, bool, bool))
    ensures
        r.0@ == params_of(inputs@),
        r.1 == uses_scope(inputs@),
        r.2 == uses_state(inputs@),
{
    let ghost all = inputs@;
    let mut rest = inputs;
    let mut params: Vec<Param> = Vec::new();
    let mut has_scope = false;
    let mut has_state = false;
    while rest.len() > 0
        invariant
            rest@.len() <= all.len(),
            rest@ =~= all.subrange(all.len() - rest@.len(), all.len() as int),
            params@ == params_of(all.subrange(0, all.len() - rest@.len())),
            has_scope == exists|j: int| 0 <= j < all.len() - rest@.len() && is_scope_input(#[trigger] all[j]),
            has_state == exists|j: int| 0 <= j < all.len() - rest@.len() && is_state_input(#[trigger] all[j]),
        decreases rest@.len(),
    {
        let ghost k = all.len() - rest@.len();
        let x = rest.remove(0);
        assert(x == all[k]);
        assert(all.subrange(0, k + 1).drop_last() =~= all.subrange(0, k));
        assert(rest@ =~= all.subrange(all.len() - rest@.len(), all.len() as int));
        match x.name {
            Some(n) => {
                let scope = is_word(&n, "scope") || is_word(&n, "_scope");
                let state = is_word(&n, "state");
                if scope {
                    has_scope = true;
                }
                if state {
                    has_state = true;
                }
                if !scope && !state {
                    params.push(Param { name: n, ty: x.ty });
                }
            },
            None => {},
        }
    }
    assert(all.subrange(0, all.len() as int) =~= all);
    (params, has_scope, has_state)
}

/// The arguments of the call to the described function.
fn call_args(has_scope: bool, has_state: bool, params: &Vec<Param>) -> (r: Vec<CallArg>)
    ensures
        r@ == call_args_of(has_scope, has_state, params@),
{
    let mut v: Vec<CallArg> = Vec::new();
    if has_scope {
        v.push(CallArg::Scope);
    }
    if has_state {
        v.push(CallArg::State);
    }
    let ghost head = v@;
    let mut i: usize = 0;
    while i < params.len()
        invariant
            i <= params@.len(),
            v@ =~= head + Seq::new(i as nat, |j: int| CallArg::Param(params@[j].name)),
        decreases params@.len() - i,
    {
        v.push(CallArg::Param(params[i].name.clone()));
        i = i + 1;
    }
    assert(v@ =~= call_args_of(has_scope, has_state, params@));
    v
}

/// Plans the glue of one described function under its configuration `attr`.
///
/// The interpreted wrapper is always planned. The direct-call artifacts are
/// planned when `fast` is asked for and the signature passes every gate;
/// otherwise the reason is recorded and generation goes on without them.
/// State lives in the context's slot, except next to a direct call, where it
/// travels in a capsule attached to the callable.
pub fn method(attr: Vec<AttrItem>, item: FunctionSignature) -> (r: Result<Expansion, ConfigError>)
    ensures
        r is Ok <==> config_ok(attr@, item),
        match r {
            Err(e) => if forall|i: int| 0 <= i < attr@.len() ==> item_ok(#[trigger] attr@[i], attr@.len()) {
                e is MissingStateType
            } else {
                first_fault(attr@, e)
            },
            Ok(x) => {
                let params = params_of(item.inputs@);
                let state_ty = if uses_state(item.inputs@) {
                    state_of(attr@)
                } else {
                    None
                };
                &&& x.fn_name@ == item.name@
                &&& x.js_name@ == match name_of(attr@) {
                    Some(n) => n,
                    None => item.name@,
                }
                &&& x.wrapper_name@ == item.name@ + "_v8"@
                &&& x.args@.len() == params.len()
                &&& forall|i: int| 0 <= i < params.len() ==> extraction_for(#[trigger] x.args@[i], i as nat, params[i])
                &&& x.call.fn_name@ == item.name@
                &&& x.call.args@ == call_args_of(uses_scope(item.inputs@), uses_state(item.inputs@), params)
                &&& x.call.mode == return_mode(
                    item.output is Some,
                    item.output is Some && names_result(item.output->0),
                    has_key(attr@, "promise"@),
                )
                &&& x.fast is Some <==> x.plan is DualPath
                &&& x.plan is DualPath <==> dual_path(attr@, item)
                &&& x.plan is SlowOnly <==> !has_key(attr@, "fast"@)
                &&& x.plan matches GenerationPlan::Fallback(reason) ==> fallback_for(
                    reason,
                    params,
                    item.output,
                    uses_scope(item.inputs@),
                )
                &&& x.plan is DualPath ==> plan_for(x.fast->0, item.name@, params, item.output, state_ty)
                &&& match state_ty {
                    None => x.state is NoState,
                    Some(t) => if x.plan is DualPath {
                        capsule_for(x.state, t)
                    } else {
                        slot_for(x.state, t)
                    },
                }
            },
        },
{
    let attrs = match MethodAttrs::parse(attr) {
        Ok(a) => a,
        Err(e) => {
            return Err(e);
        },
    };
    let FunctionSignature { name, inputs, output } = item;
    let (params, has_scope, has_state) = split_inputs(inputs);
    if has_state && attrs.state_type.is_none() {
        return Err(ConfigError::MissingStateType);
    }
    let js_name = match attrs.js_name {
        Some(n) => n,
        None => name.clone(),
    };
    let wrapper_name = concat2(name.as_str(), "_v8");
    let args = generate_arg_extractions(&params);
    let has_return = output.is_some();
    let returns_result = match &output {
        Some(t) => is_result_type(t),
        None => false,
    };
    let cargs = call_args(has_scope, has_state, &params);
    let call = generate_call_and_return(&name, cargs, has_return, returns_result, attrs.promise);
    let state_ty: Option<&TypeDesc> = if has_state {
        attrs.state_type.as_ref()
    } else {
        None
    };
    let (plan, fast) = if attrs.fast {
        match generate_fast_api_code(&name, &params, &output, has_scope, state_ty) {
            Ok(p) => (GenerationPlan::DualPath, Some(p)),
            Err(reason) => (GenerationPlan::Fallback(reason), None),
        }
    } else {
        (GenerationPlan::SlowOnly, None)
    };
    let state = match state_ty {
        Some(t) => {
            if fast.is_some() {
                capsule_extraction(t)
            } else {
                match generate_state_extraction(true, &attrs.state_type) {
                    Ok(e) => e,
                    Err(e) => {
                        return Err(e);
                    },
                }
            }
        },
        None => StateExtraction::NoState,
    };
    Ok(Expansion { fn_name: name, js_name, wrapper_name, state, args, call, plan, fast })
}

/// A function that asks for the direct call gets it, next to the interpreted
/// wrapper, exactly when every parameter and the return type are of the
/// primitive class (no declared return counting as unit) and the scope is not
/// taken; in every other case it keeps the interpreted wrapper alone, and
/// whether generation succeeds (`config_ok`) does not depend on this.
pub proof fn lemma_dual_path_exactly_for_primitives(attr: Seq<AttrItem>, sig: FunctionSignature)
    requires
        has_key(attr, "fast"@),
    ensures
        dual_path(attr, sig) <==> {
            &&& forall|i: int|
                0 <= i < params_of(sig.inputs@).len() ==> (#[trigger] class_of(
                    params_of(sig.inputs@)[i].ty,
                )) is Primitive
            &&& sig.output matches Some(t) ==> class_of(t) is Primitive
            &&& !uses_scope(sig.inputs@)
        },
{
    let params = params_of(sig.inputs@);
    assert forall|i: int| 0 <= i < params.len() implies (#[trigger] class_of(params[i].ty)) is Primitive
        <==> (fast_type(params[i].ty) is Some) by {
        lemma_primitive_class(params[i].ty);
    }
    if let Some(t) = sig.output {
        lemma_primitive_class(t);
    }
    if all_fast(params) {
        assert forall|i: int| 0 <= i < params.len() implies (#[trigger] class_of(params[i].ty)) is Primitive by {
            assert(fast_type(params[i].ty) is Some);
        }
    }
    if forall|i: int| 0 <= i < params.len() ==> (#[trigger] class_of(params[i].ty)) is Primitive {
        assert forall|i: int| 0 <= i < params.len() implies (#[trigger] fast_type(params[i].ty)) is Some by {
            assert(class_of(params[i].ty) is Primitive);
        }
    }
}

} // verus!
