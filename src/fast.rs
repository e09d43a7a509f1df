//! The direct-call fast path: which types may cross it, and the plan of the
//! artifacts that offer it next to the interpreted wrapper.
use vstd::prelude::*;
use crate::codegen::{StateExtraction, capsule_extraction, capsule_for};
use crate::text::{concat2, is_word, upper_of, uppercase};
use crate::types::{Param, PathSegment, TypeDesc};

verus! {

/// A primitive that the engine's direct-call convention can pass unchanged.
#[derive(Clone, Copy, Debug, PartialEq, Eq, Structural)]
pub enum FastApiType {
    Void,
    Bool,
    I32,
    U32,
    I64,
    U64,
    F32,
    F64,
}

impl FastApiType {
    /// The name of the engine's C type tag for this primitive.
    pub fn quote_ctype(&self) -> (r: &'static str)
        ensures
            r@ == ctype_name(*self),
    {
        match self {
            FastApiType::Void => "Void",
            FastApiType::Bool => "Bool",
            FastApiType::I32 => "Int32",
            FastApiType::U32 => "Uint32",
            FastApiType::I64 => "Int64",
            FastApiType::U64 => "Uint64",
            FastApiType::F32 => "Float32",
            FastApiType::F64 => "Float64",
        }
    }

    /// The Rust type that carries this primitive in the direct-call function.
    pub fn quote_rust_type(&self) -> (r: &'static str)
        ensures
            r@ == rust_type_name(*self),
    {
        match self {
            FastApiType::Void => "()",
            FastApiType::Bool => "bool",
            FastApiType::I32 => "i32",
            FastApiType::U32 => "u32",
            FastApiType::I64 => "i64",
            FastApiType::U64 => "u64",
            FastApiType::F32 => "f32",
            FastApiType::F64 => "f64",
        }
    }
}

pub open spec fn ctype_name(t: FastApiType) -> Seq<char> {
    match t {
        FastApiType::Void => "Void"@,
        FastApiType::Bool => "Bool"@,
        FastApiType::I32 => "Int32"@,
        FastApiType::U32 => "Uint32"@,
        FastApiType::I64 => "Int64"@,
        FastApiType::U64 => "Uint64"@,
        FastApiType::F32 => "Float32"@,
        FastApiType::F64 => "Float64"@,
    }
}

pub open spec fn rust_type_name(t: FastApiType) -> Seq<char> {
    match t {
        FastApiType::Void => "()"@,
        FastApiType::Bool => "bool"@,
        FastApiType::I32 => "i32"@,
        FastApiType::U32 => "u32"@,
        FastApiType::I64 => "i64"@,
        FastApiType::U64 => "u64"@,
        FastApiType::F32 => "f32"@,
        FastApiType::F64 => "f64"@,
    }
}

/// The primitive that a path named `n` (by its last segment) stands for.
pub open spec fn primitive_named(n: Seq<char>) -> Option<FastApiType> {
    if n == "bool"@ {
        Some(FastApiType::Bool)
    } else if n == "i32"@ {
        Some(FastApiType::I32)
    } else if n == "u32"@ {
        Some(FastApiType::U32)
    } else if n == "i64"@ {
        Some(FastApiType::I64)
    } else if n == "u64"@ {
        Some(FastApiType::U64)
    } else if n == "f32"@ {
        Some(FastApiType::F32)
    } else if n == "f64"@ {
        Some(FastApiType::F64)
    } else {
        None
    }
}

/// The fast-eligible primitive a declared type stands for: a path whose last
/// segment names one of the primitives, or the unit type `()`.
pub open spec fn fast_type(ty: TypeDesc) -> Option<FastApiType> {
    match ty {
        TypeDesc::Path { segments, .. } => if segments@.len() > 0 {
            primitive_named(segments@.last().ident@)
        } else {
            None
        },
        TypeDesc::Tuple { elems, .. } => if elems@.len() == 0 {
            Some(FastApiType::Void)
        } else {
            None
        },
        TypeDesc::Other { .. } => None,
    }
}

/// The fast-eligible primitive of a declared return type; a function that
/// declares none returns unit.
pub open spec fn fast_return_type(ret: Option<TypeDesc>) -> Option<FastApiType> {
    match ret {
        None => Some(FastApiType::Void),
        Some(ty) => fast_type(ty),
    }
}

fn primitive_of(seg: &PathSegment) -> (r: Option<FastApiType>)
    ensures
        r == primitive_named(seg.ident@),
{
    let n = &seg.ident;
    if is_word(n, "bool") {
        Some(FastApiType::Bool)
    } else if is_word(n, "i32") {
        Some(FastApiType::I32)
    } else if is_word(n, "u32") {
        Some(FastApiType::U32)
    } else if is_word(n, "i64") {
        Some(FastApiType::I64)
    } else if is_word(n, "u64") {
        Some(FastApiType::U64)
    } else if is_word(n, "f32") {
        Some(FastApiType::F32)
    } else if is_word(n, "f64") {
        Some(FastApiType::F64)
    } else {
        None
    }
}

/// Whether `ty` can cross the direct-call boundary, and as which primitive.
pub fn get_fast_api_type(ty: &TypeDesc) -> (r: Option<FastApiType>)
    ensures
        r == fast_type(*ty),
{
    match ty {
        TypeDesc::Path { segments, .. } => {
            if segments.len() > 0 {
                primitive_of(&segments[segments.len() - 1])
            } else {
                None
            }
        },
        TypeDesc::Tuple { elems, .. } => {
            if elems.len() == 0 {
                Some(FastApiType::Void)
            } else {
                None
            }
        },
        TypeDesc::Other { .. } => None,
    }
}

/// The primitive of a function's return type, `None` declaring unit.
pub fn get_fast_api_return_type(ret: &Option<TypeDesc>) -> (r: Option<FastApiType>)
    ensures
        r == fast_return_type(*ret),
{
    match ret {
        None => Some(FastApiType::Void),
        Some(ty) => get_fast_api_type(ty),
    }
}

/// Why a function that asked for the fast path is offered the interpreted
/// wrapper only.
#[derive(Clone, Copy, Debug, PartialEq, Eq, Structural)]
pub enum FallbackReason {
    /// The parameter at this position is not a fast-eligible primitive.
    NonPrimitiveParam { index: usize },
    /// The return type is not a fast-eligible primitive.
    NonPrimitiveReturn,
    /// The function takes the execution scope, which the direct call lacks.
    UsesScope,
}

/// One slot of the direct-call ABI descriptor.
#[derive(Clone, Copy, Debug, PartialEq, Eq, Structural)]
pub enum CSlot {
    /// The receiver, passed as a generic engine value.
    Receiver,
    /// A primitive parameter.
    Value(FastApiType),
    /// The per-call options through which state reaches the direct call.
    CallOptions,
}

/// A parameter of the direct-call function.
pub struct FastParam {
    pub name: String,
    pub ty: FastApiType,
}

/// The artifacts that offer the direct-call path.
pub struct FastApiPlan {
    /// The direct-call function.
    pub fast_fn_name: String,
    /// The registration helper that builds the dual-path callable.
    pub template_fn_name: String,
    /// The direct-call definition handed to the engine.
    pub cfunction_name: String,
    /// The ABI descriptor.
    pub cfunction_info_name: String,
    pub params: Vec<FastParam>,
    pub ret: FastApiType,
    /// The slots of the ABI descriptor, in order.
    pub ctypes: Vec<CSlot>,
    /// `NoState`, or the capsule that replaces the context slot in both paths.
    pub state: StateExtraction,
}

/// Whether every parameter is a fast-eligible primitive.
pub open spec fn all_fast(params: Seq<Param>) -> bool {
    forall|i: int| 0 <= i < params.len() ==> (#[trigger] fast_type(params[i].ty)) is Some
}

/// The ABI descriptor: the receiver, each parameter's primitive, and, when
/// state is passed, the call options.
pub open spec fn descriptor(params: Seq<Param>, with_options: bool) -> Seq<CSlot> {
    seq![CSlot::Receiver] + Seq::new(params.len(), |i: int| CSlot::Value(fast_type(params[i].ty)->0))
        + if with_options {
        seq![CSlot::CallOptions]
    } else {
        seq![]
    }
}

/// Whether `reason` is the first gate that parameters `params`, return `ret`
/// and the use of the scope fail.
pub open spec fn fallback_for(
    reason: FallbackReason,
    params: Seq<Param>,
    ret: Option<TypeDesc>,
    has_scope: bool,
) -> bool {
    match reason {
        FallbackReason::NonPrimitiveParam { index } => {
            &&& index < params.len()
            &&& fast_type(params[index as int].ty) is None
            &&& forall|j: int| 0 <= j < index ==> (#[trigger] fast_type(params[j].ty)) is Some
        },
        FallbackReason::NonPrimitiveReturn => all_fast(params) && fast_return_type(ret) is None,
        FallbackReason::UsesScope => all_fast(params) && fast_return_type(ret) is Some && has_scope,
    }
}

/// Whether the direct call can be offered.
pub open spec fn fast_eligible(params: Seq<Param>, ret: Option<TypeDesc>, has_scope: bool) -> bool {
    all_fast(params) && fast_return_type(ret) is Some && !has_scope
}

/// Whether `plan` offers the direct call of `fn_name`, whose parameters and
/// return are all fast-eligible, with `state` when it takes one.
pub open spec fn plan_for(
    plan: FastApiPlan,
    fn_name: Seq<char>,
    params: Seq<Param>,
    ret: Option<TypeDesc>,
    state: Option<TypeDesc>,
) -> bool {
    &&& plan.fast_fn_name@ == fn_name + "_v8_fast"@
    &&& plan.template_fn_name@ == fn_name + "_v8_template"@
    &&& plan.cfunction_name@ == upper_of(fn_name) + "_V8_FAST_CALL"@
    &&& plan.cfunction_info_name@ == upper_of(fn_name) + "_V8_FAST_CALL_INFO"@
    &&& plan.params@.len() == params.len()
    &&& forall|i: int|
        0 <= i < params.len() ==> (#[trigger] plan.params@[i]).name@ == params[i].name@
            && plan.params@[i].ty == fast_type(params[i].ty)->0
    &&& plan.ret == fast_return_type(ret)->0
    &&& plan.ctypes@ == descriptor(params, state is Some)
    &&& match state {
        None => plan.state is NoState,
        Some(t) => capsule_for(plan.state, t),
    }
}

/// The plan with everything but the state: names, parameters, return and the
/// descriptor without call options.
fn base_plan(fn_name: &String, params: &Vec<Param>, ret: FastApiType) -> (r: FastApiPlan)
    requires
        all_fast(params@),
    ensures
        r.fast_fn_name@ == fn_name@ + "_v8_fast"@,
        r.template_fn_name@ == fn_name@ + "_v8_template"@,
        r.cfunction_name@ == upper_of(fn_name@) + "_V8_FAST_CALL"@,
        r.cfunction_info_name@ == upper_of(fn_name@) + "_V8_FAST_CALL_INFO"@,
        r.params@.len() == params@.len(),
        forall|i: int|
            0 <= i < params@.len() ==> (#[trigger] r.params@[i]).name@ == params@[i].name@
                && r.params@[i].ty == fast_type(params@[i].ty)->0,
        r.ret == ret,
        r.ctypes@ == descriptor(params@, false),
        r.state is NoState,
{
    let upper = uppercase(fn_name.as_str());
    let mut fast_params: Vec<FastParam> = Vec::new();
    let mut ctypes: Vec<CSlot> = Vec::new();
    ctypes.push(CSlot::Receiver);
    let mut i: usize = 0;
    while i < params.len()
        invariant
            i <= params@.len(),
            all_fast(params@),
            fast_params@.len() == i,
            forall|j: int|
                0 <= j < i ==> (#[trigger] fast_params@[j]).name@ == params@[j].name@
                    && fast_params@[j].ty == fast_type(params@[j].ty)->0,
            ctypes@ =~= seq![CSlot::Receiver] + Seq::new(
                i as nat,
                |j: int| CSlot::Value(fast_type(params@[j].ty)->0),
            ),
        decreases params@.len() - i,
    {
        assert(fast_type(params@[i as int].ty) is Some);
        let t = get_fast_api_type(&params[i].ty).unwrap();
        fast_params.push(FastParam { name: params[i].name.clone(), ty: t });
        ctypes.push(CSlot::Value(t));
        i = i + 1;
    }
    assert(ctypes@ =~= descriptor(params@, false));
    FastApiPlan {
        fast_fn_name: concat2(fn_name.as_str(), "_v8_fast"),
        template_fn_name: concat2(fn_name.as_str(), "_v8_template"),
        cfunction_name: concat2(upper.as_str(), "_V8_FAST_CALL"),
        cfunction_info_name: concat2(upper.as_str(), "_V8_FAST_CALL_INFO"),
        params: fast_params,
        ret,
        ctypes,
        state: StateExtraction::NoState,
    }
}

/// The direct-call artifacts of a function without state: the direct call
/// goes straight to the function.
fn generate_fast_api_pure(fn_name: &String, params: &Vec<Param>, ret: &Option<TypeDesc>) -> (r:
    FastApiPlan)
    requires
        all_fast(params@),
        fast_return_type(*ret) is Some,
    ensures
        plan_for(r, fn_name@, params@, *ret, None),
{
    let t = get_fast_api_return_type(ret).unwrap();
    base_plan(fn_name, params, t)
}

/// The direct-call artifacts of a function with state. The state is pinned
/// at registration and reaches both paths through a capsule attached to the
/// callable, which they borrow without taking ownership; the descriptor gains
/// the call options through which the direct call receives the capsule.
fn generate_fast_api_with_state(
    fn_name: &String,
    params: &Vec<Param>,
    ret: &Option<TypeDesc>,
    state_type: &TypeDesc,
) -> (r: FastApiPlan)
    requires
        all_fast(params@),
        fast_return_type(*ret) is Some,
    ensures
        plan_for(r, fn_name@, params@, *ret, Some(*state_type)),
{
    let t = get_fast_api_return_type(ret).unwrap();
    let mut plan = base_plan(fn_name, params, t);
    plan.ctypes.push(CSlot::CallOptions);
    plan.state = capsule_extraction(state_type);
    assert(plan.ctypes@ =~= descriptor(params@, true));
    plan
}

/// Decides whether the direct-call path can be offered and plans it. The
/// gates are tried in order: every parameter a fast-eligible primitive, the
/// return one too, and no use of the execution scope. `state` is the state
/// type when the function takes state.
pub fn generate_fast_api_code(
    fn_name: &String,
    params: &Vec<Param>,
    ret: &Option<TypeDesc>,
    has_scope: bool,
    state: Option<&TypeDesc>,
) -> (r: Result<FastApiPlan, FallbackReason>)
    ensures
        match r {
            Ok(plan) => {
                &&& fast_eligible(params@, *ret, has_scope)
                &&& plan_for(
                    plan,
                    fn_name@,
                    params@,
                    *ret,
                    match state {
                        Some(t) => Some(*t),
                        None => None,
                    },
                )
            },
            Err(reason) => fallback_for(reason, params@, *ret, has_scope),
        },
{
    let mut i: usize = 0;
    while i < params.len()
        invariant
            i <= params@.len(),
            forall|j: int| 0 <= j < i ==> (#[trigger] fast_type(params@[j].ty)) is Some,
        decreases params@.len() - i,
    {
        if get_fast_api_type(&params[i].ty).is_none() {
            return Err(FallbackReason::NonPrimitiveParam { index: i });
        }
        i = i + 1;
    }
    if get_fast_api_return_type(ret).is_none() {
        return Err(FallbackReason::NonPrimitiveReturn);
    }
    if has_scope {
        return Err(FallbackReason::UsesScope);
    }
    match state {
        Some(t) => Ok(generate_fast_api_with_state(fn_name, params, ret, t)),
        None => Ok(generate_fast_api_pure(fn_name, params, ret)),
    }
}

} // verus!
