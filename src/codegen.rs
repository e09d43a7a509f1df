//! The interpreted-call wrapper: how each argument is checked and converted,
//! how state is found, and how the call's result is surfaced.
use vstd::prelude::*;
use crate::fast::{FastApiType, fast_type, get_fast_api_type, primitive_named};
use crate::parse::ConfigError;
use crate::text::{concat2, concat3, decimal, decimal_text, is_word};
use crate::types::{
    Param, TypeDesc, get_option_inner_type, get_rc_inner_type, get_v8_local_inner_type,
    local_inner_name, wrapped_type,
};

verus! {

/// The engine value categories a handle parameter can name.
#[derive(Clone, Copy, Debug, PartialEq, Eq, Structural)]
pub enum HandleKind {
    Function,
    Object,
    Array,
    Uint8Array,
    ArrayBuffer,
    StringValue,
    Number,
    /// Any value at all: no check is made.
    AnyValue,
    /// A name not recognized: the argument goes through the engine's own
    /// conversion to the declared handle type.
    Generic,
}

/// The class of a declared type, deciding how values of it cross the boundary.
#[derive(Clone, Copy, Debug, PartialEq, Eq, Structural)]
pub enum TypeClass {
    /// `Option<T>`: undefined and null give `None`.
    Optional,
    /// A local handle of the engine.
    Handle(HandleKind),
    /// A primitive that the direct-call path can pass.
    Primitive(FastApiType),
    /// Anything else, through generic deserialization.
    Opaque,
}

pub open spec fn handle_kind_named(n: Seq<char>) -> HandleKind {
    if n == "Function"@ {
        HandleKind::Function
    } else if n == "Object"@ {
        HandleKind::Object
    } else if n == "Array"@ {
        HandleKind::Array
    } else if n == "Uint8Array"@ {
        HandleKind::Uint8Array
    } else if n == "ArrayBuffer"@ {
        HandleKind::ArrayBuffer
    } else if n == "String"@ {
        HandleKind::StringValue
    } else if n == "Number"@ {
        HandleKind::Number
    } else if n == "Value"@ {
        HandleKind::AnyValue
    } else {
        HandleKind::Generic
    }
}

/// The class of a declared type. The first that applies wins: an option, a
/// local handle, a fast-eligible primitive, and otherwise opaque.
pub open spec fn class_of(ty: TypeDesc) -> TypeClass {
    if wrapped_type(ty, "Option"@) is Some {
        TypeClass::Optional
    } else if local_inner_name(ty) is Some {
        TypeClass::Handle(handle_kind_named(local_inner_name(ty)->0))
    } else if fast_type(ty) is Some {
        TypeClass::Primitive(fast_type(ty)->0)
    } else {
        TypeClass::Opaque
    }
}

/// The engine's name for the category of a handle.
pub open spec fn kind_name(k: HandleKind) -> Seq<char> {
    match k {
        HandleKind::Function => "Function"@,
        HandleKind::Object => "Object"@,
        HandleKind::Array => "Array"@,
        HandleKind::Uint8Array => "Uint8Array"@,
        HandleKind::ArrayBuffer => "ArrayBuffer"@,
        HandleKind::StringValue => "String"@,
        HandleKind::Number => "Number"@,
        HandleKind::AnyValue => "Value"@,
        HandleKind::Generic => "Value"@,
    }
}

pub open spec fn check_name(k: HandleKind) -> Seq<char> {
    match k {
        HandleKind::Function => "is_function"@,
        HandleKind::Object => "is_object"@,
        HandleKind::Array => "is_array"@,
        HandleKind::Uint8Array => "is_uint8_array"@,
        HandleKind::ArrayBuffer => "is_array_buffer"@,
        HandleKind::StringValue => "is_string"@,
        HandleKind::Number => "is_number"@,
        HandleKind::AnyValue => ""@,
        HandleKind::Generic => ""@,
    }
}

/// Whether values of this category are checked by a predicate of the engine.
pub open spec fn is_checked_kind(k: HandleKind) -> bool {
    !(k is AnyValue) && !(k is Generic)
}

impl HandleKind {
    /// The engine's name for this category of value.
    pub fn engine_name(&self) -> (r: &'static str)
        ensures
            r@ == kind_name(*self),
    {
        match self {
            HandleKind::Function => "Function",
            HandleKind::Object => "Object",
            HandleKind::Array => "Array",
            HandleKind::Uint8Array => "Uint8Array",
            HandleKind::ArrayBuffer => "ArrayBuffer",
            HandleKind::StringValue => "String",
            HandleKind::Number => "Number",
            HandleKind::AnyValue => "Value",
            HandleKind::Generic => "Value",
        }
    }

    /// The engine's predicate that tells values of this category; empty for
    /// the categories that are not checked.
    pub fn check_method(&self) -> (r: &'static str)
        ensures
            r@ == check_name(*self),
    {
        match self {
            HandleKind::Function => "is_function",
            HandleKind::Object => "is_object",
            HandleKind::Array => "is_array",
            HandleKind::Uint8Array => "is_uint8_array",
            HandleKind::ArrayBuffer => "is_array_buffer",
            HandleKind::StringValue => "is_string",
            HandleKind::Number => "is_number",
            HandleKind::AnyValue => "",
            HandleKind::Generic => "",
        }
    }
}

fn handle_kind_of(n: &String) -> (r: HandleKind)
    ensures
        r == handle_kind_named(n@),
{
    if is_word(n, "Function") {
        HandleKind::Function
    } else if is_word(n, "Object") {
        HandleKind::Object
    } else if is_word(n, "Array") {
        HandleKind::Array
    } else if is_word(n, "Uint8Array") {
        HandleKind::Uint8Array
    } else if is_word(n, "ArrayBuffer") {
        HandleKind::ArrayBuffer
    } else if is_word(n, "String") {
        HandleKind::StringValue
    } else if is_word(n, "Number") {
        HandleKind::Number
    } else if is_word(n, "Value") {
        HandleKind::AnyValue
    } else {
        HandleKind::Generic
    }
}

/// Classifies a declared type.
pub fn classify(ty: &TypeDesc) -> (r: TypeClass)
    ensures
        r == class_of(*ty),
{
    if get_option_inner_type(ty).is_some() {
        TypeClass::Optional
    } else {
        match get_v8_local_inner_type(ty) {
            Some(n) => TypeClass::Handle(handle_kind_of(&n)),
            None => match get_fast_api_type(ty) {
                Some(t) => TypeClass::Primitive(t),
                None => TypeClass::Opaque,
            },
        }
    }
}

/// "argument <i>: expected <ty>"
pub open spec fn expected_message(i: nat, ty: Seq<char>) -> Seq<char> {
    "argument "@ + decimal(i) + ": expected "@ + ty
}

/// "argument <i> must be a <kind>"
pub open spec fn must_be_message(i: nat, k: HandleKind) -> Seq<char> {
    "argument "@ + decimal(i) + " must be a "@ + kind_name(k)
}

fn expected_message_text(i: usize, ty: &String) -> (r: String)
    ensures
        r@ == expected_message(i as nat, ty@),
{
    let d = decimal_text(i);
    let mut s = String::from_str("argument ");
    s.append(d.as_str());
    s.append(": expected ");
    s.append(ty.as_str());
    s
}

/// How the wrapper obtains one parameter from the script's arguments.
pub enum ArgExtraction {
    /// Absent on undefined or null, otherwise deserialized into the inner type.
    Optional { name: String, index: usize, ty: String, error_prefix: String },
    /// Checked by the engine's predicate for `kind`, then taken as that handle.
    Checked { name: String, index: usize, kind: HandleKind, message: String },
    /// Taken as it is.
    AnyValue { name: String, index: usize },
    /// Converted by the engine into the declared handle type.
    Convert { name: String, index: usize, ty: String, message: String },
    /// Deserialized into the declared type.
    Deserialize { name: String, index: usize, ty: String, error_prefix: String },
}

/// The text of the type that a state type is held as: the `T` of `Rc<T>`,
/// or the type itself.
pub open spec fn held_state_text(t: TypeDesc) -> Seq<char> {
    match wrapped_type(t, "Rc"@) {
        Some(inner) => inner.text_view(),
        None => t.text_view(),
    }
}

/// Whether `e` is how parameter `p`, at argument position `i`, is obtained.
pub open spec fn extraction_for(e: ArgExtraction, i: nat, p: Param) -> bool {
    match class_of(p.ty) {
        TypeClass::Optional => match e {
            ArgExtraction::Optional { name, index, ty, error_prefix } => name@ == p.name@ && index
                == i && ty@ == p.ty.text_view() && error_prefix@ == expected_message(
                i,
                wrapped_type(p.ty, "Option"@)->0.text_view(),
            ),
            _ => false,
        },
        TypeClass::Handle(k) => if is_checked_kind(k) {
            match e {
                ArgExtraction::Checked { name, index, kind, message } => name@ == p.name@ && index
                    == i && kind == k && message@ == must_be_message(i, k),
                _ => false,
            }
        } else if k is AnyValue {
            match e {
                ArgExtraction::AnyValue { name, index } => name@ == p.name@ && index == i,
                _ => false,
            }
        } else {
            match e {
                ArgExtraction::Convert { name, index, ty, message } => name@ == p.name@ && index
                    == i && ty@ == p.ty.text_view() && message@ == expected_message(
                    i,
                    p.ty.text_view(),
                ),
                _ => false,
            }
        },
        _ => match e {
            ArgExtraction::Deserialize { name, index, ty, error_prefix } => name@ == p.name@
                && index == i && ty@ == p.ty.text_view() && error_prefix@ == expected_message(
                i,
                p.ty.text_view(),
            ),
            _ => false,
        },
    }
}

/// The checked extraction of a handle argument of category `kind`.
pub fn v8_local_extraction(name: &String, idx: usize, kind: HandleKind) -> (r: ArgExtraction)
    requires
        is_checked_kind(kind),
    ensures
        match r {
            ArgExtraction::Checked { name: n, index, kind: k, message } => n@ == name@ && index
                == idx && k == kind && message@ == must_be_message(idx as nat, kind),
            _ => false,
        },
{
    let d = decimal_text(idx);
    let mut message = String::from_str("argument ");
    message.append(d.as_str());
    message.append(" must be a ");
    message.append(kind.engine_name());
    ArgExtraction::Checked { name: name.clone(), index: idx, kind, message }
}

fn arg_extraction(i: usize, p: &Param) -> (r: ArgExtraction)
    ensures
        extraction_for(r, i as nat, *p),
{
    let name = p.name.clone();
    let text = p.ty.text();
    match classify(&p.ty) {
        TypeClass::Optional => {
            let inner = get_option_inner_type(&p.ty).unwrap();
            let error_prefix = expected_message_text(i, inner.text());
            ArgExtraction::Optional { name, index: i, ty: text.clone(), error_prefix }
        },
        TypeClass::Handle(k) => {
            match k {
                HandleKind::AnyValue => ArgExtraction::AnyValue { name, index: i },
                HandleKind::Generic => {
                    let message = expected_message_text(i, text);
                    ArgExtraction::Convert { name, index: i, ty: text.clone(), message }
                },
                _ => v8_local_extraction(&p.name, i, k),
            }
        },
        _ => {
            let error_prefix = expected_message_text(i, text);
            ArgExtraction::Deserialize { name, index: i, ty: text.clone(), error_prefix }
        },
    }
}

/// How each parameter is obtained, in order: the parameter at position `i`
/// reads argument `i`.
pub fn generate_arg_extractions(params: &Vec<Param>) -> (r: Vec<ArgExtraction>)
    ensures
        r@.len() == params@.len(),
        forall|i: int| 0 <= i < params@.len() ==> extraction_for(#[trigger] r@[i], i as nat, params@[i]),
{
    let mut out: Vec<ArgExtraction> = Vec::new();
    let mut i: usize = 0;
    while i < params.len()
        invariant
            i <= params@.len(),
            out@.len() == i,
            forall|j: int| 0 <= j < i ==> extraction_for(#[trigger] out@[j], j as nat, params@[j]),
        decreases params@.len() - i,
    {
        let e = arg_extraction(i, &params[i]);
        out.push(e);
        i = i + 1;
    }
    out
}

/// What the engine reports of one argument when the wrapper runs.
pub struct ArgProbe {
    pub undefined: bool,
    pub null: bool,
    /// Whether the category's predicate holds of it.
    pub is_kind: bool,
    /// The error of converting it to the parameter's type, if it fails.
    pub convert_error: Option<String>,
}

/// What the wrapper does with one argument.
#[derive(Debug)]
pub enum ArgOutcome {
    /// The parameter is bound to the (converted) value.
    Bound,
    /// The parameter is bound to `None`.
    Absent,
    /// A type error with this message is thrown and the call is abandoned.
    TypeError(String),
}

/// Whether `r` is what extraction `e` does with an argument reported as `p`.
pub open spec fn outcome_for(r: ArgOutcome, e: ArgExtraction, p: ArgProbe) -> bool {
    match e {
        ArgExtraction::Optional { error_prefix, .. } => if p.undefined || p.null {
            r is Absent
        } else {
            match p.convert_error {
                None => r is Bound,
                Some(err) => match r {
                    ArgOutcome::TypeError(m) => m@ == error_prefix@ + ": "@ + err@,
                    _ => false,
                },
            }
        },
        ArgExtraction::Checked { message, .. } => if p.is_kind {
            r is Bound
        } else {
            match r {
                ArgOutcome::TypeError(m) => m@ == message@,
                _ => false,
            }
        },
        ArgExtraction::AnyValue { .. } => r is Bound,
        ArgExtraction::Convert { message, .. } => match p.convert_error {
            None => r is Bound,
            Some(_) => match r {
                ArgOutcome::TypeError(m) => m@ == message@,
                _ => false,
            },
        },
        ArgExtraction::Deserialize { error_prefix, .. } => match p.convert_error {
            None => r is Bound,
            Some(err) => match r {
                ArgOutcome::TypeError(m) => m@ == error_prefix@ + ": "@ + err@,
                _ => false,
            },
        },
    }
}

impl ArgExtraction {
    /// What the wrapper does with an argument that the engine reports as `p`.
    pub fn outcome(&self, p: &ArgProbe) -> (r: ArgOutcome)
        ensures
            outcome_for(r, *self, *p),
    {
        match self {
            ArgExtraction::Optional { error_prefix, .. } => {
                if p.undefined || p.null {
                    ArgOutcome::Absent
                } else {
                    match &p.convert_error {
                        None => ArgOutcome::Bound,
                        Some(err) => ArgOutcome::TypeError(
                            concat3(error_prefix.as_str(), ": ", err.as_str()),
                        ),
                    }
                }
            },
            ArgExtraction::Checked { message, .. } => {
                if p.is_kind {
                    ArgOutcome::Bound
                } else {
                    ArgOutcome::TypeError(message.clone())
                }
            },
            ArgExtraction::AnyValue { .. } => ArgOutcome::Bound,
            ArgExtraction::Convert { message, .. } => match &p.convert_error {
                None => ArgOutcome::Bound,
                Some(_) => ArgOutcome::TypeError(message.clone()),
            },
            ArgExtraction::Deserialize { error_prefix, .. } => match &p.convert_error {
                None => ArgOutcome::Bound,
                Some(err) => ArgOutcome::TypeError(
                    concat3(error_prefix.as_str(), ": ", err.as_str()),
                ),
            },
        }
    }
}

/// How the wrapper obtains the shared state it passes to the function.
pub enum StateExtraction {
    /// The function takes no state.
    NoState,
    /// From the execution context's slot for `slot_type`; when the slot is
    /// empty an internal error with `message` is thrown.
    Slot { state_type: String, slot_type: String, message: String },
    /// From the capsule attached to the callable at registration, borrowed
    /// without taking ownership; when none is attached an internal error with
    /// `message` is thrown.
    Capsule { state_type: String, inner_type: String, message: String },
}

pub open spec fn slot_message(t: TypeDesc) -> Seq<char> {
    "internal error: state not found for "@ + t.text_view()
}

pub open spec fn capsule_message(t: TypeDesc) -> Seq<char> {
    "internal error: state data not set for "@ + t.text_view()
}

/// Whether `e` takes the state of type `t` from the callable's capsule.
pub open spec fn capsule_for(e: StateExtraction, t: TypeDesc) -> bool {
    match e {
        StateExtraction::Capsule { state_type, inner_type, message } => {
            &&& state_type@ == t.text_view()
            &&& inner_type@ == held_state_text(t)
            &&& message@ == capsule_message(t)
        },
        _ => false,
    }
}

/// Whether `e` takes the state of type `t` from the context's slot.
pub open spec fn slot_for(e: StateExtraction, t: TypeDesc) -> bool {
    match e {
        StateExtraction::Slot { state_type, slot_type, message } => {
            &&& state_type@ == t.text_view()
            &&& slot_type@ == held_state_text(t)
            &&& message@ == slot_message(t)
        },
        _ => false,
    }
}

/// The extraction of state of type `t` from the callable's capsule.
pub fn capsule_extraction(t: &TypeDesc) -> (r: StateExtraction)
    ensures
        capsule_for(r, *t),
{
    let text = t.text();
    StateExtraction::Capsule {
        state_type: text.clone(),
        inner_type: held_state_type(t),
        message: concat2("internal error: state data not set for ", text.as_str()),
    }
}

/// The state type as held: the `T` of `Rc<T>`, or the type itself.
pub fn held_state_type(t: &TypeDesc) -> (r: String)
    ensures
        r@ == held_state_text(*t),
{
    match get_rc_inner_type(t) {
        Some(inner) => inner.text().clone(),
        None => t.text().clone(),
    }
}

/// The state extraction of the interpreted wrapper when state lives in the
/// context's slot. A function that takes state without a configured state
/// type is a configuration error.
pub fn generate_state_extraction(has_state: bool, state_type: &Option<TypeDesc>) -> (r: Result<
    StateExtraction,
    ConfigError,
>)
    ensures
        !has_state ==> r matches Ok(StateExtraction::NoState),
        has_state && state_type is None ==> r matches Err(ConfigError::MissingStateType),
        has_state && state_type is Some ==> match r {
            Ok(e) => slot_for(e, state_type->0),
            _ => false,
        },
{
    if !has_state {
        return Ok(StateExtraction::NoState);
    }
    match state_type {
        Some(t) => {
            let text = t.text();
            Ok(
                StateExtraction::Slot {
                    state_type: text.clone(),
                    slot_type: held_state_type(t),
                    message: concat2("internal error: state not found for ", text.as_str()),
                },
            )
        },
        None => Err(ConfigError::MissingStateType),
    }
}

/// An argument of the call to the described function.
pub enum CallArg {
    /// The execution scope of the callback.
    Scope,
    /// A reference to the extracted state.
    State,
    /// The extracted parameter of this name.
    Param(String),
}

/// How the result of the call is surfaced, by {promise, fallible, has value}.
#[derive(Clone, Copy, Debug, PartialEq, Eq, Structural)]
pub enum ReturnMode {
    /// A promise is returned first; it is resolved with the converted `Ok`
    /// value or rejected with an error made from the `Err` value.
    PromiseFallible,
    /// A promise is returned first and resolved with the converted value.
    PromiseValue,
    /// A promise is returned first and resolved with `undefined`.
    PromiseUnit,
    /// The converted `Ok` value is returned, or an error made from the `Err`
    /// value is thrown.
    Fallible,
    /// The converted value is returned.
    Value,
    /// Nothing is returned.
    Unit,
}

pub open spec fn return_mode(has_return: bool, returns_result: bool, is_promise: bool) -> ReturnMode {
    if is_promise {
        if returns_result {
            ReturnMode::PromiseFallible
        } else if has_return {
            ReturnMode::PromiseValue
        } else {
            ReturnMode::PromiseUnit
        }
    } else if returns_result {
        ReturnMode::Fallible
    } else if has_return {
        ReturnMode::Value
    } else {
        ReturnMode::Unit
    }
}

/// The call of the described function and the handling of its result.
pub struct CallPlan {
    pub fn_name: String,
    pub args: Vec<CallArg>,
    pub mode: ReturnMode,
}

/// Plans the call of `fn_name` with `call_args`, and how its result is
/// surfaced.
pub fn generate_call_and_return(
    fn_name: &String,
    call_args: Vec<CallArg>,
    has_return: bool,
    returns_result: bool,
    is_promise: bool,
) -> (r: CallPlan)
    ensures
        r.fn_name@ == fn_name@,
        r.args == call_args,
        r.mode == return_mode(has_return, returns_result, is_promise),
{
    let mode = if is_promise {
        if returns_result {
            ReturnMode::PromiseFallible
        } else if has_return {
            ReturnMode::PromiseValue
        } else {
            ReturnMode::PromiseUnit
        }
    } else if returns_result {
        ReturnMode::Fallible
    } else if has_return {
        ReturnMode::Value
    } else {
        ReturnMode::Unit
    };
    CallPlan { fn_name: fn_name.clone(), args: call_args, mode }
}

/// How a call of the described function ended.
pub enum Completion {
    /// It returned normally (`Ok` for a fallible function); `converts` says
    /// whether the value can be represented in the engine.
    Success { converts: bool },
    /// A fallible function returned `Err`; `message` is the error as text.
    Failure { message: String },
}

/// A step that the wrapper takes, in order.
#[derive(Debug)]
pub enum Effect {
    /// A promise is created and set as the return value.
    ReturnDeferred,
    /// The described function is called.
    Invoke,
    /// The promise is resolved with the converted value.
    Resolve,
    /// The promise is resolved with `undefined`.
    ResolveUndefined,
    /// The promise is rejected with a generic error of this message.
    Reject(String),
    /// The promise is rejected with a generic error that holds the text of
    /// the conversion error: the value cannot be represented in the engine.
    RejectUnconvertible,
    /// The converted value is set as the return value.
    SetReturn,
    /// A generic error of this message is thrown.
    Throw(String),
}

impl ReturnMode {
    pub open spec fn fallible(&self) -> bool {
        *self is PromiseFallible || *self is Fallible
    }

    pub open spec fn promised(&self) -> bool {
        *self is PromiseFallible || *self is PromiseValue || *self is PromiseUnit
    }

    /// Whether the result is surfaced through a promise.
    pub fn is_promise(&self) -> (r: bool)
        ensures
            r == self.promised(),
    {
        match self {
            ReturnMode::PromiseFallible | ReturnMode::PromiseValue | ReturnMode::PromiseUnit => true,
            _ => false,
        }
    }

    /// The steps that the wrapper takes when the call ends as `c`.
    pub fn effects(&self, c: &Completion) -> (r: Vec<Effect>)
        requires
            self.fallible() || c is Success,
        ensures
            r@ == effects_of(*self, *c),
    {
        let mut v: Vec<Effect> = Vec::new();
        let promised = self.is_promise();
        if promised {
            v.push(Effect::ReturnDeferred);
        }
        v.push(Effect::Invoke);
        match self {
            ReturnMode::PromiseUnit => v.push(Effect::ResolveUndefined),
            ReturnMode::Unit => {},
            _ => match c {
                Completion::Success { converts } => {
                    if *converts {
                        if promised {
                            v.push(Effect::Resolve);
                        } else {
                            v.push(Effect::SetReturn);
                        }
                    } else if promised {
                        v.push(Effect::RejectUnconvertible);
                    }
                },
                Completion::Failure { message } => {
                    if promised {
                        v.push(Effect::Reject(message.clone()));
                    } else {
                        v.push(Effect::Throw(message.clone()));
                    }
                },
            },
        }
        proof {
            assert(v@ =~= effects_of(*self, *c));
        }
        v
    }
}

/// What is surfaced after the call. A value that cannot be represented in
/// the engine rejects the promise in promise mode, and is dropped otherwise,
/// leaving the return value unset.
pub open spec fn settlement(m: ReturnMode, c: Completion) -> Seq<Effect> {
    match m {
        ReturnMode::PromiseUnit => seq![Effect::ResolveUndefined],
        ReturnMode::Unit => seq![],
        _ => match c {
            Completion::Success { converts } => if !converts {
                if m.promised() {
                    seq![Effect::RejectUnconvertible]
                } else {
                    seq![]
                }
            } else if m.promised() {
                seq![Effect::Resolve]
            } else {
                seq![Effect::SetReturn]
            },
            Completion::Failure { message } => if m.promised() {
                seq![Effect::Reject(message)]
            } else {
                seq![Effect::Throw(message)]
            },
        },
    }
}

/// The steps of the wrapper for a call that ends as `c`.
pub open spec fn effects_of(m: ReturnMode, c: Completion) -> Seq<Effect> {
    (if m.promised() {
        seq![Effect::ReturnDeferred]
    } else {
        seq![]
    }) + seq![Effect::Invoke] + settlement(m, c)
}

/// A declared type is of the primitive class exactly when it is fast-eligible,
/// and then as the same primitive: options and handles never are.
pub proof fn lemma_primitive_class(ty: TypeDesc)
    ensures
        (class_of(ty) is Primitive) <==> (fast_type(ty) is Some),
        fast_type(ty) is Some ==> class_of(ty) == TypeClass::Primitive(fast_type(ty)->0),
{
    reveal_strlit("Option");
    reveal_strlit("Local");
    reveal_strlit("bool");
    reveal_strlit("i32");
    reveal_strlit("u32");
    reveal_strlit("i64");
    reveal_strlit("u64");
    reveal_strlit("f32");
    reveal_strlit("f64");
    assert("Option"@.len() == 6 && "Local"@.len() == 5);
    assert("bool"@.len() == 4 && "i32"@.len() == 3 && "u32"@.len() == 3 && "i64"@.len() == 3);
    assert("u64"@.len() == 3 && "f32"@.len() == 3 && "f64"@.len() == 3);
    assert(primitive_named("Option"@) is None);
    assert(primitive_named("Local"@) is None);
    match ty {
        TypeDesc::Path { segments, .. } => {
            if segments@.len() == 2 {
                assert(segments@.last() == segments@[1]);
            }
            if segments@.len() == 1 {
                assert(segments@.last() == segments@[0]);
            }
        },
        _ => {},
    }
}

/// An optional parameter is absent when its argument is undefined or null,
/// bound when the argument converts, and otherwise rejected with a type error
/// that names the inner type `T`, not `Option<T>`.
pub proof fn lemma_optional_argument(e: ArgExtraction, i: nat, p: Param, probe: ArgProbe, r: ArgOutcome)
    requires
        extraction_for(e, i, p),
        class_of(p.ty) is Optional,
        outcome_for(r, e, probe),
    ensures
        probe.undefined || probe.null ==> r is Absent,
        !(probe.undefined || probe.null) && probe.convert_error is None ==> r is Bound,
        !(probe.undefined || probe.null) && probe.convert_error is Some ==> match r {
            ArgOutcome::TypeError(m) => m@ == expected_message(
                i,
                wrapped_type(p.ty, "Option"@)->0.text_view(),
            ) + ": "@ + probe.convert_error->0@,
            _ => false,
        },
{
}

/// A checked handle parameter whose argument fails the category's predicate
/// is rejected with a type error ending in "must be a <Kind>".
pub proof fn lemma_handle_mismatch(e: ArgExtraction, i: nat, p: Param, probe: ArgProbe, r: ArgOutcome)
    requires
        extraction_for(e, i, p),
        class_of(p.ty) matches TypeClass::Handle(k) && is_checked_kind(k),
        !probe.is_kind,
        outcome_for(r, e, probe),
    ensures
        match r {
            ArgOutcome::TypeError(m) => {
                let k = class_of(p.ty)->Handle_0;
                let tail = " must be a "@ + kind_name(k);
                &&& m@ == must_be_message(i, k)
                &&& m@.subrange(m@.len() - tail.len(), m@.len() as int) == tail
            },
            _ => false,
        },
{
    let k = class_of(p.ty)->Handle_0;
    let tail = " must be a "@ + kind_name(k);
    let m = must_be_message(i, k);
    assert(m == ("argument "@ + decimal(i)) + tail);
    assert(m.subrange(m.len() - tail.len(), m.len() as int) =~= tail);
}

/// Outside promise mode, a fallible function's failure is thrown as a generic
/// error whose message is the failure's text, and its success is returned.
pub proof fn lemma_fallible_failure_thrown(has_return: bool, c: Completion)
    ensures
        return_mode(has_return, true, false) == ReturnMode::Fallible,
        match c {
            Completion::Failure { message } => effects_of(ReturnMode::Fallible, c) == seq![
                Effect::Invoke,
                Effect::Throw(message),
            ],
            Completion::Success { converts } => converts ==> effects_of(ReturnMode::Fallible, c)
                == seq![Effect::Invoke, Effect::SetReturn],
        },
{
    match c {
        Completion::Failure { message } => {
            assert(effects_of(ReturnMode::Fallible, c) =~= seq![
                Effect::Invoke,
                Effect::Throw(message),
            ]);
        },
        Completion::Success { converts } => {
            assert(converts ==> effects_of(ReturnMode::Fallible, c) =~= seq![
                Effect::Invoke,
                Effect::SetReturn,
            ]);
        },
    }
}

/// Whether a step settles the promise.
pub open spec fn settles(e: Effect) -> bool {
    e is Resolve || e is ResolveUndefined || e is Reject || e is RejectUnconvertible
}

/// In promise mode the promise is handed back before the function is called,
/// and it is settled exactly once, afterwards, by the call's outcome: rejected
/// with the failure's text, resolved when the value converts, and rejected
/// when it cannot be represented in the engine.
pub proof fn lemma_promise_settles_once(has_return: bool, returns_result: bool, c: Completion)
    requires
        returns_result || c is Success,
    ensures
        ({
            let e = effects_of(return_mode(has_return, returns_result, true), c);
            &&& e.len() == 3
            &&& e[0] is ReturnDeferred
            &&& e[1] is Invoke
            &&& settles(e[2])
            &&& c matches Completion::Failure { message } ==> e[2] == Effect::Reject(message)
            &&& c matches Completion::Success { converts } ==> if converts || (!has_return && !returns_result) {
                e[2] is Resolve || e[2] is ResolveUndefined
            } else {
                e[2] is RejectUnconvertible
            }
            &&& forall|j: int| 0 <= j < 3 && #[trigger] settles(e[j]) ==> j == 2
        }),
{
    let m = return_mode(has_return, returns_result, true);
    let e = effects_of(m, c);
    assert(e =~= seq![Effect::ReturnDeferred, Effect::Invoke] + settlement(m, c));
}

} // verus!
