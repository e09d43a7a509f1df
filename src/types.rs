//! The structured description of a declared type, and the questions the
//! generator asks of it.
use vstd::prelude::*;
use crate::text::is_word;

verus! {

/// A declared type, as the front end describes it. Each node keeps the
/// source text of the type it stands for, used in messages.
pub enum TypeDesc {
    /// A path such as `v8::Local<v8::Function>` or `Option<String>`.
    Path { segments: Vec<PathSegment>, text: String },
    /// A tuple type; `()` has no elements.
    Tuple { elems: Vec<TypeDesc>, text: String },
    /// Any other form of type (a reference, a slice, ...).
    Other { text: String },
}

/// One segment of a type path, with its angle-bracketed generic arguments.
/// A segment without arguments, or with parenthesized ones, has none here.
pub struct PathSegment {
    pub ident: String,
    pub args: Vec<GenericArg>,
}

/// A generic argument of a path segment.
pub enum GenericArg {
    Type(TypeDesc),
    Lifetime(String),
    Other(String),
}

/// A parameter of the described function, as declared.
pub struct FnInput {
    /// The bound name, when the pattern is a plain identifier.
    pub name: Option<String>,
    pub ty: TypeDesc,
}

/// A parameter whose value comes from the script's arguments.
pub struct Param {
    pub name: String,
    pub ty: TypeDesc,
}

impl TypeDesc {
    pub open spec fn text_view(&self) -> Seq<char> {
        match self {
            TypeDesc::Path { text, .. } => text@,
            TypeDesc::Tuple { text, .. } => text@,
            TypeDesc::Other { text } => text@,
        }
    }

    /// The source text of this type.
    pub fn text(&self) -> (r: &String)
        ensures
            r@ == self.text_view(),
    {
        match self {
            TypeDesc::Path { text, .. } => text,
            TypeDesc::Tuple { text, .. } => text,
            TypeDesc::Other { text } => text,
        }
    }
}

/// The last segment of a path type.
pub open spec fn last_segment(ty: TypeDesc) -> Option<PathSegment> {
    match ty {
        TypeDesc::Path { segments, .. } => if segments@.len() > 0 {
            Some(segments@.last())
        } else {
            None
        },
        _ => None,
    }
}

/// The first generic argument of a segment, when it is a type.
pub open spec fn first_type_arg(seg: PathSegment) -> Option<TypeDesc> {
    if seg.args@.len() > 0 {
        match seg.args@[0] {
            GenericArg::Type(t) => Some(t),
            _ => None,
        }
    } else {
        None
    }
}

/// The type argument of `ty` when its last segment is named `wrapper`.
pub open spec fn wrapped_type(ty: TypeDesc, wrapper: Seq<char>) -> Option<TypeDesc> {
    match last_segment(ty) {
        Some(seg) => if seg.ident@ == wrapper {
            first_type_arg(seg)
        } else {
            None
        },
        None => None,
    }
}

/// The segment that names the engine's local handle: `v8::Local<..>` or `Local<..>`.
pub open spec fn local_segment(ty: TypeDesc) -> Option<PathSegment> {
    match ty {
        TypeDesc::Path { segments, .. } => if segments@.len() == 2 && segments@[0].ident@
            == "v8"@ && segments@[1].ident@ == "Local"@ {
            Some(segments@[1])
        } else if segments@.len() == 1 && segments@[0].ident@ == "Local"@ {
            Some(segments@[0])
        } else {
            None
        },
        _ => None,
    }
}

/// The name that a local handle type wraps: the last identifier of its type
/// argument, when that argument is a path (`v8::Function` gives `Function`).
pub open spec fn local_inner_name(ty: TypeDesc) -> Option<Seq<char>> {
    match local_segment(ty) {
        Some(seg) => match first_type_arg(seg) {
            Some(inner) => match last_segment(inner) {
                Some(last) => Some(last.ident@),
                None => None,
            },
            None => None,
        },
        None => None,
    }
}

fn last_segment_of(ty: &TypeDesc) -> (r: Option<&PathSegment>)
    ensures
        match r {
            Some(s) => last_segment(*ty) == Some(*s),
            None => last_segment(*ty) is None,
        },
{
    match ty {
        TypeDesc::Path { segments, .. } => {
            if segments.len() > 0 {
                Some(&segments[segments.len() - 1])
            } else {
                None
            }
        },
        _ => None,
    }
}

fn first_type_arg_of(seg: &PathSegment) -> (r: Option<&TypeDesc>)
    ensures
        match r {
            Some(t) => first_type_arg(*seg) == Some(*t),
            None => first_type_arg(*seg) is None,
        },
{
    if seg.args.len() > 0 {
        match &seg.args[0] {
            GenericArg::Type(t) => Some(t),
            _ => None,
        }
    } else {
        None
    }
}

fn wrapped_type_of<'a>(ty: &'a TypeDesc, wrapper: &str) -> (r: Option<&'a TypeDesc>)
    ensures
        match r {
            Some(t) => wrapped_type(*ty, wrapper@) == Some(*t),
            None => wrapped_type(*ty, wrapper@) is None,
        },
{
    match last_segment_of(ty) {
        Some(seg) => {
            if is_word(&seg.ident, wrapper) {
                first_type_arg_of(seg)
            } else {
                None
            }
        },
        None => None,
    }
}

/// The name that a local handle type wraps, as `Function` for
/// `v8::Local<v8::Function>`; `None` for every other type.
pub fn get_v8_local_inner_type(ty: &TypeDesc) -> (r: Option<String>)
    ensures
        match r {
            Some(s) => local_inner_name(*ty) == Some(s@),
            None => local_inner_name(*ty) is None,
        },
{
    let seg = match ty {
        TypeDesc::Path { segments, .. } => {
            if segments.len() == 2 && is_word(&segments[0].ident, "v8") && is_word(
                &segments[1].ident,
                "Local",
            ) {
                &segments[1]
            } else if segments.len() == 1 && is_word(&segments[0].ident, "Local") {
                &segments[0]
            } else {
                return None;
            }
        },
        _ => return None,
    };
    match first_type_arg_of(seg) {
        Some(inner) => match last_segment_of(inner) {
            Some(last) => Some(last.ident.clone()),
            None => None,
        },
        None => None,
    }
}

/// Whether the last segment of a path type is named `Result`.
pub open spec fn names_result(ty: TypeDesc) -> bool {
    match last_segment(ty) {
        Some(seg) => seg.ident@ == "Result"@,
        None => false,
    }
}

/// Whether `ty` is a `Result<T, E>`, judged by the name of its last segment.
pub fn is_result_type(ty: &TypeDesc) -> (r: bool)
    ensures
        r == names_result(*ty),
{
    match last_segment_of(ty) {
        Some(seg) => is_word(&seg.ident, "Result"),
        None => false,
    }
}

/// The `T` of an `Option<T>`.
pub fn get_option_inner_type(ty: &TypeDesc) -> (r: Option<&TypeDesc>)
    ensures
        match r {
            Some(t) => wrapped_type(*ty, "Option"@) == Some(*t),
            None => wrapped_type(*ty, "Option"@) is None,
        },
{
    wrapped_type_of(ty, "Option")
}

/// The `T` of an `Rc<T>`.
pub fn get_rc_inner_type(ty: &TypeDesc) -> (r: Option<&TypeDesc>)
    ensures
        match r {
            Some(t) => wrapped_type(*ty, "Rc"@) == Some(*t),
            None => wrapped_type(*ty, "Rc"@) is None,
        },
{
    wrapped_type_of(ty, "Rc")
}

} // verus!
