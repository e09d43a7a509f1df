//! The configuration that accompanies a described function.
use vstd::prelude::*;
use crate::text::{is_word, concat2};
use crate::types::TypeDesc;

verus! {

/// The value given to a configuration key.
pub enum AttrValue {
    /// The key stands alone, as in `promise`.
    Absent,
    /// A string literal, as in `name = "setTimeout"`.
    Str(String),
    /// A type, as in `state = Rc<Counter>`.
    Type(TypeDesc),
    /// Anything else.
    Other,
}

/// One entry of the configuration, in the order written.
pub enum AttrItem {
    /// `key` or `key = value`.
    Meta { key: String, value: AttrValue },
    /// A bare string literal, accepted alone as the exposed name.
    Literal(String),
}

/// A build-time error in the configuration or in the signature.
#[derive(Debug)]
pub enum ConfigError {
    /// A key other than `state`, `name`, `promise` and `fast`.
    UnknownKey(String),
    /// A recognized key with a value of the wrong form.
    BadValue(String),
    /// A bare string literal next to other entries.
    StrayLiteral,
    /// The function takes state but no state type is configured.
    MissingStateType,
}

/// The configuration, once checked.
pub struct MethodAttrs {
    pub js_name: Option<String>,
    pub state_type: Option<TypeDesc>,
    pub promise: bool,
    pub fast: bool,
}

pub open spec fn is_known_key(k: Seq<char>) -> bool {
    k == "state"@ || k == "name"@ || k == "promise"@ || k == "fast"@
}

/// Whether an entry is acceptable in a configuration of `n` entries.
pub open spec fn item_ok(it: AttrItem, n: nat) -> bool {
    match it {
        AttrItem::Meta { key, value } => {
            (key@ == "state"@ && value is Type) || (key@ == "name"@ && value is Str) || ((key@
                == "promise"@ || key@ == "fast"@) && value is Absent)
        },
        AttrItem::Literal(_) => n == 1,
    }
}

/// Whether `e` is the error that reports the faulty entry `it`.
pub open spec fn reports(e: ConfigError, it: AttrItem) -> bool {
    match it {
        AttrItem::Meta { key, .. } => if is_known_key(key@) {
            e matches ConfigError::BadValue(k) && k@ == key@
        } else {
            e matches ConfigError::UnknownKey(k) && k@ == key@
        },
        AttrItem::Literal(_) => e is StrayLiteral,
    }
}

/// The exposed name that the entries give: the last `name = ".."`, or the
/// bare literal.
pub open spec fn name_of(s: Seq<AttrItem>) -> Option<Seq<char>>
    decreases s.len(),
{
    if s.len() == 0 {
        None
    } else {
        match s.last() {
            AttrItem::Meta { key, value: AttrValue::Str(v) } => if key@ == "name"@ {
                Some(v@)
            } else {
                name_of(s.drop_last())
            },
            AttrItem::Literal(v) => Some(v@),
            _ => name_of(s.drop_last()),
        }
    }
}

/// The state type that the entries give: the last `state = ..`.
pub open spec fn state_of(s: Seq<AttrItem>) -> Option<TypeDesc>
    decreases s.len(),
{
    if s.len() == 0 {
        None
    } else {
        match s.last() {
            AttrItem::Meta { key, value: AttrValue::Type(t) } => if key@ == "state"@ {
                Some(t)
            } else {
                state_of(s.drop_last())
            },
            _ => state_of(s.drop_last()),
        }
    }
}

/// Whether an entry is the key `k`.
pub open spec fn is_key(it: AttrItem, k: Seq<char>) -> bool {
    match it {
        AttrItem::Meta { key, .. } => key@ == k,
        AttrItem::Literal(_) => false,
    }
}

/// Whether some entry is the key `k`.
pub open spec fn has_key(s: Seq<AttrItem>, k: Seq<char>) -> bool {
    exists|i: int| 0 <= i < s.len() && is_key(#[trigger] s[i], k)
}

/// Whether `e` reports the first faulty entry of `s`.
pub open spec fn first_fault(s: Seq<AttrItem>, e: ConfigError) -> bool {
    exists|i: int|
        0 <= i < s.len() && !item_ok(#[trigger] s[i], s.len()) && (forall|j: int|
            0 <= j < i ==> item_ok(#[trigger] s[j], s.len())) && reports(e, s[i])
}

impl ConfigError {
    /// The diagnostic shown for this error.
    pub fn message(&self) -> (r: String)
        ensures
            r@ == self.message_view(),
    {
        match self {
            ConfigError::UnknownKey(k) => concat2(
                "expected `state = Type`, `name = \"jsName\"`, `promise`, or `fast`, found ",
                k.as_str(),
            ),
            ConfigError::BadValue(k) => concat2("malformed value for ", k.as_str()),
            ConfigError::StrayLiteral => String::from_str(
                "a bare name literal must be the only configuration entry",
            ),
            ConfigError::MissingStateType => String::from_str(
                "Function has 'state' parameter but no state type specified. Use #[glue_v8::method(state = YourStateType)]",
            ),
        }
    }

    pub open spec fn message_view(&self) -> Seq<char> {
        match self {
            ConfigError::UnknownKey(k) =>
                "expected `state = Type`, `name = \"jsName\"`, `promise`, or `fast`, found "@ + k@,
            ConfigError::BadValue(k) => "malformed value for "@ + k@,
            ConfigError::StrayLiteral => "a bare name literal must be the only configuration entry"@,
            ConfigError::MissingStateType =>
                "Function has 'state' parameter but no state type specified. Use #[glue_v8::method(state = YourStateType)]"@,
        }
    }
}

fn check_item(it: &AttrItem, n: usize) -> (r: Result<(), ConfigError>)
    ensures
        match r {
            Ok(_) => item_ok(*it, n as nat),
            Err(e) => !item_ok(*it, n as nat) && reports(e, *it),
        },
{
    match it {
        AttrItem::Meta { key, value } => {
            let is_type = match value {
                AttrValue::Type(_) => true,
                _ => false,
            };
            let is_str = match value {
                AttrValue::Str(_) => true,
                _ => false,
            };
            let is_absent = match value {
                AttrValue::Absent => true,
                _ => false,
            };
            let state = is_word(key, "state");
            let name = is_word(key, "name");
            let flag = is_word(key, "promise") || is_word(key, "fast");
            if (state && is_type) || (name && is_str) || (flag && is_absent) {
                Ok(())
            } else if state || name || flag {
                Err(ConfigError::BadValue(key.clone()))
            } else {
                Err(ConfigError::UnknownKey(key.clone()))
            }
        },
        AttrItem::Literal(_) => {
            if n == 1 {
                Ok(())
            } else {
                Err(ConfigError::StrayLiteral)
            }
        },
    }
}

impl MethodAttrs {
    /// Checks the configuration entries and gathers them. A repeated key
    /// takes its last value; the first faulty entry is reported.
    pub fn parse(attr: Vec<AttrItem>) -> (r: Result<MethodAttrs, ConfigError>)
        ensures
            match r {
                Ok(a) => {
                    &&& forall|i: int| 0 <= i < attr@.len() ==> item_ok(#[trigger] attr@[i], attr@.len())
                    &&& match a.js_name {
                        Some(s) => name_of(attr@) == Some(s@),
                        None => name_of(attr@) is None,
                    }
                    &&& a.state_type == state_of(attr@)
                    &&& a.promise == has_key(attr@, "promise"@)
                    &&& a.fast == has_key(attr@, "fast"@)
                },
                Err(e) => first_fault(attr@, e),
            },
    {
        let n = attr.len();
        let mut i: usize = 0;
        while i < n
            invariant
                n == attr@.len(),
                i <= n,
                forall|j: int| 0 <= j < i ==> item_ok(#[trigger] attr@[j], n as nat),
            decreases n - i,
        {
            match check_item(&attr[i], n) {
                Ok(_) => {},
                Err(e) => {
                    return Err(e);
                },
            }
            i = i + 1;
        }
        let ghost all = attr@;
        let mut items = attr;
        let mut js_name: Option<String> = None;
        let mut state_type: Option<TypeDesc> = None;
        let mut promise = false;
        let mut fast = false;
        while items.len() > 0
            invariant
                items@ =~= all.subrange(0, items@.len() as int),
                items@.len() <= all.len(),
                match js_name {
                    Some(s) => name_of(all) == Some(s@),
                    None => name_of(all) == name_of(items@),
                },
                match state_type {
                    Some(t) => state_of(all) == Some(t),
                    None => state_of(all) == state_of(items@),
                },
                promise == exists|j: int|
                    items@.len() <= j < all.len() && is_key(#[trigger] all[j], "promise"@),
                fast == exists|j: int|
                    items@.len() <= j < all.len() && is_key(#[trigger] all[j], "fast"@),
            decreases items@.len(),
        {
            let ghost before = items@;
            let it = items.pop().unwrap();
            assert(before.drop_last() =~= items@);
            match it {
                AttrItem::Meta { key, value } => {
                    if is_word(&key, "promise") {
                        promise = true;
                    }
                    if is_word(&key, "fast") {
                        fast = true;
                    }
                    match value {
                        AttrValue::Str(v) => {
                            if js_name.is_none() && is_word(&key, "name") {
                                js_name = Some(v);
                            }
                        },
                        AttrValue::Type(t) => {
                            if state_type.is_none() && is_word(&key, "state") {
                                state_type = Some(t);
                            }
                        },
                        _ => {},
                    }
                },
                AttrItem::Literal(v) => {
                    if js_name.is_none() {
                        js_name = Some(v);
                    }
                },
            }
        }
        assert(items@.len() == 0);
        Ok(MethodAttrs { js_name, state_type, promise, fast })
    }
}

} // verus!
