//! Selector for the module-based streaming backends.

use vstd::prelude::*;
use crate::text::str_eq;

verus! {

broadcast use vstd::string::group_string_axioms;

/// Which module-based streaming backend a track reference belongs to.
#[derive(Clone, Copy, PartialEq, Eq, Structural, Debug)]
pub enum ModuleType {
    Yandex,
    HifiQobuz,
}

/// The module a service tag names, if any: the spec-level mirror of
/// `ModuleType::try_from`.
pub open spec fn module_for_tag(tag: Seq<char>) -> Option<ModuleType> {
    if tag == "hifi"@ || tag == "qobuz"@ {
        Some(ModuleType::HifiQobuz)
    } else if tag == "yandex"@ {
        Some(ModuleType::Yandex)
    } else {
        None
    }
}

/// The tag of a module, as it travels in queries and result ids.
pub open spec fn module_tag(m: ModuleType) -> Seq<char> {
    match m {
        ModuleType::Yandex => "yandex"@,
        ModuleType::HifiQobuz => "hifi"@,
    }
}

impl ModuleType {
    /// The tag under which the module is addressed in queries and
    /// carried inside result ids.
    pub fn as_str(&self) -> (r: &'static str)
        ensures
            r@ == module_tag(*self),
    {
        match self {
            ModuleType::Yandex => "yandex",
            ModuleType::HifiQobuz => "hifi",
        }
    }

    /// Parses a service tag; an unknown tag yields `None`.
    pub fn try_from(value: &str) -> (r: Option<ModuleType>)
        ensures
            r == module_for_tag(value@),
    {
        proof {
            reveal_strlit("hifi");
            reveal_strlit("qobuz");
            reveal_strlit("yandex");
            assert("yandex"@.len() == 6 && "hifi"@.len() == 4 && "qobuz"@.len() == 5);
            assert("yandex"@ !== "hifi"@ && "yandex"@ !== "qobuz"@);
        }
        if str_eq(value, "hifi") || str_eq(value, "qobuz") {
            Some(ModuleType::HifiQobuz)
        } else if str_eq(value, "yandex") {
            Some(ModuleType::Yandex)
        } else {
            None
        }
    }
}

} // verus!
