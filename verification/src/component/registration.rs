//! What a component is registered as: its name and its storage strategy.

use vstd::prelude::*;

verus! {

/// The storage strategies, by name.
#[derive(Debug, Clone, Copy, PartialEq, Eq, Structural)]
pub enum Storage {
    /// The text of the JSON encoding.
    Json,
    /// The bytes of the component.
    Blob,
    /// Null, for components without a payload.
    Null,
}

impl Storage {
    /// The strategy that a word declares.
    pub open spec fn declared_by(word: Seq<char>) -> Option<Storage> {
        if word == "json"@ {
            Some(Storage::Json)
        } else if word == "blob"@ {
            Some(Storage::Blob)
        } else if word == "null"@ {
            Some(Storage::Null)
        } else {
            None
        }
    }

    /// The strategy of a component: the one that was declared for it, else
    /// null for a type without fields and JSON for any other.
    pub open spec fn chosen_for(declared: Option<Storage>, has_fields: bool) -> Storage {
        match declared {
            Some(storage) => storage,
            None => if has_fields {
                Storage::Json
            } else {
                Storage::Null
            },
        }
    }

    /// The strategy that `word` declares: `json`, `blob` or `null`; none for
    /// any other word.
    pub fn parse(word: &str) -> (storage: Option<Storage>)
        ensures
            storage == Self::declared_by(word@),
    {
        let word = word.to_owned();
        if word == String::from_str("json") {
            Some(Storage::Json)
        } else if word == String::from_str("blob") {
            Some(Storage::Blob)
        } else if word == String::from_str("null") {
            Some(Storage::Null)
        } else {
            None
        }
    }

    /// The strategy of a component for which `declared` was declared, and
    /// that has fields or has none.
    pub fn select(declared: Option<Storage>, has_fields: bool) -> (storage: Storage)
        ensures
            storage == Self::chosen_for(declared, has_fields),
    {
        match declared {
            Some(storage) => storage,
            None => if has_fields {
                Storage::Json
            } else {
                Storage::Null
            },
        }
    }
}

/// The name of a component: the one that was given to it, else the path of
/// the module `module`, two colons and the name `ty` of its type.
pub open spec fn name_of(module: Seq<char>, ty: Seq<char>, given: Option<Seq<char>>) -> Seq<
    char,
> {
    match given {
        Some(name) => name,
        None => module + "::"@ + ty,
    }
}

/// The name under which a component is registered.
pub fn component_name(module: &str, ty: &str, given: Option<&str>) -> (name: String)
    ensures
        name@ == name_of(
            module@,
            ty@,
            match given {
                Some(given) => Some(given@),
                None => None,
            },
        ),
{
    match given {
        Some(given) => given.to_owned(),
        None => {
            let mut name = module.to_owned();
            name.append("::");
            name.append(ty);
            name
        },
    }
}

/// A type without fields is stored as null unless a strategy was declared
/// for it, and a declared strategy always stands.
pub proof fn lemma_chosen_storage(declared: Option<Storage>, has_fields: bool)
    ensures
        declared is None && !has_fields ==> Storage::chosen_for(declared, has_fields)
            == Storage::Null,
        declared matches Some(storage) ==> Storage::chosen_for(declared, has_fields) == storage,
{
}

} // verus!
