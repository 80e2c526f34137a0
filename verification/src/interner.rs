//! The string interner shared by the runtime (lasso's `ThreadedRodeo`).
use crate::keys::Symbol;
use lasso::{Key, Spur, ThreadedRodeo};
use vstd::prelude::*;

verus! {

#[verifier::external_type_specification]
#[verifier::external_body]
#[verifier::reject_recursive_types(K)]
#[verifier::reject_recursive_types(S)]
pub struct ExThreadedRodeo<K, S>(ThreadedRodeo<K, S>);

#[verifier::external_type_specification]
#[verifier::external_body]
pub struct ExSpur(Spur);

/// The strings an interner hands out keys for, by key, over its whole life.
/// The interner is shared and grows behind a shared reference, so this map
/// is not what it holds at any one moment: a key in it may not have been
/// issued yet. Reads of the interner are therefore only ever checked against
/// this map, never taken to show what is held now.
pub uninterp spec fn interned_strings(interner: ThreadedRodeo) -> Map<Symbol, Seq<char>>;

/// Interns `s` (lasso's `ThreadedRodeo::try_get_or_intern`), giving its key;
/// `None` when the interner has no key or memory left. A string has one key:
/// interning it again gives the key it already has. That a string already
/// held is always interned again successfully is not stated: what is held at
/// the moment of the call is outside the model.
#[verifier::external_body]
pub(crate) fn intern(interner: &ThreadedRodeo, s: &str) -> (r: Option<Symbol>)
    ensures
        r matches Some(k) ==> interned_strings(*interner).contains_key(k)
            && interned_strings(*interner)[k] == s@,
        r matches Some(k) ==> forall|other: Symbol|
            #![trigger interned_strings(*interner)[other]]
            interned_strings(*interner).contains_key(other) && interned_strings(*interner)[other] == s@ ==> other == k,
{
    match interner.try_get_or_intern(s) {
        Ok(key) => Some(key.into_usize() as Symbol),
        Err(_) => None,
    }
}

/// The string interned under `sym` (lasso's `ThreadedRodeo::try_resolve`).
/// `None` when the interner has not issued that key, which may still happen
/// later; what is held at the moment of the call is not stated.
#[verifier::external_body]
pub(crate) fn resolve(interner: &ThreadedRodeo, sym: Symbol) -> (r: Option<String>)
    ensures
        r matches Some(s) ==> interned_strings(*interner).contains_key(sym) && s@ == interned_strings(*interner)[sym],
{
    match Spur::try_from_usize(sym as usize) {
        Some(key) => interner.try_resolve(&key).map(String::from),
        None => None,
    }
}

} // verus!
