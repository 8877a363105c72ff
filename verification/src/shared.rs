//! The standard mutex, for clocks that several threads share.

use vstd::prelude::*;

verus! {

/// `std::sync::Mutex`, carried through as an opaque value.
#[verifier::external_type_specification]
#[verifier::external_body]
#[verifier::reject_recursive_types(T)]
pub struct ExMutex<T: ?Sized>(std::sync::Mutex<T>);

/// `std::sync::Mutex::new` moves its argument into a fresh, unlocked mutex.
/// Nothing is claimed of the result: a mutex is opaque here.
pub assume_specification<T>[ std::sync::Mutex::<T>::new ](t: T) -> (m: std::sync::Mutex<T>);

} // verus!
