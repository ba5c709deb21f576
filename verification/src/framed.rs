//! What this library takes on trust about `tokio_util::codec::Framed`.
//!
//! The transport carries a `Framed` and hands out what it holds. Nothing in
//! the library looks inside one: the type is opaque to the verifier, and the
//! functions below promise nothing about their results beyond their types.
//! They neither panic nor block: each of them moves or borrows fields.

use vstd::prelude::*;
use tokio_util::codec::Framed;

verus! {

/// `tokio_util::codec::Framed<T, U>`: an I/O object `T` and a codec `U` with
/// the read and write buffers between them. Declared opaque.
#[verifier::external_type_specification]
#[verifier::external_body]
#[verifier::reject_recursive_types(T)]
#[verifier::reject_recursive_types(U)]
pub struct ExFramed<T, U>(Framed<T, U>);

/// `Framed::new` builds a combinator from an I/O object and a codec, with
/// empty buffers. Nothing is claimed of the result.
pub assume_specification<T, U>[ Framed::<T, U>::new ](inner: T, codec: U) -> (framed: Framed<T, U>);

/// `Framed::get_ref` borrows the I/O object. Nothing is claimed of the result.
pub assume_specification<T, U>[ Framed::<T, U>::get_ref ](framed: &Framed<T, U>) -> (inner: &T);

/// `Framed::get_mut` borrows the I/O object mutably. Nothing is claimed of the
/// result, nor of the combinator once the borrow ends.
pub assume_specification<T, U>[ Framed::<T, U>::get_mut ](framed: &mut Framed<T, U>) -> (inner:
    &mut T);

/// `Framed::codec` borrows the codec. Nothing is claimed of the result.
pub assume_specification<T, U>[ Framed::<T, U>::codec ](framed: &Framed<T, U>) -> (codec: &U);

/// `Framed::codec_mut` borrows the codec mutably. Nothing is claimed of the
/// result, nor of the combinator once the borrow ends.
pub assume_specification<T, U>[ Framed::<T, U>::codec_mut ](framed: &mut Framed<T, U>) -> (codec:
    &mut U);

} // verus!
