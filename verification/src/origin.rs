//! The authorization gate: who is asking, and is the privilege sufficient.

use vstd::prelude::*;

use crate::dispatch::DispatchError;

verus! {

/// The identity on whose behalf a dispatchable operation is invoked.
///
/// `Root` is the single governance authority; `Signed` is an authenticated
/// ordinary account; `Unsigned` carries no identity at all.
#[derive(Clone, Copy, PartialEq, Eq, Structural, Debug)]
pub enum Origin {
    Root,
    Signed(u64),
    Unsigned,
}

/// Admits only the governance authority. Any other caller is rejected with
/// `BadOrigin` before any state is touched.
pub fn ensure_root(origin: Origin) -> (r: Result<(), DispatchError>)
    ensures
        origin is Root <==> r is Ok,
        !(origin is Root) ==> r == Err::<(), DispatchError>(DispatchError::BadOrigin),
{
    match origin {
        Origin::Root => Ok(()),
        _ => Err(DispatchError::BadOrigin),
    }
}

/// Admits any authenticated signed account and hands back its identity.
/// Root and unsigned callers are rejected with `BadOrigin`.
pub fn ensure_signed(origin: Origin) -> (r: Result<u64, DispatchError>)
    ensures
        origin matches Origin::Signed(who) ==> r == Ok::<u64, DispatchError>(who),
        !(origin matches Origin::Signed(_)) ==> r == Err::<u64, DispatchError>(
            DispatchError::BadOrigin,
        ),
{
    match origin {
        Origin::Signed(who) => Ok(who),
        _ => Err(DispatchError::BadOrigin),
    }
}

} // verus!
