//! Middleware layers that are switched on by a condition.
use vstd::prelude::*;

verus! {

/// `axum_extra::either::Either`: one of two values.
#[verifier::external_type_specification]
#[verifier::reject_recursive_types(E1)]
#[verifier::reject_recursive_types(E2)]
pub struct ExEither<E1, E2>(axum_extra::either::Either<E1, E2>);

/// `tower::layer::util::Identity`, the layer that leaves a service as it is;
/// carried through as an opaque value.
#[verifier::external_type_specification]
#[verifier::external_body]
pub struct ExIdentity(tower::layer::util::Identity);

/// `axum_extra::middleware::option_layer`: the layer itself where one is
/// given, the identity layer otherwise.
#[verifier::external_body]
fn option_layer<L>(layer: Option<L>) -> (r: axum_extra::either::Either<L, tower::layer::util::Identity>)
    ensures
        match layer {
            Some(l) => r == axum_extra::either::Either::<L, tower::layer::util::Identity>::E1(l),
            None => r is E2,
        },
{
    axum_extra::middleware::option_layer(layer)
}

/// The layer that `layer` makes where `condition` holds, and the identity
/// layer otherwise; `layer` is called only where the condition holds.
pub fn conditional_layer<L, F: FnOnce() -> L>(condition: bool, layer: F) -> (r:
    axum_extra::either::Either<L, tower::layer::util::Identity>)
    requires
        condition ==> call_requires(layer, ()),
    ensures
        condition ==> (r matches axum_extra::either::Either::E1(l) && call_ensures(layer, (), l)),
        !condition ==> r is E2,
{
    if condition {
        let l = layer();
        option_layer(Some(l))
    } else {
        option_layer(None)
    }
}

} // verus!
