//! The choice between a data provider given with the options and the one
//! configured as the default.

use vstd::prelude::*;

verus! {

/// Why no data provider could be chosen.
#[derive(Clone, Copy, PartialEq, Eq, Structural, Debug)]
pub enum ProviderError {
    /// None was given and none is configured as the default.
    NoProvider,
}

/// The provider that is used: the one given with the options, else the
/// default, else a fault.
pub open spec fn provider_chosen<P>(explicit: Option<P>, default: Option<P>) -> Result<
    P,
    ProviderError,
> {
    match explicit {
        Some(provider) => Ok(provider),
        None => match default {
            Some(provider) => Ok(provider),
            None => Err(ProviderError::NoProvider),
        },
    }
}

/// Chooses the provider given with the options, or else the default.
pub fn resolve_provider<P>(explicit: Option<P>, default: Option<P>) -> (provider: Result<
    P,
    ProviderError,
>)
    ensures
        provider == provider_chosen(explicit, default),
{
    match explicit {
        Some(provider) => Ok(provider),
        None => match default {
            Some(provider) => Ok(provider),
            None => Err(ProviderError::NoProvider),
        },
    }
}

} // verus!
