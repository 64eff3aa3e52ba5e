use vstd::prelude::*;
use crate::errors::ErrorCode;
use crate::identity::Identity;
use crate::state::{Config, CONFIG_VERSION};

verus! {

/// What the initialization touches: the slot of the registry and the identity
/// `authority` that signed the call.
#[derive(Clone, Copy, Debug, PartialEq, Eq)]
pub struct InitializeConfig {
    pub config: Option<Config>,
    pub authority: Identity,
}

/// How the initialization leaves its accounts and what it returns.
pub open spec fn initialize_post(
    before: InitializeConfig,
    after: InitializeConfig,
    result: Result<(), ErrorCode>,
) -> bool {
    &&& after.authority == before.authority
    &&& match before.config {
        None => {
            &&& result is Ok
            &&& after.config matches Some(config) && config.is_initial(before.authority)
        },
        Some(_) => {
            &&& result == Err::<(), ErrorCode>(ErrorCode::AccountAlreadyInUse)
            &&& after.config == before.config
        },
    }
}

/// Initializes the registry: the caller becomes its authority, and the count of
/// capsules starts at zero. A registry that exists is left as it is, and the
/// call fails.
pub fn handler(ctx: &mut InitializeConfig) -> (r: Result<(), ErrorCode>)
    ensures
        initialize_post(*old(ctx), *final(ctx), r),
{
    if ctx.config.is_some() {
        return Err(ErrorCode::AccountAlreadyInUse);
    }
    let config = Config {
        authority: ctx.authority,
        total_capsules: 0,
        version: CONFIG_VERSION,
        reserved: [0u8; 31],
    };
    assert(config.reserved@ =~= Seq::new(31, |i: int| 0u8));
    ctx.config = Some(config);
    Ok(())
}

} // verus!
