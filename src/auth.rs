use vstd::prelude::*;
use crate::address::Address;
use crate::error::PresaleError;
use crate::state::PlatformConfig;

verus! {

/// The platform's admins are its owner and its operator, and no one else.
pub open spec fn is_admin(platform: PlatformConfig, signer: Address) -> bool {
    signer@ == platform.owner@ || signer@ == platform.operator@
}

/// Accepts the owner or the operator of the platform; rejects anyone else
/// with `Unauthorized`.
pub fn assert_admin(platform: &PlatformConfig, signer: &Address) -> (r: Result<(), PresaleError>)
    ensures
        r is Ok <==> is_admin(*platform, *signer),
        r is Err ==> r == Err::<(), PresaleError>(PresaleError::Unauthorized),
{
    if signer.same_as(&platform.owner) || signer.same_as(&platform.operator) {
        Ok(())
    } else {
        Err(PresaleError::Unauthorized)
    }
}

} // verus!
