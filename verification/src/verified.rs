//! The runtime role: verify, then deserialize — nothing else.
//!
//! A precompiled component is deserialized only after its signature has verified:
//! deserializing untrusted bytes is unsound, so the check is what makes the load sound, not
//! an incidental nicety. Fuel metering is on for every runtime-role engine, so every caller
//! gives a store its fuel budget before running guest code.

use vstd::prelude::*;

verus! {

#[verifier::external_type_specification]
#[verifier::external_body]
pub struct ExWasmtimeError(wasmtime::Error);

/// The fuel budget a store is given before guest code runs. Generous and not tuned.
pub const DEFAULT_FUEL: u64 = 10_000_000;

/// Why a precompiled component was not loaded.
#[derive(Debug)]
pub enum LoadError {
    /// The artifact's signature did not verify under the given public key — tampered,
    /// corrupted, or signed under another key. Deserialization is never attempted then.
    BadSignature,
    /// The signature checked out, but the runtime itself rejected the artifact (another
    /// runtime version or target, or not an artifact at all).
    Deserialize(wasmtime::Error),
}

/// Loads an artifact whose signature check came out `signature_verified`: without a valid
/// signature the load is refused as [`LoadError::BadSignature`] and `deserialize` is never
/// called; with one, the artifact is what `deserialize` makes of it, its failure relayed as
/// [`LoadError::Deserialize`].
pub fn load_verified_component<C, F: FnOnce() -> Result<C, wasmtime::Error>>(
    signature_verified: bool,
    deserialize: F,
) -> (res: Result<C, LoadError>)
    requires
        signature_verified ==> deserialize.requires(()),
    ensures
        !signature_verified ==> res matches Err(LoadError::BadSignature),
        signature_verified ==> exists|out: Result<C, wasmtime::Error>| {
            &&& #[trigger] deserialize.ensures((), out)
            &&& match out {
                Ok(component) => res == Ok::<C, LoadError>(component),
                Err(e) => res matches Err(LoadError::Deserialize(e2)) && e2 == e,
            }
        },
{
    if !signature_verified {
        return Err(LoadError::BadSignature);
    }
    match deserialize() {
        Ok(component) => Ok(component),
        Err(e) => Err(LoadError::Deserialize(e)),
    }
}

} // verus!
