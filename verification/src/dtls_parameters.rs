use crate::dtls_role::DTLSRole;
use vstd::prelude::*;

verus! {

/// A fingerprint of a certificate.
pub struct DTLSFingerprint {
    /// The name of the hash function.
    pub algorithm: String,
    /// The value of the fingerprint, as a string of hexadecimal digits.
    pub value: String,
}

/// What the two peers tell each other about DTLS.
pub struct DTLSParameters {
    pub role: DTLSRole,
    pub fingerprints: Vec<DTLSFingerprint>,
}

/// [`DTLSParameters`] with its fingerprints as a sequence.
#[verifier::ext_equal]
pub struct DTLSParametersModel {
    pub role: DTLSRole,
    pub fingerprints: Seq<DTLSFingerprint>,
}

impl View for DTLSParameters {
    type V = DTLSParametersModel;

    open spec fn view(&self) -> DTLSParametersModel {
        DTLSParametersModel { role: self.role, fingerprints: self.fingerprints@ }
    }
}

impl DTLSParametersModel {
    /// No explicit role and no fingerprint.
    pub open spec fn initial() -> DTLSParametersModel {
        DTLSParametersModel { role: DTLSRole::Auto, fingerprints: Seq::empty() }
    }
}

impl Default for DTLSParameters {
    fn default() -> (parameters: DTLSParameters)
        ensures
            parameters@ == DTLSParametersModel::initial(),
    {
        DTLSParameters { role: DTLSRole::Auto, fingerprints: Vec::new() }
    }
}

} // verus!
