use vstd::prelude::*;

verus! {

/// An SRTP protection profile as the DTLS handshake names it.
#[allow(non_camel_case_types)]
#[derive(Clone, Copy, Debug, PartialEq, Eq, Structural)]
pub enum SrtpProtectionProfile {
    Srtp_Aes128_Cm_Hmac_Sha1_80,
    Srtp_Aes128_Cm_Hmac_Sha1_32,
    Srtp_Aead_Aes_128_Gcm,
    Srtp_Aead_Aes_256_Gcm,
    Unsupported,
}

/// A protection profile that SRTP sessions can be run with.
#[derive(Clone, Copy, Debug, PartialEq, Eq, Structural)]
pub enum ProtectionProfile {
    Aes128CmHmacSha1_80,
    AeadAes128Gcm,
}

impl Default for ProtectionProfile {
    fn default() -> (profile: ProtectionProfile)
        ensures
            profile == ProtectionProfile::Aes128CmHmacSha1_80,
    {
        ProtectionProfile::Aes128CmHmacSha1_80
    }
}

/// The session profile for what the handshake selected, if sessions can be run with it.
pub open spec fn session_profile(selected: SrtpProtectionProfile) -> Option<ProtectionProfile> {
    match selected {
        SrtpProtectionProfile::Srtp_Aead_Aes_128_Gcm => Some(ProtectionProfile::AeadAes128Gcm),
        SrtpProtectionProfile::Srtp_Aes128_Cm_Hmac_Sha1_80 => Some(
            ProtectionProfile::Aes128CmHmacSha1_80,
        ),
        _ => None,
    }
}

impl SrtpProtectionProfile {
    /// The session profile for what the handshake selected: none unless it is one of the two that
    /// are offered by default.
    pub fn session_profile(self) -> (profile: Option<ProtectionProfile>)
        ensures
            profile == session_profile(self),
    {
        match self {
            SrtpProtectionProfile::Srtp_Aead_Aes_128_Gcm => Some(ProtectionProfile::AeadAes128Gcm),
            SrtpProtectionProfile::Srtp_Aes128_Cm_Hmac_Sha1_80 => Some(
                ProtectionProfile::Aes128CmHmacSha1_80,
            ),
            _ => None,
        }
    }
}

/// The profiles that are offered when the settings name none, the preferred one first.
pub open spec fn default_profiles() -> Seq<SrtpProtectionProfile> {
    seq![
        SrtpProtectionProfile::Srtp_Aead_Aes_128_Gcm,
        SrtpProtectionProfile::Srtp_Aes128_Cm_Hmac_Sha1_80,
    ]
}

/// The profiles that are offered when the settings name none.
pub fn default_srtp_protection_profiles() -> (profiles: Vec<SrtpProtectionProfile>)
    ensures
        profiles@ == default_profiles(),
{
    vec![
        SrtpProtectionProfile::Srtp_Aead_Aes_128_Gcm,
        SrtpProtectionProfile::Srtp_Aes128_Cm_Hmac_Sha1_80,
    ]
}

} // verus!
