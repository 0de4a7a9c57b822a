use crate::dtls_role::DTLSRole;
use crate::protection_profile::{default_profiles, SrtpProtectionProfile};
use vstd::prelude::*;

verus! {

/// Sizes of the replay protection windows. Zero leaves a window at its default.
#[derive(Clone, Copy, Debug, PartialEq, Eq, Structural)]
pub struct ReplayProtection {
    pub dtls: usize,
    pub srtp: usize,
    pub srtcp: usize,
}

/// Settings of the user that bear on the DTLS transport.
pub struct SettingEngine {
    pub replay_protection: ReplayProtection,
    pub disable_srtp_replay_protection: bool,
    pub disable_srtcp_replay_protection: bool,
    /// The profiles to offer, the preferred one first. None here stands for the default ones.
    pub srtp_protection_profiles: Vec<SrtpProtectionProfile>,
    /// The role to take where the remote peer leaves it open.
    pub answering_dtls_role: DTLSRole,
    pub disable_certificate_fingerprint_verification: bool,
}

impl SettingEngine {
    /// The profiles that a handshake offers.
    pub open spec fn offered_profiles(self) -> Seq<SrtpProtectionProfile> {
        if self.srtp_protection_profiles@.len() > 0 {
            self.srtp_protection_profiles@
        } else {
            default_profiles()
        }
    }

    /// The settings of a user who set nothing.
    pub open spec fn is_initial(self) -> bool {
        &&& self.replay_protection == (ReplayProtection { dtls: 0, srtp: 0, srtcp: 0 })
        &&& !self.disable_srtp_replay_protection
        &&& !self.disable_srtcp_replay_protection
        &&& self.srtp_protection_profiles@.len() == 0
        &&& self.answering_dtls_role == DTLSRole::Auto
        &&& !self.disable_certificate_fingerprint_verification
    }
}

impl Default for SettingEngine {
    fn default() -> (settings: SettingEngine)
        ensures
            settings.is_initial(),
    {
        SettingEngine {
            replay_protection: ReplayProtection { dtls: 0, srtp: 0, srtcp: 0 },
            disable_srtp_replay_protection: false,
            disable_srtcp_replay_protection: false,
            srtp_protection_profiles: Vec::new(),
            answering_dtls_role: DTLSRole::Auto,
            disable_certificate_fingerprint_verification: false,
        }
    }
}

} // verus!
