use crate::protection_profile::{ProtectionProfile, SrtpProtectionProfile};
use crate::resources::Resources;
use crate::setting_engine::SettingEngine;
use vstd::prelude::*;

verus! {

/// What a DTLS server asks of its clients.
#[derive(Clone, Copy, Debug, PartialEq, Eq, Structural)]
pub enum ClientAuthType {
    NoClientCert,
    RequestClientCert,
    RequireAnyClientCert,
    VerifyClientCertIfGiven,
    RequireAndVerifyClientCert,
}

/// How to run a DTLS handshake. What is not named here stays at its default.
pub struct DTLSConfig<R: Resources> {
    pub certificates: Vec<R::Certificate>,
    pub srtp_protection_profiles: Vec<SrtpProtectionProfile>,
    pub client_auth: ClientAuthType,
    pub insecure_skip_verify: bool,
    /// Zero stands for the default.
    pub replay_protection_window: usize,
}

/// [`DTLSConfig`] with its lists as sequences.
#[verifier::ext_equal]
pub struct DTLSConfigModel<R: Resources> {
    pub certificates: Seq<R::Certificate>,
    pub srtp_protection_profiles: Seq<SrtpProtectionProfile>,
    pub client_auth: ClientAuthType,
    pub insecure_skip_verify: bool,
    pub replay_protection_window: usize,
}

impl<R: Resources> View for DTLSConfig<R> {
    type V = DTLSConfigModel<R>;

    open spec fn view(&self) -> DTLSConfigModel<R> {
        DTLSConfigModel {
            certificates: self.certificates@,
            srtp_protection_profiles: self.srtp_protection_profiles@,
            client_auth: self.client_auth,
            insecure_skip_verify: self.insecure_skip_verify,
            replay_protection_window: self.replay_protection_window,
        }
    }
}

impl<R: Resources> DTLSConfigModel<R> {
    /// A handshake that presents `certificate`, offers the profiles of the settings, demands a
    /// certificate of the peer and leaves its verification to the fingerprints.
    pub open spec fn of(
        settings: SettingEngine,
        certificate: R::Certificate,
        replay_protection_window: usize,
    ) -> DTLSConfigModel<R> {
        DTLSConfigModel {
            certificates: seq![certificate],
            srtp_protection_profiles: settings.offered_profiles(),
            client_auth: ClientAuthType::RequireAnyClientCert,
            insecure_skip_verify: true,
            replay_protection_window,
        }
    }
}

/// A replay protection that departs from the default of the session.
#[derive(Clone, Copy, Debug, PartialEq, Eq, Structural)]
pub enum ReplayOption {
    /// A window of this size.
    Window(usize),
    /// No protection.
    Disabled,
}

/// The replay protection that a window size and a switch ask for: a size that is set wins over the
/// switch, and without either the session keeps its default.
pub open spec fn replay_choice(window: usize, disabled: bool) -> Option<ReplayOption> {
    if window != 0 {
        Some(ReplayOption::Window(window))
    } else if disabled {
        Some(ReplayOption::Disabled)
    } else {
        None
    }
}

/// The replay protection that a window size and a switch ask for.
pub fn replay_option(window: usize, disabled: bool) -> (option: Option<ReplayOption>)
    ensures
        option == replay_choice(window, disabled),
{
    if window != 0 {
        Some(ReplayOption::Window(window))
    } else if disabled {
        Some(ReplayOption::Disabled)
    } else {
        None
    }
}

/// What is settled about the two SRTP sessions before there are keys.
#[derive(Clone, Copy, Debug, PartialEq, Eq, Structural)]
pub struct SrtpPlan {
    pub profile: ProtectionProfile,
    /// Replay protection of received RTP packets, in the SRTP session.
    pub rtp: Option<ReplayOption>,
    /// Replay protection of received RTCP packets, in the SRTCP session.
    pub rtcp: Option<ReplayOption>,
}

impl SrtpPlan {
    /// The plan that a profile and the settings lead to.
    pub open spec fn of(profile: ProtectionProfile, settings: SettingEngine) -> SrtpPlan {
        SrtpPlan {
            profile,
            rtp: replay_choice(
                settings.replay_protection.srtp,
                settings.disable_srtp_replay_protection,
            ),
            rtcp: replay_choice(
                settings.replay_protection.srtcp,
                settings.disable_srtcp_replay_protection,
            ),
        }
    }
}

/// The keys of an SRTP session.
pub struct SessionKeys {
    pub local_master_key: Vec<u8>,
    pub local_master_salt: Vec<u8>,
    pub remote_master_key: Vec<u8>,
    pub remote_master_salt: Vec<u8>,
}

/// [`SessionKeys`] as sequences.
#[verifier::ext_equal]
pub struct SessionKeysModel {
    pub local_master_key: Seq<u8>,
    pub local_master_salt: Seq<u8>,
    pub remote_master_key: Seq<u8>,
    pub remote_master_salt: Seq<u8>,
}

impl View for SessionKeys {
    type V = SessionKeysModel;

    open spec fn view(&self) -> SessionKeysModel {
        SessionKeysModel {
            local_master_key: self.local_master_key@,
            local_master_salt: self.local_master_salt@,
            remote_master_key: self.remote_master_key@,
            remote_master_salt: self.remote_master_salt@,
        }
    }
}

impl SessionKeysModel {
    /// Keys that nobody filled in.
    pub open spec fn unset() -> SessionKeysModel {
        SessionKeysModel {
            local_master_key: Seq::empty(),
            local_master_salt: Seq::empty(),
            remote_master_key: Seq::empty(),
            remote_master_salt: Seq::empty(),
        }
    }
}

impl Default for SessionKeys {
    fn default() -> (keys: SessionKeys)
        ensures
            keys@ == SessionKeysModel::unset(),
    {
        SessionKeys {
            local_master_key: Vec::new(),
            local_master_salt: Vec::new(),
            remote_master_key: Vec::new(),
            remote_master_salt: Vec::new(),
        }
    }
}

/// How to run an SRTP or SRTCP session. What is not named here stays at its default.
pub struct SrtpConfig {
    pub keys: SessionKeys,
    pub profile: ProtectionProfile,
    pub remote_rtp_options: Option<ReplayOption>,
    pub remote_rtcp_options: Option<ReplayOption>,
}

/// [`SrtpConfig`] with its keys as a model.
#[verifier::ext_equal]
pub struct SrtpConfigModel {
    pub keys: SessionKeysModel,
    pub profile: ProtectionProfile,
    pub remote_rtp_options: Option<ReplayOption>,
    pub remote_rtcp_options: Option<ReplayOption>,
}

impl View for SrtpConfig {
    type V = SrtpConfigModel;

    open spec fn view(&self) -> SrtpConfigModel {
        SrtpConfigModel {
            keys: self.keys@,
            profile: self.profile,
            remote_rtp_options: self.remote_rtp_options,
            remote_rtcp_options: self.remote_rtcp_options,
        }
    }
}

impl SrtpConfigModel {
    /// The SRTP session of a plan, with the keys that the DTLS connection gave.
    pub open spec fn srtp(plan: SrtpPlan, keys: SessionKeysModel) -> SrtpConfigModel {
        SrtpConfigModel {
            keys,
            profile: plan.profile,
            remote_rtp_options: plan.rtp,
            remote_rtcp_options: None,
        }
    }

    /// The SRTCP session of a plan. Its keys are not filled in.
    pub open spec fn srtcp(plan: SrtpPlan) -> SrtpConfigModel {
        SrtpConfigModel {
            keys: SessionKeysModel::unset(),
            profile: plan.profile,
            remote_rtp_options: None,
            remote_rtcp_options: plan.rtcp,
        }
    }
}

} // verus!
