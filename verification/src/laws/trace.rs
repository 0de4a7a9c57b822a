//! What a whole negotiation asks for on its way, given everything that it meets.
use crate::action::{ActionModel, EndpointThen, IceRoleThen, NotifyThenModel, SessionThen};
use crate::config::{ClientAuthType, ReplayOption, SrtpPlan};
use crate::dtls_parameters::{DTLSParameters, DTLSParametersModel};
use crate::dtls_role::DTLSRole;
use crate::ice::{ICERole, Matcher};
use crate::laws::negotiation::{rank, Replies};
use crate::model::TransportModel;
use crate::protection_profile::{ProtectionProfile, SrtpProtectionProfile};
use crate::resources::Resources;
use crate::setting_engine::SettingEngine;
use std::sync::Arc;
use vstd::prelude::*;

verus! {

/// The transport and the action that follow an action of a negotiation when it gets its reply. The
/// end of an operation, and an action of a shutdown, are followed by themselves.
pub open spec fn follow<R: Resources>(
    m: TransportModel<R>,
    action: ActionModel<R>,
    replies: Replies<R>,
) -> (TransportModel<R>, ActionModel<R>) {
    match action {
        ActionModel::NewEndpoint { matcher, then } => m.after_endpoint(
            then,
            match matcher {
                Matcher::Dtls => replies.dtls_endpoint,
                Matcher::Srtp => replies.srtp_endpoint,
                Matcher::Srtcp => replies.srtcp_endpoint,
            },
        ),
        ActionModel::ReadIceState { then } => (m, m.after_ice_state(then, replies.ice_state)),
        ActionModel::Notify { then, .. } => m.after_notified(then),
        ActionModel::ReadIceRole { then } => (
            m,
            m.after_ice_role(
                then,
                match then {
                    IceRoleThen::Handshake { .. } => replies.handshake_ice_role,
                    IceRoleThen::Srtp { .. } => replies.srtp_ice_role,
                },
                replies.certificate,
            ),
        ),
        ActionModel::Handshake { .. } => m.after_handshake(replies.handshake),
        ActionModel::ExtractKeys { then, .. } => m.after_keys(then, replies.keys),
        ActionModel::NewSession { is_rtp, then, .. } => m.after_session(
            then,
            if is_rtp {
                replies.srtp_session
            } else {
                replies.srtcp_session
            },
        ),
        _ => (m, action),
    }
}

/// All actions of a negotiation that has come to `action`, in order, up to its end.
pub open spec fn trace<R: Resources>(
    m: TransportModel<R>,
    action: ActionModel<R>,
    replies: Replies<R>,
) -> Seq<ActionModel<R>>
    decreases rank(action),
{
    if action is Done || action is Close {
        seq![action]
    } else {
        let (next, follows) = follow(m, action, replies);
        if rank(follows) < rank(action) {
            seq![action] + trace(next, follows, replies)
        } else {
            seq![action]
        }
    }
}

/// What an action has to agree with.
struct Facts<R: Resources> {
    settings: SettingEngine,
    remote_parameters: DTLSParametersModel,
    srtp_endpoint: Option<Arc<R::Endpoint>>,
    srtcp_endpoint: Option<Arc<R::Endpoint>>,
    conn: Option<Arc<R::Conn>>,
    profile: ProtectionProfile,
}

spec fn is_client_side(remote: DTLSRole, answering: DTLSRole, ice: ICERole) -> bool {
    ||| remote == DTLSRole::Server
    ||| remote != DTLSRole::Client && (answering == DTLSRole::Client || (answering
        != DTLSRole::Server && ice != ICERole::Controlling))
}

spec fn replay_agrees(window: usize, disabled: bool, option: Option<ReplayOption>) -> bool {
    &&& window != 0 ==> option == Some(ReplayOption::Window(window))
    &&& window == 0 && disabled ==> option == Some(ReplayOption::Disabled)
    &&& window == 0 && !disabled ==> option is None
}

impl<R: Resources> Facts<R> {
    spec fn plan_agrees(self, plan: SrtpPlan) -> bool {
        &&& plan.profile == self.profile
        &&& replay_agrees(
            self.settings.replay_protection.srtp,
            self.settings.disable_srtp_replay_protection,
            plan.rtp,
        )
        &&& replay_agrees(
            self.settings.replay_protection.srtcp,
            self.settings.disable_srtcp_replay_protection,
            plan.rtcp,
        )
    }

    /// Whether the transport has taken in what the negotiation met before its handshake.
    spec fn begun(self, m: TransportModel<R>) -> bool {
        &&& m.setting_engine == self.settings
        &&& m.remote_parameters.role == self.remote_parameters.role
        &&& m.srtp_endpoint == self.srtp_endpoint
        &&& m.srtcp_endpoint == self.srtcp_endpoint
    }

    /// Whether a transport that has come to an action, and the action, agree with the facts.
    spec fn agrees(
        self,
        m: TransportModel<R>,
        action: ActionModel<R>,
        replies: Replies<R>,
    ) -> bool {
        &&& m.setting_engine == self.settings
        &&& match action {
            ActionModel::NewEndpoint { matcher, then } => match then {
                EndpointThen::Dtls { remote_parameters } => {
                    &&& matcher == Matcher::Dtls
                    &&& remote_parameters@ == self.remote_parameters
                    &&& self.srtp_endpoint == replies.srtp_endpoint
                    &&& self.srtcp_endpoint == replies.srtcp_endpoint
                },
                EndpointThen::Srtp { endpoint, remote_parameters } => {
                    &&& matcher == Matcher::Srtp
                    &&& replies.dtls_endpoint == Some(endpoint)
                    &&& remote_parameters@ == self.remote_parameters
                    &&& self.srtp_endpoint == replies.srtp_endpoint
                    &&& self.srtcp_endpoint == replies.srtcp_endpoint
                },
                EndpointThen::Srtcp { endpoint, remote_parameters } => {
                    &&& matcher == Matcher::Srtcp
                    &&& replies.dtls_endpoint == Some(endpoint)
                    &&& remote_parameters@ == self.remote_parameters
                    &&& m.srtp_endpoint == self.srtp_endpoint
                    &&& self.srtcp_endpoint == replies.srtcp_endpoint
                },
            },
            ActionModel::ReadIceState { then } => {
                &&& replies.dtls_endpoint == Some(then.endpoint)
                &&& then.remote_parameters@ == self.remote_parameters
                &&& self.srtp_endpoint == replies.srtp_endpoint
                &&& self.srtcp_endpoint == replies.srtcp_endpoint
            },
            ActionModel::Notify { then, .. } => match then {
                NotifyThenModel::Handshake { endpoint } => {
                    &&& self.begun(m)
                    &&& replies.dtls_endpoint == Some(endpoint)
                },
                NotifyThenModel::StartSrtp => {
                    &&& self.begun(m)
                    &&& m.conn == self.conn
                    &&& m.srtp_protection_profile == self.profile
                },
                NotifyThenModel::Finish { .. } => true,
            },
            ActionModel::ReadIceRole { then } => match then {
                IceRoleThen::Handshake { endpoint } => {
                    &&& self.begun(m)
                    &&& replies.dtls_endpoint == Some(endpoint)
                },
                IceRoleThen::Srtp { conn, plan } => {
                    &&& self.begun(m)
                    &&& self.conn == Some(conn)
                    &&& self.plan_agrees(plan)
                },
            },
            ActionModel::Handshake { endpoint, config, is_client } => {
                &&& self.begun(m)
                &&& replies.dtls_endpoint == Some(endpoint)
                &&& is_client == is_client_side(
                    self.remote_parameters.role,
                    self.settings.answering_dtls_role,
                    replies.handshake_ice_role,
                )
                &&& config.certificates == seq![replies.certificate]
                &&& config.srtp_protection_profiles
                    == if self.settings.srtp_protection_profiles@.len() != 0 {
                    self.settings.srtp_protection_profiles@
                } else {
                    seq![
                        SrtpProtectionProfile::Srtp_Aead_Aes_128_Gcm,
                        SrtpProtectionProfile::Srtp_Aes128_Cm_Hmac_Sha1_80,
                    ]
                }
                &&& config.client_auth == ClientAuthType::RequireAnyClientCert
                &&& config.insecure_skip_verify
                &&& config.replay_protection_window == self.settings.replay_protection.dtls
            },
            ActionModel::ExtractKeys { conn, profile, is_client, then } => {
                &&& self.begun(m)
                &&& self.conn == Some(conn)
                &&& profile == self.profile
                &&& is_client == is_client_side(
                    self.remote_parameters.role,
                    self.settings.answering_dtls_role,
                    replies.srtp_ice_role,
                )
                &&& self.plan_agrees(then.plan)
            },
            ActionModel::NewSession { endpoint, config, is_rtp, then } => {
                &&& self.begun(m)
                &&& is_rtp == (then is Srtp)
                &&& then matches SessionThen::Srtp { plan } ==> self.plan_agrees(plan)
                &&& config.profile == self.profile
                &&& if is_rtp {
                    &&& self.srtp_endpoint == Some(endpoint)
                    &&& replies.keys is Ok
                    &&& config.keys.local_master_key == replies.keys->Ok_0.local_master_key
                    &&& config.keys.local_master_salt == replies.keys->Ok_0.local_master_salt
                    &&& config.keys.remote_master_key == replies.keys->Ok_0.remote_master_key
                    &&& config.keys.remote_master_salt == replies.keys->Ok_0.remote_master_salt
                    &&& config.remote_rtcp_options is None
                    &&& replay_agrees(
                        self.settings.replay_protection.srtp,
                        self.settings.disable_srtp_replay_protection,
                        config.remote_rtp_options,
                    )
                } else {
                    &&& self.srtcp_endpoint == Some(endpoint)
                    &&& config.keys.local_master_key.len() == 0
                    &&& config.keys.local_master_salt.len() == 0
                    &&& config.keys.remote_master_key.len() == 0
                    &&& config.keys.remote_master_salt.len() == 0
                    &&& config.remote_rtp_options is None
                    &&& replay_agrees(
                        self.settings.replay_protection.srtcp,
                        self.settings.disable_srtcp_replay_protection,
                        config.remote_rtcp_options,
                    )
                }
            },
            ActionModel::Close { .. } => false,
            ActionModel::Done { .. } => true,
        }
    }

    /// Whether some transport that agrees with the facts can have come to an action.
    spec fn can_ask(self, action: ActionModel<R>, replies: Replies<R>) -> bool {
        exists|m: TransportModel<R>| #[trigger] self.agrees(m, action, replies)
    }
}

/// The facts about a connection and its profile follow from the reply to the handshake, where there
/// is one still to come.
spec fn come_true<R: Resources>(facts: Facts<R>, action: ActionModel<R>, replies: Replies<R>) -> bool {
    rank(action) >= 6 && replies.handshake is Ok ==> {
        let handshake = replies.handshake->Ok_0;
        &&& facts.conn == Some(Arc::new(handshake.conn))
        &&& handshake.srtp_protection_profile == SrtpProtectionProfile::Srtp_Aead_Aes_128_Gcm
            ==> facts.profile == ProtectionProfile::AeadAes128Gcm
        &&& handshake.srtp_protection_profile == SrtpProtectionProfile::Srtp_Aes128_Cm_Hmac_Sha1_80
            ==> facts.profile == ProtectionProfile::Aes128CmHmacSha1_80
    }
}

proof fn lemma_follow_agrees<R: Resources>(
    facts: Facts<R>,
    m: TransportModel<R>,
    action: ActionModel<R>,
    replies: Replies<R>,
)
    requires
        facts.agrees(m, action, replies),
        come_true(facts, action, replies),
        !(action is Done),
    ensures
        ({
            let (next, follows) = follow(m, action, replies);
            &&& rank(follows) < rank(action)
            &&& facts.agrees(next, follows, replies)
            &&& come_true(facts, follows, replies)
        }),
{
}

/// Every action of a trace that begins in agreement with the facts agrees with them; the last one, and
/// no other, is the end.
proof fn lemma_trace_agrees<R: Resources>(
    facts: Facts<R>,
    m: TransportModel<R>,
    action: ActionModel<R>,
    replies: Replies<R>,
)
    requires
        facts.agrees(m, action, replies),
        come_true(facts, action, replies),
    ensures
        ({
            let all = trace(m, action, replies);
            &&& all.len() > 0
            &&& all[0] == action
            &&& all.last() is Done
            &&& forall|i: int|
                0 <= i < all.len() ==> facts.can_ask(#[trigger] all[i], replies)
            &&& forall|i: int, j: int|
                0 <= i < j < all.len() ==> rank(#[trigger] all[i]) > rank(#[trigger] all[j])
        }),
    decreases rank(action),
{
    let all = trace(m, action, replies);
    if !(action is Done) {
        lemma_follow_agrees(facts, m, action, replies);
        let (next, follows) = follow(m, action, replies);
        lemma_trace_agrees(facts, next, follows, replies);
        let rest = trace(next, follows, replies);
        assert(all =~= seq![action] + rest);
        assert forall|i: int| 0 <= i < all.len() implies facts.can_ask(
            #[trigger] all[i],
            replies,
        ) by {
            if i > 0 {
                assert(all[i] == rest[i - 1]);
            } else {
                assert(facts.agrees(m, all[0], replies));
            }
        }
        assert forall|i: int, j: int| 0 <= i < j < all.len() implies rank(#[trigger] all[i]) > rank(
            #[trigger] all[j],
        ) by {
            assert(all[j] == rest[j - 1]);
            if i > 0 {
                assert(all[i] == rest[i - 1]);
            } else if j > 1 {
                assert(rest[0] == follows);
                assert(rank(rest[0]) > rank(rest[j - 1]));
            }
        }
        assert(all.last() == rest.last());
    } else {
        assert(facts.agrees(m, all[0], replies));
    }
}

/// Every handshake and every export of keys in a negotiation is asked for from the side that the
/// roles settle: the client's exactly if the remote peer is the server, or is not the client and
/// leaves it to the settings, which say client, or leave it to ICE, where this peer is not the
/// controlling one. The handshake goes over the endpoint for DTLS and offers what the settings say;
/// the keys come from the connection of that handshake. And where the ICE role stays the same, both
/// are asked for from the same side.
pub proof fn law_negotiation_keeps_its_side<R: Resources>(
    m: TransportModel<R>,
    remote_parameters: DTLSParameters,
    replies: Replies<R>,
)
    ensures
        ({
            let all = trace(m, m.start(remote_parameters), replies);
            let settings = m.setting_engine;
            &&& forall|i: int|
                0 <= i < all.len() ==> ((#[trigger] all[i]) matches ActionModel::Handshake {
                    endpoint,
                    config,
                    is_client,
                } ==> {
                    &&& replies.dtls_endpoint == Some(endpoint)
                    &&& is_client <==> {
                        ||| remote_parameters.role == DTLSRole::Server
                        ||| remote_parameters.role != DTLSRole::Client && (
                        settings.answering_dtls_role == DTLSRole::Client || (
                        settings.answering_dtls_role != DTLSRole::Server
                            && replies.handshake_ice_role != ICERole::Controlling))
                    }
                    &&& config.certificates == seq![replies.certificate]
                    &&& settings.srtp_protection_profiles@.len() != 0
                        ==> config.srtp_protection_profiles == settings.srtp_protection_profiles@
                    &&& settings.srtp_protection_profiles@.len() == 0
                        ==> config.srtp_protection_profiles == seq![
                        SrtpProtectionProfile::Srtp_Aead_Aes_128_Gcm,
                        SrtpProtectionProfile::Srtp_Aes128_Cm_Hmac_Sha1_80,
                    ]
                    &&& config.client_auth == ClientAuthType::RequireAnyClientCert
                    &&& config.insecure_skip_verify
                    &&& config.replay_protection_window == settings.replay_protection.dtls
                })
            &&& forall|i: int|
                0 <= i < all.len() ==> ((#[trigger] all[i]) matches ActionModel::ExtractKeys {
                    conn,
                    profile,
                    is_client,
                    then,
                } ==> {
                    &&& replies.handshake matches Ok(handshake)
                    &&& conn == Arc::new(handshake.conn)
                    &&& profile == ProtectionProfile::AeadAes128Gcm <==>
                        handshake.srtp_protection_profile
                        == SrtpProtectionProfile::Srtp_Aead_Aes_128_Gcm
                    &&& is_client <==> {
                        ||| remote_parameters.role == DTLSRole::Server
                        ||| remote_parameters.role != DTLSRole::Client && (
                        settings.answering_dtls_role == DTLSRole::Client || (
                        settings.answering_dtls_role != DTLSRole::Server && replies.srtp_ice_role
                            != ICERole::Controlling))
                    }
                })
            &&& forall|i: int, j: int|
                0 <= i < all.len() && 0 <= j < all.len() && (#[trigger] all[i]) is Handshake && (
                #[trigger] all[j]) is ExtractKeys ==> {
                    &&& i < j
                    &&& replies.handshake_ice_role == replies.srtp_ice_role
                        ==> all[i]->Handshake_is_client == all[j]->ExtractKeys_is_client
                }
        }),
{
    let all = trace(m, m.start(remote_parameters), replies);
    let facts = lemma_start_agrees(m, remote_parameters, replies);
    assert forall|i: int| 0 <= i < all.len() && (#[trigger] all[i]) is ExtractKeys implies {
        &&& replies.handshake matches Ok(handshake)
        &&& {
            ||| handshake.srtp_protection_profile == SrtpProtectionProfile::Srtp_Aead_Aes_128_Gcm
            ||| handshake.srtp_protection_profile
                == SrtpProtectionProfile::Srtp_Aes128_Cm_Hmac_Sha1_80
        }
    } by {
        lemma_keys_need_a_handshake(m, m.start(remote_parameters), replies, i);
    }
    assert forall|i: int, j: int|
        0 <= i < all.len() && 0 <= j < all.len() && (#[trigger] all[i]) is Handshake && (
        #[trigger] all[j]) is ExtractKeys implies i < j by {
        if j < i {
            assert(rank(all[j]) > rank(all[i]));
        }
    }
}

/// Every session that a negotiation opens goes over its own endpoint, with the profile that the
/// handshake selected. The one for RTP has the very keys that were exported, each in its place, and
/// the replay protection that the settings give SRTP; the one for RTCP has no keys, and the replay
/// protection that the settings give SRTCP: a window of the size that is set, else none if it is
/// switched off, else the default.
pub proof fn law_negotiation_opens_sessions_by_the_settings<R: Resources>(
    m: TransportModel<R>,
    remote_parameters: DTLSParameters,
    replies: Replies<R>,
)
    ensures
        ({
            let all = trace(m, m.start(remote_parameters), replies);
            forall|i: int|
                0 <= i < all.len() ==> ((#[trigger] all[i]) matches ActionModel::NewSession {
                    endpoint,
                    config,
                    is_rtp,
                    then,
                } ==> {
                    &&& replies.handshake matches Ok(handshake)
                    &&& config.profile == ProtectionProfile::AeadAes128Gcm <==>
                        handshake.srtp_protection_profile
                        == SrtpProtectionProfile::Srtp_Aead_Aes_128_Gcm
                    &&& is_rtp ==> {
                        let window = m.setting_engine.replay_protection.srtp;
                        let disabled = m.setting_engine.disable_srtp_replay_protection;
                        &&& replies.srtp_endpoint == Some(endpoint)
                        &&& replies.keys matches Ok(keys)
                        &&& config.keys.local_master_key == keys.local_master_key
                        &&& config.keys.local_master_salt == keys.local_master_salt
                        &&& config.keys.remote_master_key == keys.remote_master_key
                        &&& config.keys.remote_master_salt == keys.remote_master_salt
                        &&& config.remote_rtcp_options is None
                        &&& window != 0 ==> config.remote_rtp_options == Some(
                            ReplayOption::Window(window),
                        )
                        &&& window == 0 && disabled ==> config.remote_rtp_options == Some(
                            ReplayOption::Disabled,
                        )
                        &&& window == 0 && !disabled ==> config.remote_rtp_options is None
                    }
                    &&& !is_rtp ==> {
                        let window = m.setting_engine.replay_protection.srtcp;
                        let disabled = m.setting_engine.disable_srtcp_replay_protection;
                        &&& replies.srtcp_endpoint == Some(endpoint)
                        &&& config.keys.local_master_key.len() == 0
                        &&& config.keys.local_master_salt.len() == 0
                        &&& config.keys.remote_master_key.len() == 0
                        &&& config.keys.remote_master_salt.len() == 0
                        &&& config.remote_rtp_options is None
                        &&& window != 0 ==> config.remote_rtcp_options == Some(
                            ReplayOption::Window(window),
                        )
                        &&& window == 0 && disabled ==> config.remote_rtcp_options == Some(
                            ReplayOption::Disabled,
                        )
                        &&& window == 0 && !disabled ==> config.remote_rtcp_options is None
                    }
                })
        }),
{
    let all = trace(m, m.start(remote_parameters), replies);
    let facts = lemma_start_agrees(m, remote_parameters, replies);
    assert forall|i: int| 0 <= i < all.len() && (#[trigger] all[i]) is NewSession implies {
        &&& replies.handshake matches Ok(handshake)
        &&& {
            ||| handshake.srtp_protection_profile == SrtpProtectionProfile::Srtp_Aead_Aes_128_Gcm
            ||| handshake.srtp_protection_profile
                == SrtpProtectionProfile::Srtp_Aes128_Cm_Hmac_Sha1_80
        }
    } by {
        lemma_keys_need_a_handshake(m, m.start(remote_parameters), replies, i);
    }
}

/// The same of the start of the sessions alone, with the endpoints and the profile of the transport;
/// and the keys are exported out of its connection, from the side that the roles settle.
pub proof fn law_start_srtp_opens_sessions_by_the_settings<R: Resources>(
    m: TransportModel<R>,
    replies: Replies<R>,
)
    ensures
        ({
            let all = trace(m, m.start_srtp(), replies);
            forall|i: int|
                0 <= i < all.len() ==> ((#[trigger] all[i]) matches ActionModel::NewSession {
                    endpoint,
                    config,
                    is_rtp,
                    then,
                } ==> {
                    &&& config.profile == m.srtp_protection_profile
                    &&& is_rtp ==> {
                        let window = m.setting_engine.replay_protection.srtp;
                        let disabled = m.setting_engine.disable_srtp_replay_protection;
                        &&& m.srtp_endpoint == Some(endpoint)
                        &&& replies.keys matches Ok(keys)
                        &&& config.keys.local_master_key == keys.local_master_key
                        &&& config.keys.local_master_salt == keys.local_master_salt
                        &&& config.keys.remote_master_key == keys.remote_master_key
                        &&& config.keys.remote_master_salt == keys.remote_master_salt
                        &&& config.remote_rtcp_options is None
                        &&& window != 0 ==> config.remote_rtp_options == Some(
                            ReplayOption::Window(window),
                        )
                        &&& window == 0 && disabled ==> config.remote_rtp_options == Some(
                            ReplayOption::Disabled,
                        )
                        &&& window == 0 && !disabled ==> config.remote_rtp_options is None
                    }
                    &&& !is_rtp ==> {
                        let window = m.setting_engine.replay_protection.srtcp;
                        let disabled = m.setting_engine.disable_srtcp_replay_protection;
                        &&& m.srtcp_endpoint == Some(endpoint)
                        &&& config.keys.local_master_key.len() == 0
                        &&& config.keys.local_master_salt.len() == 0
                        &&& config.keys.remote_master_key.len() == 0
                        &&& config.keys.remote_master_salt.len() == 0
                        &&& config.remote_rtp_options is None
                        &&& window != 0 ==> config.remote_rtcp_options == Some(
                            ReplayOption::Window(window),
                        )
                        &&& window == 0 && disabled ==> config.remote_rtcp_options == Some(
                            ReplayOption::Disabled,
                        )
                        &&& window == 0 && !disabled ==> config.remote_rtcp_options is None
                    }
                })
        }),
        ({
            let all = trace(m, m.start_srtp(), replies);
            forall|i: int|
                0 <= i < all.len() ==> ((#[trigger] all[i]) matches ActionModel::ExtractKeys {
                    conn,
                    profile,
                    is_client,
                    then,
                } ==> {
                    &&& m.conn == Some(conn)
                    &&& profile == m.srtp_protection_profile
                    &&& is_client <==> {
                        ||| m.remote_parameters.role == DTLSRole::Server
                        ||| m.remote_parameters.role != DTLSRole::Client && (
                        m.setting_engine.answering_dtls_role == DTLSRole::Client || (
                        m.setting_engine.answering_dtls_role != DTLSRole::Server
                            && replies.srtp_ice_role != ICERole::Controlling))
                    }
                })
        }),
{
    let facts = Facts::<R> {
        settings: m.setting_engine,
        remote_parameters: m.remote_parameters,
        srtp_endpoint: m.srtp_endpoint,
        srtcp_endpoint: m.srtcp_endpoint,
        conn: m.conn,
        profile: m.srtp_protection_profile,
    };
    lemma_trace_agrees(facts, m, m.start_srtp(), replies);
}

/// A negotiation asks first for the endpoint of the handshake. It asks for no endpoint twice, for that
/// of SRTP before that of SRTCP, and for each before the handshake; and it comes to an end.
pub proof fn law_negotiation_asks_for_its_endpoints<R: Resources>(
    m: TransportModel<R>,
    remote_parameters: DTLSParameters,
    replies: Replies<R>,
)
    ensures
        ({
            let all = trace(m, m.start(remote_parameters), replies);
            &&& all[0] is NewEndpoint
            &&& all[0]->NewEndpoint_matcher == Matcher::Dtls
            &&& all.last() is Done
            &&& forall|i: int|
                0 <= i < all.len() && (#[trigger] all[i]) is NewEndpoint
                    && all[i]->NewEndpoint_matcher == Matcher::Dtls ==> i == 0
            &&& forall|i: int, j: int|
                0 <= i < all.len() && 0 <= j < all.len() && (#[trigger] all[i]) is NewEndpoint && (
                #[trigger] all[j]) is NewEndpoint && i != j ==> all[i]->NewEndpoint_matcher
                    != all[j]->NewEndpoint_matcher
            &&& forall|i: int, j: int|
                0 <= i < all.len() && 0 <= j < all.len() && (#[trigger] all[i]) is NewEndpoint && (
                #[trigger] all[j]) is NewEndpoint && all[i]->NewEndpoint_matcher == Matcher::Srtp
                    && all[j]->NewEndpoint_matcher == Matcher::Srtcp ==> i < j
            &&& forall|i: int, j: int|
                0 <= i < all.len() && 0 <= j < all.len() && (#[trigger] all[i]) is NewEndpoint && (
                #[trigger] all[j]) is Handshake ==> i < j
        }),
{
    let all = trace(m, m.start(remote_parameters), replies);
    let facts = lemma_start_agrees(m, remote_parameters, replies);
    assert forall|i: int, j: int|
        0 <= i < all.len() && 0 <= j < all.len() && rank(#[trigger] all[i]) > rank(
            #[trigger] all[j],
        ) implies i < j by {
        if j < i {
            assert(rank(all[j]) > rank(all[i]));
        }
    }
    assert forall|i: int|
        0 <= i < all.len() && (#[trigger] all[i]) is NewEndpoint && all[i]->NewEndpoint_matcher
            == Matcher::Dtls implies i == 0 by {
        assert(facts.can_ask(all[i], replies));
        if i > 0 {
            assert(rank(all[0]) > rank(all[i]));
        }
    }
    assert forall|i: int, j: int|
        0 <= i < all.len() && 0 <= j < all.len() && (#[trigger] all[i]) is NewEndpoint && (
        #[trigger] all[j]) is NewEndpoint && i != j implies all[i]->NewEndpoint_matcher
        != all[j]->NewEndpoint_matcher by {
        assert(facts.can_ask(all[i], replies));
        assert(facts.can_ask(all[j], replies));
        if i < j {
            assert(rank(all[i]) > rank(all[j]));
        } else {
            assert(rank(all[j]) > rank(all[i]));
        }
    }
    assert forall|i: int, j: int|
        0 <= i < all.len() && 0 <= j < all.len() && (#[trigger] all[i]) is NewEndpoint && (
        #[trigger] all[j]) is NewEndpoint && all[i]->NewEndpoint_matcher == Matcher::Srtp
            && all[j]->NewEndpoint_matcher == Matcher::Srtcp implies i < j by {
        assert(facts.can_ask(all[i], replies));
        assert(facts.can_ask(all[j], replies));
    }
}

/// A negotiation that asks for keys or a session after its handshake had one that selected a profile
/// for sessions.
proof fn lemma_keys_need_a_handshake<R: Resources>(
    m: TransportModel<R>,
    action: ActionModel<R>,
    replies: Replies<R>,
    i: int,
)
    requires
        rank(action) >= 6,
        0 <= i < trace(m, action, replies).len(),
        trace(m, action, replies)[i] is ExtractKeys || trace(m, action, replies)[i] is NewSession,
    ensures
        replies.handshake is Ok,
        ({
            let selected = replies.handshake->Ok_0.srtp_protection_profile;
            ||| selected == SrtpProtectionProfile::Srtp_Aead_Aes_128_Gcm
            ||| selected == SrtpProtectionProfile::Srtp_Aes128_Cm_Hmac_Sha1_80
        }),
    decreases rank(action),
{
    let (next, follows) = follow(m, action, replies);
    assert(i > 0);
    assert(trace(m, action, replies)[i] == trace(next, follows, replies)[i - 1]);
    if rank(follows) >= 6 {
        lemma_keys_need_a_handshake(next, follows, replies, i - 1);
    } else if ends_next(follows) {
        lemma_short_trace(next, follows, replies, i - 1);
    }
}

/// Whether an action is the end, or tells the handler before it.
spec fn ends_next<R: Resources>(action: ActionModel<R>) -> bool {
    ||| action is Done
    ||| action matches ActionModel::Notify { then: NotifyThenModel::Finish { .. }, .. }
}

/// Once the end is next, neither keys nor a session are asked for.
proof fn lemma_short_trace<R: Resources>(
    m: TransportModel<R>,
    action: ActionModel<R>,
    replies: Replies<R>,
    i: int,
)
    requires
        ends_next(action),
        0 <= i < trace(m, action, replies).len(),
    ensures
        !(trace(m, action, replies)[i] is ExtractKeys),
        !(trace(m, action, replies)[i] is NewSession),
{
    if !(action is Done) {
        let (next, follows) = follow(m, action, replies);
        if i > 0 {
            assert(trace(m, action, replies)[i] == trace(next, follows, replies)[i - 1]);
        }
    }
}

proof fn lemma_start_agrees<R: Resources>(
    m: TransportModel<R>,
    remote_parameters: DTLSParameters,
    replies: Replies<R>,
) -> (facts: Facts<R>)
    ensures
        facts.settings == m.setting_engine,
        facts.remote_parameters == remote_parameters@,
        facts.srtp_endpoint == replies.srtp_endpoint,
        facts.srtcp_endpoint == replies.srtcp_endpoint,
        come_true(facts, m.start(remote_parameters), replies),
        rank(m.start(remote_parameters)) == 12,
        ({
            let all = trace(m, m.start(remote_parameters), replies);
            &&& all[0] == m.start(remote_parameters)
            &&& all.last() is Done
            &&& forall|i: int|
                0 <= i < all.len() ==> facts.can_ask(#[trigger] all[i], replies)
            &&& forall|i: int, j: int|
                0 <= i < j < all.len() ==> rank(#[trigger] all[i]) > rank(#[trigger] all[j])
        }),
{
    let facts = Facts::<R> {
        settings: m.setting_engine,
        remote_parameters: remote_parameters@,
        srtp_endpoint: replies.srtp_endpoint,
        srtcp_endpoint: replies.srtcp_endpoint,
        conn: match replies.handshake {
            Ok(handshake) => Some(Arc::new(handshake.conn)),
            Err(_) => None,
        },
        profile: match replies.handshake {
            Ok(handshake) => if handshake.srtp_protection_profile
                == SrtpProtectionProfile::Srtp_Aead_Aes_128_Gcm {
                ProtectionProfile::AeadAes128Gcm
            } else {
                ProtectionProfile::Aes128CmHmacSha1_80
            },
            Err(_) => m.srtp_protection_profile,
        },
    };
    lemma_trace_agrees(facts, m, m.start(remote_parameters), replies);
    facts
}

} // verus!
