//! That the models of values say what these hold.
use crate::action::{Action, ActionModel};
use crate::config::SessionKeys;
use crate::dtls_parameters::DTLSParameters;
use crate::error::{texts, Error, ErrorModel};
use crate::resources::Resources;
use vstd::prelude::*;

verus! {

/// The model of an error is of the same kind, with the same text or failure.
pub proof fn law_error_is_what_its_model_says<F>(error: Error<F>)
    ensures
        error is ErrICEConnectionNotStarted <==> error@ is ErrICEConnectionNotStarted,
        error is ErrInvalidDTLSStart <==> error@ is ErrInvalidDTLSStart,
        error is ErrNoSRTPProtectionProfile <==> error@ is ErrNoSRTPProtectionProfile,
        error is ErrNoRemoteCertificate <==> error@ is ErrNoRemoteCertificate,
        error is ErrDtlsTransportNotStarted <==> error@ is ErrDtlsTransportNotStarted,
        error is Message <==> error@ is Message,
        error is Outside <==> error@ is Outside,
        error matches Error::Message(text) ==> error@ == ErrorModel::<F>::Message(text@),
        error matches Error::Outside(failure) ==> error@ == ErrorModel::Outside(failure),
{
}

/// The model of parameters has their role and their fingerprints.
pub proof fn law_parameters_are_what_their_model_says(parameters: DTLSParameters)
    ensures
        parameters@.role == parameters.role,
        parameters@.fingerprints == parameters.fingerprints@,
{
}

/// The model of keys has each key and each salt in its place.
pub proof fn law_keys_are_what_their_model_says(keys: SessionKeys)
    ensures
        keys@.local_master_key == keys.local_master_key@,
        keys@.local_master_salt == keys.local_master_salt@,
        keys@.remote_master_key == keys.remote_master_key@,
        keys@.remote_master_salt == keys.remote_master_salt@,
{
}

/// The texts of strings are as many, in the same order, and each is that of its string.
pub proof fn law_texts_are_those_of_the_strings(strings: Seq<String>)
    ensures
        texts(strings).len() == strings.len(),
        forall|i: int| 0 <= i < strings.len() ==> (#[trigger] texts(strings)[i]) == strings[i]@,
{
}

/// The model of an action asks for the same thing, of and with the same things.
pub proof fn law_action_is_what_its_model_says<R: Resources>(action: Action<R>)
    ensures
        match action@ {
            ActionModel::NewEndpoint { matcher, then } => action == (Action::NewEndpoint {
                matcher,
                then,
            }),
            ActionModel::ReadIceState { then } => action == (Action::ReadIceState { then }),
            ActionModel::ReadIceRole { then } => action == (Action::ReadIceRole { then }),
            ActionModel::Notify { handler, state, then } => {
                &&& action is Notify
                &&& action->Notify_handler == handler
                &&& action->Notify_state == state
                &&& action->Notify_then@ == then
            },
            ActionModel::Handshake { endpoint, config, is_client } => {
                &&& action is Handshake
                &&& action->Handshake_endpoint == endpoint
                &&& action->Handshake_is_client == is_client
                &&& action->Handshake_config.certificates@ == config.certificates
                &&& action->Handshake_config.srtp_protection_profiles@
                    == config.srtp_protection_profiles
                &&& action->Handshake_config.client_auth == config.client_auth
                &&& action->Handshake_config.insecure_skip_verify == config.insecure_skip_verify
                &&& action->Handshake_config.replay_protection_window
                    == config.replay_protection_window
            },
            ActionModel::ExtractKeys { conn, profile, is_client, then } => {
                &&& action is ExtractKeys
                &&& action->ExtractKeys_conn == conn
                &&& action->ExtractKeys_profile == profile
                &&& action->ExtractKeys_is_client == is_client
                &&& action->ExtractKeys_then == then
            },
            ActionModel::NewSession { endpoint, config, is_rtp, then } => {
                &&& action is NewSession
                &&& action->NewSession_endpoint == endpoint
                &&& action->NewSession_is_rtp == is_rtp
                &&& action->NewSession_then == then
                &&& action->NewSession_config.profile == config.profile
                &&& action->NewSession_config.remote_rtp_options == config.remote_rtp_options
                &&& action->NewSession_config.remote_rtcp_options == config.remote_rtcp_options
                &&& action->NewSession_config.keys.local_master_key@
                    == config.keys.local_master_key
                &&& action->NewSession_config.keys.local_master_salt@
                    == config.keys.local_master_salt
                &&& action->NewSession_config.keys.remote_master_key@
                    == config.keys.remote_master_key
                &&& action->NewSession_config.keys.remote_master_salt@
                    == config.keys.remote_master_salt
            },
            ActionModel::Close { target, then } => {
                &&& action is Close
                &&& action->Close_target == target
                &&& action->Close_then@ == then
            },
            ActionModel::Done { result } => {
                &&& action is Done
                &&& action->Done_result is Ok <==> result is Ok
                &&& result matches Err(error) ==> action->Done_result->Err_0@ == error
            },
        },
{
}

} // verus!
