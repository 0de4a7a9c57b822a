//! Which side of the handshake a transport takes.
use crate::dtls_role::DTLSRole;
use crate::ice::ICERole;
use crate::model::{resolved_role, TransportModel};
use crate::resources::Resources;
use vstd::prelude::*;

verus! {

/// A transport always knows which side of the handshake to take.
pub proof fn law_role_is_explicit(remote: DTLSRole, answering: DTLSRole, ice: ICERole)
    ensures
        resolved_role(remote, answering, ice).is_explicit(),
{
}

/// Where the remote peer has an explicit role, the transport takes the other one, whatever the
/// settings and the ICE transport say.
pub proof fn law_explicit_remote_role_is_inverted(
    remote: DTLSRole,
    answering: DTLSRole,
    ice: ICERole,
)
    requires
        remote.is_explicit(),
    ensures
        resolved_role(remote, answering, ice) == remote.inverse(),
        resolved_role(remote, answering, ice) != remote,
{
}

/// A peer that is told the role that the other one resolved takes the other side of the handshake.
pub proof fn law_told_role_is_complemented(
    remote: DTLSRole,
    answering: DTLSRole,
    ice: ICERole,
    other_answering: DTLSRole,
    other_ice: ICERole,
)
    ensures
        ({
            let role = resolved_role(remote, answering, ice);
            resolved_role(role, other_answering, other_ice) == role.inverse()
        }),
{
}

/// Where neither the remote peer nor the settings say otherwise, the ICE controlling peer is the
/// DTLS server and the ICE controlled peer is the DTLS client.
pub proof fn law_ice_roles_settle_dtls_roles(remote: DTLSRole, answering: DTLSRole)
    requires
        !remote.is_explicit(),
        !answering.is_explicit(),
    ensures
        resolved_role(remote, answering, ICERole::Controlling) == DTLSRole::Server,
        resolved_role(remote, answering, ICERole::Controlled) == DTLSRole::Client,
{
}

/// A transport is a client or a server. It is what the remote peer is not, where that peer is one of
/// them; else what the settings say, where they say one of them; else the server exactly if it
/// controls ICE.
pub proof fn law_role_of_a_transport<R: Resources>(m: TransportModel<R>, ice_role: ICERole)
    ensures
        m.role(ice_role) == DTLSRole::Client || m.role(ice_role) == DTLSRole::Server,
        m.remote_parameters.role == DTLSRole::Client ==> m.role(ice_role) == DTLSRole::Server,
        m.remote_parameters.role == DTLSRole::Server ==> m.role(ice_role) == DTLSRole::Client,
        m.remote_parameters.role != DTLSRole::Client && m.remote_parameters.role
            != DTLSRole::Server ==> {
            let answering = m.setting_engine.answering_dtls_role;
            &&& answering == DTLSRole::Client ==> m.role(ice_role) == DTLSRole::Client
            &&& answering == DTLSRole::Server ==> m.role(ice_role) == DTLSRole::Server
            &&& answering != DTLSRole::Client && answering != DTLSRole::Server ==> (m.role(ice_role)
                == DTLSRole::Server <==> ice_role == ICERole::Controlling)
        },
{
}

} // verus!
