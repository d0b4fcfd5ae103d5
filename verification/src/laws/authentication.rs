//! What the operations on identities and handshakes do, call by call.

use vstd::prelude::*;

use crate::access_control::AccessControl;
use crate::authentication::{Authentication, ValidationOutcome};
use crate::cryptographic::Cryptographic;
use crate::error::{SecurityError, SecurityResult};
use crate::guid::{GuidPrefix, GUID};
use crate::history::{lemma_one_more, Event};
use crate::qos::QosPolicies;
use crate::security_plugins::SecurityPlugins;
use crate::state::SecurityState;
use crate::types::{
    AuthRequestMessageToken, AuthenticatedPeerCredentialToken, HandshakeHandle,
    HandshakeMessageToken, IdentityHandle, IdentityStatusToken, IdentityToken,
    PermissionsCredentialToken, PermissionsToken, SharedSecretHandle,
};

verus! {

/// The local participant is validated by the authentication plugin, for the
/// domain, the policies and the candidate GUID given. If the plugin finds it
/// valid, the GUID that the plugin settled is returned and the handle is stored
/// under its prefix. Any other outcome is an error and stores nothing, and a
/// failure is passed on.
pub proof fn law_validate_local_identity<
    A: Authentication + ?Sized,
    P: AccessControl<A> + ?Sized,
    C: Cryptographic + ?Sized,
>(
    plugins: &mut SecurityPlugins<A, P, C>,
    domain_id: u16,
    participant_qos: &QosPolicies,
    candidate_participant_guid: GUID,
    result: SecurityResult<GUID>,
)
    requires
        call_ensures(
            SecurityPlugins::<A, P, C>::validate_local_identity,
            (plugins, domain_id, participant_qos, candidate_participant_guid),
            result,
        ),
    ensures
        exists|
            reply: SecurityResult<(ValidationOutcome, IdentityHandle, GUID)>,
            plugin: &mut A,
        |
            {
                &&& #[trigger] call_ensures(
                    A::validate_local_identity,
                    (plugin, domain_id, participant_qos, candidate_participant_guid),
                    reply,
                )
                &&& &*plugin == old(plugins).auth()
                &&& &*final(plugin) == final(plugins).auth()
                &&& match reply {
                    Ok((ValidationOutcome::Valid, handle, guid)) => {
                        &&& result == Ok::<GUID, SecurityError>(guid)
                        &&& final(plugins)@ == (SecurityState {
                            identities: old(plugins)@.identities.insert(guid.prefix, handle),
                            ..old(plugins)@
                        })
                        &&& final(plugins).history() == old(plugins).history().push(
                            Event::LocalIdentity { guid, handle },
                        )
                    },
                    Ok(_) => {
                        &&& result == Err::<GUID, SecurityError>(
                            SecurityError::UnexpectedLocalIdentityOutcome,
                        )
                        &&& final(plugins)@ == old(plugins)@
                        &&& final(plugins).history() == old(plugins).history()
                    },
                    Err(e) => {
                        &&& result == Err::<GUID, SecurityError>(e)
                        &&& final(plugins)@ == old(plugins)@
                        &&& final(plugins).history() == old(plugins).history()
                    },
                }
            },
        final(plugins).access() == old(plugins).access(),
        final(plugins).crypto() == old(plugins).crypto(),
{
    lemma_one_more(old(plugins).history());
}

/// The identity token of a participant is the one that the authentication plugin
/// gives for the participant's identity handle. Without such a handle the error
/// names the participant.
pub proof fn law_get_identity_token<
    A: Authentication + ?Sized,
    P: AccessControl<A> + ?Sized,
    C: Cryptographic + ?Sized,
>(
    plugins: &SecurityPlugins<A, P, C>,
    guidp: GuidPrefix,
    result: SecurityResult<IdentityToken>,
)
    requires
        call_ensures(
            SecurityPlugins::<A, P, C>::get_identity_token,
            (plugins, guidp),
            result,
        ),
    ensures
        !plugins@.identities.contains_key(guidp) ==> result == Err::<
            IdentityToken,
            SecurityError,
        >(SecurityError::IdentityHandleNotFound(guidp)),
        plugins@.identities.contains_key(guidp) ==> call_ensures(
            A::get_identity_token,
            (plugins.auth(), plugins@.identities[guidp]),
            result,
        ),
{
}

/// The identity status token of a participant is the one that the authentication
/// plugin gives for the participant's identity handle. Without such a handle the
/// error names the participant.
pub proof fn law_get_identity_status_token<
    A: Authentication + ?Sized,
    P: AccessControl<A> + ?Sized,
    C: Cryptographic + ?Sized,
>(
    plugins: &SecurityPlugins<A, P, C>,
    guidp: GuidPrefix,
    result: SecurityResult<IdentityStatusToken>,
)
    requires
        call_ensures(
            SecurityPlugins::<A, P, C>::get_identity_status_token,
            (plugins, guidp),
            result,
        ),
    ensures
        !plugins@.identities.contains_key(guidp) ==> result == Err::<
            IdentityStatusToken,
            SecurityError,
        >(SecurityError::IdentityHandleNotFound(guidp)),
        plugins@.identities.contains_key(guidp) ==> call_ensures(
            A::get_identity_status_token,
            (plugins.auth(), plugins@.identities[guidp]),
            result,
        ),
{
}

/// The tokens given are attached, each in its place, to the identity of the
/// participant given, and nothing is stored. Without an identity handle the error
/// names the participant and nothing changes.
pub proof fn law_set_permissions_credential_and_token<
    A: Authentication + ?Sized,
    P: AccessControl<A> + ?Sized,
    C: Cryptographic + ?Sized,
>(
    plugins: &mut SecurityPlugins<A, P, C>,
    guidp: GuidPrefix,
    credential: PermissionsCredentialToken,
    token: PermissionsToken,
    result: SecurityResult<()>,
)
    requires
        call_ensures(
            SecurityPlugins::<A, P, C>::set_permissions_credential_and_token,
            (plugins, guidp, credential, token),
            result,
        ),
    ensures
        !old(plugins)@.identities.contains_key(guidp) ==> {
            &&& result == Err::<(), SecurityError>(
                SecurityError::IdentityHandleNotFound(guidp),
            )
            &&& *final(plugins) == *old(plugins)
        },
        old(plugins)@.identities.contains_key(guidp) ==> exists|plugin: &mut A|
            {
                &&& #[trigger] call_ensures(
                    A::set_permissions_credential_and_token,
                    (plugin, old(plugins)@.identities[guidp], credential, token),
                    result,
                )
                &&& &*plugin == old(plugins).auth()
                &&& &*final(plugin) == final(plugins).auth()
            },
        final(plugins)@ == old(plugins)@,
        final(plugins).history() == old(plugins).history(),
        final(plugins).access() == old(plugins).access(),
        final(plugins).crypto() == old(plugins).crypto(),
{
}

/// A remote participant is validated by the identity handle of the local one and
/// by the tokens given. What the authentication plugin reports, its outcome and
/// its token, is returned unchanged, and the handle is stored for the remote
/// participant. A failure is passed on and stores nothing.
pub proof fn law_validate_remote_identity<
    A: Authentication + ?Sized,
    P: AccessControl<A> + ?Sized,
    C: Cryptographic + ?Sized,
>(
    plugins: &mut SecurityPlugins<A, P, C>,
    local: GuidPrefix,
    identity_token: IdentityToken,
    remote: GuidPrefix,
    request_token: Option<AuthRequestMessageToken>,
    result: SecurityResult<(ValidationOutcome, Option<AuthRequestMessageToken>)>,
)
    requires
        call_ensures(
            SecurityPlugins::<A, P, C>::validate_remote_identity,
            (plugins, local, identity_token, remote, request_token),
            result,
        ),
    ensures
        !old(plugins)@.identities.contains_key(local) ==> {
            &&& result == Err::<(ValidationOutcome, Option<AuthRequestMessageToken>), SecurityError>(
                SecurityError::IdentityHandleNotFound(local),
            )
            &&& *final(plugins) == *old(plugins)
        },
        old(plugins)@.identities.contains_key(local) ==> exists|
            reply: SecurityResult<(ValidationOutcome, IdentityHandle, Option<AuthRequestMessageToken>)>,
            plugin: &mut A,
        |
            {
                &&& #[trigger] call_ensures(
                    A::validate_remote_identity,
                    (
                        plugin,
                        request_token,
                        old(plugins)@.identities[local],
                        identity_token,
                        remote,
                    ),
                    reply,
                )
                &&& &*plugin == old(plugins).auth()
                &&& &*final(plugin) == final(plugins).auth()
                &&& match reply {
                    Ok((outcome, handle, token)) => {
                        &&& result == Ok::<(ValidationOutcome, Option<AuthRequestMessageToken>), SecurityError>(
                            (outcome, token),
                        )
                        &&& final(plugins)@ == (SecurityState {
                            identities: old(plugins)@.identities.insert(remote, handle),
                            ..old(plugins)@
                        })
                        &&& final(plugins).history() == old(plugins).history().push(
                            Event::RemoteIdentity {
                                local_guidp: local,
                                remote_guidp: remote,
                                handle,
                            },
                        )
                    },
                    Err(e) => {
                        &&& result == Err::<(ValidationOutcome, Option<AuthRequestMessageToken>), SecurityError>(
                            e,
                        )
                        &&& final(plugins)@ == old(plugins)@
                        &&& final(plugins).history() == old(plugins).history()
                    },
                }
            },
        final(plugins).access() == old(plugins).access(),
        final(plugins).crypto() == old(plugins).crypto(),
{
    lemma_one_more(old(plugins).history());
}

/// A handshake is requested with the local participant as initiator and the remote
/// one as replier. What the authentication plugin reports, its outcome and its
/// message, is returned unchanged, and the handle is stored for the remote
/// participant. A failure is passed on and stores nothing.
pub proof fn law_begin_handshake_request<
    A: Authentication + ?Sized,
    P: AccessControl<A> + ?Sized,
    C: Cryptographic + ?Sized,
>(
    plugins: &mut SecurityPlugins<A, P, C>,
    local: GuidPrefix,
    remote: GuidPrefix,
    data: Vec<u8>,
    result: SecurityResult<(ValidationOutcome, HandshakeMessageToken)>,
)
    requires
        call_ensures(
            SecurityPlugins::<A, P, C>::begin_handshake_request,
            (plugins, local, remote, data),
            result,
        ),
    ensures
        !old(plugins)@.identities.contains_key(local) ==> {
            &&& result == Err::<(ValidationOutcome, HandshakeMessageToken), SecurityError>(
                SecurityError::IdentityHandleNotFound(local),
            )
            &&& *final(plugins) == *old(plugins)
        },
        old(plugins)@.identities.contains_key(local)
            && !old(plugins)@.identities.contains_key(remote) ==> {
            &&& result == Err::<(ValidationOutcome, HandshakeMessageToken), SecurityError>(
                SecurityError::IdentityHandleNotFound(remote),
            )
            &&& *final(plugins) == *old(plugins)
        },
        old(plugins)@.identities.contains_key(local)
            && old(plugins)@.identities.contains_key(remote) ==> exists|
            reply: SecurityResult<(ValidationOutcome, HandshakeHandle, HandshakeMessageToken)>,
            plugin: &mut A,
        |
            {
                &&& #[trigger] call_ensures(
                    A::begin_handshake_request,
                    (
                        plugin,
                        old(plugins)@.identities[local],
                        old(plugins)@.identities[remote],
                        data,
                    ),
                    reply,
                )
                &&& &*plugin == old(plugins).auth()
                &&& &*final(plugin) == final(plugins).auth()
                &&& match reply {
                    Ok((outcome, handle, token)) => {
                        &&& result == Ok::<(ValidationOutcome, HandshakeMessageToken), SecurityError>(
                            (outcome, token),
                        )
                        &&& final(plugins)@ == (SecurityState {
                            handshakes: old(plugins)@.handshakes.insert(remote, handle),
                            ..old(plugins)@
                        })
                        &&& final(plugins).history() == old(plugins).history().push(
                            Event::Handshake { local_guidp: local, remote_guidp: remote, handle },
                        )
                    },
                    Err(e) => {
                        &&& result == Err::<(ValidationOutcome, HandshakeMessageToken), SecurityError>(
                            e,
                        )
                        &&& final(plugins)@ == old(plugins)@
                        &&& final(plugins).history() == old(plugins).history()
                    },
                }
            },
        final(plugins).access() == old(plugins).access(),
        final(plugins).crypto() == old(plugins).crypto(),
{
    lemma_one_more(old(plugins).history());
}

/// A handshake request is answered with the remote participant as initiator and
/// the local one as replier. What the authentication plugin reports, its outcome
/// and its message, is returned unchanged, and the handle is stored for the remote
/// participant. A failure is passed on and stores nothing.
pub proof fn law_begin_handshake_reply<
    A: Authentication + ?Sized,
    P: AccessControl<A> + ?Sized,
    C: Cryptographic + ?Sized,
>(
    plugins: &mut SecurityPlugins<A, P, C>,
    local: GuidPrefix,
    remote: GuidPrefix,
    message_in: HandshakeMessageToken,
    data: Vec<u8>,
    result: SecurityResult<(ValidationOutcome, HandshakeMessageToken)>,
)
    requires
        call_ensures(
            SecurityPlugins::<A, P, C>::begin_handshake_reply,
            (plugins, local, remote, message_in, data),
            result,
        ),
    ensures
        !old(plugins)@.identities.contains_key(remote) ==> {
            &&& result == Err::<(ValidationOutcome, HandshakeMessageToken), SecurityError>(
                SecurityError::IdentityHandleNotFound(remote),
            )
            &&& *final(plugins) == *old(plugins)
        },
        old(plugins)@.identities.contains_key(remote)
            && !old(plugins)@.identities.contains_key(local) ==> {
            &&& result == Err::<(ValidationOutcome, HandshakeMessageToken), SecurityError>(
                SecurityError::IdentityHandleNotFound(local),
            )
            &&& *final(plugins) == *old(plugins)
        },
        old(plugins)@.identities.contains_key(remote)
            && old(plugins)@.identities.contains_key(local) ==> exists|
            reply: SecurityResult<(ValidationOutcome, HandshakeHandle, HandshakeMessageToken)>,
            plugin: &mut A,
        |
            {
                &&& #[trigger] call_ensures(
                    A::begin_handshake_reply,
                    (
                        plugin,
                        message_in,
                        old(plugins)@.identities[remote],
                        old(plugins)@.identities[local],
                        data,
                    ),
                    reply,
                )
                &&& &*plugin == old(plugins).auth()
                &&& &*final(plugin) == final(plugins).auth()
                &&& match reply {
                    Ok((outcome, handle, token)) => {
                        &&& result == Ok::<(ValidationOutcome, HandshakeMessageToken), SecurityError>(
                            (outcome, token),
                        )
                        &&& final(plugins)@ == (SecurityState {
                            handshakes: old(plugins)@.handshakes.insert(remote, handle),
                            ..old(plugins)@
                        })
                        &&& final(plugins).history() == old(plugins).history().push(
                            Event::Handshake { local_guidp: local, remote_guidp: remote, handle },
                        )
                    },
                    Err(e) => {
                        &&& result == Err::<(ValidationOutcome, HandshakeMessageToken), SecurityError>(
                            e,
                        )
                        &&& final(plugins)@ == old(plugins)@
                        &&& final(plugins).history() == old(plugins).history()
                    },
                }
            },
        final(plugins).access() == old(plugins).access(),
        final(plugins).crypto() == old(plugins).crypto(),
{
    lemma_one_more(old(plugins).history());
}

/// The message given is processed in the handshake with the remote participant
/// given, what the authentication plugin replies is returned unchanged, and
/// nothing is stored. Without a handshake the error names the participant and
/// nothing changes.
pub proof fn law_process_handshake<
    A: Authentication + ?Sized,
    P: AccessControl<A> + ?Sized,
    C: Cryptographic + ?Sized,
>(
    plugins: &mut SecurityPlugins<A, P, C>,
    remote: GuidPrefix,
    message_in: HandshakeMessageToken,
    result: SecurityResult<(ValidationOutcome, Option<HandshakeMessageToken>)>,
)
    requires
        call_ensures(
            SecurityPlugins::<A, P, C>::process_handshake,
            (plugins, remote, message_in),
            result,
        ),
    ensures
        !old(plugins)@.handshakes.contains_key(remote) ==> {
            &&& result == Err::<(ValidationOutcome, Option<HandshakeMessageToken>), SecurityError>(
                SecurityError::HandshakeHandleNotFound(remote),
            )
            &&& *final(plugins) == *old(plugins)
        },
        old(plugins)@.handshakes.contains_key(remote) ==> exists|plugin: &mut A|
            {
                &&& #[trigger] call_ensures(
                    A::process_handshake,
                    (plugin, message_in, old(plugins)@.handshakes[remote]),
                    result,
                )
                &&& &*plugin == old(plugins).auth()
                &&& &*final(plugin) == final(plugins).auth()
            },
        final(plugins)@ == old(plugins)@,
        final(plugins).history() == old(plugins).history(),
        final(plugins).access() == old(plugins).access(),
        final(plugins).crypto() == old(plugins).crypto(),
{
}

/// The credential of a remote participant is the one that the authentication
/// plugin gives for the handshake with it. Without a handshake the error names the
/// participant.
pub proof fn law_get_authenticated_peer_credential_token<
    A: Authentication + ?Sized,
    P: AccessControl<A> + ?Sized,
    C: Cryptographic + ?Sized,
>(
    plugins: &SecurityPlugins<A, P, C>,
    remote: GuidPrefix,
    result: SecurityResult<AuthenticatedPeerCredentialToken>,
)
    requires
        call_ensures(
            SecurityPlugins::<A, P, C>::get_authenticated_peer_credential_token,
            (plugins, remote),
            result,
        ),
    ensures
        !plugins@.handshakes.contains_key(remote) ==> result == Err::<
            AuthenticatedPeerCredentialToken,
            SecurityError,
        >(SecurityError::HandshakeHandleNotFound(remote)),
        plugins@.handshakes.contains_key(remote) ==> call_ensures(
            A::get_authenticated_peer_credential_token,
            (plugins.auth(), plugins@.handshakes[remote]),
            result,
        ),
{
}

/// The secret shared with a remote participant is the one that the authentication
/// plugin gives for the handshake with it. Without a handshake the error names the
/// participant.
pub proof fn law_get_shared_secret<
    A: Authentication + ?Sized,
    P: AccessControl<A> + ?Sized,
    C: Cryptographic + ?Sized,
>(
    plugins: &SecurityPlugins<A, P, C>,
    remote: GuidPrefix,
    result: SecurityResult<SharedSecretHandle>,
)
    requires
        call_ensures(
            SecurityPlugins::<A, P, C>::get_shared_secret,
            (plugins, remote),
            result,
        ),
    ensures
        !plugins@.handshakes.contains_key(remote) ==> result == Err::<
            SharedSecretHandle,
            SecurityError,
        >(SecurityError::HandshakeHandleNotFound(remote)),
        plugins@.handshakes.contains_key(remote) ==> call_ensures(
            A::get_shared_secret,
            (plugins.auth(), plugins@.handshakes[remote]),
            result,
        ),
{
}

} // verus!
