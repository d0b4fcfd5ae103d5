//! What the operations on permissions do, call by call.

use vstd::prelude::*;

use crate::access_control::AccessControl;
use crate::authentication::Authentication;
use crate::cryptographic::Cryptographic;
use crate::error::{SecurityError, SecurityResult};
use crate::guid::{GuidPrefix, GUID};
use crate::history::{lemma_one_more, Event};
use crate::qos::QosPolicies;
use crate::security_plugins::SecurityPlugins;
use crate::state::SecurityState;
use crate::types::{
    AuthenticatedPeerCredentialToken, EndpointSecurityAttributes,
    ParticipantBuiltinTopicDataSecure, ParticipantSecurityAttributes, PermissionsCredentialToken,
    PermissionsHandle, PermissionsToken,
};

verus! {

/// The permissions of the local participant are validated by its identity handle,
/// for the domain and the policies given, and the handle that the access control
/// plugin gives is stored for it. A failure is passed on and stores nothing.
pub proof fn law_validate_local_permissions<
    A: Authentication + ?Sized,
    P: AccessControl<A> + ?Sized,
    C: Cryptographic + ?Sized,
>(
    plugins: &mut SecurityPlugins<A, P, C>,
    domain_id: u16,
    guidp: GuidPrefix,
    participant_qos: &QosPolicies,
    result: SecurityResult<()>,
)
    requires
        call_ensures(
            SecurityPlugins::<A, P, C>::validate_local_permissions,
            (plugins, domain_id, guidp, participant_qos),
            result,
        ),
    ensures
        !old(plugins)@.identities.contains_key(guidp) ==> {
            &&& result == Err::<(), SecurityError>(
                SecurityError::IdentityHandleNotFound(guidp),
            )
            &&& *final(plugins) == *old(plugins)
        },
        old(plugins)@.identities.contains_key(guidp) ==> exists|
            reply: SecurityResult<PermissionsHandle>,
            plugin: &mut P,
        |
            {
                &&& #[trigger] call_ensures(
                    P::validate_local_permissions,
                    (
                        plugin,
                        old(plugins).auth(),
                        old(plugins)@.identities[guidp],
                        domain_id,
                        participant_qos,
                    ),
                    reply,
                )
                &&& &*plugin == old(plugins).access()
                &&& &*final(plugin) == final(plugins).access()
                &&& match reply {
                    Ok(handle) => {
                        &&& result == Ok::<(), SecurityError>(())
                        &&& final(plugins)@ == (SecurityState {
                            permissions: old(plugins)@.permissions.insert(guidp, handle),
                            ..old(plugins)@
                        })
                        &&& final(plugins).history() == old(plugins).history().push(
                            Event::LocalPermissions { guidp, handle },
                        )
                    },
                    Err(e) => {
                        &&& result == Err::<(), SecurityError>(e)
                        &&& final(plugins)@ == old(plugins)@
                        &&& final(plugins).history() == old(plugins).history()
                    },
                }
            },
        final(plugins).auth() == old(plugins).auth(),
        final(plugins).crypto() == old(plugins).crypto(),
{
    lemma_one_more(old(plugins).history());
}

/// The permissions of a remote participant are validated by the identity handles
/// of the local one and of itself, in this order, and by the tokens given. The
/// handle that the access control plugin gives is stored for the remote
/// participant. A failure is passed on and stores nothing.
pub proof fn law_validate_remote_permissions<
    A: Authentication + ?Sized,
    P: AccessControl<A> + ?Sized,
    C: Cryptographic + ?Sized,
>(
    plugins: &mut SecurityPlugins<A, P, C>,
    local: GuidPrefix,
    remote: GuidPrefix,
    permissions_token: &PermissionsToken,
    credential_token: &AuthenticatedPeerCredentialToken,
    result: SecurityResult<()>,
)
    requires
        call_ensures(
            SecurityPlugins::<A, P, C>::validate_remote_permissions,
            (plugins, local, remote, permissions_token, credential_token),
            result,
        ),
    ensures
        !old(plugins)@.identities.contains_key(local) ==> {
            &&& result == Err::<(), SecurityError>(
                SecurityError::IdentityHandleNotFound(local),
            )
            &&& *final(plugins) == *old(plugins)
        },
        old(plugins)@.identities.contains_key(local)
            && !old(plugins)@.identities.contains_key(remote) ==> {
            &&& result == Err::<(), SecurityError>(
                SecurityError::IdentityHandleNotFound(remote),
            )
            &&& *final(plugins) == *old(plugins)
        },
        old(plugins)@.identities.contains_key(local)
            && old(plugins)@.identities.contains_key(remote) ==> exists|
            reply: SecurityResult<PermissionsHandle>,
            plugin: &mut P,
        |
            {
                &&& #[trigger] call_ensures(
                    P::validate_remote_permissions,
                    (
                        plugin,
                        old(plugins).auth(),
                        old(plugins)@.identities[local],
                        old(plugins)@.identities[remote],
                        permissions_token,
                        credential_token,
                    ),
                    reply,
                )
                &&& &*plugin == old(plugins).access()
                &&& &*final(plugin) == final(plugins).access()
                &&& match reply {
                    Ok(handle) => {
                        &&& result == Ok::<(), SecurityError>(())
                        &&& final(plugins)@ == (SecurityState {
                            permissions: old(plugins)@.permissions.insert(remote, handle),
                            ..old(plugins)@
                        })
                        &&& final(plugins).history() == old(plugins).history().push(
                            Event::RemotePermissions {
                                local_guidp: local,
                                remote_guidp: remote,
                                handle,
                            },
                        )
                    },
                    Err(e) => {
                        &&& result == Err::<(), SecurityError>(e)
                        &&& final(plugins)@ == old(plugins)@
                        &&& final(plugins).history() == old(plugins).history()
                    },
                }
            },
        final(plugins).auth() == old(plugins).auth(),
        final(plugins).crypto() == old(plugins).crypto(),
{
    lemma_one_more(old(plugins).history());
}

/// Whether the local participant may join the domain is what the access control
/// plugin says for its permissions handle, the domain and the policies given.
/// Without a permissions handle the error names the participant.
pub proof fn law_check_create_participant<
    A: Authentication + ?Sized,
    P: AccessControl<A> + ?Sized,
    C: Cryptographic + ?Sized,
>(
    plugins: &SecurityPlugins<A, P, C>,
    domain_id: u16,
    guidp: GuidPrefix,
    qos: &QosPolicies,
    result: SecurityResult<()>,
)
    requires
        call_ensures(
            SecurityPlugins::<A, P, C>::check_create_participant,
            (plugins, domain_id, guidp, qos),
            result,
        ),
    ensures
        !plugins@.permissions.contains_key(guidp) ==> result == Err::<
            (),
            SecurityError,
        >(SecurityError::PermissionsHandleNotFound(guidp)),
        plugins@.permissions.contains_key(guidp) ==> call_ensures(
            P::check_create_participant,
            (plugins.access(), plugins@.permissions[guidp], domain_id, qos),
            result,
        ),
{
}

/// Whether a remote participant may join the domain is what the access control
/// plugin says for its permissions handle and the domain given, without discovery
/// data. Without a permissions handle the error names the participant.
pub proof fn law_check_remote_participant<
    A: Authentication + ?Sized,
    P: AccessControl<A> + ?Sized,
    C: Cryptographic + ?Sized,
>(
    plugins: &SecurityPlugins<A, P, C>,
    domain_id: u16,
    guidp: GuidPrefix,
    result: SecurityResult<()>,
)
    requires
        call_ensures(
            SecurityPlugins::<A, P, C>::check_remote_participant,
            (plugins, domain_id, guidp),
            result,
        ),
    ensures
        !plugins@.permissions.contains_key(guidp) ==> result == Err::<
            (),
            SecurityError,
        >(SecurityError::PermissionsHandleNotFound(guidp)),
        plugins@.permissions.contains_key(guidp) ==> call_ensures(
            P::check_remote_participant,
            (
                plugins.access(),
                plugins@.permissions[guidp],
                domain_id,
                None::<&ParticipantBuiltinTopicDataSecure>,
            ),
            result,
        ),
{
}

/// The permissions token of a participant is the one that the access control
/// plugin gives for the participant's permissions handle. Without a permissions
/// handle the error names the participant.
pub proof fn law_get_permissions_token<
    A: Authentication + ?Sized,
    P: AccessControl<A> + ?Sized,
    C: Cryptographic + ?Sized,
>(
    plugins: &SecurityPlugins<A, P, C>,
    guidp: GuidPrefix,
    result: SecurityResult<PermissionsToken>,
)
    requires
        call_ensures(
            SecurityPlugins::<A, P, C>::get_permissions_token,
            (plugins, guidp),
            result,
        ),
    ensures
        !plugins@.permissions.contains_key(guidp) ==> result == Err::<
            PermissionsToken,
            SecurityError,
        >(SecurityError::PermissionsHandleNotFound(guidp)),
        plugins@.permissions.contains_key(guidp) ==> call_ensures(
            P::get_permissions_token,
            (plugins.access(), plugins@.permissions[guidp]),
            result,
        ),
{
}

/// The permissions credential of a participant is the one that the access control
/// plugin gives for the participant's permissions handle. Without a permissions
/// handle the error names the participant.
pub proof fn law_get_permissions_credential_token<
    A: Authentication + ?Sized,
    P: AccessControl<A> + ?Sized,
    C: Cryptographic + ?Sized,
>(
    plugins: &SecurityPlugins<A, P, C>,
    guidp: GuidPrefix,
    result: SecurityResult<PermissionsCredentialToken>,
)
    requires
        call_ensures(
            SecurityPlugins::<A, P, C>::get_permissions_credential_token,
            (plugins, guidp),
            result,
        ),
    ensures
        !plugins@.permissions.contains_key(guidp) ==> result == Err::<
            PermissionsCredentialToken,
            SecurityError,
        >(SecurityError::PermissionsHandleNotFound(guidp)),
        plugins@.permissions.contains_key(guidp) ==> call_ensures(
            P::get_permissions_credential_token,
            (plugins.access(), plugins@.permissions[guidp]),
            result,
        ),
{
}

/// How a participant is to be protected is what the access control plugin says for
/// the participant's permissions handle. Without a permissions handle the error
/// names the participant.
pub proof fn law_get_participant_sec_attributes<
    A: Authentication + ?Sized,
    P: AccessControl<A> + ?Sized,
    C: Cryptographic + ?Sized,
>(
    plugins: &SecurityPlugins<A, P, C>,
    guidp: GuidPrefix,
    result: SecurityResult<ParticipantSecurityAttributes>,
)
    requires
        call_ensures(
            SecurityPlugins::<A, P, C>::get_participant_sec_attributes,
            (plugins, guidp),
            result,
        ),
    ensures
        !plugins@.permissions.contains_key(guidp) ==> result == Err::<
            ParticipantSecurityAttributes,
            SecurityError,
        >(SecurityError::PermissionsHandleNotFound(guidp)),
        plugins@.permissions.contains_key(guidp) ==> call_ensures(
            P::get_participant_sec_attributes,
            (plugins.access(), plugins@.permissions[guidp]),
            result,
        ),
{
}

/// How a reader is to be protected is what the access control plugin says of
/// readers of the topic given, for the permissions handle of the reader's
/// participant. Without such a handle the error names the participant.
pub proof fn law_get_reader_sec_attributes<
    A: Authentication + ?Sized,
    P: AccessControl<A> + ?Sized,
    C: Cryptographic + ?Sized,
>(
    plugins: &SecurityPlugins<A, P, C>,
    reader: GUID,
    topic_name: String,
    result: SecurityResult<EndpointSecurityAttributes>,
)
    requires
        call_ensures(
            SecurityPlugins::<A, P, C>::get_reader_sec_attributes,
            (plugins, reader, topic_name),
            result,
        ),
    ensures
        !plugins@.permissions.contains_key(reader.prefix) ==> result == Err::<
            EndpointSecurityAttributes,
            SecurityError,
        >(SecurityError::PermissionsHandleNotFound(reader.prefix)),
        plugins@.permissions.contains_key(reader.prefix) ==> call_ensures(
            P::get_datareader_sec_attributes,
            (plugins.access(), plugins@.permissions[reader.prefix], topic_name),
            result,
        ),
{
}

/// How a writer is to be protected is what the access control plugin says of
/// writers of the topic given, for the permissions handle of the writer's
/// participant. Without such a handle the error names the participant.
pub proof fn law_get_writer_sec_attributes<
    A: Authentication + ?Sized,
    P: AccessControl<A> + ?Sized,
    C: Cryptographic + ?Sized,
>(
    plugins: &SecurityPlugins<A, P, C>,
    writer: GUID,
    topic_name: String,
    result: SecurityResult<EndpointSecurityAttributes>,
)
    requires
        call_ensures(
            SecurityPlugins::<A, P, C>::get_writer_sec_attributes,
            (plugins, writer, topic_name),
            result,
        ),
    ensures
        !plugins@.permissions.contains_key(writer.prefix) ==> result == Err::<
            EndpointSecurityAttributes,
            SecurityError,
        >(SecurityError::PermissionsHandleNotFound(writer.prefix)),
        plugins@.permissions.contains_key(writer.prefix) ==> call_ensures(
            P::get_datawriter_sec_attributes,
            (plugins.access(), plugins@.permissions[writer.prefix], topic_name),
            result,
        ),
{
}

} // verus!
