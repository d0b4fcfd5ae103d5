//! What the operations that register participants and endpoints do, call by call.

use vstd::prelude::*;

use crate::access_control::AccessControl;
use crate::authentication::Authentication;
use crate::cryptographic::Cryptographic;
use crate::error::{SecurityError, SecurityResult};
use crate::guid::{GuidPrefix, GUID};
use crate::history::{lemma_one_more, Event};
use crate::qos::policy;
use crate::security_plugins::SecurityPlugins;
use crate::state::SecurityState;
use crate::types::{
    DatareaderCryptoHandle, DatawriterCryptoHandle, EndpointSecurityAttributes,
    ParticipantCryptoHandle, ParticipantSecurityAttributes, Property, SharedSecretHandle,
};

verus! {

/// The local participant is registered with its identity handle, its permissions
/// handle, the text properties of its property policy (none without one) and the
/// attributes given, and the crypto handle is stored for it. If the attributes ask
/// for no protection of messages, that is noted, even if the cryptographic plugin
/// fails. A failure is passed on and stores no handle.
pub proof fn law_register_local_participant<
    A: Authentication + ?Sized,
    P: AccessControl<A> + ?Sized,
    C: Cryptographic + ?Sized,
>(
    plugins: &mut SecurityPlugins<A, P, C>,
    guidp: GuidPrefix,
    properties: Option<policy::Property>,
    attributes: ParticipantSecurityAttributes,
    result: SecurityResult<()>,
)
    requires
        call_ensures(
            SecurityPlugins::<A, P, C>::register_local_participant,
            (plugins, guidp, properties, attributes),
            result,
        ),
    ensures
        !old(plugins)@.identities.contains_key(guidp) ==> {
            &&& result == Err::<(), SecurityError>(
                SecurityError::IdentityHandleNotFound(guidp),
            )
            &&& *final(plugins) == *old(plugins)
        },
        old(plugins)@.identities.contains_key(guidp)
            && !old(plugins)@.permissions.contains_key(guidp) ==> {
            &&& result == Err::<(), SecurityError>(
                SecurityError::PermissionsHandleNotFound(guidp),
            )
            &&& *final(plugins) == *old(plugins)
        },
        old(plugins)@.identities.contains_key(guidp)
            && old(plugins)@.permissions.contains_key(guidp) ==> exists|
            reply: SecurityResult<ParticipantCryptoHandle>,
            plugin: &mut C,
            given: &[Property],
        |
            {
                &&& #[trigger] call_ensures(
                    C::register_local_participant,
                    (
                        plugin,
                        old(plugins)@.identities[guidp],
                        old(plugins)@.permissions[guidp],
                        given,
                        attributes,
                    ),
                    reply,
                )
                &&& &*plugin == old(plugins).crypto()
                &&& &*final(plugin) == final(plugins).crypto()
                &&& properties matches Some(policy) ==> given@ == policy.value@
                &&& properties is None ==> given@.len() == 0
                &&& match reply {
                    Ok(handle) => {
                        &&& result == Ok::<(), SecurityError>(())
                        &&& final(plugins)@ == (SecurityState {
                            participant_crypto: old(plugins)@.participant_crypto.insert(guidp, handle),
                            rtps_not_protected: if attributes.is_rtps_protected {
                                old(plugins)@.rtps_not_protected
                            } else {
                                old(plugins)@.rtps_not_protected.insert(guidp)
                            },
                            ..old(plugins)@
                        })
                        &&& final(plugins).history() == old(plugins).history().push(
                            Event::LocalParticipant { guidp, attributes, reply },
                        )
                    },
                    Err(e) => {
                        &&& result == Err::<(), SecurityError>(e)
                        &&& final(plugins)@ == (SecurityState {
                            rtps_not_protected: if attributes.is_rtps_protected {
                                old(plugins)@.rtps_not_protected
                            } else {
                                old(plugins)@.rtps_not_protected.insert(guidp)
                            },
                            ..old(plugins)@
                        })
                        &&& final(plugins).history() == old(plugins).history().push(
                            Event::LocalParticipant { guidp, attributes, reply },
                        )
                    },
                }
            },
        final(plugins).auth() == old(plugins).auth(),
        final(plugins).access() == old(plugins).access(),
{
    lemma_one_more(old(plugins).history());
}

/// A local reader is registered with the crypto handle of its participant, the
/// text properties of its property policy (none without one) and the attributes
/// given, and the crypto handle is stored for it. If the attributes ask for no
/// protection of submessages, or of payloads, that is noted, even if the
/// cryptographic plugin fails. A failure is passed on and stores no handle.
pub proof fn law_register_local_reader<
    A: Authentication + ?Sized,
    P: AccessControl<A> + ?Sized,
    C: Cryptographic + ?Sized,
>(
    plugins: &mut SecurityPlugins<A, P, C>,
    reader: GUID,
    properties: Option<policy::Property>,
    attributes: EndpointSecurityAttributes,
    result: SecurityResult<()>,
)
    requires
        call_ensures(
            SecurityPlugins::<A, P, C>::register_local_reader,
            (plugins, reader, properties, attributes),
            result,
        ),
    ensures
        !old(plugins)@.participant_crypto.contains_key(reader.prefix) ==> {
            &&& result == Err::<(), SecurityError>(
                SecurityError::ParticipantCryptoHandleNotFound(reader.prefix),
            )
            &&& *final(plugins) == *old(plugins)
        },
        old(plugins)@.participant_crypto.contains_key(reader.prefix) ==> exists|
            reply: SecurityResult<DatareaderCryptoHandle>,
            plugin: &mut C,
            given: &[Property],
        |
            {
                &&& #[trigger] call_ensures(
                    C::register_local_datareader,
                    (plugin, old(plugins)@.participant_crypto[reader.prefix], given, attributes),
                    reply,
                )
                &&& &*plugin == old(plugins).crypto()
                &&& &*final(plugin) == final(plugins).crypto()
                &&& properties matches Some(policy) ==> given@ == policy.value@
                &&& properties is None ==> given@.len() == 0
                &&& match reply {
                    Ok(handle) => {
                        &&& result == Ok::<(), SecurityError>(())
                        &&& final(plugins)@ == (SecurityState {
                            local_endpoint_crypto: old(plugins)@.local_endpoint_crypto.insert(reader, handle),
                            submessage_not_protected: if attributes.is_submessage_protected {
                                old(plugins)@.submessage_not_protected
                            } else {
                                old(plugins)@.submessage_not_protected.insert(reader)
                            },
                            payload_not_protected: if attributes.is_payload_protected {
                                old(plugins)@.payload_not_protected
                            } else {
                                old(plugins)@.payload_not_protected.insert(reader)
                            },
                            ..old(plugins)@
                        })
                        &&& final(plugins).history() == old(plugins).history().push(
                            Event::LocalEndpoint { guid: reader, attributes, reply },
                        )
                    },
                    Err(e) => {
                        &&& result == Err::<(), SecurityError>(e)
                        &&& final(plugins)@ == (SecurityState {
                            submessage_not_protected: if attributes.is_submessage_protected {
                                old(plugins)@.submessage_not_protected
                            } else {
                                old(plugins)@.submessage_not_protected.insert(reader)
                            },
                            payload_not_protected: if attributes.is_payload_protected {
                                old(plugins)@.payload_not_protected
                            } else {
                                old(plugins)@.payload_not_protected.insert(reader)
                            },
                            ..old(plugins)@
                        })
                        &&& final(plugins).history() == old(plugins).history().push(
                            Event::LocalEndpoint { guid: reader, attributes, reply },
                        )
                    },
                }
            },
        final(plugins).auth() == old(plugins).auth(),
        final(plugins).access() == old(plugins).access(),
{
    lemma_one_more(old(plugins).history());
}

/// A local writer is registered with the crypto handle of its participant, the
/// text properties of its property policy (none without one) and the attributes
/// given, and the crypto handle is stored for it. If the attributes ask for no
/// protection of submessages, or of payloads, that is noted, even if the
/// cryptographic plugin fails. A failure is passed on and stores no handle.
pub proof fn law_register_local_writer<
    A: Authentication + ?Sized,
    P: AccessControl<A> + ?Sized,
    C: Cryptographic + ?Sized,
>(
    plugins: &mut SecurityPlugins<A, P, C>,
    writer: GUID,
    properties: Option<policy::Property>,
    attributes: EndpointSecurityAttributes,
    result: SecurityResult<()>,
)
    requires
        call_ensures(
            SecurityPlugins::<A, P, C>::register_local_writer,
            (plugins, writer, properties, attributes),
            result,
        ),
    ensures
        !old(plugins)@.participant_crypto.contains_key(writer.prefix) ==> {
            &&& result == Err::<(), SecurityError>(
                SecurityError::ParticipantCryptoHandleNotFound(writer.prefix),
            )
            &&& *final(plugins) == *old(plugins)
        },
        old(plugins)@.participant_crypto.contains_key(writer.prefix) ==> exists|
            reply: SecurityResult<DatawriterCryptoHandle>,
            plugin: &mut C,
            given: &[Property],
        |
            {
                &&& #[trigger] call_ensures(
                    C::register_local_datawriter,
                    (plugin, old(plugins)@.participant_crypto[writer.prefix], given, attributes),
                    reply,
                )
                &&& &*plugin == old(plugins).crypto()
                &&& &*final(plugin) == final(plugins).crypto()
                &&& properties matches Some(policy) ==> given@ == policy.value@
                &&& properties is None ==> given@.len() == 0
                &&& match reply {
                    Ok(handle) => {
                        &&& result == Ok::<(), SecurityError>(())
                        &&& final(plugins)@ == (SecurityState {
                            local_endpoint_crypto: old(plugins)@.local_endpoint_crypto.insert(writer, handle),
                            submessage_not_protected: if attributes.is_submessage_protected {
                                old(plugins)@.submessage_not_protected
                            } else {
                                old(plugins)@.submessage_not_protected.insert(writer)
                            },
                            payload_not_protected: if attributes.is_payload_protected {
                                old(plugins)@.payload_not_protected
                            } else {
                                old(plugins)@.payload_not_protected.insert(writer)
                            },
                            ..old(plugins)@
                        })
                        &&& final(plugins).history() == old(plugins).history().push(
                            Event::LocalEndpoint { guid: writer, attributes, reply },
                        )
                    },
                    Err(e) => {
                        &&& result == Err::<(), SecurityError>(e)
                        &&& final(plugins)@ == (SecurityState {
                            submessage_not_protected: if attributes.is_submessage_protected {
                                old(plugins)@.submessage_not_protected
                            } else {
                                old(plugins)@.submessage_not_protected.insert(writer)
                            },
                            payload_not_protected: if attributes.is_payload_protected {
                                old(plugins)@.payload_not_protected
                            } else {
                                old(plugins)@.payload_not_protected.insert(writer)
                            },
                            ..old(plugins)@
                        })
                        &&& final(plugins).history() == old(plugins).history().push(
                            Event::LocalEndpoint { guid: writer, attributes, reply },
                        )
                    },
                }
            },
        final(plugins).auth() == old(plugins).auth(),
        final(plugins).access() == old(plugins).access(),
{
    lemma_one_more(old(plugins).history());
}

/// A remote participant is registered with the crypto handle of the local one,
/// with its own identity and permissions handles and with the very secret given,
/// its two challenges included. The crypto handle is stored for the remote
/// participant. A failure is passed on and stores nothing.
pub proof fn law_register_matched_remote_participant<
    A: Authentication + ?Sized,
    P: AccessControl<A> + ?Sized,
    C: Cryptographic + ?Sized,
>(
    plugins: &mut SecurityPlugins<A, P, C>,
    local: GuidPrefix,
    remote: GuidPrefix,
    shared_secret: SharedSecretHandle,
    result: SecurityResult<()>,
)
    requires
        call_ensures(
            SecurityPlugins::<A, P, C>::register_matched_remote_participant,
            (plugins, local, remote, shared_secret),
            result,
        ),
    ensures
        !old(plugins)@.participant_crypto.contains_key(local) ==> {
            &&& result == Err::<(), SecurityError>(
                SecurityError::ParticipantCryptoHandleNotFound(local),
            )
            &&& *final(plugins) == *old(plugins)
        },
        old(plugins)@.participant_crypto.contains_key(local)
            && !old(plugins)@.identities.contains_key(remote) ==> {
            &&& result == Err::<(), SecurityError>(
                SecurityError::IdentityHandleNotFound(remote),
            )
            &&& *final(plugins) == *old(plugins)
        },
        old(plugins)@.participant_crypto.contains_key(local)
            && old(plugins)@.identities.contains_key(remote)
            && !old(plugins)@.permissions.contains_key(remote) ==> {
            &&& result == Err::<(), SecurityError>(
                SecurityError::PermissionsHandleNotFound(remote),
            )
            &&& *final(plugins) == *old(plugins)
        },
        old(plugins)@.participant_crypto.contains_key(local)
            && old(plugins)@.identities.contains_key(remote)
            && old(plugins)@.permissions.contains_key(remote) ==> exists|
            reply: SecurityResult<ParticipantCryptoHandle>,
            plugin: &mut C,
        |
            {
                &&& #[trigger] call_ensures(
                    C::register_matched_remote_participant,
                    (
                        plugin,
                        old(plugins)@.participant_crypto[local],
                        old(plugins)@.identities[remote],
                        old(plugins)@.permissions[remote],
                        shared_secret,
                    ),
                    reply,
                )
                &&& &*plugin == old(plugins).crypto()
                &&& &*final(plugin) == final(plugins).crypto()
                &&& match reply {
                    Ok(handle) => {
                        &&& result == Ok::<(), SecurityError>(())
                        &&& final(plugins)@ == (SecurityState {
                            participant_crypto: old(plugins)@.participant_crypto.insert(remote, handle),
                            ..old(plugins)@
                        })
                        &&& final(plugins).history() == old(plugins).history().push(
                            Event::RemoteParticipant {
                                local_guidp: local,
                                remote_guidp: remote,
                                handle,
                            },
                        )
                    },
                    Err(e) => {
                        &&& result == Err::<(), SecurityError>(e)
                        &&& final(plugins)@ == old(plugins)@
                        &&& final(plugins).history() == old(plugins).history()
                    },
                }
            },
        final(plugins).auth() == old(plugins).auth(),
        final(plugins).access() == old(plugins).access(),
{
    lemma_one_more(old(plugins).history());
}

/// A remote reader is registered as matched with a local writer: with the writer's
/// crypto handle, the crypto handle of the reader's participant, the secret that
/// the authentication plugin gives for the handshake with that participant and the
/// relay flag given. The crypto handle is stored for the pair. Without a
/// handshake, or if the secret, a handle or the registration fails, that error is
/// returned, in this order, and nothing is stored.
pub proof fn law_register_matched_remote_reader<
    A: Authentication + ?Sized,
    P: AccessControl<A> + ?Sized,
    C: Cryptographic + ?Sized,
>(
    plugins: &mut SecurityPlugins<A, P, C>,
    reader: GUID,
    writer: GUID,
    relay_only: bool,
    result: SecurityResult<()>,
)
    requires
        call_ensures(
            SecurityPlugins::<A, P, C>::register_matched_remote_reader,
            (plugins, reader, writer, relay_only),
            result,
        ),
    ensures
        !old(plugins)@.handshakes.contains_key(reader.prefix) ==> {
            &&& result == Err::<(), SecurityError>(
                SecurityError::HandshakeHandleNotFound(reader.prefix),
            )
            &&& *final(plugins) == *old(plugins)
        },
        old(plugins)@.handshakes.contains_key(reader.prefix) ==> exists|
            secret: SecurityResult<SharedSecretHandle>,
        |
            {
                &&& #[trigger] call_ensures(
                    A::get_shared_secret,
                    (old(plugins).auth(), old(plugins)@.handshakes[reader.prefix]),
                    secret,
                )
                &&& secret is Err ==> {
                    &&& result == Err::<(), SecurityError>(secret->Err_0)
                    &&& *final(plugins) == *old(plugins)
                }
                &&& secret is Ok && old(plugins)@.local_endpoint_crypto.contains_key(writer)
                    && old(plugins)@.participant_crypto.contains_key(reader.prefix) ==> exists|
                    reply: SecurityResult<DatareaderCryptoHandle>,
                    plugin: &mut C,
                |
                    {
                        &&& #[trigger] call_ensures(
                            C::register_matched_remote_datareader,
                            (
                                plugin,
                                old(plugins)@.local_endpoint_crypto[writer],
                                old(plugins)@.participant_crypto[reader.prefix],
                                secret->Ok_0,
                                relay_only,
                            ),
                            reply,
                        )
                        &&& &*plugin == old(plugins).crypto()
                        &&& &*final(plugin) == final(plugins).crypto()
                        &&& match reply {
                            Ok(handle) => {
                                &&& result == Ok::<(), SecurityError>(())
                                &&& final(plugins)@ == (SecurityState {
                                    remote_endpoint_crypto: old(
                                        plugins,
                                    )@.remote_endpoint_crypto.insert((writer, reader), handle),
                                    ..old(plugins)@
                                })
                                &&& final(plugins).history() == old(plugins).history().push(
                                    Event::RemoteEndpoint {
                                        local_endpoint: writer,
                                        proxy: reader,
                                        handle,
                                    },
                                )
                            },
                            Err(e) => {
                                &&& result == Err::<(), SecurityError>(e)
                                &&& final(plugins)@ == old(plugins)@
                                &&& final(plugins).history() == old(plugins).history()
                            },
                        }
                    }
                &&& secret is Ok && !old(plugins)@.local_endpoint_crypto.contains_key(writer) ==> {
                    &&& result == Err::<(), SecurityError>(
                        SecurityError::LocalEndpointCryptoHandleNotFound(writer),
                    )
                    &&& *final(plugins) == *old(plugins)
                }
                &&& secret is Ok && old(plugins)@.local_endpoint_crypto.contains_key(writer)
                    && !old(plugins)@.participant_crypto.contains_key(reader.prefix) ==> {
                    &&& result == Err::<(), SecurityError>(
                        SecurityError::ParticipantCryptoHandleNotFound(reader.prefix),
                    )
                    &&& *final(plugins) == *old(plugins)
                }
            },
        final(plugins).auth() == old(plugins).auth(),
        final(plugins).access() == old(plugins).access(),
{
    lemma_one_more(old(plugins).history());
}

/// A remote writer is registered as matched with a local reader: with the reader's
/// crypto handle, the crypto handle of the writer's participant and the secret
/// that the authentication plugin gives for the handshake with that participant.
/// The crypto handle is stored for the pair. Without a handshake, or if the
/// secret, a handle or the registration fails, that error is returned, in this
/// order, and nothing is stored.
pub proof fn law_register_matched_remote_writer<
    A: Authentication + ?Sized,
    P: AccessControl<A> + ?Sized,
    C: Cryptographic + ?Sized,
>(
    plugins: &mut SecurityPlugins<A, P, C>,
    writer: GUID,
    reader: GUID,
    result: SecurityResult<()>,
)
    requires
        call_ensures(
            SecurityPlugins::<A, P, C>::register_matched_remote_writer,
            (plugins, writer, reader),
            result,
        ),
    ensures
        !old(plugins)@.handshakes.contains_key(writer.prefix) ==> {
            &&& result == Err::<(), SecurityError>(
                SecurityError::HandshakeHandleNotFound(writer.prefix),
            )
            &&& *final(plugins) == *old(plugins)
        },
        old(plugins)@.handshakes.contains_key(writer.prefix) ==> exists|
            secret: SecurityResult<SharedSecretHandle>,
        |
            {
                &&& #[trigger] call_ensures(
                    A::get_shared_secret,
                    (old(plugins).auth(), old(plugins)@.handshakes[writer.prefix]),
                    secret,
                )
                &&& secret is Err ==> {
                    &&& result == Err::<(), SecurityError>(secret->Err_0)
                    &&& *final(plugins) == *old(plugins)
                }
                &&& secret is Ok && old(plugins)@.local_endpoint_crypto.contains_key(reader)
                    && old(plugins)@.participant_crypto.contains_key(writer.prefix) ==> exists|
                    reply: SecurityResult<DatawriterCryptoHandle>,
                    plugin: &mut C,
                |
                    {
                        &&& #[trigger] call_ensures(
                            C::register_matched_remote_datawriter,
                            (
                                plugin,
                                old(plugins)@.local_endpoint_crypto[reader],
                                old(plugins)@.participant_crypto[writer.prefix],
                                secret->Ok_0,
                            ),
                            reply,
                        )
                        &&& &*plugin == old(plugins).crypto()
                        &&& &*final(plugin) == final(plugins).crypto()
                        &&& match reply {
                            Ok(handle) => {
                                &&& result == Ok::<(), SecurityError>(())
                                &&& final(plugins)@ == (SecurityState {
                                    remote_endpoint_crypto: old(
                                        plugins,
                                    )@.remote_endpoint_crypto.insert((reader, writer), handle),
                                    ..old(plugins)@
                                })
                                &&& final(plugins).history() == old(plugins).history().push(
                                    Event::RemoteEndpoint {
                                        local_endpoint: reader,
                                        proxy: writer,
                                        handle,
                                    },
                                )
                            },
                            Err(e) => {
                                &&& result == Err::<(), SecurityError>(e)
                                &&& final(plugins)@ == old(plugins)@
                                &&& final(plugins).history() == old(plugins).history()
                            },
                        }
                    }
                &&& secret is Ok && !old(plugins)@.local_endpoint_crypto.contains_key(reader) ==> {
                    &&& result == Err::<(), SecurityError>(
                        SecurityError::LocalEndpointCryptoHandleNotFound(reader),
                    )
                    &&& *final(plugins) == *old(plugins)
                }
                &&& secret is Ok && old(plugins)@.local_endpoint_crypto.contains_key(reader)
                    && !old(plugins)@.participant_crypto.contains_key(writer.prefix) ==> {
                    &&& result == Err::<(), SecurityError>(
                        SecurityError::ParticipantCryptoHandleNotFound(writer.prefix),
                    )
                    &&& *final(plugins) == *old(plugins)
                }
            },
        final(plugins).auth() == old(plugins).auth(),
        final(plugins).access() == old(plugins).access(),
{
    lemma_one_more(old(plugins).history());
}

/// The key material of a local reader is discarded by the cryptographic plugin
/// under the reader's crypto handle, and the handle stays stored. Without such a
/// handle the error names the reader and nothing changes.
pub proof fn law_unregister_local_reader<
    A: Authentication + ?Sized,
    P: AccessControl<A> + ?Sized,
    C: Cryptographic + ?Sized,
>(
    plugins: &mut SecurityPlugins<A, P, C>,
    reader: &GUID,
    result: SecurityResult<()>,
)
    requires
        call_ensures(
            SecurityPlugins::<A, P, C>::unregister_local_reader,
            (plugins, reader),
            result,
        ),
    ensures
        !old(plugins)@.local_endpoint_crypto.contains_key(*reader) ==> {
            &&& result == Err::<(), SecurityError>(
                SecurityError::LocalEndpointCryptoHandleNotFound(*reader),
            )
            &&& *final(plugins) == *old(plugins)
        },
        old(plugins)@.local_endpoint_crypto.contains_key(*reader) ==> exists|plugin: &mut C|
            {
                &&& #[trigger] call_ensures(
                    C::unregister_datareader,
                    (plugin, old(plugins)@.local_endpoint_crypto[*reader]),
                    result,
                )
                &&& &*plugin == old(plugins).crypto()
                &&& &*final(plugin) == final(plugins).crypto()
            },
        final(plugins)@ == old(plugins)@,
        final(plugins).history() == old(plugins).history(),
        final(plugins).auth() == old(plugins).auth(),
        final(plugins).access() == old(plugins).access(),
{
}

/// The key material of a local writer is discarded by the cryptographic plugin
/// under the writer's crypto handle, and the handle stays stored. Without such a
/// handle the error names the writer and nothing changes.
pub proof fn law_unregister_local_writer<
    A: Authentication + ?Sized,
    P: AccessControl<A> + ?Sized,
    C: Cryptographic + ?Sized,
>(
    plugins: &mut SecurityPlugins<A, P, C>,
    writer: &GUID,
    result: SecurityResult<()>,
)
    requires
        call_ensures(
            SecurityPlugins::<A, P, C>::unregister_local_writer,
            (plugins, writer),
            result,
        ),
    ensures
        !old(plugins)@.local_endpoint_crypto.contains_key(*writer) ==> {
            &&& result == Err::<(), SecurityError>(
                SecurityError::LocalEndpointCryptoHandleNotFound(*writer),
            )
            &&& *final(plugins) == *old(plugins)
        },
        old(plugins)@.local_endpoint_crypto.contains_key(*writer) ==> exists|plugin: &mut C|
            {
                &&& #[trigger] call_ensures(
                    C::unregister_datawriter,
                    (plugin, old(plugins)@.local_endpoint_crypto[*writer]),
                    result,
                )
                &&& &*plugin == old(plugins).crypto()
                &&& &*final(plugin) == final(plugins).crypto()
            },
        final(plugins)@ == old(plugins)@,
        final(plugins).history() == old(plugins).history(),
        final(plugins).auth() == old(plugins).auth(),
        final(plugins).access() == old(plugins).access(),
{
}

} // verus!
