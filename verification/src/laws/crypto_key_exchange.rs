//! What the operations that exchange key material do, call by call.

use vstd::prelude::*;

use crate::access_control::AccessControl;
use crate::authentication::Authentication;
use crate::cryptographic::Cryptographic;
use crate::error::{SecurityError, SecurityResult};
use crate::guid::{GuidPrefix, GUID};
use crate::security_plugins::SecurityPlugins;
use crate::types::{DatareaderCryptoToken, DatawriterCryptoToken, ParticipantCryptoToken};

verus! {

/// The key material for a remote participant is what the cryptographic plugin
/// makes for the crypto handles of the local participant and of the remote one, in
/// this order. Nothing is stored. Without one of the handles the error names the
/// first participant that lacks one, and nothing changes.
pub proof fn law_create_local_participant_crypto_tokens<
    A: Authentication + ?Sized,
    P: AccessControl<A> + ?Sized,
    C: Cryptographic + ?Sized,
>(
    plugins: &mut SecurityPlugins<A, P, C>,
    local: GuidPrefix,
    remote: GuidPrefix,
    result: SecurityResult<Vec<ParticipantCryptoToken>>,
)
    requires
        call_ensures(
            SecurityPlugins::<A, P, C>::create_local_participant_crypto_tokens,
            (plugins, local, remote),
            result,
        ),
    ensures
        !old(plugins)@.participant_crypto.contains_key(local) ==> {
            &&& result == Err::<Vec<ParticipantCryptoToken>, SecurityError>(
                SecurityError::ParticipantCryptoHandleNotFound(local),
            )
            &&& *final(plugins) == *old(plugins)
        },
        old(plugins)@.participant_crypto.contains_key(local)
            && !old(plugins)@.participant_crypto.contains_key(remote) ==> {
            &&& result == Err::<Vec<ParticipantCryptoToken>, SecurityError>(
                SecurityError::ParticipantCryptoHandleNotFound(remote),
            )
            &&& *final(plugins) == *old(plugins)
        },
        old(plugins)@.participant_crypto.contains_key(local)
            && old(plugins)@.participant_crypto.contains_key(remote) ==> exists|plugin: &mut C|
            {
                &&& #[trigger] call_ensures(
                    C::create_local_participant_crypto_tokens,
                    (
                        plugin,
                        old(plugins)@.participant_crypto[local],
                        old(plugins)@.participant_crypto[remote],
                    ),
                    result,
                )
                &&& &*plugin == old(plugins).crypto()
                &&& &*final(plugin) == final(plugins).crypto()
            },
        final(plugins)@ == old(plugins)@,
        final(plugins).history() == old(plugins).history(),
        final(plugins).auth() == old(plugins).auth(),
        final(plugins).access() == old(plugins).access(),
{
}

/// The key material given is taken in by the cryptographic plugin for the crypto
/// handles of the local participant and of the remote one, in this order. Nothing
/// is stored. Without one of the handles the error names the first participant
/// that lacks one, and nothing changes.
pub proof fn law_set_remote_participant_crypto_tokens<
    A: Authentication + ?Sized,
    P: AccessControl<A> + ?Sized,
    C: Cryptographic + ?Sized,
>(
    plugins: &mut SecurityPlugins<A, P, C>,
    local: GuidPrefix,
    remote: GuidPrefix,
    tokens: Vec<ParticipantCryptoToken>,
    result: SecurityResult<()>,
)
    requires
        call_ensures(
            SecurityPlugins::<A, P, C>::set_remote_participant_crypto_tokens,
            (plugins, local, remote, tokens),
            result,
        ),
    ensures
        !old(plugins)@.participant_crypto.contains_key(local) ==> {
            &&& result == Err::<(), SecurityError>(
                SecurityError::ParticipantCryptoHandleNotFound(local),
            )
            &&& *final(plugins) == *old(plugins)
        },
        old(plugins)@.participant_crypto.contains_key(local)
            && !old(plugins)@.participant_crypto.contains_key(remote) ==> {
            &&& result == Err::<(), SecurityError>(
                SecurityError::ParticipantCryptoHandleNotFound(remote),
            )
            &&& *final(plugins) == *old(plugins)
        },
        old(plugins)@.participant_crypto.contains_key(local)
            && old(plugins)@.participant_crypto.contains_key(remote) ==> exists|plugin: &mut C|
            {
                &&& #[trigger] call_ensures(
                    C::set_remote_participant_crypto_tokens,
                    (
                        plugin,
                        old(plugins)@.participant_crypto[local],
                        old(plugins)@.participant_crypto[remote],
                        tokens,
                    ),
                    result,
                )
                &&& &*plugin == old(plugins).crypto()
                &&& &*final(plugin) == final(plugins).crypto()
            },
        final(plugins)@ == old(plugins)@,
        final(plugins).history() == old(plugins).history(),
        final(plugins).auth() == old(plugins).auth(),
        final(plugins).access() == old(plugins).access(),
{
}

/// The key material of a local writer for a remote reader is what the
/// cryptographic plugin makes for the writer's crypto handle and for that of the
/// reader as matched with it, in this order. Nothing is stored. Without the
/// writer's own handle, or else without that of the pair, the error says so and
/// nothing changes.
pub proof fn law_create_local_writer_crypto_tokens<
    A: Authentication + ?Sized,
    P: AccessControl<A> + ?Sized,
    C: Cryptographic + ?Sized,
>(
    plugins: &mut SecurityPlugins<A, P, C>,
    writer: GUID,
    reader: GUID,
    result: SecurityResult<Vec<ParticipantCryptoToken>>,
)
    requires
        call_ensures(
            SecurityPlugins::<A, P, C>::create_local_writer_crypto_tokens,
            (plugins, writer, reader),
            result,
        ),
    ensures
        !old(plugins)@.local_endpoint_crypto.contains_key(writer) ==> {
            &&& result == Err::<Vec<ParticipantCryptoToken>, SecurityError>(
                SecurityError::LocalEndpointCryptoHandleNotFound(writer),
            )
            &&& *final(plugins) == *old(plugins)
        },
        old(plugins)@.local_endpoint_crypto.contains_key(writer)
            && !old(plugins)@.remote_endpoint_crypto.contains_key((writer, reader)) ==> {
            &&& result == Err::<Vec<ParticipantCryptoToken>, SecurityError>(
                (SecurityError::RemoteEndpointCryptoHandleNotFound {
                    local_endpoint: writer,
                    proxy: reader,
                }),
            )
            &&& *final(plugins) == *old(plugins)
        },
        old(plugins)@.local_endpoint_crypto.contains_key(writer)
            && old(plugins)@.remote_endpoint_crypto.contains_key((writer, reader))
            ==> exists|plugin: &mut C|
            {
                &&& #[trigger] call_ensures(
                    C::create_local_datawriter_crypto_tokens,
                    (
                        plugin,
                        old(plugins)@.local_endpoint_crypto[writer],
                        old(plugins)@.remote_endpoint_crypto[(writer, reader)],
                    ),
                    result,
                )
                &&& &*plugin == old(plugins).crypto()
                &&& &*final(plugin) == final(plugins).crypto()
            },
        final(plugins)@ == old(plugins)@,
        final(plugins).history() == old(plugins).history(),
        final(plugins).auth() == old(plugins).auth(),
        final(plugins).access() == old(plugins).access(),
{
}

/// The key material of a remote reader is taken in by the cryptographic plugin for
/// the crypto handle of the local writer and for that of the reader as matched
/// with it, in this order. Nothing is stored. Without the writer's own handle, or
/// else without that of the pair, the error says so and nothing changes.
pub proof fn law_set_remote_reader_crypto_tokens<
    A: Authentication + ?Sized,
    P: AccessControl<A> + ?Sized,
    C: Cryptographic + ?Sized,
>(
    plugins: &mut SecurityPlugins<A, P, C>,
    reader: GUID,
    writer: GUID,
    tokens: Vec<DatareaderCryptoToken>,
    result: SecurityResult<()>,
)
    requires
        call_ensures(
            SecurityPlugins::<A, P, C>::set_remote_reader_crypto_tokens,
            (plugins, reader, writer, tokens),
            result,
        ),
    ensures
        !old(plugins)@.local_endpoint_crypto.contains_key(writer) ==> {
            &&& result == Err::<(), SecurityError>(
                SecurityError::LocalEndpointCryptoHandleNotFound(writer),
            )
            &&& *final(plugins) == *old(plugins)
        },
        old(plugins)@.local_endpoint_crypto.contains_key(writer)
            && !old(plugins)@.remote_endpoint_crypto.contains_key((writer, reader)) ==> {
            &&& result == Err::<(), SecurityError>(
                (SecurityError::RemoteEndpointCryptoHandleNotFound {
                    local_endpoint: writer,
                    proxy: reader,
                }),
            )
            &&& *final(plugins) == *old(plugins)
        },
        old(plugins)@.local_endpoint_crypto.contains_key(writer)
            && old(plugins)@.remote_endpoint_crypto.contains_key((writer, reader))
            ==> exists|plugin: &mut C|
            {
                &&& #[trigger] call_ensures(
                    C::set_remote_datareader_crypto_tokens,
                    (
                        plugin,
                        old(plugins)@.local_endpoint_crypto[writer],
                        old(plugins)@.remote_endpoint_crypto[(writer, reader)],
                        tokens,
                    ),
                    result,
                )
                &&& &*plugin == old(plugins).crypto()
                &&& &*final(plugin) == final(plugins).crypto()
            },
        final(plugins)@ == old(plugins)@,
        final(plugins).history() == old(plugins).history(),
        final(plugins).auth() == old(plugins).auth(),
        final(plugins).access() == old(plugins).access(),
{
}

/// The key material of a local reader for a remote writer is what the
/// cryptographic plugin makes for the reader's crypto handle and for that of the
/// writer as matched with it, in this order. Nothing is stored. Without the
/// reader's own handle, or else without that of the pair, the error says so and
/// nothing changes.
pub proof fn law_create_local_reader_crypto_tokens<
    A: Authentication + ?Sized,
    P: AccessControl<A> + ?Sized,
    C: Cryptographic + ?Sized,
>(
    plugins: &mut SecurityPlugins<A, P, C>,
    reader: GUID,
    writer: GUID,
    result: SecurityResult<Vec<ParticipantCryptoToken>>,
)
    requires
        call_ensures(
            SecurityPlugins::<A, P, C>::create_local_reader_crypto_tokens,
            (plugins, reader, writer),
            result,
        ),
    ensures
        !old(plugins)@.local_endpoint_crypto.contains_key(reader) ==> {
            &&& result == Err::<Vec<ParticipantCryptoToken>, SecurityError>(
                SecurityError::LocalEndpointCryptoHandleNotFound(reader),
            )
            &&& *final(plugins) == *old(plugins)
        },
        old(plugins)@.local_endpoint_crypto.contains_key(reader)
            && !old(plugins)@.remote_endpoint_crypto.contains_key((reader, writer)) ==> {
            &&& result == Err::<Vec<ParticipantCryptoToken>, SecurityError>(
                (SecurityError::RemoteEndpointCryptoHandleNotFound {
                    local_endpoint: reader,
                    proxy: writer,
                }),
            )
            &&& *final(plugins) == *old(plugins)
        },
        old(plugins)@.local_endpoint_crypto.contains_key(reader)
            && old(plugins)@.remote_endpoint_crypto.contains_key((reader, writer))
            ==> exists|plugin: &mut C|
            {
                &&& #[trigger] call_ensures(
                    C::create_local_datareader_crypto_tokens,
                    (
                        plugin,
                        old(plugins)@.local_endpoint_crypto[reader],
                        old(plugins)@.remote_endpoint_crypto[(reader, writer)],
                    ),
                    result,
                )
                &&& &*plugin == old(plugins).crypto()
                &&& &*final(plugin) == final(plugins).crypto()
            },
        final(plugins)@ == old(plugins)@,
        final(plugins).history() == old(plugins).history(),
        final(plugins).auth() == old(plugins).auth(),
        final(plugins).access() == old(plugins).access(),
{
}

/// The key material of a remote writer is taken in by the cryptographic plugin for
/// the crypto handle of the local reader and for that of the writer as matched
/// with it, in this order. Nothing is stored. Without the reader's own handle, or
/// else without that of the pair, the error says so and nothing changes.
pub proof fn law_set_remote_writer_crypto_tokens<
    A: Authentication + ?Sized,
    P: AccessControl<A> + ?Sized,
    C: Cryptographic + ?Sized,
>(
    plugins: &mut SecurityPlugins<A, P, C>,
    writer: GUID,
    reader: GUID,
    tokens: Vec<DatawriterCryptoToken>,
    result: SecurityResult<()>,
)
    requires
        call_ensures(
            SecurityPlugins::<A, P, C>::set_remote_writer_crypto_tokens,
            (plugins, writer, reader, tokens),
            result,
        ),
    ensures
        !old(plugins)@.local_endpoint_crypto.contains_key(reader) ==> {
            &&& result == Err::<(), SecurityError>(
                SecurityError::LocalEndpointCryptoHandleNotFound(reader),
            )
            &&& *final(plugins) == *old(plugins)
        },
        old(plugins)@.local_endpoint_crypto.contains_key(reader)
            && !old(plugins)@.remote_endpoint_crypto.contains_key((reader, writer)) ==> {
            &&& result == Err::<(), SecurityError>(
                (SecurityError::RemoteEndpointCryptoHandleNotFound {
                    local_endpoint: reader,
                    proxy: writer,
                }),
            )
            &&& *final(plugins) == *old(plugins)
        },
        old(plugins)@.local_endpoint_crypto.contains_key(reader)
            && old(plugins)@.remote_endpoint_crypto.contains_key((reader, writer))
            ==> exists|plugin: &mut C|
            {
                &&& #[trigger] call_ensures(
                    C::set_remote_datawriter_crypto_tokens,
                    (
                        plugin,
                        old(plugins)@.local_endpoint_crypto[reader],
                        old(plugins)@.remote_endpoint_crypto[(reader, writer)],
                        tokens,
                    ),
                    result,
                )
                &&& &*plugin == old(plugins).crypto()
                &&& &*final(plugin) == final(plugins).crypto()
            },
        final(plugins)@ == old(plugins)@,
        final(plugins).history() == old(plugins).history(),
        final(plugins).auth() == old(plugins).auth(),
        final(plugins).access() == old(plugins).access(),
{
}

} // verus!
