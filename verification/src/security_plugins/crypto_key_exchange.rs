//! The interface to the key exchange of the cryptographic plugin.

use vstd::prelude::*;

use crate::access_control::AccessControl;
use crate::authentication::Authentication;
use crate::cryptographic::Cryptographic;
use crate::error::{both, SecurityError, SecurityResult};
use crate::guid::{GuidPrefix, GUID};
use crate::types::{
    DatareaderCryptoToken, DatawriterCryptoToken, EndpointCryptoHandle, ParticipantCryptoHandle,
    ParticipantCryptoToken,
};

use super::SecurityPlugins;

verus! {

/// Interface for using the CryptoKeyExchange of the Cryptographic plugin.
impl<
    A: Authentication + ?Sized,
    P: AccessControl<A> + ?Sized,
    C: Cryptographic + ?Sized,
> SecurityPlugins<A, P, C> {
    /// The key material of the local participant that a remote one needs.
    pub fn create_local_participant_crypto_tokens(
        &mut self,
        local_participant_guidp: GuidPrefix,
        remote_participant_guidp: GuidPrefix,
    ) -> (result: SecurityResult<Vec<ParticipantCryptoToken>>)
        ensures
            match both(
                old(self)@.participant_crypto_handle(local_participant_guidp),
                old(self)@.participant_crypto_handle(remote_participant_guidp),
            ) {
                Ok((local_crypto, remote_crypto)) => {
                    &&& final(self).auth() == old(self).auth()
                    &&& final(self).access() == old(self).access()
                    &&& old(self).crypto().may_create_local_participant_crypto_tokens(
                        local_crypto,
                        remote_crypto,
                        result,
                        final(self).crypto().state(),
                    )
                    &&& final(self)@ == old(self)@
                    &&& final(self).history() == old(self).history()
                },
                Err(e) => {
                    &&& result == Err::<Vec<ParticipantCryptoToken>, SecurityError>(e)
                    &&& *final(self) == *old(self)
                },
            },
            old(self)@.participant_crypto.contains_key(local_participant_guidp)
                && old(self)@.participant_crypto.contains_key(remote_participant_guidp)
                ==> exists|plugin: &mut C|
                {
                    &&& #[trigger] call_ensures(
                        C::create_local_participant_crypto_tokens,
                        (
                            plugin,
                            old(self)@.participant_crypto[local_participant_guidp],
                            old(self)@.participant_crypto[remote_participant_guidp],
                        ),
                        result,
                    )
                    &&& &*plugin == old(self).crypto()
                    &&& &*final(plugin) == final(self).crypto()
                },
            final(self)@.retains(old(self)@),
            old(self)@.consistent() ==> final(self)@.consistent(),
            old(self).well_formed() ==> final(self).follows(old(self)),
    {
        let local_crypto_handle: ParticipantCryptoHandle = self.get_participant_crypto_handle(
            &local_participant_guidp,
        )?;
        let remote_crypto_handle: ParticipantCryptoHandle = self.get_participant_crypto_handle(
            &remote_participant_guidp,
        )?;
        let plugin: &mut C = &mut *self.crypto;
        plugin.create_local_participant_crypto_tokens(
            local_crypto_handle,
            remote_crypto_handle,
        )
    }

    /// The key material of a local writer that a remote reader needs.
    pub fn create_local_writer_crypto_tokens(
        &mut self,
        local_writer_guid: GUID,
        remote_reader_guid: GUID,
    ) -> (result: SecurityResult<Vec<ParticipantCryptoToken>>)
        ensures
            match both(
                old(self)@.local_endpoint_crypto_handle(local_writer_guid),
                old(self)@.remote_endpoint_crypto_handle(local_writer_guid, remote_reader_guid),
            ) {
                Ok((local_writer_crypto, remote_reader_crypto)) => {
                    &&& final(self).auth() == old(self).auth()
                    &&& final(self).access() == old(self).access()
                    &&& old(self).crypto().may_create_local_datawriter_crypto_tokens(
                        local_writer_crypto,
                        remote_reader_crypto,
                        result,
                        final(self).crypto().state(),
                    )
                    &&& final(self)@ == old(self)@
                    &&& final(self).history() == old(self).history()
                },
                Err(e) => {
                    &&& result == Err::<Vec<ParticipantCryptoToken>, SecurityError>(e)
                    &&& *final(self) == *old(self)
                },
            },
            old(self)@.local_endpoint_crypto.contains_key(local_writer_guid)
                && old(self)@.remote_endpoint_crypto.contains_key((local_writer_guid, remote_reader_guid))
                ==> exists|plugin: &mut C|
                {
                    &&& #[trigger] call_ensures(
                        C::create_local_datawriter_crypto_tokens,
                        (
                            plugin,
                            old(self)@.local_endpoint_crypto[local_writer_guid],
                            old(self)@.remote_endpoint_crypto[(local_writer_guid, remote_reader_guid)],
                        ),
                        result,
                    )
                    &&& &*plugin == old(self).crypto()
                    &&& &*final(plugin) == final(self).crypto()
                },
            final(self)@.retains(old(self)@),
            old(self)@.consistent() ==> final(self)@.consistent(),
            old(self).well_formed() ==> final(self).follows(old(self)),
    {
        let local_writer_crypto_handle: EndpointCryptoHandle =
            self.get_local_endpoint_crypto_handle(&local_writer_guid)?;
        let remote_reader_crypto_handle: EndpointCryptoHandle =
            self.get_remote_endpoint_crypto_handle((&local_writer_guid, &remote_reader_guid))?;
        let plugin: &mut C = &mut *self.crypto;
        plugin.create_local_datawriter_crypto_tokens(
            local_writer_crypto_handle,
            remote_reader_crypto_handle,
        )
    }

    /// The key material of a local reader that a remote writer needs.
    pub fn create_local_reader_crypto_tokens(
        &mut self,
        local_reader_guid: GUID,
        remote_writer_guid: GUID,
    ) -> (result: SecurityResult<Vec<ParticipantCryptoToken>>)
        ensures
            match both(
                old(self)@.local_endpoint_crypto_handle(local_reader_guid),
                old(self)@.remote_endpoint_crypto_handle(local_reader_guid, remote_writer_guid),
            ) {
                Ok((local_reader_crypto, remote_writer_crypto)) => {
                    &&& final(self).auth() == old(self).auth()
                    &&& final(self).access() == old(self).access()
                    &&& old(self).crypto().may_create_local_datareader_crypto_tokens(
                        local_reader_crypto,
                        remote_writer_crypto,
                        result,
                        final(self).crypto().state(),
                    )
                    &&& final(self)@ == old(self)@
                    &&& final(self).history() == old(self).history()
                },
                Err(e) => {
                    &&& result == Err::<Vec<ParticipantCryptoToken>, SecurityError>(e)
                    &&& *final(self) == *old(self)
                },
            },
            old(self)@.local_endpoint_crypto.contains_key(local_reader_guid)
                && old(self)@.remote_endpoint_crypto.contains_key((local_reader_guid, remote_writer_guid))
                ==> exists|plugin: &mut C|
                {
                    &&& #[trigger] call_ensures(
                        C::create_local_datareader_crypto_tokens,
                        (
                            plugin,
                            old(self)@.local_endpoint_crypto[local_reader_guid],
                            old(self)@.remote_endpoint_crypto[(local_reader_guid, remote_writer_guid)],
                        ),
                        result,
                    )
                    &&& &*plugin == old(self).crypto()
                    &&& &*final(plugin) == final(self).crypto()
                },
            final(self)@.retains(old(self)@),
            old(self)@.consistent() ==> final(self)@.consistent(),
            old(self).well_formed() ==> final(self).follows(old(self)),
    {
        let local_reader_crypto_handle: EndpointCryptoHandle =
            self.get_local_endpoint_crypto_handle(&local_reader_guid)?;
        let remote_writer_crypto_handle: EndpointCryptoHandle =
            self.get_remote_endpoint_crypto_handle((&local_reader_guid, &remote_writer_guid))?;
        let plugin: &mut C = &mut *self.crypto;
        plugin.create_local_datareader_crypto_tokens(
            local_reader_crypto_handle,
            remote_writer_crypto_handle,
        )
    }

    /// Takes in key material of a remote participant.
    pub fn set_remote_participant_crypto_tokens(
        &mut self,
        local_participant_guidp: GuidPrefix,
        remote_participant_guidp: GuidPrefix,
        remote_participant_tokens: Vec<ParticipantCryptoToken>,
    ) -> (result: SecurityResult<()>)
        ensures
            match both(
                old(self)@.participant_crypto_handle(local_participant_guidp),
                old(self)@.participant_crypto_handle(remote_participant_guidp),
            ) {
                Ok((local_crypto, remote_crypto)) => {
                    &&& final(self).auth() == old(self).auth()
                    &&& final(self).access() == old(self).access()
                    &&& old(self).crypto().may_set_remote_participant_crypto_tokens(
                        local_crypto,
                        remote_crypto,
                        remote_participant_tokens@,
                        result,
                        final(self).crypto().state(),
                    )
                    &&& final(self)@ == old(self)@
                    &&& final(self).history() == old(self).history()
                },
                Err(e) => {
                    &&& result == Err::<(), SecurityError>(e)
                    &&& *final(self) == *old(self)
                },
            },
            old(self)@.participant_crypto.contains_key(local_participant_guidp)
                && old(self)@.participant_crypto.contains_key(remote_participant_guidp)
                ==> exists|plugin: &mut C|
                {
                    &&& #[trigger] call_ensures(
                        C::set_remote_participant_crypto_tokens,
                        (
                            plugin,
                            old(self)@.participant_crypto[local_participant_guidp],
                            old(self)@.participant_crypto[remote_participant_guidp],
                            remote_participant_tokens,
                        ),
                        result,
                    )
                    &&& &*plugin == old(self).crypto()
                    &&& &*final(plugin) == final(self).crypto()
                },
            final(self)@.retains(old(self)@),
            old(self)@.consistent() ==> final(self)@.consistent(),
            old(self).well_formed() ==> final(self).follows(old(self)),
    {
        let local_crypto_handle: ParticipantCryptoHandle = self.get_participant_crypto_handle(
            &local_participant_guidp,
        )?;
        let remote_crypto_handle: ParticipantCryptoHandle = self.get_participant_crypto_handle(
            &remote_participant_guidp,
        )?;
        let plugin: &mut C = &mut *self.crypto;
        plugin.set_remote_participant_crypto_tokens(
            local_crypto_handle,
            remote_crypto_handle,
            remote_participant_tokens,
        )
    }

    /// Takes in key material of a remote writer that a local reader is matched
    /// with.
    pub fn set_remote_writer_crypto_tokens(
        &mut self,
        remote_writer_guid: GUID,
        local_reader_guid: GUID,
        remote_crypto_tokens: Vec<DatawriterCryptoToken>,
    ) -> (result: SecurityResult<()>)
        ensures
            match both(
                old(self)@.local_endpoint_crypto_handle(local_reader_guid),
                old(self)@.remote_endpoint_crypto_handle(local_reader_guid, remote_writer_guid),
            ) {
                Ok((local_reader_crypto, remote_writer_crypto)) => {
                    &&& final(self).auth() == old(self).auth()
                    &&& final(self).access() == old(self).access()
                    &&& old(self).crypto().may_set_remote_datawriter_crypto_tokens(
                        local_reader_crypto,
                        remote_writer_crypto,
                        remote_crypto_tokens@,
                        result,
                        final(self).crypto().state(),
                    )
                    &&& final(self)@ == old(self)@
                    &&& final(self).history() == old(self).history()
                },
                Err(e) => {
                    &&& result == Err::<(), SecurityError>(e)
                    &&& *final(self) == *old(self)
                },
            },
            old(self)@.local_endpoint_crypto.contains_key(local_reader_guid)
                && old(self)@.remote_endpoint_crypto.contains_key((local_reader_guid, remote_writer_guid))
                ==> exists|plugin: &mut C|
                {
                    &&& #[trigger] call_ensures(
                        C::set_remote_datawriter_crypto_tokens,
                        (
                            plugin,
                            old(self)@.local_endpoint_crypto[local_reader_guid],
                            old(self)@.remote_endpoint_crypto[(local_reader_guid, remote_writer_guid)],
                            remote_crypto_tokens,
                        ),
                        result,
                    )
                    &&& &*plugin == old(self).crypto()
                    &&& &*final(plugin) == final(self).crypto()
                },
            final(self)@.retains(old(self)@),
            old(self)@.consistent() ==> final(self)@.consistent(),
            old(self).well_formed() ==> final(self).follows(old(self)),
    {
        let local_reader_crypto_handle: EndpointCryptoHandle =
            self.get_local_endpoint_crypto_handle(&local_reader_guid)?;
        let remote_writer_crypto_handle: EndpointCryptoHandle =
            self.get_remote_endpoint_crypto_handle((&local_reader_guid, &remote_writer_guid))?;
        let plugin: &mut C = &mut *self.crypto;
        plugin.set_remote_datawriter_crypto_tokens(
            local_reader_crypto_handle,
            remote_writer_crypto_handle,
            remote_crypto_tokens,
        )
    }

    /// Takes in key material of a remote reader that a local writer is matched
    /// with.
    pub fn set_remote_reader_crypto_tokens(
        &mut self,
        remote_reader_guid: GUID,
        local_writer_guid: GUID,
        remote_crypto_tokens: Vec<DatareaderCryptoToken>,
    ) -> (result: SecurityResult<()>)
        ensures
            match both(
                old(self)@.local_endpoint_crypto_handle(local_writer_guid),
                old(self)@.remote_endpoint_crypto_handle(local_writer_guid, remote_reader_guid),
            ) {
                Ok((local_writer_crypto, remote_reader_crypto)) => {
                    &&& final(self).auth() == old(self).auth()
                    &&& final(self).access() == old(self).access()
                    &&& old(self).crypto().may_set_remote_datareader_crypto_tokens(
                        local_writer_crypto,
                        remote_reader_crypto,
                        remote_crypto_tokens@,
                        result,
                        final(self).crypto().state(),
                    )
                    &&& final(self)@ == old(self)@
                    &&& final(self).history() == old(self).history()
                },
                Err(e) => {
                    &&& result == Err::<(), SecurityError>(e)
                    &&& *final(self) == *old(self)
                },
            },
            old(self)@.local_endpoint_crypto.contains_key(local_writer_guid)
                && old(self)@.remote_endpoint_crypto.contains_key((local_writer_guid, remote_reader_guid))
                ==> exists|plugin: &mut C|
                {
                    &&& #[trigger] call_ensures(
                        C::set_remote_datareader_crypto_tokens,
                        (
                            plugin,
                            old(self)@.local_endpoint_crypto[local_writer_guid],
                            old(self)@.remote_endpoint_crypto[(local_writer_guid, remote_reader_guid)],
                            remote_crypto_tokens,
                        ),
                        result,
                    )
                    &&& &*plugin == old(self).crypto()
                    &&& &*final(plugin) == final(self).crypto()
                },
            final(self)@.retains(old(self)@),
            old(self)@.consistent() ==> final(self)@.consistent(),
            old(self).well_formed() ==> final(self).follows(old(self)),
    {
        let local_writer_crypto_handle: EndpointCryptoHandle =
            self.get_local_endpoint_crypto_handle(&local_writer_guid)?;
        let remote_reader_crypto_handle: EndpointCryptoHandle =
            self.get_remote_endpoint_crypto_handle((&local_writer_guid, &remote_reader_guid))?;
        let plugin: &mut C = &mut *self.crypto;
        plugin.set_remote_datareader_crypto_tokens(
            local_writer_crypto_handle,
            remote_reader_crypto_handle,
            remote_crypto_tokens,
        )
    }
}

} // verus!
