//! The interface to the key factory of the cryptographic plugin.

use vstd::prelude::*;

use crate::access_control::AccessControl;
use crate::authentication::Authentication;
use crate::cryptographic::Cryptographic;
use crate::error::{both, SecurityError, SecurityResult};
use crate::guid::{GuidPrefix, GUID};
use crate::history::{
    local_endpoint_event, local_participant_event, remote_endpoint_event, remote_participant_event,
};
use crate::qos::policy;
use crate::qos::policy::{into_properties, properties_of};
use crate::types::{
    DatareaderCryptoHandle, DatawriterCryptoHandle, EndpointSecurityAttributes, IdentityHandle,
    ParticipantCryptoHandle, ParticipantSecurityAttributes, PermissionsHandle, Property,
    SharedSecretHandle,
};

use super::SecurityPlugins;

verus! {

/// Interface for using the CryptoKeyFactory of the Cryptographic plugin.
impl<
    A: Authentication + ?Sized,
    P: AccessControl<A> + ?Sized,
    C: Cryptographic + ?Sized,
> SecurityPlugins<A, P, C> {
    /// What the registration of the local participant does with the handles found.
    pub open spec fn registers_local_participant(
        &self,
        identity: IdentityHandle,
        permissions: PermissionsHandle,
        participant_guidp: GuidPrefix,
        properties: Seq<Property>,
        attributes: ParticipantSecurityAttributes,
        result: SecurityResult<()>,
        post: &Self,
    ) -> bool {
        &&& post.auth() == self.auth()
        &&& post.access() == self.access()
        &&& exists|reply: SecurityResult<ParticipantCryptoHandle>|
            {
                &&& #[trigger] self.crypto().may_register_local_participant(
                    identity,
                    permissions,
                    properties,
                    attributes,
                    reply,
                    post.crypto().state(),
                )
                &&& self@.with_participant_marks(
                    participant_guidp,
                    attributes,
                ).takes_participant_crypto(
                    participant_guidp,
                    reply,
                    result,
                    post@,
                )
                &&& post.history() == self.history() + local_participant_event(
                    participant_guidp,
                    attributes,
                    reply,
                )
            }
    }

    /// Has key material made for the local participant and stores its handle.
    /// Where the attributes ask for no protection, that is noted, even if the
    /// plugin then fails.
    pub fn register_local_participant(
        &mut self,
        participant_guidp: GuidPrefix,
        participant_properties: Option<policy::Property>,
        participant_security_attributes: ParticipantSecurityAttributes,
    ) -> (result: SecurityResult<()>)
        ensures
            match both(
                old(self)@.identity_handle(participant_guidp),
                old(self)@.permissions_handle(participant_guidp),
            ) {
                Ok((identity, permissions)) => old(self).registers_local_participant(
                    identity,
                    permissions,
                    participant_guidp,
                    properties_of(participant_properties),
                    participant_security_attributes,
                    result,
                    final(self),
                ),
                Err(e) => {
                    &&& result == Err::<(), SecurityError>(e)
                    &&& *final(self) == *old(self)
                },
            },
            old(self)@.identities.contains_key(participant_guidp)
                && old(self)@.permissions.contains_key(participant_guidp) ==> exists|
                    reply: SecurityResult<ParticipantCryptoHandle>,
                    plugin: &mut C,
                    properties: &[Property],
                |
                    {
                        &&& #[trigger] call_ensures(
                            C::register_local_participant,
                            (
                                plugin,
                                old(self)@.identities[participant_guidp],
                                old(self)@.permissions[participant_guidp],
                                properties,
                                participant_security_attributes,
                            ),
                            reply,
                        )
                        &&& &*plugin == old(self).crypto()
                        &&& &*final(plugin) == final(self).crypto()
                        &&& properties@ == properties_of(participant_properties)
                        &&& old(self)@.with_participant_marks(
                            participant_guidp,
                            participant_security_attributes,
                        ).takes_participant_crypto(
                            participant_guidp,
                            reply,
                            result,
                            final(self)@,
                        )
                        &&& final(self).history() == old(self).history() + local_participant_event(
                            participant_guidp,
                            participant_security_attributes,
                            reply,
                        )
                    },
            final(self)@.retains(old(self)@),
            old(self)@.consistent() ==> final(self)@.consistent(),
            old(self).well_formed() ==> final(self).follows(old(self)),
    {
        let identity_handle: IdentityHandle = self.get_identity_handle(&participant_guidp)?;
        let permissions_handle: PermissionsHandle = self.get_permissions_handle(
            &participant_guidp,
        )?;
        let properties: Vec<Property> = into_properties(participant_properties);
        if !participant_security_attributes.is_rtps_protected {
            self.rtps_not_protected.insert(participant_guidp);
        }
        assert(self@ == old(self)@.with_participant_marks(
            participant_guidp,
            participant_security_attributes,
        ));
        let plugin: &mut C = &mut *self.crypto;
        let reply: SecurityResult<ParticipantCryptoHandle> = plugin.register_local_participant(
            identity_handle,
            permissions_handle,
            properties.as_slice(),
            participant_security_attributes,
        );
        assert(old(self).crypto().may_register_local_participant(
            identity_handle,
            permissions_handle,
            properties_of(participant_properties),
            participant_security_attributes,
            reply,
            self.crypto().state(),
        ));
        let ghost event = local_participant_event(
            participant_guidp,
            participant_security_attributes,
            reply,
        );
        let result: SecurityResult<()> = self.take_participant_crypto(participant_guidp, reply);
        self.record(Ghost(event));
        proof {
            Self::lemma_kept_in_order(old(self), event, self);
        }
        result
    }

    /// What the registration of a local reader does with the handle found.
    pub open spec fn registers_local_reader(
        &self,
        participant_crypto: ParticipantCryptoHandle,
        reader_guid: GUID,
        properties: Seq<Property>,
        attributes: EndpointSecurityAttributes,
        result: SecurityResult<()>,
        post: &Self,
    ) -> bool {
        &&& post.auth() == self.auth()
        &&& post.access() == self.access()
        &&& exists|reply: SecurityResult<DatareaderCryptoHandle>|
            {
                &&& #[trigger] self.crypto().may_register_local_datareader(
                    participant_crypto,
                    properties,
                    attributes,
                    reply,
                    post.crypto().state(),
                )
                &&& self@.with_endpoint_marks(
                    reader_guid,
                    attributes,
                ).takes_local_endpoint_crypto(
                    reader_guid,
                    reply,
                    result,
                    post@,
                )
                &&& post.history() == self.history() + local_endpoint_event(
                    reader_guid,
                    attributes,
                    reply,
                )
            }
    }

    /// Has key material made for a local reader and stores its handle. Where the
    /// attributes ask for no protection, that is noted, even if the plugin then
    /// fails.
    pub fn register_local_reader(
        &mut self,
        reader_guid: GUID,
        reader_properties: Option<policy::Property>,
        reader_security_attributes: EndpointSecurityAttributes,
    ) -> (result: SecurityResult<()>)
        ensures
            match old(self)@.participant_crypto_handle(reader_guid.prefix) {
                Ok(participant_crypto) => old(self).registers_local_reader(
                    participant_crypto,
                    reader_guid,
                    properties_of(reader_properties),
                    reader_security_attributes,
                    result,
                    final(self),
                ),
                Err(e) => {
                    &&& result == Err::<(), SecurityError>(e)
                    &&& *final(self) == *old(self)
                },
            },
            old(self)@.participant_crypto.contains_key(reader_guid.prefix) ==> exists|
                    reply: SecurityResult<DatareaderCryptoHandle>,
                    plugin: &mut C,
                    properties: &[Property],
                |
                    {
                        &&& #[trigger] call_ensures(
                            C::register_local_datareader,
                            (
                                plugin,
                                old(self)@.participant_crypto[reader_guid.prefix],
                                properties,
                                reader_security_attributes,
                            ),
                            reply,
                        )
                        &&& &*plugin == old(self).crypto()
                        &&& &*final(plugin) == final(self).crypto()
                        &&& properties@ == properties_of(reader_properties)
                        &&& old(self)@.with_endpoint_marks(
                            reader_guid,
                            reader_security_attributes,
                        ).takes_local_endpoint_crypto(
                            reader_guid,
                            reply,
                            result,
                            final(self)@,
                        )
                        &&& final(self).history() == old(self).history() + local_endpoint_event(
                            reader_guid,
                            reader_security_attributes,
                            reply,
                        )
                    },
            final(self)@.retains(old(self)@),
            old(self)@.consistent() ==> final(self)@.consistent(),
            old(self).well_formed() ==> final(self).follows(old(self)),
    {
        let participant_crypto_handle: ParticipantCryptoHandle =
            self.get_participant_crypto_handle(&reader_guid.prefix)?;
        let properties: Vec<Property> = into_properties(reader_properties);
        if !reader_security_attributes.is_submessage_protected {
            self.submessage_not_protected.insert(reader_guid);
        }
        if !reader_security_attributes.is_payload_protected {
            self.payload_not_protected.insert(reader_guid);
        }
        assert(self@ == old(self)@.with_endpoint_marks(reader_guid, reader_security_attributes));
        let plugin: &mut C = &mut *self.crypto;
        let reply: SecurityResult<DatareaderCryptoHandle> = plugin.register_local_datareader(
            participant_crypto_handle,
            properties.as_slice(),
            reader_security_attributes,
        );
        assert(old(self).crypto().may_register_local_datareader(
            participant_crypto_handle,
            properties_of(reader_properties),
            reader_security_attributes,
            reply,
            self.crypto().state(),
        ));
        let ghost event = local_endpoint_event(reader_guid, reader_security_attributes, reply);
        let result: SecurityResult<()> = self.take_local_endpoint_crypto(reader_guid, reply);
        self.record(Ghost(event));
        proof {
            Self::lemma_kept_in_order(old(self), event, self);
        }
        result
    }

    /// What the registration of a local writer does with the handle found.
    pub open spec fn registers_local_writer(
        &self,
        participant_crypto: ParticipantCryptoHandle,
        writer_guid: GUID,
        properties: Seq<Property>,
        attributes: EndpointSecurityAttributes,
        result: SecurityResult<()>,
        post: &Self,
    ) -> bool {
        &&& post.auth() == self.auth()
        &&& post.access() == self.access()
        &&& exists|reply: SecurityResult<DatawriterCryptoHandle>|
            {
                &&& #[trigger] self.crypto().may_register_local_datawriter(
                    participant_crypto,
                    properties,
                    attributes,
                    reply,
                    post.crypto().state(),
                )
                &&& self@.with_endpoint_marks(
                    writer_guid,
                    attributes,
                ).takes_local_endpoint_crypto(
                    writer_guid,
                    reply,
                    result,
                    post@,
                )
                &&& post.history() == self.history() + local_endpoint_event(
                    writer_guid,
                    attributes,
                    reply,
                )
            }
    }

    /// Has key material made for a local writer and stores its handle. Where the
    /// attributes ask for no protection, that is noted, even if the plugin then
    /// fails.
    pub fn register_local_writer(
        &mut self,
        writer_guid: GUID,
        writer_properties: Option<policy::Property>,
        writer_security_attributes: EndpointSecurityAttributes,
    ) -> (result: SecurityResult<()>)
        ensures
            match old(self)@.participant_crypto_handle(writer_guid.prefix) {
                Ok(participant_crypto) => old(self).registers_local_writer(
                    participant_crypto,
                    writer_guid,
                    properties_of(writer_properties),
                    writer_security_attributes,
                    result,
                    final(self),
                ),
                Err(e) => {
                    &&& result == Err::<(), SecurityError>(e)
                    &&& *final(self) == *old(self)
                },
            },
            old(self)@.participant_crypto.contains_key(writer_guid.prefix) ==> exists|
                    reply: SecurityResult<DatawriterCryptoHandle>,
                    plugin: &mut C,
                    properties: &[Property],
                |
                    {
                        &&& #[trigger] call_ensures(
                            C::register_local_datawriter,
                            (
                                plugin,
                                old(self)@.participant_crypto[writer_guid.prefix],
                                properties,
                                writer_security_attributes,
                            ),
                            reply,
                        )
                        &&& &*plugin == old(self).crypto()
                        &&& &*final(plugin) == final(self).crypto()
                        &&& properties@ == properties_of(writer_properties)
                        &&& old(self)@.with_endpoint_marks(
                            writer_guid,
                            writer_security_attributes,
                        ).takes_local_endpoint_crypto(
                            writer_guid,
                            reply,
                            result,
                            final(self)@,
                        )
                        &&& final(self).history() == old(self).history() + local_endpoint_event(
                            writer_guid,
                            writer_security_attributes,
                            reply,
                        )
                    },
            final(self)@.retains(old(self)@),
            old(self)@.consistent() ==> final(self)@.consistent(),
            old(self).well_formed() ==> final(self).follows(old(self)),
    {
        let participant_crypto_handle: ParticipantCryptoHandle =
            self.get_participant_crypto_handle(&writer_guid.prefix)?;
        let properties: Vec<Property> = into_properties(writer_properties);
        if !writer_security_attributes.is_submessage_protected {
            self.submessage_not_protected.insert(writer_guid);
        }
        if !writer_security_attributes.is_payload_protected {
            self.payload_not_protected.insert(writer_guid);
        }
        assert(self@ == old(self)@.with_endpoint_marks(writer_guid, writer_security_attributes));
        let plugin: &mut C = &mut *self.crypto;
        let reply: SecurityResult<DatawriterCryptoHandle> = plugin.register_local_datawriter(
            participant_crypto_handle,
            properties.as_slice(),
            writer_security_attributes,
        );
        assert(old(self).crypto().may_register_local_datawriter(
            participant_crypto_handle,
            properties_of(writer_properties),
            writer_security_attributes,
            reply,
            self.crypto().state(),
        ));
        let ghost event = local_endpoint_event(writer_guid, writer_security_attributes, reply);
        let result: SecurityResult<()> = self.take_local_endpoint_crypto(writer_guid, reply);
        self.record(Ghost(event));
        proof {
            Self::lemma_kept_in_order(old(self), event, self);
        }
        result
    }

    /// What the registration of a remote participant does with the handles found.
    pub open spec fn registers_matched_remote_participant(
        &self,
        local_crypto: ParticipantCryptoHandle,
        remote_identity: IdentityHandle,
        remote_permissions: PermissionsHandle,
        local_participant_guidp: GuidPrefix,
        remote_participant_guidp: GuidPrefix,
        shared_secret: SharedSecretHandle,
        result: SecurityResult<()>,
        post: &Self,
    ) -> bool {
        &&& post.auth() == self.auth()
        &&& post.access() == self.access()
        &&& exists|reply: SecurityResult<ParticipantCryptoHandle>|
            {
                &&& #[trigger] self.crypto().may_register_matched_remote_participant(
                    local_crypto,
                    remote_identity,
                    remote_permissions,
                    shared_secret,
                    reply,
                    post.crypto().state(),
                )
                &&& self@.takes_participant_crypto(
                    remote_participant_guidp,
                    reply,
                    result,
                    post@,
                )
                &&& post.history() == self.history() + remote_participant_event(
                    local_participant_guidp,
                    remote_participant_guidp,
                    reply,
                )
            }
    }

    /// Has key material made that is shared with a remote participant and stores
    /// its handle.
    pub fn register_matched_remote_participant(
        &mut self,
        local_participant_guidp: GuidPrefix,
        remote_participant_guidp: GuidPrefix,
        shared_secret: SharedSecretHandle,
    ) -> (result: SecurityResult<()>)
        ensures
            match both(
                old(self)@.participant_crypto_handle(local_participant_guidp),
                both(
                    old(self)@.identity_handle(remote_participant_guidp),
                    old(self)@.permissions_handle(remote_participant_guidp),
                ),
            ) {
                Ok((local_crypto, (remote_identity, remote_permissions))) => {
                    old(self).registers_matched_remote_participant(
                        local_crypto,
                        remote_identity,
                        remote_permissions,
                        local_participant_guidp,
                        remote_participant_guidp,
                        shared_secret,
                        result,
                        final(self),
                    )
                },
                Err(e) => {
                    &&& result == Err::<(), SecurityError>(e)
                    &&& *final(self) == *old(self)
                },
            },
            old(self)@.participant_crypto.contains_key(local_participant_guidp)
                && old(self)@.identities.contains_key(remote_participant_guidp)
                && old(self)@.permissions.contains_key(remote_participant_guidp) ==> exists|
                reply: SecurityResult<ParticipantCryptoHandle>,
                plugin: &mut C,
            |
                    {
                        &&& #[trigger] call_ensures(
                            C::register_matched_remote_participant,
                            (
                                plugin,
                                old(self)@.participant_crypto[local_participant_guidp],
                                old(self)@.identities[remote_participant_guidp],
                                old(self)@.permissions[remote_participant_guidp],
                                shared_secret,
                            ),
                            reply,
                        )
                        &&& &*plugin == old(self).crypto()
                        &&& &*final(plugin) == final(self).crypto()
                        &&& old(self)@.takes_participant_crypto(
                            remote_participant_guidp,
                            reply,
                            result,
                            final(self)@,
                        )
                        &&& final(self).history() == old(self).history() + remote_participant_event(
                            local_participant_guidp,
                            remote_participant_guidp,
                            reply,
                        )
                    },
            final(self)@.retains(old(self)@),
            old(self)@.consistent() ==> final(self)@.consistent(),
            old(self).well_formed() ==> final(self).follows(old(self)),
    {
        let local_crypto: ParticipantCryptoHandle = self.get_participant_crypto_handle(
            &local_participant_guidp,
        )?;
        let remote_identity: IdentityHandle = self.get_identity_handle(&remote_participant_guidp)?;
        let remote_permissions: PermissionsHandle = self.get_permissions_handle(
            &remote_participant_guidp,
        )?;
        let plugin: &mut C = &mut *self.crypto;
        let reply: SecurityResult<ParticipantCryptoHandle> =
            plugin.register_matched_remote_participant(
            local_crypto,
            remote_identity,
            remote_permissions,
            shared_secret,
        );
        assert(old(self).crypto().may_register_matched_remote_participant(
            local_crypto,
            remote_identity,
            remote_permissions,
            shared_secret,
            reply,
            self.crypto().state(),
        ));
        let ghost event = remote_participant_event(
            local_participant_guidp,
            remote_participant_guidp,
            reply,
        );
        let result: SecurityResult<()> =
            self.take_participant_crypto(remote_participant_guidp, reply);
        self.record(Ghost(event));
        proof {
            Self::lemma_kept_in_order(old(self), event, self);
        }
        result
    }

    /// What the registration of a remote reader does with the secret and the handles found.
    pub open spec fn registers_matched_remote_reader(
        &self,
        local_writer_crypto: DatawriterCryptoHandle,
        remote_participant_crypto: ParticipantCryptoHandle,
        shared_secret: SharedSecretHandle,
        remote_reader_guid: GUID,
        local_writer_guid: GUID,
        relay_only: bool,
        result: SecurityResult<()>,
        post: &Self,
    ) -> bool {
        &&& post.auth() == self.auth()
        &&& post.access() == self.access()
        &&& exists|reply: SecurityResult<DatareaderCryptoHandle>|
            {
                &&& #[trigger] self.crypto().may_register_matched_remote_datareader(
                    local_writer_crypto,
                    remote_participant_crypto,
                    shared_secret,
                    relay_only,
                    reply,
                    post.crypto().state(),
                )
                &&& self@.takes_remote_endpoint_crypto(
                    local_writer_guid,
                    remote_reader_guid,
                    reply,
                    result,
                    post@,
                )
                &&& post.history() == self.history() + remote_endpoint_event(
                    local_writer_guid,
                    remote_reader_guid,
                    reply,
                )
            }
    }

    /// Has key material made for a remote reader that a local writer is matched
    /// with, by the secret that the two participants share, and stores its handle
    /// for the pair.
    pub fn register_matched_remote_reader(
        &mut self,
        remote_reader_guid: GUID,
        local_writer_guid: GUID,
        relay_only: bool,
    ) -> (result: SecurityResult<()>)
        ensures
            exists|secret: SecurityResult<SharedSecretHandle>|
                {
                    &&& #[trigger] old(self).gives_shared_secret(remote_reader_guid.prefix, secret)
                    &&& match both(
                        secret,
                        both(
                            old(self)@.local_endpoint_crypto_handle(local_writer_guid),
                            old(self)@.participant_crypto_handle(remote_reader_guid.prefix),
                        ),
                    ) {
                        Ok((shared_secret, (local_writer_crypto, remote_participant_crypto))) => {
                            old(self).registers_matched_remote_reader(
                                local_writer_crypto,
                                remote_participant_crypto,
                                shared_secret,
                                remote_reader_guid,
                                local_writer_guid,
                                relay_only,
                                result,
                                final(self),
                            )
                        },
                        Err(e) => {
                            &&& result == Err::<(), SecurityError>(e)
                            &&& *final(self) == *old(self)
                        },
                    }
                },
            old(self)@.handshakes.contains_key(remote_reader_guid.prefix) ==> exists|
                secret: SecurityResult<SharedSecretHandle>,
            |
                {
                    &&& #[trigger] call_ensures(
                        A::get_shared_secret,
                        (old(self).auth(), old(self)@.handshakes[remote_reader_guid.prefix]),
                        secret,
                    )
                    &&& secret is Err ==> result == Err::<(), SecurityError>(secret->Err_0)
                        && *final(self) == *old(self)
                    &&& secret is Ok
                        && !old(self)@.local_endpoint_crypto.contains_key(local_writer_guid) ==> {
                        &&& result == Err::<(), SecurityError>(
                            SecurityError::LocalEndpointCryptoHandleNotFound(local_writer_guid),
                        )
                        &&& *final(self) == *old(self)
                    }
                    &&& secret is Ok && old(self)@.local_endpoint_crypto.contains_key(
                        local_writer_guid,
                    )
                        && !old(self)@.participant_crypto.contains_key(remote_reader_guid.prefix) ==> {
                        &&& result == Err::<(), SecurityError>(
                            SecurityError::ParticipantCryptoHandleNotFound(remote_reader_guid.prefix),
                        )
                        &&& *final(self) == *old(self)
                    }
                    &&& secret is Ok && old(self)@.local_endpoint_crypto.contains_key(
                        local_writer_guid,
                    )
                        && old(self)@.participant_crypto.contains_key(remote_reader_guid.prefix) ==> exists|
                        reply: SecurityResult<DatareaderCryptoHandle>,
                        plugin: &mut C,
                    |
                        {
                            &&& #[trigger] call_ensures(
                                C::register_matched_remote_datareader,
                                (
                                    plugin,
                                    old(self)@.local_endpoint_crypto[local_writer_guid],
                                    old(self)@.participant_crypto[remote_reader_guid.prefix],
                                    secret->Ok_0,
                                    relay_only,
                                ),
                                reply,
                            )
                            &&& &*plugin == old(self).crypto()
                            &&& &*final(plugin) == final(self).crypto()
                            &&& old(self)@.takes_remote_endpoint_crypto(
                                local_writer_guid,
                                remote_reader_guid,
                                reply,
                                result,
                                final(self)@,
                            )
                            &&& final(self).history() == old(self).history()
                                + remote_endpoint_event(local_writer_guid, remote_reader_guid, reply)
                        }
                },
            final(self)@.retains(old(self)@),
            old(self)@.consistent() ==> final(self)@.consistent(),
            old(self).well_formed() ==> final(self).follows(old(self)),
    {
        // First get the secret shared by the participants.
        let secret: SecurityResult<SharedSecretHandle> = self.get_shared_secret(
            remote_reader_guid.prefix,
        );
        assert(old(self).gives_shared_secret(remote_reader_guid.prefix, secret));
        let shared_secret: SharedSecretHandle = secret?;
        let local_writer_crypto: DatawriterCryptoHandle = self.get_local_endpoint_crypto_handle(
            &local_writer_guid,
        )?;
        let remote_participant_crypto: ParticipantCryptoHandle = self.get_participant_crypto_handle(
            &remote_reader_guid.prefix,
        )?;
        let plugin: &mut C = &mut *self.crypto;
        let reply: SecurityResult<DatareaderCryptoHandle> =
            plugin.register_matched_remote_datareader(
            local_writer_crypto,
            remote_participant_crypto,
            shared_secret,
            relay_only,
        );
        assert(old(self).crypto().may_register_matched_remote_datareader(
            local_writer_crypto,
            remote_participant_crypto,
            shared_secret,
            relay_only,
            reply,
            self.crypto().state(),
        ));
        let ghost event = remote_endpoint_event(local_writer_guid, remote_reader_guid, reply);
        let result: SecurityResult<()> =
            self.take_remote_endpoint_crypto(local_writer_guid, remote_reader_guid, reply);
        self.record(Ghost(event));
        proof {
            Self::lemma_kept_in_order(old(self), event, self);
        }
        result
    }

    /// What the registration of a remote writer does with the secret and the handles found.
    pub open spec fn registers_matched_remote_writer(
        &self,
        local_reader_crypto: DatareaderCryptoHandle,
        remote_participant_crypto: ParticipantCryptoHandle,
        shared_secret: SharedSecretHandle,
        remote_writer_guid: GUID,
        local_reader_guid: GUID,
        result: SecurityResult<()>,
        post: &Self,
    ) -> bool {
        &&& post.auth() == self.auth()
        &&& post.access() == self.access()
        &&& exists|reply: SecurityResult<DatawriterCryptoHandle>|
            {
                &&& #[trigger] self.crypto().may_register_matched_remote_datawriter(
                    local_reader_crypto,
                    remote_participant_crypto,
                    shared_secret,
                    reply,
                    post.crypto().state(),
                )
                &&& self@.takes_remote_endpoint_crypto(
                    local_reader_guid,
                    remote_writer_guid,
                    reply,
                    result,
                    post@,
                )
                &&& post.history() == self.history() + remote_endpoint_event(
                    local_reader_guid,
                    remote_writer_guid,
                    reply,
                )
            }
    }

    /// Has key material made for a remote writer that a local reader is matched
    /// with, by the secret that the two participants share, and stores its handle
    /// for the pair.
    pub fn register_matched_remote_writer(
        &mut self,
        remote_writer_guid: GUID,
        local_reader_guid: GUID,
    ) -> (result: SecurityResult<()>)
        ensures
            exists|secret: SecurityResult<SharedSecretHandle>|
                {
                    &&& #[trigger] old(self).gives_shared_secret(remote_writer_guid.prefix, secret)
                    &&& match both(
                        secret,
                        both(
                            old(self)@.local_endpoint_crypto_handle(local_reader_guid),
                            old(self)@.participant_crypto_handle(remote_writer_guid.prefix),
                        ),
                    ) {
                        Ok((shared_secret, (local_reader_crypto, remote_participant_crypto))) => {
                            old(self).registers_matched_remote_writer(
                                local_reader_crypto,
                                remote_participant_crypto,
                                shared_secret,
                                remote_writer_guid,
                                local_reader_guid,
                                result,
                                final(self),
                            )
                        },
                        Err(e) => {
                            &&& result == Err::<(), SecurityError>(e)
                            &&& *final(self) == *old(self)
                        },
                    }
                },
            old(self)@.handshakes.contains_key(remote_writer_guid.prefix) ==> exists|
                secret: SecurityResult<SharedSecretHandle>,
            |
                {
                    &&& #[trigger] call_ensures(
                        A::get_shared_secret,
                        (old(self).auth(), old(self)@.handshakes[remote_writer_guid.prefix]),
                        secret,
                    )
                    &&& secret is Err ==> result == Err::<(), SecurityError>(secret->Err_0)
                        && *final(self) == *old(self)
                    &&& secret is Ok
                        && !old(self)@.local_endpoint_crypto.contains_key(local_reader_guid) ==> {
                        &&& result == Err::<(), SecurityError>(
                            SecurityError::LocalEndpointCryptoHandleNotFound(local_reader_guid),
                        )
                        &&& *final(self) == *old(self)
                    }
                    &&& secret is Ok && old(self)@.local_endpoint_crypto.contains_key(
                        local_reader_guid,
                    )
                        && !old(self)@.participant_crypto.contains_key(remote_writer_guid.prefix) ==> {
                        &&& result == Err::<(), SecurityError>(
                            SecurityError::ParticipantCryptoHandleNotFound(remote_writer_guid.prefix),
                        )
                        &&& *final(self) == *old(self)
                    }
                    &&& secret is Ok && old(self)@.local_endpoint_crypto.contains_key(
                        local_reader_guid,
                    )
                        && old(self)@.participant_crypto.contains_key(remote_writer_guid.prefix) ==> exists|
                        reply: SecurityResult<DatawriterCryptoHandle>,
                        plugin: &mut C,
                    |
                        {
                            &&& #[trigger] call_ensures(
                                C::register_matched_remote_datawriter,
                                (
                                    plugin,
                                    old(self)@.local_endpoint_crypto[local_reader_guid],
                                    old(self)@.participant_crypto[remote_writer_guid.prefix],
                                    secret->Ok_0,
                                ),
                                reply,
                            )
                            &&& &*plugin == old(self).crypto()
                            &&& &*final(plugin) == final(self).crypto()
                            &&& old(self)@.takes_remote_endpoint_crypto(
                                local_reader_guid,
                                remote_writer_guid,
                                reply,
                                result,
                                final(self)@,
                            )
                            &&& final(self).history() == old(self).history()
                                + remote_endpoint_event(local_reader_guid, remote_writer_guid, reply)
                        }
                },
            final(self)@.retains(old(self)@),
            old(self)@.consistent() ==> final(self)@.consistent(),
            old(self).well_formed() ==> final(self).follows(old(self)),
    {
        // First get the secret shared by the participants.
        let secret: SecurityResult<SharedSecretHandle> = self.get_shared_secret(
            remote_writer_guid.prefix,
        );
        assert(old(self).gives_shared_secret(remote_writer_guid.prefix, secret));
        let shared_secret: SharedSecretHandle = secret?;
        let local_reader_crypto: DatareaderCryptoHandle = self.get_local_endpoint_crypto_handle(
            &local_reader_guid,
        )?;
        let remote_participant_crypto: ParticipantCryptoHandle = self.get_participant_crypto_handle(
            &remote_writer_guid.prefix,
        )?;
        let plugin: &mut C = &mut *self.crypto;
        let reply: SecurityResult<DatawriterCryptoHandle> =
            plugin.register_matched_remote_datawriter(
            local_reader_crypto,
            remote_participant_crypto,
            shared_secret,
        );
        assert(old(self).crypto().may_register_matched_remote_datawriter(
            local_reader_crypto,
            remote_participant_crypto,
            shared_secret,
            reply,
            self.crypto().state(),
        ));
        let ghost event = remote_endpoint_event(local_reader_guid, remote_writer_guid, reply);
        let result: SecurityResult<()> =
            self.take_remote_endpoint_crypto(local_reader_guid, remote_writer_guid, reply);
        self.record(Ghost(event));
        proof {
            Self::lemma_kept_in_order(old(self), event, self);
        }
        result
    }

    /// Has the key material of a local reader discarded. The handle stays stored.
    pub fn unregister_local_reader(&mut self, reader_guid: &GUID) -> (result: SecurityResult<()>)
        ensures
            match old(self)@.local_endpoint_crypto_handle(*reader_guid) {
                Ok(handle) => {
                    &&& final(self).auth() == old(self).auth()
                    &&& final(self).access() == old(self).access()
                    &&& old(self).crypto().may_unregister_datareader(
                        handle,
                        result,
                        final(self).crypto().state(),
                    )
                    &&& final(self)@ == old(self)@
                    &&& final(self).history() == old(self).history()
                },
                Err(e) => {
                    &&& result == Err::<(), SecurityError>(e)
                    &&& *final(self) == *old(self)
                },
            },
            old(self)@.local_endpoint_crypto.contains_key(*reader_guid) ==> exists|plugin: &mut C|
                {
                    &&& #[trigger] call_ensures(
                        C::unregister_datareader,
                        (plugin, old(self)@.local_endpoint_crypto[*reader_guid]),
                        result,
                    )
                    &&& &*plugin == old(self).crypto()
                    &&& &*final(plugin) == final(self).crypto()
                },
            final(self)@.retains(old(self)@),
            old(self)@.consistent() ==> final(self)@.consistent(),
            old(self).well_formed() ==> final(self).follows(old(self)),
    {
        let handle: DatareaderCryptoHandle = self.get_local_endpoint_crypto_handle(reader_guid)?;
        let plugin: &mut C = &mut *self.crypto;
        plugin.unregister_datareader(handle)
    }

    /// Has the key material of a local writer discarded. The handle stays stored.
    pub fn unregister_local_writer(&mut self, writer_guid: &GUID) -> (result: SecurityResult<()>)
        ensures
            match old(self)@.local_endpoint_crypto_handle(*writer_guid) {
                Ok(handle) => {
                    &&& final(self).auth() == old(self).auth()
                    &&& final(self).access() == old(self).access()
                    &&& old(self).crypto().may_unregister_datawriter(
                        handle,
                        result,
                        final(self).crypto().state(),
                    )
                    &&& final(self)@ == old(self)@
                    &&& final(self).history() == old(self).history()
                },
                Err(e) => {
                    &&& result == Err::<(), SecurityError>(e)
                    &&& *final(self) == *old(self)
                },
            },
            old(self)@.local_endpoint_crypto.contains_key(*writer_guid) ==> exists|plugin: &mut C|
                {
                    &&& #[trigger] call_ensures(
                        C::unregister_datawriter,
                        (plugin, old(self)@.local_endpoint_crypto[*writer_guid]),
                        result,
                    )
                    &&& &*plugin == old(self).crypto()
                    &&& &*final(plugin) == final(self).crypto()
                },
            final(self)@.retains(old(self)@),
            old(self)@.consistent() ==> final(self)@.consistent(),
            old(self).well_formed() ==> final(self).follows(old(self)),
    {
        let handle: DatawriterCryptoHandle = self.get_local_endpoint_crypto_handle(writer_guid)?;
        let plugin: &mut C = &mut *self.crypto;
        plugin.unregister_datawriter(handle)
    }
}

} // verus!
