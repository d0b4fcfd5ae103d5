//! The interface to the access control plugin.

use vstd::prelude::*;

use crate::access_control::AccessControl;
use crate::authentication::Authentication;
use crate::cryptographic::Cryptographic;
use crate::error::{both, SecurityError, SecurityResult};
use crate::guid::{GuidPrefix, GUID};
use crate::history::{local_permissions_event, remote_permissions_event};
use crate::qos::QosPolicies;
use crate::types::{
    AuthenticatedPeerCredentialToken, EndpointSecurityAttributes, IdentityHandle,
    ParticipantBuiltinTopicDataSecure, ParticipantSecurityAttributes, PermissionsCredentialToken,
    PermissionsHandle, PermissionsToken,
};

use super::SecurityPlugins;

verus! {

/// Interface for using the Access control plugin.
impl<
    A: Authentication + ?Sized,
    P: AccessControl<A> + ?Sized,
    C: Cryptographic + ?Sized,
> SecurityPlugins<A, P, C> {
    /// What the validation of the local participant's permissions does with the handle
    /// found.
    pub open spec fn validates_local_permissions(
        &self,
        identity: IdentityHandle,
        domain_id: u16,
        participant_guidp: GuidPrefix,
        participant_qos: QosPolicies,
        result: SecurityResult<()>,
        post: &Self,
    ) -> bool {
        &&& post.auth() == self.auth()
        &&& post.crypto() == self.crypto()
        &&& exists|reply: SecurityResult<PermissionsHandle>|
            {
                &&& #[trigger] self.access().may_validate_local_permissions(
                    self.auth(),
                    identity,
                    domain_id,
                    participant_qos,
                    reply,
                    post.access().state(),
                )
                &&& self@.takes_permissions(
                    participant_guidp,
                    reply,
                    result,
                    post@,
                )
                &&& post.history() == self.history() + local_permissions_event(
                    participant_guidp,
                    reply,
                )
            }
    }

    /// Has the permissions of the local participant validated and stores their
    /// handle.
    pub fn validate_local_permissions(
        &mut self,
        domain_id: u16,
        participant_guidp: GuidPrefix,
        participant_qos: &QosPolicies,
    ) -> (result: SecurityResult<()>)
        ensures
            match old(self)@.identity_handle(participant_guidp) {
                Ok(identity) => old(self).validates_local_permissions(
                    identity,
                    domain_id,
                    participant_guidp,
                    *participant_qos,
                    result,
                    final(self),
                ),
                Err(e) => {
                    &&& result == Err::<(), SecurityError>(e)
                    &&& *final(self) == *old(self)
                },
            },
            old(self)@.identities.contains_key(participant_guidp) ==> exists|
                reply: SecurityResult<PermissionsHandle>,
                plugin: &mut P,
            |
                    {
                        &&& #[trigger] call_ensures(
                            P::validate_local_permissions,
                            (
                                plugin,
                                old(self).auth(),
                                old(self)@.identities[participant_guidp],
                                domain_id,
                                participant_qos,
                            ),
                            reply,
                        )
                        &&& &*plugin == old(self).access()
                        &&& &*final(plugin) == final(self).access()
                        &&& old(self)@.takes_permissions(
                            participant_guidp,
                            reply,
                            result,
                            final(self)@,
                        )
                        &&& final(self).history() == old(self).history() + local_permissions_event(
                            participant_guidp,
                            reply,
                        )
                    },
            final(self)@.retains(old(self)@),
            old(self)@.consistent() ==> final(self)@.consistent(),
            old(self).well_formed() ==> final(self).follows(old(self)),
    {
        let identity_handle: IdentityHandle = self.get_identity_handle(&participant_guidp)?;
        let plugin: &mut P = &mut *self.access;
        let reply: SecurityResult<PermissionsHandle> = plugin.validate_local_permissions(
            &*self.auth,
            identity_handle,
            domain_id,
            participant_qos,
        );
        assert(old(self).access().may_validate_local_permissions(
            old(self).auth(),
            identity_handle,
            domain_id,
            *participant_qos,
            reply,
            self.access().state(),
        ));
        let ghost event = local_permissions_event(participant_guidp, reply);
        let result: SecurityResult<()> = self.take_permissions(participant_guidp, reply);
        self.record(Ghost(event));
        proof {
            Self::lemma_kept_in_order(old(self), event, self);
        }
        result
    }

    /// What the validation of a remote participant's permissions does with the handles
    /// found.
    pub open spec fn validates_remote_permissions(
        &self,
        local_identity: IdentityHandle,
        remote_identity: IdentityHandle,
        local_participant_guidp: GuidPrefix,
        remote_participant_guidp: GuidPrefix,
        remote_permissions_token: PermissionsToken,
        remote_credential_token: AuthenticatedPeerCredentialToken,
        result: SecurityResult<()>,
        post: &Self,
    ) -> bool {
        &&& post.auth() == self.auth()
        &&& post.crypto() == self.crypto()
        &&& exists|reply: SecurityResult<PermissionsHandle>|
            {
                &&& #[trigger] self.access().may_validate_remote_permissions(
                    self.auth(),
                    local_identity,
                    remote_identity,
                    remote_permissions_token,
                    remote_credential_token,
                    reply,
                    post.access().state(),
                )
                &&& self@.takes_permissions(
                    remote_participant_guidp,
                    reply,
                    result,
                    post@,
                )
                &&& post.history() == self.history() + remote_permissions_event(
                    local_participant_guidp,
                    remote_participant_guidp,
                    reply,
                )
            }
    }

    /// Has the permissions of a remote participant validated and stores their
    /// handle.
    pub fn validate_remote_permissions(
        &mut self,
        local_participant_guidp: GuidPrefix,
        remote_participant_guidp: GuidPrefix,
        remote_permissions_token: &PermissionsToken,
        remote_credential_token: &AuthenticatedPeerCredentialToken,
    ) -> (result: SecurityResult<()>)
        ensures
            match both(
                old(self)@.identity_handle(local_participant_guidp),
                old(self)@.identity_handle(remote_participant_guidp),
            ) {
                Ok((local_identity, remote_identity)) => old(self).validates_remote_permissions(
                    local_identity,
                    remote_identity,
                    local_participant_guidp,
                    remote_participant_guidp,
                    *remote_permissions_token,
                    *remote_credential_token,
                    result,
                    final(self),
                ),
                Err(e) => {
                    &&& result == Err::<(), SecurityError>(e)
                    &&& *final(self) == *old(self)
                },
            },
            old(self)@.identities.contains_key(local_participant_guidp)
                && old(self)@.identities.contains_key(remote_participant_guidp) ==> exists|
                reply: SecurityResult<PermissionsHandle>,
                plugin: &mut P,
            |
                    {
                        &&& #[trigger] call_ensures(
                            P::validate_remote_permissions,
                            (
                                plugin,
                                old(self).auth(),
                                old(self)@.identities[local_participant_guidp],
                                old(self)@.identities[remote_participant_guidp],
                                remote_permissions_token,
                                remote_credential_token,
                            ),
                            reply,
                        )
                        &&& &*plugin == old(self).access()
                        &&& &*final(plugin) == final(self).access()
                        &&& old(self)@.takes_permissions(
                            remote_participant_guidp,
                            reply,
                            result,
                            final(self)@,
                        )
                        &&& final(self).history() == old(self).history() + remote_permissions_event(
                            local_participant_guidp,
                            remote_participant_guidp,
                            reply,
                        )
                    },
            final(self)@.retains(old(self)@),
            old(self)@.consistent() ==> final(self)@.consistent(),
            old(self).well_formed() ==> final(self).follows(old(self)),
    {
        let local_id_handle: IdentityHandle = self.get_identity_handle(&local_participant_guidp)?;
        let remote_id_handle: IdentityHandle = self.get_identity_handle(&remote_participant_guidp)?;
        let plugin: &mut P = &mut *self.access;
        let reply: SecurityResult<PermissionsHandle> = plugin.validate_remote_permissions(
            &*self.auth,
            local_id_handle,
            remote_id_handle,
            remote_permissions_token,
            remote_credential_token,
        );
        assert(old(self).access().may_validate_remote_permissions(
            old(self).auth(),
            local_id_handle,
            remote_id_handle,
            *remote_permissions_token,
            *remote_credential_token,
            reply,
            self.access().state(),
        ));
        let ghost event = remote_permissions_event(
            local_participant_guidp,
            remote_participant_guidp,
            reply,
        );
        let result: SecurityResult<()> = self.take_permissions(remote_participant_guidp, reply);
        self.record(Ghost(event));
        proof {
            Self::lemma_kept_in_order(old(self), event, self);
        }
        result
    }

    /// Whether the local participant may join the domain.
    pub fn check_create_participant(
        &self,
        domain_id: u16,
        participant_guidp: GuidPrefix,
        qos: &QosPolicies,
    ) -> (result: SecurityResult<()>)
        ensures
            match self@.permissions_handle(participant_guidp) {
                Ok(handle) => self.access().may_check_create_participant(
                    handle,
                    domain_id,
                    *qos,
                    result,
                ),
                Err(e) => result == Err::<(), SecurityError>(e),
            },
            self@.permissions.contains_key(participant_guidp) ==> call_ensures(
                P::check_create_participant,
                (self.access(), self@.permissions[participant_guidp], domain_id, qos),
                result,
            ),
    {
        let handle: PermissionsHandle = self.get_permissions_handle(&participant_guidp)?;
        let plugin: &P = &*self.access;
        plugin.check_create_participant(handle, domain_id, qos)
    }

    /// Whether a remote participant may join the domain.
    pub fn check_remote_participant(
        &self,
        domain_id: u16,
        participant_guidp: GuidPrefix,
    ) -> (result: SecurityResult<()>)
        ensures
            match self@.permissions_handle(participant_guidp) {
                Ok(handle) => self.access().may_check_remote_participant(
                    handle,
                    domain_id,
                    None::<&ParticipantBuiltinTopicDataSecure>,
                    result,
                ),
                Err(e) => result == Err::<(), SecurityError>(e),
            },
            self@.permissions.contains_key(participant_guidp) ==> call_ensures(
                P::check_remote_participant,
                (
                    self.access(),
                    self@.permissions[participant_guidp],
                    domain_id,
                    None::<&ParticipantBuiltinTopicDataSecure>,
                ),
                result,
            ),
    {
        let handle: PermissionsHandle = self.get_permissions_handle(&participant_guidp)?;
        let plugin: &P = &*self.access;
        plugin.check_remote_participant(handle, domain_id, None)
    }

    /// The token by which others learn the permissions of a participant.
    pub fn get_permissions_token(&self, participant_guidp: GuidPrefix) -> (result:
        SecurityResult<PermissionsToken>)
        ensures
            match self@.permissions_handle(participant_guidp) {
                Ok(handle) => self.access().may_get_permissions_token(handle, result),
                Err(e) => result == Err::<PermissionsToken, SecurityError>(e),
            },
            self@.permissions.contains_key(participant_guidp) ==> call_ensures(
                P::get_permissions_token,
                (self.access(), self@.permissions[participant_guidp]),
                result,
            ),
    {
        let handle: PermissionsHandle = self.get_permissions_handle(&participant_guidp)?;
        let plugin: &P = &*self.access;
        plugin.get_permissions_token(handle)
    }

    /// The credential that backs the permissions of a participant.
    pub fn get_permissions_credential_token(&self, participant_guidp: GuidPrefix) -> (result:
        SecurityResult<PermissionsCredentialToken>)
        ensures
            match self@.permissions_handle(participant_guidp) {
                Ok(handle) => self.access().may_get_permissions_credential_token(handle, result),
                Err(e) => result == Err::<PermissionsCredentialToken, SecurityError>(e),
            },
            self@.permissions.contains_key(participant_guidp) ==> call_ensures(
                P::get_permissions_credential_token,
                (self.access(), self@.permissions[participant_guidp]),
                result,
            ),
    {
        let handle: PermissionsHandle = self.get_permissions_handle(&participant_guidp)?;
        let plugin: &P = &*self.access;
        plugin.get_permissions_credential_token(handle)
    }

    /// How a participant is to be protected.
    pub fn get_participant_sec_attributes(&self, participant_guidp: GuidPrefix) -> (result:
        SecurityResult<ParticipantSecurityAttributes>)
        ensures
            match self@.permissions_handle(participant_guidp) {
                Ok(handle) => self.access().may_get_participant_sec_attributes(handle, result),
                Err(e) => result == Err::<ParticipantSecurityAttributes, SecurityError>(e),
            },
            self@.permissions.contains_key(participant_guidp) ==> call_ensures(
                P::get_participant_sec_attributes,
                (self.access(), self@.permissions[participant_guidp]),
                result,
            ),
    {
        let handle: PermissionsHandle = self.get_permissions_handle(&participant_guidp)?;
        let plugin: &P = &*self.access;
        plugin.get_participant_sec_attributes(handle)
    }

    /// How a reader of the topic is to be protected, by the permissions of the
    /// reader's participant.
    pub fn get_reader_sec_attributes(&self, reader_guid: GUID, topic_name: String) -> (result:
        SecurityResult<EndpointSecurityAttributes>)
        ensures
            match self@.permissions_handle(reader_guid.prefix) {
                Ok(handle) => self.access().may_get_datareader_sec_attributes(
                    handle,
                    topic_name@,
                    result,
                ),
                Err(e) => result == Err::<EndpointSecurityAttributes, SecurityError>(e),
            },
            self@.permissions.contains_key(reader_guid.prefix) ==> call_ensures(
                P::get_datareader_sec_attributes,
                (self.access(), self@.permissions[reader_guid.prefix], topic_name),
                result,
            ),
    {
        let handle: PermissionsHandle = self.get_permissions_handle(&reader_guid.prefix)?;
        let plugin: &P = &*self.access;
        plugin.get_datareader_sec_attributes(handle, topic_name)
    }

    /// How a writer of the topic is to be protected, by the permissions of the
    /// writer's participant.
    pub fn get_writer_sec_attributes(&self, writer_guid: GUID, topic_name: String) -> (result:
        SecurityResult<EndpointSecurityAttributes>)
        ensures
            match self@.permissions_handle(writer_guid.prefix) {
                Ok(handle) => self.access().may_get_datawriter_sec_attributes(
                    handle,
                    topic_name@,
                    result,
                ),
                Err(e) => result == Err::<EndpointSecurityAttributes, SecurityError>(e),
            },
            self@.permissions.contains_key(writer_guid.prefix) ==> call_ensures(
                P::get_datawriter_sec_attributes,
                (self.access(), self@.permissions[writer_guid.prefix], topic_name),
                result,
            ),
    {
        let handle: PermissionsHandle = self.get_permissions_handle(&writer_guid.prefix)?;
        let plugin: &P = &*self.access;
        plugin.get_datawriter_sec_attributes(handle, topic_name)
    }
}

} // verus!
