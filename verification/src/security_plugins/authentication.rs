//! The interface to the authentication plugin.

use vstd::prelude::*;

use crate::access_control::AccessControl;
use crate::authentication::{Authentication, ValidationOutcome};
use crate::cryptographic::Cryptographic;
use crate::error::{both, SecurityError, SecurityResult};
use crate::guid::{GuidPrefix, GUID};
use crate::history::{handshake_event, local_identity_event, remote_identity_event};
use crate::qos::QosPolicies;
use crate::types::{
    AuthRequestMessageToken, AuthenticatedPeerCredentialToken, HandshakeHandle,
    HandshakeMessageToken, IdentityHandle, IdentityStatusToken, IdentityToken,
    PermissionsCredentialToken, PermissionsToken, SharedSecretHandle,
};

use super::SecurityPlugins;

verus! {

/// Interface for using the Authentication plugin.
impl<
    A: Authentication + ?Sized,
    P: AccessControl<A> + ?Sized,
    C: Cryptographic + ?Sized,
> SecurityPlugins<A, P, C> {
    /// Has the local participant validated, stores the handle of its identity and
    /// returns the GUID that the plugin settled.
    pub fn validate_local_identity(
        &mut self,
        domain_id: u16,
        participant_qos: &QosPolicies,
        candidate_participant_guid: GUID,
    ) -> (result: SecurityResult<GUID>)
        ensures
            exists|reply: SecurityResult<(ValidationOutcome, IdentityHandle, GUID)>|
                {
                    &&& #[trigger] old(self).auth().may_validate_local_identity(
                        domain_id,
                        *participant_qos,
                        candidate_participant_guid,
                        reply,
                        final(self).auth().state(),
                    )
                    &&& old(self)@.takes_local_identity(reply, result, final(self)@)
                    &&& final(self).history() == old(self).history() + local_identity_event(reply)
                },
            final(self).access() == old(self).access(),
            final(self).crypto() == old(self).crypto(),
            exists|
                    reply: SecurityResult<(ValidationOutcome, IdentityHandle, GUID)>,
                    plugin: &mut A,
                |
                    {
                        &&& #[trigger] call_ensures(
                            A::validate_local_identity,
                            (plugin, domain_id, participant_qos, candidate_participant_guid),
                            reply,
                        )
                        &&& &*plugin == old(self).auth()
                        &&& &*final(plugin) == final(self).auth()
                        &&& old(self)@.takes_local_identity(reply, result, final(self)@)
                        &&& final(self).history() == old(self).history() + local_identity_event(
                            reply,
                        )
                    },
            final(self)@.retains(old(self)@),
            old(self)@.consistent() ==> final(self)@.consistent(),
            old(self).well_formed() ==> final(self).follows(old(self)),
    {
        let plugin: &mut A = &mut *self.auth;
        let reply: SecurityResult<(ValidationOutcome, IdentityHandle, GUID)> =
            plugin.validate_local_identity(
            domain_id,
            participant_qos,
            candidate_participant_guid,
        );
        assert(old(self).auth().may_validate_local_identity(
            domain_id,
            *participant_qos,
            candidate_participant_guid,
            reply,
            self.auth().state(),
        ));
        let ghost event = local_identity_event(reply);
        let result: SecurityResult<GUID> = self.take_local_identity(reply);
        self.record(Ghost(event));
        proof {
            Self::lemma_kept_in_order(old(self), event, self);
        }
        result
    }

    /// The token by which others learn the identity of a participant.
    pub fn get_identity_token(&self, participant_guidp: GuidPrefix) -> (result: SecurityResult<
        IdentityToken,
    >)
        ensures
            match self@.identity_handle(participant_guidp) {
                Ok(handle) => self.auth().may_get_identity_token(handle, result),
                Err(e) => result == Err::<IdentityToken, SecurityError>(e),
            },
            self@.identities.contains_key(participant_guidp) ==> call_ensures(
                A::get_identity_token,
                (self.auth(), self@.identities[participant_guidp]),
                result,
            ),
    {
        let handle: IdentityHandle = self.get_identity_handle(&participant_guidp)?;
        let plugin: &A = &*self.auth;
        plugin.get_identity_token(handle)
    }

    /// The token by which others learn the status of a participant's identity.
    pub fn get_identity_status_token(&self, participant_guidp: GuidPrefix) -> (result:
        SecurityResult<IdentityStatusToken>)
        ensures
            match self@.identity_handle(participant_guidp) {
                Ok(handle) => self.auth().may_get_identity_status_token(handle, result),
                Err(e) => result == Err::<IdentityStatusToken, SecurityError>(e),
            },
            self@.identities.contains_key(participant_guidp) ==> call_ensures(
                A::get_identity_status_token,
                (self.auth(), self@.identities[participant_guidp]),
                result,
            ),
    {
        let handle: IdentityHandle = self.get_identity_handle(&participant_guidp)?;
        let plugin: &A = &*self.auth;
        plugin.get_identity_status_token(handle)
    }

    /// Attaches the permissions of a participant to its identity.
    pub fn set_permissions_credential_and_token(
        &mut self,
        participant_guidp: GuidPrefix,
        permissions_credential_token: PermissionsCredentialToken,
        permissions_token: PermissionsToken,
    ) -> (result: SecurityResult<()>)
        ensures
            match old(self)@.identity_handle(participant_guidp) {
                Ok(handle) => {
                    &&& final(self).access() == old(self).access()
                    &&& final(self).crypto() == old(self).crypto()
                    &&& old(self).auth().may_set_permissions_credential_and_token(
                        handle,
                        permissions_credential_token,
                        permissions_token,
                        result,
                        final(self).auth().state(),
                    )
                    &&& final(self)@ == old(self)@
                    &&& final(self).history() == old(self).history()
                },
                Err(e) => {
                    &&& result == Err::<(), SecurityError>(e)
                    &&& *final(self) == *old(self)
                },
            },
            old(self)@.identities.contains_key(participant_guidp) ==> exists|plugin: &mut A|
                {
                    &&& #[trigger] call_ensures(
                        A::set_permissions_credential_and_token,
                        (
                            plugin,
                            old(self)@.identities[participant_guidp],
                            permissions_credential_token,
                            permissions_token,
                        ),
                        result,
                    )
                    &&& &*plugin == old(self).auth()
                    &&& &*final(plugin) == final(self).auth()
                },
            final(self)@.retains(old(self)@),
            old(self)@.consistent() ==> final(self)@.consistent(),
            old(self).well_formed() ==> final(self).follows(old(self)),
    {
        let handle: IdentityHandle = self.get_identity_handle(&participant_guidp)?;
        let plugin: &mut A = &mut *self.auth;
        plugin.set_permissions_credential_and_token(
            handle,
            permissions_credential_token,
            permissions_token,
        )
    }

    /// What the validation of a remote participant does with the handle found.
    pub open spec fn validates_remote_identity(
        &self,
        local_identity: IdentityHandle,
        local_participant_guidp: GuidPrefix,
        remote_identity_token: IdentityToken,
        remote_participant_guidp: GuidPrefix,
        remote_auth_request_token: Option<AuthRequestMessageToken>,
        result: SecurityResult<(ValidationOutcome, Option<AuthRequestMessageToken>)>,
        post: &Self,
    ) -> bool {
        &&& post.access() == self.access()
        &&& post.crypto() == self.crypto()
        &&& exists|
            reply: SecurityResult<
                (ValidationOutcome, IdentityHandle, Option<AuthRequestMessageToken>),
            >,
        |
            {
                &&& #[trigger] self.auth().may_validate_remote_identity(
                    remote_auth_request_token,
                    local_identity,
                    remote_identity_token,
                    remote_participant_guidp,
                    reply,
                    post.auth().state(),
                )
                &&& self@.takes_remote_identity(
                    remote_participant_guidp,
                    reply,
                    result,
                    post@,
                )
                &&& post.history() == self.history() + remote_identity_event(
                    local_participant_guidp,
                    remote_participant_guidp,
                    reply,
                )
            }
    }

    /// Has a remote participant validated and stores the handle of its identity.
    pub fn validate_remote_identity(
        &mut self,
        local_participant_guidp: GuidPrefix,
        remote_identity_token: IdentityToken,
        remote_participant_guidp: GuidPrefix,
        remote_auth_request_token: Option<AuthRequestMessageToken>,
    ) -> (result: SecurityResult<(ValidationOutcome, Option<AuthRequestMessageToken>)>)
        ensures
            match old(self)@.identity_handle(local_participant_guidp) {
                Ok(local_identity) => old(self).validates_remote_identity(
                    local_identity,
                    local_participant_guidp,
                    remote_identity_token,
                    remote_participant_guidp,
                    remote_auth_request_token,
                    result,
                    final(self),
                ),
                Err(e) => {
                    &&& result == Err::<
                        (ValidationOutcome, Option<AuthRequestMessageToken>),
                        SecurityError,
                    >(e)
                    &&& *final(self) == *old(self)
                },
            },
            old(self)@.identities.contains_key(local_participant_guidp) ==> exists|
                    reply: SecurityResult<(ValidationOutcome, IdentityHandle, Option<AuthRequestMessageToken>)>,
                    plugin: &mut A,
                |
                    {
                        &&& #[trigger] call_ensures(
                            A::validate_remote_identity,
                            (
                                plugin,
                                remote_auth_request_token,
                                old(self)@.identities[local_participant_guidp],
                                remote_identity_token,
                                remote_participant_guidp,
                            ),
                            reply,
                        )
                        &&& &*plugin == old(self).auth()
                        &&& &*final(plugin) == final(self).auth()
                        &&& old(self)@.takes_remote_identity(
                            remote_participant_guidp,
                            reply,
                            result,
                            final(self)@,
                        )
                        &&& final(self).history() == old(self).history() + remote_identity_event(
                            local_participant_guidp,
                            remote_participant_guidp,
                            reply,
                        )
                    },
            final(self)@.retains(old(self)@),
            old(self)@.consistent() ==> final(self)@.consistent(),
            old(self).well_formed() ==> final(self).follows(old(self)),
    {
        let local_identity_handle: IdentityHandle = self.get_identity_handle(
            &local_participant_guidp,
        )?;
        let plugin: &mut A = &mut *self.auth;
        let reply: SecurityResult<
            (ValidationOutcome, IdentityHandle, Option<AuthRequestMessageToken>),
        > = plugin.validate_remote_identity(
            remote_auth_request_token,
            local_identity_handle,
            remote_identity_token,
            remote_participant_guidp,
        );
        assert(old(self).auth().may_validate_remote_identity(
            remote_auth_request_token,
            local_identity_handle,
            remote_identity_token,
            remote_participant_guidp,
            reply,
            self.auth().state(),
        ));
        let ghost event = remote_identity_event(
            local_participant_guidp,
            remote_participant_guidp,
            reply,
        );
        let result: SecurityResult<(ValidationOutcome, Option<AuthRequestMessageToken>)> =
            self.take_remote_identity(remote_participant_guidp, reply);
        self.record(Ghost(event));
        proof {
            Self::lemma_kept_in_order(old(self), event, self);
        }
        result
    }

    /// What the opening of a handshake does with the handles found.
    pub open spec fn begins_handshake_request(
        &self,
        initiator: IdentityHandle,
        replier: IdentityHandle,
        local_guidp: GuidPrefix,
        remote_guidp: GuidPrefix,
        participant_data: Seq<u8>,
        result: SecurityResult<(ValidationOutcome, HandshakeMessageToken)>,
        post: &Self,
    ) -> bool {
        &&& post.access() == self.access()
        &&& post.crypto() == self.crypto()
        &&& exists|
            reply: SecurityResult<
                (ValidationOutcome, HandshakeHandle, HandshakeMessageToken),
            >,
        |
            {
                &&& #[trigger] self.auth().may_begin_handshake_request(
                    initiator,
                    replier,
                    participant_data,
                    reply,
                    post.auth().state(),
                )
                &&& self@.takes_handshake(remote_guidp, reply, result, post@)
                &&& post.history() == self.history() + handshake_event(
                    local_guidp,
                    remote_guidp,
                    reply,
                )
            }
    }

    /// Opens a handshake with a remote participant and stores its handle.
    pub fn begin_handshake_request(
        &mut self,
        local_guidp: GuidPrefix,
        remote_guidp: GuidPrefix,
        serialized_local_participant_data: Vec<u8>,
    ) -> (result: SecurityResult<(ValidationOutcome, HandshakeMessageToken)>)
        ensures
            match both(
                old(self)@.identity_handle(local_guidp),
                old(self)@.identity_handle(remote_guidp),
            ) {
                Ok((initiator, replier)) => old(self).begins_handshake_request(
                    initiator,
                    replier,
                    local_guidp,
                    remote_guidp,
                    serialized_local_participant_data@,
                    result,
                    final(self),
                ),
                Err(e) => {
                    &&& result == Err::<(ValidationOutcome, HandshakeMessageToken), SecurityError>(
                        e,
                    )
                    &&& *final(self) == *old(self)
                },
            },
            old(self)@.identities.contains_key(local_guidp)
                && old(self)@.identities.contains_key(remote_guidp) ==> exists|
                    reply: SecurityResult<(ValidationOutcome, HandshakeHandle, HandshakeMessageToken)>,
                    plugin: &mut A,
                |
                    {
                        &&& #[trigger] call_ensures(
                            A::begin_handshake_request,
                            (
                                plugin,
                                old(self)@.identities[local_guidp],
                                old(self)@.identities[remote_guidp],
                                serialized_local_participant_data,
                            ),
                            reply,
                        )
                        &&& &*plugin == old(self).auth()
                        &&& &*final(plugin) == final(self).auth()
                        &&& old(self)@.takes_handshake(remote_guidp, reply, result, final(self)@)
                        &&& final(self).history() == old(self).history() + handshake_event(
                            local_guidp,
                            remote_guidp,
                            reply,
                        )
                    },
            final(self)@.retains(old(self)@),
            old(self)@.consistent() ==> final(self)@.consistent(),
            old(self).well_formed() ==> final(self).follows(old(self)),
    {
        let initiator_identity_handle: IdentityHandle = self.get_identity_handle(&local_guidp)?;
        let replier_identity_handle: IdentityHandle = self.get_identity_handle(&remote_guidp)?;
        let ghost participant_data = serialized_local_participant_data@;
        let plugin: &mut A = &mut *self.auth;
        let reply: SecurityResult<(ValidationOutcome, HandshakeHandle, HandshakeMessageToken)> =
            plugin.begin_handshake_request(
            initiator_identity_handle,
            replier_identity_handle,
            serialized_local_participant_data,
        );
        assert(old(self).auth().may_begin_handshake_request(
            initiator_identity_handle,
            replier_identity_handle,
            participant_data,
            reply,
            self.auth().state(),
        ));
        let ghost event = handshake_event(local_guidp, remote_guidp, reply);
        let result: SecurityResult<(ValidationOutcome, HandshakeMessageToken)> =
            self.take_handshake(remote_guidp, reply);
        self.record(Ghost(event));
        proof {
            Self::lemma_kept_in_order(old(self), event, self);
        }
        result
    }

    /// What the answer to an opened handshake does with the handles found.
    pub open spec fn begins_handshake_reply(
        &self,
        initiator: IdentityHandle,
        replier: IdentityHandle,
        local_participant_guidp: GuidPrefix,
        remote_participant_guidp: GuidPrefix,
        handshake_message_in: HandshakeMessageToken,
        participant_data: Seq<u8>,
        result: SecurityResult<(ValidationOutcome, HandshakeMessageToken)>,
        post: &Self,
    ) -> bool {
        &&& post.access() == self.access()
        &&& post.crypto() == self.crypto()
        &&& exists|
            reply: SecurityResult<
                (ValidationOutcome, HandshakeHandle, HandshakeMessageToken),
            >,
        |
            {
                &&& #[trigger] self.auth().may_begin_handshake_reply(
                    handshake_message_in,
                    initiator,
                    replier,
                    participant_data,
                    reply,
                    post.auth().state(),
                )
                &&& self@.takes_handshake(remote_participant_guidp, reply, result, post@)
                &&& post.history() == self.history() + handshake_event(
                    local_participant_guidp,
                    remote_participant_guidp,
                    reply,
                )
            }
    }

    /// Answers the message with which a remote participant opened a handshake and
    /// stores the handle of the handshake.
    pub fn begin_handshake_reply(
        &mut self,
        local_participant_guidp: GuidPrefix,
        remote_participant_guidp: GuidPrefix,
        handshake_message_in: HandshakeMessageToken,
        serialized_local_participant_data: Vec<u8>,
    ) -> (result: SecurityResult<(ValidationOutcome, HandshakeMessageToken)>)
        ensures
            match both(
                old(self)@.identity_handle(remote_participant_guidp),
                old(self)@.identity_handle(local_participant_guidp),
            ) {
                Ok((initiator, replier)) => old(self).begins_handshake_reply(
                    initiator,
                    replier,
                    local_participant_guidp,
                    remote_participant_guidp,
                    handshake_message_in,
                    serialized_local_participant_data@,
                    result,
                    final(self),
                ),
                Err(e) => {
                    &&& result == Err::<(ValidationOutcome, HandshakeMessageToken), SecurityError>(
                        e,
                    )
                    &&& *final(self) == *old(self)
                },
            },
            old(self)@.identities.contains_key(remote_participant_guidp)
                && old(self)@.identities.contains_key(local_participant_guidp) ==> exists|
                    reply: SecurityResult<(ValidationOutcome, HandshakeHandle, HandshakeMessageToken)>,
                    plugin: &mut A,
                |
                    {
                        &&& #[trigger] call_ensures(
                            A::begin_handshake_reply,
                            (
                                plugin,
                                handshake_message_in,
                                old(self)@.identities[remote_participant_guidp],
                                old(self)@.identities[local_participant_guidp],
                                serialized_local_participant_data,
                            ),
                            reply,
                        )
                        &&& &*plugin == old(self).auth()
                        &&& &*final(plugin) == final(self).auth()
                        &&& old(self)@.takes_handshake(
                            remote_participant_guidp,
                            reply,
                            result,
                            final(self)@,
                        )
                        &&& final(self).history() == old(self).history() + handshake_event(
                            local_participant_guidp,
                            remote_participant_guidp,
                            reply,
                        )
                    },
            final(self)@.retains(old(self)@),
            old(self)@.consistent() ==> final(self)@.consistent(),
            old(self).well_formed() ==> final(self).follows(old(self)),
    {
        let initiator_identity_handle: IdentityHandle = self.get_identity_handle(
            &remote_participant_guidp,
        )?;
        let replier_identity_handle: IdentityHandle = self.get_identity_handle(
            &local_participant_guidp,
        )?;
        let ghost participant_data = serialized_local_participant_data@;
        let plugin: &mut A = &mut *self.auth;
        let reply: SecurityResult<(ValidationOutcome, HandshakeHandle, HandshakeMessageToken)> =
            plugin.begin_handshake_reply(
            handshake_message_in,
            initiator_identity_handle,
            replier_identity_handle,
            serialized_local_participant_data,
        );
        assert(old(self).auth().may_begin_handshake_reply(
            handshake_message_in,
            initiator_identity_handle,
            replier_identity_handle,
            participant_data,
            reply,
            self.auth().state(),
        ));
        let ghost event = handshake_event(local_participant_guidp, remote_participant_guidp, reply);
        let result: SecurityResult<(ValidationOutcome, HandshakeMessageToken)> =
            self.take_handshake(remote_participant_guidp, reply);
        self.record(Ghost(event));
        proof {
            Self::lemma_kept_in_order(old(self), event, self);
        }
        result
    }

    /// Takes the handshake with a remote participant one message further.
    pub fn process_handshake(
        &mut self,
        remote_participant_guidp: GuidPrefix,
        handshake_message_in: HandshakeMessageToken,
    ) -> (result: SecurityResult<(ValidationOutcome, Option<HandshakeMessageToken>)>)
        ensures
            match old(self)@.handshake_handle(remote_participant_guidp) {
                Ok(handle) => {
                    &&& final(self).access() == old(self).access()
                    &&& final(self).crypto() == old(self).crypto()
                    &&& old(self).auth().may_process_handshake(
                        handshake_message_in,
                        handle,
                        result,
                        final(self).auth().state(),
                    )
                    &&& final(self)@ == old(self)@
                    &&& final(self).history() == old(self).history()
                },
                Err(e) => {
                    &&& result == Err::<
                        (ValidationOutcome, Option<HandshakeMessageToken>),
                        SecurityError,
                    >(e)
                    &&& *final(self) == *old(self)
                },
            },
            old(self)@.handshakes.contains_key(remote_participant_guidp) ==> exists|plugin: &mut A|
                {
                    &&& #[trigger] call_ensures(
                        A::process_handshake,
                        (
                            plugin,
                            handshake_message_in,
                            old(self)@.handshakes[remote_participant_guidp],
                        ),
                        result,
                    )
                    &&& &*plugin == old(self).auth()
                    &&& &*final(plugin) == final(self).auth()
                },
            final(self)@.retains(old(self)@),
            old(self)@.consistent() ==> final(self)@.consistent(),
            old(self).well_formed() ==> final(self).follows(old(self)),
    {
        let handshake_handle: HandshakeHandle = self.get_handshake_handle(
            &remote_participant_guidp,
        )?;
        let plugin: &mut A = &mut *self.auth;
        plugin.process_handshake(handshake_message_in, handshake_handle)
    }

    /// The credential of a remote participant, once the handshake with it is
    /// finished.
    pub fn get_authenticated_peer_credential_token(
        &self,
        remote_participant_guidp: GuidPrefix,
    ) -> (result: SecurityResult<AuthenticatedPeerCredentialToken>)
        ensures
            match self@.handshake_handle(remote_participant_guidp) {
                Ok(handle) => self.auth().may_get_authenticated_peer_credential_token(
                    handle,
                    result,
                ),
                Err(e) => result == Err::<AuthenticatedPeerCredentialToken, SecurityError>(e),
            },
            self@.handshakes.contains_key(remote_participant_guidp) ==> call_ensures(
                A::get_authenticated_peer_credential_token,
                (self.auth(), self@.handshakes[remote_participant_guidp]),
                result,
            ),
    {
        let handle: HandshakeHandle = self.get_handshake_handle(&remote_participant_guidp)?;
        let plugin: &A = &*self.auth;
        plugin.get_authenticated_peer_credential_token(handle)
    }

    /// What the request for the secret shared with a remote participant returns.
    pub open spec fn gives_shared_secret(
        &self,
        remote_participant_guidp: GuidPrefix,
        result: SecurityResult<SharedSecretHandle>,
    ) -> bool {
        match self@.handshake_handle(remote_participant_guidp) {
            Ok(handle) => self.auth().may_get_shared_secret(handle, result),
            Err(e) => result == Err::<SharedSecretHandle, SecurityError>(e),
        }
    }

    /// The secret shared with a remote participant, once the handshake with it is
    /// finished.
    pub fn get_shared_secret(&self, remote_participant_guidp: GuidPrefix) -> (result:
        SecurityResult<SharedSecretHandle>)
        ensures
            self.gives_shared_secret(remote_participant_guidp, result),
            self@.handshakes.contains_key(remote_participant_guidp) ==> call_ensures(
                A::get_shared_secret,
                (self.auth(), self@.handshakes[remote_participant_guidp]),
                result,
            ),
    {
        let handle: HandshakeHandle = self.get_handshake_handle(&remote_participant_guidp)?;
        let plugin: &A = &*self.auth;
        plugin.get_shared_secret(handle)
    }
}

} // verus!
