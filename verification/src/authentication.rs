//! The interface of the authentication plugin.

use vstd::prelude::*;

use crate::error::SecurityResult;
use crate::guid::{GuidPrefix, GUID};
use crate::plugin::Plugin;
use crate::qos::QosPolicies;
use crate::types::{
    AuthRequestMessageToken, AuthenticatedPeerCredentialToken, HandshakeHandle,
    HandshakeMessageToken, IdentityHandle, IdentityStatusToken, IdentityToken,
    PermissionsCredentialToken, PermissionsToken, SharedSecretHandle,
};

verus! {

/// How far a validation or a handshake has come. A failed one is an error instead.
#[derive(Clone, Copy, PartialEq, Eq, Debug)]
pub enum ValidationOutcome {
    Valid,
    PendingRetry,
    PendingHandshakeRequest,
    PendingHandshakeMessage,
    OkFinalMessage,
}

/// The authentication plugin.
///
/// Each method has a companion `may_...`, as [`Plugin`] explains.
pub trait Authentication: Plugin {
    /// Whether `validate_local_identity` may have this outcome.
    open spec fn may_validate_local_identity(
        &self,
        domain_id: u16,
        participant_qos: QosPolicies,
        candidate_participant_guid: GUID,
        reply: SecurityResult<(ValidationOutcome, IdentityHandle, GUID)>,
        post: Seq<u8>,
    ) -> bool {
        true
    }

    /// Validates the local participant and settles its GUID.
    fn validate_local_identity(
        &mut self,
        domain_id: u16,
        participant_qos: &QosPolicies,
        candidate_participant_guid: GUID,
    ) -> (reply: SecurityResult<(ValidationOutcome, IdentityHandle, GUID)>)
        ensures
            old(self).may_validate_local_identity(
                domain_id,
                *participant_qos,
                candidate_participant_guid,
                reply,
                final(self).state(),
            ),
    ;

    /// Whether `get_identity_token` may have this outcome.
    open spec fn may_get_identity_token(
        &self,
        handle: IdentityHandle,
        reply: SecurityResult<IdentityToken>,
    ) -> bool {
        true
    }

    /// The token by which others learn the identity.
    fn get_identity_token(
        &self,
        handle: IdentityHandle,
    ) -> (reply: SecurityResult<IdentityToken>)
        ensures
            self.may_get_identity_token(handle, reply),
    ;

    /// Whether `get_identity_status_token` may have this outcome.
    open spec fn may_get_identity_status_token(
        &self,
        handle: IdentityHandle,
        reply: SecurityResult<IdentityStatusToken>,
    ) -> bool {
        true
    }

    /// The token by which others learn the status of the identity.
    fn get_identity_status_token(
        &self,
        handle: IdentityHandle,
    ) -> (reply: SecurityResult<IdentityStatusToken>)
        ensures
            self.may_get_identity_status_token(handle, reply),
    ;

    /// Whether `set_permissions_credential_and_token` may have this outcome.
    open spec fn may_set_permissions_credential_and_token(
        &self,
        handle: IdentityHandle,
        permissions_credential_token: PermissionsCredentialToken,
        permissions_token: PermissionsToken,
        reply: SecurityResult<()>,
        post: Seq<u8>,
    ) -> bool {
        true
    }

    /// Attaches the permissions of the participant to its identity.
    fn set_permissions_credential_and_token(
        &mut self,
        handle: IdentityHandle,
        permissions_credential_token: PermissionsCredentialToken,
        permissions_token: PermissionsToken,
    ) -> (reply: SecurityResult<()>)
        ensures
            old(self).may_set_permissions_credential_and_token(
                handle,
                permissions_credential_token,
                permissions_token,
                reply,
                final(self).state(),
            ),
    ;

    /// Whether `validate_remote_identity` may have this outcome.
    open spec fn may_validate_remote_identity(
        &self,
        remote_auth_request_token: Option<AuthRequestMessageToken>,
        local_identity_handle: IdentityHandle,
        remote_identity_token: IdentityToken,
        remote_participant_guidp: GuidPrefix,
        reply: SecurityResult<(ValidationOutcome, IdentityHandle, Option<AuthRequestMessageToken>)>,
        post: Seq<u8>,
    ) -> bool {
        true
    }

    /// Validates a remote participant by its identity token.
    fn validate_remote_identity(
        &mut self,
        remote_auth_request_token: Option<AuthRequestMessageToken>,
        local_identity_handle: IdentityHandle,
        remote_identity_token: IdentityToken,
        remote_participant_guidp: GuidPrefix,
    ) -> (reply: SecurityResult<
        (ValidationOutcome, IdentityHandle, Option<AuthRequestMessageToken>),
    >)
        ensures
            old(self).may_validate_remote_identity(
                remote_auth_request_token,
                local_identity_handle,
                remote_identity_token,
                remote_participant_guidp,
                reply,
                final(self).state(),
            ),
    ;

    /// Whether `begin_handshake_request` may have this outcome.
    open spec fn may_begin_handshake_request(
        &self,
        initiator_identity_handle: IdentityHandle,
        replier_identity_handle: IdentityHandle,
        serialized_local_participant_data: Seq<u8>,
        reply: SecurityResult<(ValidationOutcome, HandshakeHandle, HandshakeMessageToken)>,
        post: Seq<u8>,
    ) -> bool {
        true
    }

    /// Opens a handshake as its initiator.
    fn begin_handshake_request(
        &mut self,
        initiator_identity_handle: IdentityHandle,
        replier_identity_handle: IdentityHandle,
        serialized_local_participant_data: Vec<u8>,
    ) -> (reply: SecurityResult<(ValidationOutcome, HandshakeHandle, HandshakeMessageToken)>)
        ensures
            old(self).may_begin_handshake_request(
                initiator_identity_handle,
                replier_identity_handle,
                serialized_local_participant_data@,
                reply,
                final(self).state(),
            ),
    ;

    /// Whether `begin_handshake_reply` may have this outcome.
    open spec fn may_begin_handshake_reply(
        &self,
        handshake_message_in: HandshakeMessageToken,
        initiator_identity_handle: IdentityHandle,
        replier_identity_handle: IdentityHandle,
        serialized_local_participant_data: Seq<u8>,
        reply: SecurityResult<(ValidationOutcome, HandshakeHandle, HandshakeMessageToken)>,
        post: Seq<u8>,
    ) -> bool {
        true
    }

    /// Answers the message that opened a handshake.
    fn begin_handshake_reply(
        &mut self,
        handshake_message_in: HandshakeMessageToken,
        initiator_identity_handle: IdentityHandle,
        replier_identity_handle: IdentityHandle,
        serialized_local_participant_data: Vec<u8>,
    ) -> (reply: SecurityResult<(ValidationOutcome, HandshakeHandle, HandshakeMessageToken)>)
        ensures
            old(self).may_begin_handshake_reply(
                handshake_message_in,
                initiator_identity_handle,
                replier_identity_handle,
                serialized_local_participant_data@,
                reply,
                final(self).state(),
            ),
    ;

    /// Whether `process_handshake` may have this outcome.
    open spec fn may_process_handshake(
        &self,
        handshake_message_in: HandshakeMessageToken,
        handshake_handle: HandshakeHandle,
        reply: SecurityResult<(ValidationOutcome, Option<HandshakeMessageToken>)>,
        post: Seq<u8>,
    ) -> bool {
        true
    }

    /// Takes a handshake one message further.
    fn process_handshake(
        &mut self,
        handshake_message_in: HandshakeMessageToken,
        handshake_handle: HandshakeHandle,
    ) -> (reply: SecurityResult<(ValidationOutcome, Option<HandshakeMessageToken>)>)
        ensures
            old(self).may_process_handshake(
                handshake_message_in,
                handshake_handle,
                reply,
                final(self).state(),
            ),
    ;

    /// Whether `get_authenticated_peer_credential_token` may have this outcome.
    open spec fn may_get_authenticated_peer_credential_token(
        &self,
        handshake_handle: HandshakeHandle,
        reply: SecurityResult<AuthenticatedPeerCredentialToken>,
    ) -> bool {
        true
    }

    /// The credential of the peer in a finished handshake.
    fn get_authenticated_peer_credential_token(
        &self,
        handshake_handle: HandshakeHandle,
    ) -> (reply: SecurityResult<AuthenticatedPeerCredentialToken>)
        ensures
            self.may_get_authenticated_peer_credential_token(handshake_handle, reply),
    ;

    /// Whether `get_shared_secret` may have this outcome.
    open spec fn may_get_shared_secret(
        &self,
        handshake_handle: HandshakeHandle,
        reply: SecurityResult<SharedSecretHandle>,
    ) -> bool {
        true
    }

    /// The secret agreed on in a finished handshake.
    fn get_shared_secret(
        &self,
        handshake_handle: HandshakeHandle,
    ) -> (reply: SecurityResult<SharedSecretHandle>)
        ensures
            self.may_get_shared_secret(handshake_handle, reply),
    ;
}

} // verus!
