//! The interface of the access control plugin.

use vstd::prelude::*;

use crate::authentication::Authentication;
use crate::error::SecurityResult;
use crate::plugin::Plugin;
use crate::qos::QosPolicies;
use crate::types::{
    AuthenticatedPeerCredentialToken, EndpointSecurityAttributes, IdentityHandle,
    ParticipantBuiltinTopicDataSecure, ParticipantSecurityAttributes, PermissionsCredentialToken,
    PermissionsHandle, PermissionsToken,
};

verus! {

/// The access control plugin, which may consult the authentication plugin `A`.
///
/// Each method has a companion `may_...`, as [`Plugin`] explains.
pub trait AccessControl<A: Authentication + ?Sized>: Plugin {
    /// Whether `validate_local_permissions` may have this outcome.
    open spec fn may_validate_local_permissions(
        &self,
        auth_plugin: &A,
        identity_handle: IdentityHandle,
        domain_id: u16,
        participant_qos: QosPolicies,
        reply: SecurityResult<PermissionsHandle>,
        post: Seq<u8>,
    ) -> bool {
        true
    }

    /// Validates the permissions of the local participant.
    fn validate_local_permissions(
        &mut self,
        auth_plugin: &A,
        identity_handle: IdentityHandle,
        domain_id: u16,
        participant_qos: &QosPolicies,
    ) -> (reply: SecurityResult<PermissionsHandle>)
        ensures
            old(self).may_validate_local_permissions(
                auth_plugin,
                identity_handle,
                domain_id,
                *participant_qos,
                reply,
                final(self).state(),
            ),
    ;

    /// Whether `validate_remote_permissions` may have this outcome.
    open spec fn may_validate_remote_permissions(
        &self,
        auth_plugin: &A,
        local_identity_handle: IdentityHandle,
        remote_identity_handle: IdentityHandle,
        remote_permissions_token: PermissionsToken,
        remote_credential_token: AuthenticatedPeerCredentialToken,
        reply: SecurityResult<PermissionsHandle>,
        post: Seq<u8>,
    ) -> bool {
        true
    }

    /// Validates the permissions of a remote participant.
    fn validate_remote_permissions(
        &mut self,
        auth_plugin: &A,
        local_identity_handle: IdentityHandle,
        remote_identity_handle: IdentityHandle,
        remote_permissions_token: &PermissionsToken,
        remote_credential_token: &AuthenticatedPeerCredentialToken,
    ) -> (reply: SecurityResult<PermissionsHandle>)
        ensures
            old(self).may_validate_remote_permissions(
                auth_plugin,
                local_identity_handle,
                remote_identity_handle,
                *remote_permissions_token,
                *remote_credential_token,
                reply,
                final(self).state(),
            ),
    ;

    /// Whether `check_create_participant` may have this outcome.
    open spec fn may_check_create_participant(
        &self,
        permissions_handle: PermissionsHandle,
        domain_id: u16,
        qos: QosPolicies,
        reply: SecurityResult<()>,
    ) -> bool {
        true
    }

    /// Whether the local participant may join the domain.
    fn check_create_participant(
        &self,
        permissions_handle: PermissionsHandle,
        domain_id: u16,
        qos: &QosPolicies,
    ) -> (reply: SecurityResult<()>)
        ensures
            self.may_check_create_participant(permissions_handle, domain_id, *qos, reply),
    ;

    /// Whether `check_remote_participant` may have this outcome.
    open spec fn may_check_remote_participant(
        &self,
        permissions_handle: PermissionsHandle,
        domain_id: u16,
        participant_data: Option<&ParticipantBuiltinTopicDataSecure>,
        reply: SecurityResult<()>,
    ) -> bool {
        true
    }

    /// Whether the remote participant may join the domain.
    fn check_remote_participant(
        &self,
        permissions_handle: PermissionsHandle,
        domain_id: u16,
        participant_data: Option<&ParticipantBuiltinTopicDataSecure>,
    ) -> (reply: SecurityResult<()>)
        ensures
            self.may_check_remote_participant(
                permissions_handle,
                domain_id,
                participant_data,
                reply,
            ),
    ;

    /// Whether `get_permissions_token` may have this outcome.
    open spec fn may_get_permissions_token(
        &self,
        handle: PermissionsHandle,
        reply: SecurityResult<PermissionsToken>,
    ) -> bool {
        true
    }

    /// The token by which others learn the permissions.
    fn get_permissions_token(
        &self,
        handle: PermissionsHandle,
    ) -> (reply: SecurityResult<PermissionsToken>)
        ensures
            self.may_get_permissions_token(handle, reply),
    ;

    /// Whether `get_permissions_credential_token` may have this outcome.
    open spec fn may_get_permissions_credential_token(
        &self,
        handle: PermissionsHandle,
        reply: SecurityResult<PermissionsCredentialToken>,
    ) -> bool {
        true
    }

    /// The credential that backs the permissions.
    fn get_permissions_credential_token(
        &self,
        handle: PermissionsHandle,
    ) -> (reply: SecurityResult<PermissionsCredentialToken>)
        ensures
            self.may_get_permissions_credential_token(handle, reply),
    ;

    /// Whether `get_participant_sec_attributes` may have this outcome.
    open spec fn may_get_participant_sec_attributes(
        &self,
        permissions_handle: PermissionsHandle,
        reply: SecurityResult<ParticipantSecurityAttributes>,
    ) -> bool {
        true
    }

    /// How the participant is to be protected.
    fn get_participant_sec_attributes(
        &self,
        permissions_handle: PermissionsHandle,
    ) -> (reply: SecurityResult<ParticipantSecurityAttributes>)
        ensures
            self.may_get_participant_sec_attributes(permissions_handle, reply),
    ;

    /// Whether `get_datareader_sec_attributes` may have this outcome.
    open spec fn may_get_datareader_sec_attributes(
        &self,
        permissions_handle: PermissionsHandle,
        topic_name: Seq<char>,
        reply: SecurityResult<EndpointSecurityAttributes>,
    ) -> bool {
        true
    }

    /// How a reader of the topic is to be protected.
    fn get_datareader_sec_attributes(
        &self,
        permissions_handle: PermissionsHandle,
        topic_name: String,
    ) -> (reply: SecurityResult<EndpointSecurityAttributes>)
        ensures
            self.may_get_datareader_sec_attributes(permissions_handle, topic_name@, reply),
    ;

    /// Whether `get_datawriter_sec_attributes` may have this outcome.
    open spec fn may_get_datawriter_sec_attributes(
        &self,
        permissions_handle: PermissionsHandle,
        topic_name: Seq<char>,
        reply: SecurityResult<EndpointSecurityAttributes>,
    ) -> bool {
        true
    }

    /// How a writer of the topic is to be protected.
    fn get_datawriter_sec_attributes(
        &self,
        permissions_handle: PermissionsHandle,
        topic_name: String,
    ) -> (reply: SecurityResult<EndpointSecurityAttributes>)
        ensures
            self.may_get_datawriter_sec_attributes(permissions_handle, topic_name@, reply),
    ;
}

} // verus!
