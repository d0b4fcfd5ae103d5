//! What the security plugins' caches know, as a mathematical value.

use vstd::prelude::*;

use crate::authentication::ValidationOutcome;
use crate::error::{all, SecurityError, SecurityResult};
use crate::guid::{GuidPrefix, GUID};
use crate::types::{
    AuthRequestMessageToken, CryptoHandle, EndpointCryptoHandle, EndpointSecurityAttributes,
    HandshakeHandle, HandshakeMessageToken, IdentityHandle, ParticipantCryptoHandle,
    ParticipantSecurityAttributes, PermissionsHandle,
};

verus! {

/// The handles and marks that are stored.
#[verifier::ext_equal]
pub struct SecurityState {
    /// Identity handles of local and remote participants.
    pub identities: Map<GuidPrefix, IdentityHandle>,
    /// Permissions handles of local and remote participants.
    pub permissions: Map<GuidPrefix, PermissionsHandle>,
    /// Handshake handles, by remote participant.
    pub handshakes: Map<GuidPrefix, HandshakeHandle>,
    /// Crypto handles of local and remote participants.
    pub participant_crypto: Map<GuidPrefix, ParticipantCryptoHandle>,
    /// Crypto handles of local endpoints.
    pub local_endpoint_crypto: Map<GUID, EndpointCryptoHandle>,
    /// Crypto handles of remote endpoints, by local endpoint and remote endpoint.
    pub remote_endpoint_crypto: Map<(GUID, GUID), EndpointCryptoHandle>,
    /// Local participants whose messages need no protection.
    pub rtps_not_protected: Set<GuidPrefix>,
    /// Local endpoints whose submessages need no protection.
    pub submessage_not_protected: Set<GUID>,
    /// Local endpoints whose payloads need no protection.
    pub payload_not_protected: Set<GUID>,
    /// Whether all encoding, and all decoding of payloads, is skipped.
    pub test_disable_crypto_transform: bool,
}

/// Looking things up.
impl SecurityState {
    /// The state in which nothing is stored.
    pub open spec fn empty() -> Self {
        SecurityState {
            identities: Map::empty(),
            permissions: Map::empty(),
            handshakes: Map::empty(),
            participant_crypto: Map::empty(),
            local_endpoint_crypto: Map::empty(),
            remote_endpoint_crypto: Map::empty(),
            rtps_not_protected: Set::empty(),
            submessage_not_protected: Set::empty(),
            payload_not_protected: Set::empty(),
            test_disable_crypto_transform: false,
        }
    }

    /// The identity handle of a participant.
    pub open spec fn identity_handle(self, guidp: GuidPrefix) -> SecurityResult<IdentityHandle> {
        if self.identities.contains_key(guidp) {
            Ok(self.identities[guidp])
        } else {
            Err(SecurityError::IdentityHandleNotFound(guidp))
        }
    }

    /// The permissions handle of a participant.
    pub open spec fn permissions_handle(self, guidp: GuidPrefix) -> SecurityResult<
        PermissionsHandle,
    > {
        if self.permissions.contains_key(guidp) {
            Ok(self.permissions[guidp])
        } else {
            Err(SecurityError::PermissionsHandleNotFound(guidp))
        }
    }

    /// The handle of the handshake with a remote participant.
    pub open spec fn handshake_handle(self, remote_guidp: GuidPrefix) -> SecurityResult<
        HandshakeHandle,
    > {
        if self.handshakes.contains_key(remote_guidp) {
            Ok(self.handshakes[remote_guidp])
        } else {
            Err(SecurityError::HandshakeHandleNotFound(remote_guidp))
        }
    }

    /// The crypto handle of a participant.
    pub open spec fn participant_crypto_handle(self, guid_prefix: GuidPrefix) -> SecurityResult<
        ParticipantCryptoHandle,
    > {
        if self.participant_crypto.contains_key(guid_prefix) {
            Ok(self.participant_crypto[guid_prefix])
        } else {
            Err(SecurityError::ParticipantCryptoHandleNotFound(guid_prefix))
        }
    }

    /// The crypto handle of a local endpoint.
    pub open spec fn local_endpoint_crypto_handle(self, guid: GUID) -> SecurityResult<
        EndpointCryptoHandle,
    > {
        if self.local_endpoint_crypto.contains_key(guid) {
            Ok(self.local_endpoint_crypto[guid])
        } else {
            Err(SecurityError::LocalEndpointCryptoHandleNotFound(guid))
        }
    }

    /// The crypto handle of a remote endpoint, as matched with a local one.
    pub open spec fn remote_endpoint_crypto_handle(
        self,
        local_endpoint: GUID,
        proxy: GUID,
    ) -> SecurityResult<EndpointCryptoHandle> {
        if self.remote_endpoint_crypto.contains_key((local_endpoint, proxy)) {
            Ok(self.remote_endpoint_crypto[(local_endpoint, proxy)])
        } else {
            Err(SecurityError::RemoteEndpointCryptoHandleNotFound { local_endpoint, proxy })
        }
    }

    /// The crypto handles of remote endpoints, as matched with one local
    /// endpoint, in the order given.
    pub open spec fn remote_endpoint_crypto_handles(
        self,
        local_endpoint: GUID,
        proxies: Seq<GUID>,
    ) -> SecurityResult<Seq<CryptoHandle>> {
        all(
            proxies.map_values(
                |proxy: GUID| self.remote_endpoint_crypto_handle(local_endpoint, proxy),
            ),
        )
    }

    /// The crypto handles of participants, in the order given.
    pub open spec fn participant_crypto_handles(
        self,
        guid_prefixes: Seq<GuidPrefix>,
    ) -> SecurityResult<Seq<CryptoHandle>> {
        all(
            guid_prefixes.map_values(
                |guid_prefix: GuidPrefix| self.participant_crypto_handle(guid_prefix),
            ),
        )
    }

    /// Whether the handle is the one stored for the local endpoint.
    pub open spec fn confirms_local_endpoint(
        self,
        handle: EndpointCryptoHandle,
        guid: GUID,
    ) -> bool {
        self.local_endpoint_crypto_handle(guid) == Ok::<EndpointCryptoHandle, SecurityError>(handle)
    }

    /// Whether messages of the participant go out as they are.
    pub open spec fn message_passes(self, guid_prefix: GuidPrefix) -> bool {
        self.test_disable_crypto_transform || self.rtps_not_protected.contains(guid_prefix)
    }

    /// Whether submessages of the endpoint go out as they are.
    pub open spec fn submessage_passes(self, guid: GUID) -> bool {
        self.test_disable_crypto_transform || self.submessage_not_protected.contains(guid)
    }

    /// Whether payloads of the endpoint go out and come in as they are.
    pub open spec fn payload_passes(self, guid: GUID) -> bool {
        self.test_disable_crypto_transform || self.payload_not_protected.contains(guid)
    }
}

/// Storing things.
impl SecurityState {
    /// The state with a participant's identity handle stored.
    pub open spec fn with_identity(self, guidp: GuidPrefix, handle: IdentityHandle) -> Self {
        SecurityState { identities: self.identities.insert(guidp, handle), ..self }
    }

    /// The state with a participant's permissions handle stored.
    pub open spec fn with_permissions(self, guidp: GuidPrefix, handle: PermissionsHandle) -> Self {
        SecurityState { permissions: self.permissions.insert(guidp, handle), ..self }
    }

    /// The state with the handle of a handshake stored.
    pub open spec fn with_handshake(
        self,
        remote_guidp: GuidPrefix,
        handle: HandshakeHandle,
    ) -> Self {
        SecurityState { handshakes: self.handshakes.insert(remote_guidp, handle), ..self }
    }

    /// The state with a participant's crypto handle stored.
    pub open spec fn with_participant_crypto(
        self,
        guid_prefix: GuidPrefix,
        handle: ParticipantCryptoHandle,
    ) -> Self {
        SecurityState {
            participant_crypto: self.participant_crypto.insert(guid_prefix, handle),
            ..self
        }
    }

    /// The state with a local endpoint's crypto handle stored.
    pub open spec fn with_local_endpoint_crypto(
        self,
        guid: GUID,
        handle: EndpointCryptoHandle,
    ) -> Self {
        SecurityState {
            local_endpoint_crypto: self.local_endpoint_crypto.insert(guid, handle),
            ..self
        }
    }

    /// The state with the crypto handle of a remote endpoint stored, as matched
    /// with a local one.
    pub open spec fn with_remote_endpoint_crypto(
        self,
        local_endpoint: GUID,
        proxy: GUID,
        handle: EndpointCryptoHandle,
    ) -> Self {
        SecurityState {
            remote_endpoint_crypto: self.remote_endpoint_crypto.insert(
                (local_endpoint, proxy),
                handle,
            ),
            ..self
        }
    }

    /// The state with a local participant marked as its attributes ask: where
    /// they ask for no protection, that is noted.
    pub open spec fn with_participant_marks(
        self,
        guidp: GuidPrefix,
        attributes: ParticipantSecurityAttributes,
    ) -> Self {
        SecurityState {
            rtps_not_protected: if attributes.is_rtps_protected {
                self.rtps_not_protected
            } else {
                self.rtps_not_protected.insert(guidp)
            },
            ..self
        }
    }

    /// The state with a local endpoint marked as its attributes ask: where they
    /// ask for no protection, that is noted.
    pub open spec fn with_endpoint_marks(
        self,
        guid: GUID,
        attributes: EndpointSecurityAttributes,
    ) -> Self {
        SecurityState {
            submessage_not_protected: if attributes.is_submessage_protected {
                self.submessage_not_protected
            } else {
                self.submessage_not_protected.insert(guid)
            },
            payload_not_protected: if attributes.is_payload_protected {
                self.payload_not_protected
            } else {
                self.payload_not_protected.insert(guid)
            },
            ..self
        }
    }

    /// Whether everything stored in the earlier state is still stored: no
    /// identifier that had a handle is without one, and no mark is gone.
    pub open spec fn retains(self, earlier: Self) -> bool {
        &&& earlier.identities.dom().subset_of(self.identities.dom())
        &&& earlier.permissions.dom().subset_of(self.permissions.dom())
        &&& earlier.handshakes.dom().subset_of(self.handshakes.dom())
        &&& earlier.participant_crypto.dom().subset_of(self.participant_crypto.dom())
        &&& earlier.local_endpoint_crypto.dom().subset_of(self.local_endpoint_crypto.dom())
        &&& earlier.remote_endpoint_crypto.dom().subset_of(self.remote_endpoint_crypto.dom())
        &&& earlier.rtps_not_protected.subset_of(self.rtps_not_protected)
        &&& earlier.submessage_not_protected.subset_of(self.submessage_not_protected)
        &&& earlier.payload_not_protected.subset_of(self.payload_not_protected)
        &&& earlier.test_disable_crypto_transform == self.test_disable_crypto_transform
    }
}

/// What holds of every state that operations can reach.
impl SecurityState {
    /// Whether each handle and each mark comes with those that it rests on.
    pub open spec fn consistent(self) -> bool {
        // Permissions are validated, and handshakes begun, for known identities only.
        &&& self.permissions.dom().subset_of(self.identities.dom())
        &&& self.handshakes.dom().subset_of(self.identities.dom())
        // Participants are registered by their identity and their permissions.
        &&& self.participant_crypto.dom().subset_of(self.identities.dom())
        &&& self.participant_crypto.dom().subset_of(self.permissions.dom())
        &&& self.rtps_not_protected.subset_of(self.identities.dom())
        &&& self.rtps_not_protected.subset_of(self.permissions.dom())
        // Local endpoints are registered by the key material of their participant.
        &&& forall|guid: GUID| #[trigger]
            self.local_endpoint_crypto.contains_key(guid) ==> self.participant_crypto.contains_key(
                guid.prefix,
            )
        &&& forall|guid: GUID| #[trigger]
            self.submessage_not_protected.contains(guid) ==> self.participant_crypto.contains_key(
                guid.prefix,
            )
        &&& forall|guid: GUID| #[trigger]
            self.payload_not_protected.contains(guid) ==> self.participant_crypto.contains_key(
                guid.prefix,
            )
        // Remote endpoints are matched with registered local ones, by the key material and the
        // secret that are shared with their participant.
        &&& forall|local_endpoint: GUID, proxy: GUID| #[trigger]
            self.remote_endpoint_crypto.contains_key((local_endpoint, proxy)) ==> {
                &&& self.local_endpoint_crypto.contains_key(local_endpoint)
                &&& self.participant_crypto.contains_key(proxy.prefix)
                &&& self.handshakes.contains_key(proxy.prefix)
            }
        // Nothing turns the crypto transform off.
        &&& !self.test_disable_crypto_transform
    }
}

/// Taking in the replies of plugins: what is returned for each reply, and what is
/// stored.
impl SecurityState {
    /// A reply on the local identity: a valid one is stored under the prefix of
    /// the GUID that it settled.
    pub open spec fn takes_local_identity(
        self,
        reply: SecurityResult<(ValidationOutcome, IdentityHandle, GUID)>,
        result: SecurityResult<GUID>,
        post: Self,
    ) -> bool {
        match reply {
            Ok((ValidationOutcome::Valid, handle, guid)) => {
                &&& result == Ok::<GUID, SecurityError>(guid)
                &&& post == self.with_identity(guid.prefix, handle)
            },
            Ok(_) => {
                &&& result == Err::<GUID, SecurityError>(
                    SecurityError::UnexpectedLocalIdentityOutcome,
                )
                &&& post == self
            },
            Err(e) => {
                &&& result == Err::<GUID, SecurityError>(e)
                &&& post == self
            },
        }
    }

    /// A reply on a remote identity: whatever the outcome, the handle is stored.
    pub open spec fn takes_remote_identity(
        self,
        remote_guidp: GuidPrefix,
        reply: SecurityResult<(ValidationOutcome, IdentityHandle, Option<AuthRequestMessageToken>)>,
        result: SecurityResult<(ValidationOutcome, Option<AuthRequestMessageToken>)>,
        post: Self,
    ) -> bool {
        match reply {
            Ok((outcome, handle, token)) => {
                &&& result == Ok::<
                    (ValidationOutcome, Option<AuthRequestMessageToken>),
                    SecurityError,
                >((outcome, token))
                &&& post == self.with_identity(remote_guidp, handle)
            },
            Err(e) => {
                &&& result == Err::<
                    (ValidationOutcome, Option<AuthRequestMessageToken>),
                    SecurityError,
                >(e)
                &&& post == self
            },
        }
    }

    /// A reply that opens a handshake: whatever the outcome, the handle is stored.
    pub open spec fn takes_handshake(
        self,
        remote_guidp: GuidPrefix,
        reply: SecurityResult<(ValidationOutcome, HandshakeHandle, HandshakeMessageToken)>,
        result: SecurityResult<(ValidationOutcome, HandshakeMessageToken)>,
        post: Self,
    ) -> bool {
        match reply {
            Ok((outcome, handle, token)) => {
                &&& result == Ok::<(ValidationOutcome, HandshakeMessageToken), SecurityError>(
                    (outcome, token),
                )
                &&& post == self.with_handshake(remote_guidp, handle)
            },
            Err(e) => {
                &&& result == Err::<(ValidationOutcome, HandshakeMessageToken), SecurityError>(e)
                &&& post == self
            },
        }
    }

    /// A reply on permissions: the handle is stored.
    pub open spec fn takes_permissions(
        self,
        guidp: GuidPrefix,
        reply: SecurityResult<PermissionsHandle>,
        result: SecurityResult<()>,
        post: Self,
    ) -> bool {
        match reply {
            Ok(handle) => {
                &&& result == Ok::<(), SecurityError>(())
                &&& post == self.with_permissions(guidp, handle)
            },
            Err(e) => {
                &&& result == Err::<(), SecurityError>(e)
                &&& post == self
            },
        }
    }

    /// A reply on the key material of a participant: the handle is stored.
    pub open spec fn takes_participant_crypto(
        self,
        guid_prefix: GuidPrefix,
        reply: SecurityResult<ParticipantCryptoHandle>,
        result: SecurityResult<()>,
        post: Self,
    ) -> bool {
        match reply {
            Ok(handle) => {
                &&& result == Ok::<(), SecurityError>(())
                &&& post == self.with_participant_crypto(guid_prefix, handle)
            },
            Err(e) => {
                &&& result == Err::<(), SecurityError>(e)
                &&& post == self
            },
        }
    }

    /// A reply on the key material of a local endpoint: the handle is stored.
    pub open spec fn takes_local_endpoint_crypto(
        self,
        guid: GUID,
        reply: SecurityResult<EndpointCryptoHandle>,
        result: SecurityResult<()>,
        post: Self,
    ) -> bool {
        match reply {
            Ok(handle) => {
                &&& result == Ok::<(), SecurityError>(())
                &&& post == self.with_local_endpoint_crypto(guid, handle)
            },
            Err(e) => {
                &&& result == Err::<(), SecurityError>(e)
                &&& post == self
            },
        }
    }

    /// A reply on the key material of a remote endpoint: the handle is stored for
    /// the pair of endpoints.
    pub open spec fn takes_remote_endpoint_crypto(
        self,
        local_endpoint: GUID,
        proxy: GUID,
        reply: SecurityResult<EndpointCryptoHandle>,
        result: SecurityResult<()>,
        post: Self,
    ) -> bool {
        match reply {
            Ok(handle) => {
                &&& result == Ok::<(), SecurityError>(())
                &&& post == self.with_remote_endpoint_crypto(local_endpoint, proxy, handle)
            },
            Err(e) => {
                &&& result == Err::<(), SecurityError>(e)
                &&& post == self
            },
        }
    }
}

} // verus!
