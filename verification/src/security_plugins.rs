//! The three security plugins behind one interface, which keeps the handles that
//! they give out and finds them again by participant and endpoint.

use vstd::prelude::*;

use crate::access_control::AccessControl;
use crate::authentication::{Authentication, ValidationOutcome};
use crate::cache::{Cache, KeySet, PairCache};
use crate::cryptographic::Cryptographic;
use crate::error::{SecurityError, SecurityResult};
use crate::guid::{GuidPrefix, GUID};
use crate::history::{founded, law_events_keep_consistency, lemma_recorded, outcome, Event};
use crate::state::SecurityState;
use crate::types::{
    AuthRequestMessageToken, EndpointCryptoHandle, HandshakeHandle, HandshakeMessageToken,
    IdentityHandle, ParticipantCryptoHandle, PermissionsHandle,
};

mod access_control;
mod authentication;
mod crypto_key_exchange;
mod crypto_key_factory;
mod crypto_transform;

verus! {

/// The security plugins, with the handles that they gave out.
pub struct SecurityPlugins<
    A: Authentication + ?Sized,
    P: AccessControl<A> + ?Sized,
    C: Cryptographic + ?Sized,
> {
    auth: Box<A>,
    access: Box<P>,
    crypto: Box<C>,
    identity_handle_cache: Cache<GuidPrefix, IdentityHandle>,
    permissions_handle_cache: Cache<GuidPrefix, PermissionsHandle>,
    handshake_handle_cache: Cache<GuidPrefix, HandshakeHandle>,
    participant_crypto_handle_cache: Cache<GuidPrefix, ParticipantCryptoHandle>,
    local_endpoint_crypto_handle_cache: Cache<GUID, EndpointCryptoHandle>,
    remote_endpoint_crypto_handle_cache: PairCache<GUID, EndpointCryptoHandle>,
    // Unprotected domains and topics, for which plugin calls are skipped when there are no
    // crypto headers.
    rtps_not_protected: KeySet<GuidPrefix>,
    submessage_not_protected: KeySet<GUID>,
    payload_not_protected: KeySet<GUID>,
    // Turns the crypto transform interface off.
    test_disable_crypto_transform: bool,
    // What operations took in, from the first one on.
    history: Ghost<Seq<Event>>,
}

impl<
    A: Authentication + ?Sized,
    P: AccessControl<A> + ?Sized,
    C: Cryptographic + ?Sized,
> View for SecurityPlugins<A, P, C> {
    type V = SecurityState;

    closed spec fn view(&self) -> SecurityState {
        SecurityState {
            identities: self.identity_handle_cache@,
            permissions: self.permissions_handle_cache@,
            handshakes: self.handshake_handle_cache@,
            participant_crypto: self.participant_crypto_handle_cache@,
            local_endpoint_crypto: self.local_endpoint_crypto_handle_cache@,
            remote_endpoint_crypto: self.remote_endpoint_crypto_handle_cache@,
            rtps_not_protected: self.rtps_not_protected@,
            submessage_not_protected: self.submessage_not_protected@,
            payload_not_protected: self.payload_not_protected@,
            test_disable_crypto_transform: self.test_disable_crypto_transform,
        }
    }
}

impl<
    A: Authentication + ?Sized,
    P: AccessControl<A> + ?Sized,
    C: Cryptographic + ?Sized,
> SecurityPlugins<A, P, C> {
    /// The authentication plugin.
    pub closed spec fn auth(&self) -> &A {
        &*self.auth
    }

    /// The access control plugin.
    pub closed spec fn access(&self) -> &P {
        &*self.access
    }

    /// The cryptographic plugin.
    pub closed spec fn crypto(&self) -> &C {
        &*self.crypto
    }

    /// What operations took in, from the first one on.
    pub closed spec fn history(&self) -> Seq<Event> {
        self.history@
    }

    /// Whether what is stored is what operations took in, each of them by handles
    /// that were known at the time. All operations keep this.
    pub open spec fn well_formed(&self) -> bool {
        &&& founded(self.history())
        &&& self@ == outcome(self.history())
    }

    /// Whether operations can lead here from the earlier value: what they had taken
    /// in by then is still the beginning of what they have taken in.
    pub open spec fn follows(&self, earlier: &Self) -> bool {
        &&& self.well_formed()
        &&& earlier.history().is_prefix_of(self.history())
    }

    /// Whether the plugins are as they were earlier.
    pub open spec fn same_plugins(&self, earlier: &Self) -> bool {
        &&& self.auth() == earlier.auth()
        &&& self.access() == earlier.access()
        &&& self.crypto() == earlier.crypto()
    }

    /// Takes the plugins, with no handles stored yet.
    pub fn new(auth: Box<A>, access: Box<P>, crypto: Box<C>) -> (plugins: Self)
        ensures
            plugins@ == SecurityState::empty(),
            plugins@.consistent(),
            plugins.history() == Seq::<Event>::empty(),
            plugins.well_formed(),
            plugins.auth() == &*auth,
            plugins.access() == &*access,
            plugins.crypto() == &*crypto,
    {
        SecurityPlugins {
            auth,
            access,
            crypto,
            identity_handle_cache: Cache::new(),
            permissions_handle_cache: Cache::new(),
            handshake_handle_cache: Cache::new(),
            participant_crypto_handle_cache: Cache::new(),
            local_endpoint_crypto_handle_cache: Cache::new(),
            remote_endpoint_crypto_handle_cache: PairCache::new(),
            rtps_not_protected: KeySet::new(),
            submessage_not_protected: KeySet::new(),
            payload_not_protected: KeySet::new(),
            test_disable_crypto_transform: false,
            history: Ghost(Seq::empty()),
        }
    }

    fn get_identity_handle(&self, guidp: &GuidPrefix) -> (result: SecurityResult<IdentityHandle>)
        ensures
            result == self@.identity_handle(*guidp),
    {
        match self.identity_handle_cache.get(guidp) {
            Some(handle) => Ok(handle),
            None => Err(SecurityError::IdentityHandleNotFound(*guidp)),
        }
    }

    fn get_permissions_handle(&self, guidp: &GuidPrefix) -> (result: SecurityResult<
        PermissionsHandle,
    >)
        ensures
            result == self@.permissions_handle(*guidp),
    {
        match self.permissions_handle_cache.get(guidp) {
            Some(handle) => Ok(handle),
            None => Err(SecurityError::PermissionsHandleNotFound(*guidp)),
        }
    }

    fn get_handshake_handle(&self, remote_guidp: &GuidPrefix) -> (result: SecurityResult<
        HandshakeHandle,
    >)
        ensures
            result == self@.handshake_handle(*remote_guidp),
    {
        match self.handshake_handle_cache.get(remote_guidp) {
            Some(handle) => Ok(handle),
            None => Err(SecurityError::HandshakeHandleNotFound(*remote_guidp)),
        }
    }

    fn get_participant_crypto_handle(&self, guid_prefix: &GuidPrefix) -> (result: SecurityResult<
        ParticipantCryptoHandle,
    >)
        ensures
            result == self@.participant_crypto_handle(*guid_prefix),
    {
        match self.participant_crypto_handle_cache.get(guid_prefix) {
            Some(handle) => Ok(handle),
            None => Err(SecurityError::ParticipantCryptoHandleNotFound(*guid_prefix)),
        }
    }

    fn get_local_endpoint_crypto_handle(&self, guid: &GUID) -> (result: SecurityResult<
        EndpointCryptoHandle,
    >)
        ensures
            result == self@.local_endpoint_crypto_handle(*guid),
    {
        match self.local_endpoint_crypto_handle_cache.get(guid) {
            Some(handle) => Ok(handle),
            None => Err(SecurityError::LocalEndpointCryptoHandleNotFound(*guid)),
        }
    }

    /// Checks whether the given guid matches the given handle.
    pub fn confirm_local_endpoint_guid(
        &self,
        local_endpoint_crypto_handle: EndpointCryptoHandle,
        guid: &GUID,
    ) -> (confirmed: bool)
        ensures
            confirmed == self@.confirms_local_endpoint(local_endpoint_crypto_handle, *guid),
    {
        match self.local_endpoint_crypto_handle_cache.get(guid) {
            Some(found_handle) => local_endpoint_crypto_handle == found_handle,
            None => false,
        }
    }

    /// The pair is that of the local endpoint and the proxy, in this order.
    fn get_remote_endpoint_crypto_handle(
        &self,
        local_and_proxy_guid_pair: (&GUID, &GUID),
    ) -> (result: SecurityResult<EndpointCryptoHandle>)
        ensures
            result == self@.remote_endpoint_crypto_handle(
                *local_and_proxy_guid_pair.0,
                *local_and_proxy_guid_pair.1,
            ),
    {
        let (local_endpoint_guid, proxy_guid) = local_and_proxy_guid_pair;
        match self.remote_endpoint_crypto_handle_cache.get(local_endpoint_guid, proxy_guid) {
            Some(handle) => Ok(handle),
            None => Err(
                SecurityError::RemoteEndpointCryptoHandleNotFound {
                    local_endpoint: *local_endpoint_guid,
                    proxy: *proxy_guid,
                },
            ),
        }
    }

    fn store_remote_endpoint_crypto_handle(
        &mut self,
        local_and_remote_guid_pair: (GUID, GUID),
        remote_crypto_handle: EndpointCryptoHandle,
    )
        ensures
            final(self)@ == old(self)@.with_remote_endpoint_crypto(
                local_and_remote_guid_pair.0,
                local_and_remote_guid_pair.1,
                remote_crypto_handle,
            ),
            final(self).same_plugins(old(self)),
            final(self).history() == old(self).history(),
    {
        let (local_endpoint_guid, remote_endpoint_guid) = local_and_remote_guid_pair;
        self.remote_endpoint_crypto_handle_cache.insert(
            local_endpoint_guid,
            remote_endpoint_guid,
            remote_crypto_handle,
        );
    }
}

/// Keeping the record of what operations take in.
impl<
    A: Authentication + ?Sized,
    P: AccessControl<A> + ?Sized,
    C: Cryptographic + ?Sized,
> SecurityPlugins<A, P, C> {
    /// Adds events to the record, which only proofs see.
    fn record(&mut self, Ghost(events): Ghost<Seq<Event>>)
        ensures
            final(self)@ == old(self)@,
            final(self).same_plugins(old(self)),
            final(self).history() == old(self).history() + events,
    {
        self.history = Ghost(self.history@ + events);
    }

    /// An operation that stores what it records, by handles that are known, leaves
    /// everything in order.
    proof fn lemma_kept_in_order(before: &Self, events: Seq<Event>, after: &Self)
        requires
            events.len() <= 1,
            after.history() == before.history() + events,
            events.len() == 0 ==> after@ == before@,
            events.len() == 1 ==> before@.allows(events[0]) && after@ == before@.after(events[0]),
        ensures
            before@.consistent() ==> after@.consistent(),
            before.well_formed() ==> after.follows(before),
    {
        lemma_recorded(before.history(), events);
        if events.len() == 1 && before@.consistent() {
            law_events_keep_consistency(before@, events[0]);
        }
    }
}

/// Taking in the replies of plugins.
impl<
    A: Authentication + ?Sized,
    P: AccessControl<A> + ?Sized,
    C: Cryptographic + ?Sized,
> SecurityPlugins<A, P, C> {
    /// Takes in the reply of the authentication plugin on the local identity.
    fn take_local_identity(
        &mut self,
        reply: SecurityResult<(ValidationOutcome, IdentityHandle, GUID)>,
    ) -> (result: SecurityResult<GUID>)
        ensures
            old(self)@.takes_local_identity(reply, result, final(self)@),
            final(self).same_plugins(old(self)),
            final(self).history() == old(self).history(),
            final(self)@.retains(old(self)@),
    {
        let (outcome, identity_handle, sec_guid) = reply?;
        if let ValidationOutcome::Valid = outcome {
            // Everything is in order: store the handle and return the GUID.
            self.identity_handle_cache.insert(sec_guid.prefix, identity_handle);
            Ok(sec_guid)
        } else {
            // An authentication that does not fail should produce no other outcome.
            Err(SecurityError::UnexpectedLocalIdentityOutcome)
        }
    }

    /// Takes in the reply of the authentication plugin on a remote identity.
    fn take_remote_identity(
        &mut self,
        remote_participant_guidp: GuidPrefix,
        reply: SecurityResult<(ValidationOutcome, IdentityHandle, Option<AuthRequestMessageToken>)>,
    ) -> (result: SecurityResult<(ValidationOutcome, Option<AuthRequestMessageToken>)>)
        ensures
            old(self)@.takes_remote_identity(
                remote_participant_guidp,
                reply,
                result,
                final(self)@,
            ),
            final(self).same_plugins(old(self)),
            final(self).history() == old(self).history(),
            final(self)@.retains(old(self)@),
    {
        let (outcome, remote_id_handle, auth_req_token_opt) = reply?;
        self.identity_handle_cache.insert(remote_participant_guidp, remote_id_handle);
        Ok((outcome, auth_req_token_opt))
    }

    /// Takes in the reply of the authentication plugin that opens a handshake.
    fn take_handshake(
        &mut self,
        remote_participant_guidp: GuidPrefix,
        reply: SecurityResult<(ValidationOutcome, HandshakeHandle, HandshakeMessageToken)>,
    ) -> (result: SecurityResult<(ValidationOutcome, HandshakeMessageToken)>)
        ensures
            old(self)@.takes_handshake(remote_participant_guidp, reply, result, final(self)@),
            final(self).same_plugins(old(self)),
            final(self).history() == old(self).history(),
            final(self)@.retains(old(self)@),
    {
        let (outcome, handshake_handle, handshake_token) = reply?;
        self.handshake_handle_cache.insert(remote_participant_guidp, handshake_handle);
        Ok((outcome, handshake_token))
    }

    /// Takes in the reply of the access control plugin on a participant's
    /// permissions.
    fn take_permissions(
        &mut self,
        participant_guidp: GuidPrefix,
        reply: SecurityResult<PermissionsHandle>,
    ) -> (result: SecurityResult<()>)
        ensures
            old(self)@.takes_permissions(participant_guidp, reply, result, final(self)@),
            final(self).same_plugins(old(self)),
            final(self).history() == old(self).history(),
            final(self)@.retains(old(self)@),
    {
        let permissions_handle: PermissionsHandle = reply?;
        self.permissions_handle_cache.insert(participant_guidp, permissions_handle);
        Ok(())
    }

    /// Takes in the reply of the cryptographic plugin on a participant's key
    /// material.
    fn take_participant_crypto(
        &mut self,
        participant_guidp: GuidPrefix,
        reply: SecurityResult<ParticipantCryptoHandle>,
    ) -> (result: SecurityResult<()>)
        ensures
            old(self)@.takes_participant_crypto(participant_guidp, reply, result, final(self)@),
            final(self).same_plugins(old(self)),
            final(self).history() == old(self).history(),
            final(self)@.retains(old(self)@),
    {
        let crypto_handle: ParticipantCryptoHandle = reply?;
        self.participant_crypto_handle_cache.insert(participant_guidp, crypto_handle);
        Ok(())
    }

    /// Takes in the reply of the cryptographic plugin on a local endpoint's key
    /// material.
    fn take_local_endpoint_crypto(
        &mut self,
        endpoint_guid: GUID,
        reply: SecurityResult<EndpointCryptoHandle>,
    ) -> (result: SecurityResult<()>)
        ensures
            old(self)@.takes_local_endpoint_crypto(endpoint_guid, reply, result, final(self)@),
            final(self).same_plugins(old(self)),
            final(self).history() == old(self).history(),
            final(self)@.retains(old(self)@),
    {
        let crypto_handle: EndpointCryptoHandle = reply?;
        self.local_endpoint_crypto_handle_cache.insert(endpoint_guid, crypto_handle);
        Ok(())
    }

    /// Takes in the reply of the cryptographic plugin on a remote endpoint's key
    /// material.
    fn take_remote_endpoint_crypto(
        &mut self,
        local_endpoint_guid: GUID,
        remote_endpoint_guid: GUID,
        reply: SecurityResult<EndpointCryptoHandle>,
    ) -> (result: SecurityResult<()>)
        ensures
            old(self)@.takes_remote_endpoint_crypto(
                local_endpoint_guid,
                remote_endpoint_guid,
                reply,
                result,
                final(self)@,
            ),
            final(self).same_plugins(old(self)),
            final(self).history() == old(self).history(),
            final(self)@.retains(old(self)@),
    {
        let remote_crypto_handle: EndpointCryptoHandle = reply?;
        self.store_remote_endpoint_crypto_handle(
            (local_endpoint_guid, remote_endpoint_guid),
            remote_crypto_handle,
        );
        Ok(())
    }
}

} // verus!
