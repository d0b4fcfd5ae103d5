//! The record of what operations took in, and the state that it amounts to.

use vstd::prelude::*;

use crate::authentication::ValidationOutcome;
use crate::error::SecurityResult;
use crate::guid::{GuidPrefix, GUID};
use crate::state::SecurityState;
use crate::types::{
    AuthRequestMessageToken, EndpointCryptoHandle, EndpointSecurityAttributes, HandshakeHandle,
    HandshakeMessageToken, IdentityHandle, ParticipantCryptoHandle, ParticipantSecurityAttributes,
    PermissionsHandle,
};

verus! {

/// One thing that an operation took in.
pub enum Event {
    /// `validate_local_identity` returned the GUID.
    LocalIdentity { guid: GUID, handle: IdentityHandle },
    /// `validate_remote_identity` succeeded.
    RemoteIdentity { local_guidp: GuidPrefix, remote_guidp: GuidPrefix, handle: IdentityHandle },
    /// `begin_handshake_request` or `begin_handshake_reply` succeeded.
    Handshake { local_guidp: GuidPrefix, remote_guidp: GuidPrefix, handle: HandshakeHandle },
    /// `validate_local_permissions` succeeded.
    LocalPermissions { guidp: GuidPrefix, handle: PermissionsHandle },
    /// `validate_remote_permissions` succeeded.
    RemotePermissions {
        local_guidp: GuidPrefix,
        remote_guidp: GuidPrefix,
        handle: PermissionsHandle,
    },
    /// `register_local_participant` found the handles that it needs, and the plugin
    /// gave the reply.
    LocalParticipant {
        guidp: GuidPrefix,
        attributes: ParticipantSecurityAttributes,
        reply: SecurityResult<ParticipantCryptoHandle>,
    },
    /// `register_matched_remote_participant` succeeded.
    RemoteParticipant {
        local_guidp: GuidPrefix,
        remote_guidp: GuidPrefix,
        handle: ParticipantCryptoHandle,
    },
    /// `register_local_reader` or `register_local_writer` found the handle that it
    /// needs, and the plugin gave the reply.
    LocalEndpoint {
        guid: GUID,
        attributes: EndpointSecurityAttributes,
        reply: SecurityResult<EndpointCryptoHandle>,
    },
    /// `register_matched_remote_reader` or `register_matched_remote_writer`
    /// succeeded.
    RemoteEndpoint { local_endpoint: GUID, proxy: GUID, handle: EndpointCryptoHandle },
}

/// The handles that an event gives.
impl Event {
    /// The identity handle that the event gives the participant.
    pub open spec fn identity_of(self, guidp: GuidPrefix) -> Option<IdentityHandle> {
        match self {
            Event::LocalIdentity { guid, handle } if guid.prefix == guidp => Some(handle),
            Event::RemoteIdentity { remote_guidp, handle, .. } if remote_guidp == guidp => Some(
                handle,
            ),
            _ => None,
        }
    }

    /// The handshake handle that the event gives the remote participant.
    pub open spec fn handshake_of(self, guidp: GuidPrefix) -> Option<HandshakeHandle> {
        match self {
            Event::Handshake { remote_guidp, handle, .. } if remote_guidp == guidp => Some(handle),
            _ => None,
        }
    }

    /// The permissions handle that the event gives the participant.
    pub open spec fn permissions_of(self, guidp: GuidPrefix) -> Option<PermissionsHandle> {
        match self {
            Event::LocalPermissions { guidp: local_guidp, handle } if local_guidp == guidp => Some(
                handle,
            ),
            Event::RemotePermissions { remote_guidp, handle, .. } if remote_guidp == guidp => Some(
                handle,
            ),
            _ => None,
        }
    }

    /// The crypto handle that the event gives the participant.
    pub open spec fn participant_crypto_of(self, guid_prefix: GuidPrefix) -> Option<
        ParticipantCryptoHandle,
    > {
        match self {
            Event::LocalParticipant { guidp, reply: Ok(handle), .. } if guidp
                == guid_prefix => Some(handle),
            Event::RemoteParticipant { remote_guidp, handle, .. } if remote_guidp
                == guid_prefix => Some(handle),
            _ => None,
        }
    }

    /// The crypto handle that the event gives the local endpoint.
    pub open spec fn local_endpoint_crypto_of(self, endpoint: GUID) -> Option<
        EndpointCryptoHandle,
    > {
        match self {
            Event::LocalEndpoint { guid, reply: Ok(handle), .. } if guid == endpoint => Some(
                handle,
            ),
            _ => None,
        }
    }

    /// The crypto handle that the event gives the remote endpoint, as matched with
    /// the local one.
    pub open spec fn remote_endpoint_crypto_of(self, local: GUID, remote: GUID) -> Option<
        EndpointCryptoHandle,
    > {
        match self {
            Event::RemoteEndpoint { local_endpoint, proxy, handle } if local_endpoint == local
                && proxy == remote => Some(handle),
            _ => None,
        }
    }

    /// Whether the event is a registration of the participant that asks for no
    /// protection of its messages.
    pub open spec fn leaves_rtps_unprotected(self, guid_prefix: GuidPrefix) -> bool {
        self matches Event::LocalParticipant { guidp, attributes, .. } && guidp == guid_prefix
            && !attributes.is_rtps_protected
    }

    /// Whether the event is a registration of the endpoint that asks for no
    /// protection of its submessages.
    pub open spec fn leaves_submessages_unprotected(self, endpoint: GUID) -> bool {
        self matches Event::LocalEndpoint { guid, attributes, .. } && guid == endpoint
            && !attributes.is_submessage_protected
    }

    /// Whether the event is a registration of the endpoint that asks for no
    /// protection of its payloads.
    pub open spec fn leaves_payloads_unprotected(self, endpoint: GUID) -> bool {
        self matches Event::LocalEndpoint { guid, attributes, .. } && guid == endpoint
            && !attributes.is_payload_protected
    }
}

/// How events change the state.
impl SecurityState {
    /// Whether the handles that the event rests on are known.
    pub open spec fn allows(self, event: Event) -> bool {
        match event {
            Event::LocalIdentity { .. } => true,
            Event::RemoteIdentity { local_guidp, .. } => self.identity_handle(local_guidp) is Ok,
            Event::Handshake { local_guidp, remote_guidp, .. } => {
                &&& self.identity_handle(local_guidp) is Ok
                &&& self.identity_handle(remote_guidp) is Ok
            },
            Event::LocalPermissions { guidp, .. } => self.identity_handle(guidp) is Ok,
            Event::RemotePermissions { local_guidp, remote_guidp, .. } => {
                &&& self.identity_handle(local_guidp) is Ok
                &&& self.identity_handle(remote_guidp) is Ok
            },
            Event::LocalParticipant { guidp, .. } => {
                &&& self.identity_handle(guidp) is Ok
                &&& self.permissions_handle(guidp) is Ok
            },
            Event::RemoteParticipant { local_guidp, remote_guidp, .. } => {
                &&& self.participant_crypto_handle(local_guidp) is Ok
                &&& self.identity_handle(remote_guidp) is Ok
                &&& self.permissions_handle(remote_guidp) is Ok
            },
            Event::LocalEndpoint { guid, .. } => self.participant_crypto_handle(guid.prefix) is Ok,
            Event::RemoteEndpoint { local_endpoint, proxy, .. } => {
                &&& self.handshake_handle(proxy.prefix) is Ok
                &&& self.local_endpoint_crypto_handle(local_endpoint) is Ok
                &&& self.participant_crypto_handle(proxy.prefix) is Ok
            },
        }
    }

    /// The state after the event.
    pub open spec fn after(self, event: Event) -> Self {
        match event {
            Event::LocalIdentity { guid, handle } => self.with_identity(guid.prefix, handle),
            Event::RemoteIdentity { remote_guidp, handle, .. } => self.with_identity(
                remote_guidp,
                handle,
            ),
            Event::Handshake { remote_guidp, handle, .. } => self.with_handshake(
                remote_guidp,
                handle,
            ),
            Event::LocalPermissions { guidp, handle } => self.with_permissions(guidp, handle),
            Event::RemotePermissions { remote_guidp, handle, .. } => self.with_permissions(
                remote_guidp,
                handle,
            ),
            Event::LocalParticipant { guidp, attributes, reply } => {
                let marked = self.with_participant_marks(guidp, attributes);
                match reply {
                    Ok(handle) => marked.with_participant_crypto(guidp, handle),
                    Err(_) => marked,
                }
            },
            Event::RemoteParticipant { remote_guidp, handle, .. } => self.with_participant_crypto(
                remote_guidp,
                handle,
            ),
            Event::LocalEndpoint { guid, attributes, reply } => {
                let marked = self.with_endpoint_marks(guid, attributes);
                match reply {
                    Ok(handle) => marked.with_local_endpoint_crypto(guid, handle),
                    Err(_) => marked,
                }
            },
            Event::RemoteEndpoint { local_endpoint, proxy, handle } => {
                self.with_remote_endpoint_crypto(local_endpoint, proxy, handle)
            },
        }
    }
}

/// The state to which events lead, starting from nothing.
pub open spec fn outcome(events: Seq<Event>) -> SecurityState
    decreases events.len(),
{
    if events.len() == 0 {
        SecurityState::empty()
    } else {
        outcome(events.drop_last()).after(events.last())
    }
}

/// Whether each event found the handles that it rests on.
pub open spec fn founded(events: Seq<Event>) -> bool
    decreases events.len(),
{
    events.len() > 0 ==> {
        &&& founded(events.drop_last())
        &&& outcome(events.drop_last()).allows(events.last())
    }
}

/// What the latest of the events gives that gives anything.
pub open spec fn latest<T>(events: Seq<Event>, given: spec_fn(Event) -> Option<T>) -> Option<T>
    decreases events.len(),
{
    if events.len() == 0 {
        None
    } else {
        match given(events.last()) {
            Some(value) => Some(value),
            None => latest(events.drop_last(), given),
        }
    }
}

/// Whether the event at the place gives something, and none after it does.
pub open spec fn gives_last<T>(
    events: Seq<Event>,
    given: spec_fn(Event) -> Option<T>,
    i: int,
) -> bool {
    &&& 0 <= i < events.len()
    &&& given(events[i]) is Some
    &&& forall|j: int| i < j < events.len() ==> given(#[trigger] events[j]) is None
}

/// The event in a reply on the local identity, if it makes one.
pub open spec fn local_identity_event(
    reply: SecurityResult<(ValidationOutcome, IdentityHandle, GUID)>,
) -> Seq<Event> {
    match reply {
        Ok((ValidationOutcome::Valid, handle, guid)) => seq![Event::LocalIdentity { guid, handle }],
        _ => Seq::empty(),
    }
}

/// The event in a reply on a remote identity, if it makes one.
pub open spec fn remote_identity_event(
    local_guidp: GuidPrefix,
    remote_guidp: GuidPrefix,
    reply: SecurityResult<(ValidationOutcome, IdentityHandle, Option<AuthRequestMessageToken>)>,
) -> Seq<Event> {
    match reply {
        Ok((_, handle, _)) => seq![Event::RemoteIdentity { local_guidp, remote_guidp, handle }],
        Err(_) => Seq::empty(),
    }
}

/// The event in a reply that opens a handshake, if it makes one.
pub open spec fn handshake_event(
    local_guidp: GuidPrefix,
    remote_guidp: GuidPrefix,
    reply: SecurityResult<(ValidationOutcome, HandshakeHandle, HandshakeMessageToken)>,
) -> Seq<Event> {
    match reply {
        Ok((_, handle, _)) => seq![Event::Handshake { local_guidp, remote_guidp, handle }],
        Err(_) => Seq::empty(),
    }
}

/// The event in a reply on the local participant's permissions, if it makes one.
pub open spec fn local_permissions_event(
    guidp: GuidPrefix,
    reply: SecurityResult<PermissionsHandle>,
) -> Seq<Event> {
    match reply {
        Ok(handle) => seq![Event::LocalPermissions { guidp, handle }],
        Err(_) => Seq::empty(),
    }
}

/// The event in a reply on a remote participant's permissions, if it makes one.
pub open spec fn remote_permissions_event(
    local_guidp: GuidPrefix,
    remote_guidp: GuidPrefix,
    reply: SecurityResult<PermissionsHandle>,
) -> Seq<Event> {
    match reply {
        Ok(handle) => seq![Event::RemotePermissions { local_guidp, remote_guidp, handle }],
        Err(_) => Seq::empty(),
    }
}

/// The event in a reply on the key material of the local participant.
pub open spec fn local_participant_event(
    guidp: GuidPrefix,
    attributes: ParticipantSecurityAttributes,
    reply: SecurityResult<ParticipantCryptoHandle>,
) -> Seq<Event> {
    seq![Event::LocalParticipant { guidp, attributes, reply }]
}

/// The event in a reply on the key material of a remote participant, if it makes
/// one.
pub open spec fn remote_participant_event(
    local_guidp: GuidPrefix,
    remote_guidp: GuidPrefix,
    reply: SecurityResult<ParticipantCryptoHandle>,
) -> Seq<Event> {
    match reply {
        Ok(handle) => seq![Event::RemoteParticipant { local_guidp, remote_guidp, handle }],
        Err(_) => Seq::empty(),
    }
}

/// The event in a reply on the key material of a local endpoint.
pub open spec fn local_endpoint_event(
    guid: GUID,
    attributes: EndpointSecurityAttributes,
    reply: SecurityResult<EndpointCryptoHandle>,
) -> Seq<Event> {
    seq![Event::LocalEndpoint { guid, attributes, reply }]
}

/// The event in a reply on the key material of a remote endpoint, if it makes one.
pub open spec fn remote_endpoint_event(
    local_endpoint: GUID,
    proxy: GUID,
    reply: SecurityResult<EndpointCryptoHandle>,
) -> Seq<Event> {
    match reply {
        Ok(handle) => seq![Event::RemoteEndpoint { local_endpoint, proxy, handle }],
        Err(_) => Seq::empty(),
    }
}

/// What the latest event gives, said by its place: it is given by an event after
/// which no event gives anything, and by no other; and there is none exactly if no
/// event gives anything.
pub proof fn law_latest<T>(events: Seq<Event>, given: spec_fn(Event) -> Option<T>)
    ensures
        forall|i: int| #[trigger]
            gives_last(events, given, i) ==> latest(events, given) == given(events[i]),
        latest(events, given) is Some ==> exists|i: int| #[trigger] gives_last(events, given, i),
        latest(events, given) is None <==> forall|i: int|
            0 <= i < events.len() ==> given(#[trigger] events[i]) is None,
    decreases events.len(),
{
    if events.len() > 0 {
        let before = events.drop_last();
        law_latest(before, given);
        assert forall|i: int| 0 <= i < before.len() implies #[trigger] events[i] == before[i] by {}
        if given(events.last()) is Some {
            assert(gives_last(events, given, events.len() - 1));
        } else {
            assert forall|i: int| #[trigger] gives_last(events, given, i) implies gives_last(
                before,
                given,
                i,
            ) by {
                assert forall|j: int| i < j < before.len() implies given(
                    #[trigger] before[j],
                ) is None by {
                    assert(given(events[j]) is None);
                }
            }
            if latest(before, given) is Some {
                let i = choose|i: int| gives_last(before, given, i);
                assert(gives_last(events, given, i));
            }
            if forall|i: int| 0 <= i < events.len() ==> given(#[trigger] events[i]) is None {
                assert forall|i: int| 0 <= i < before.len() implies given(
                    #[trigger] before[i],
                ) is None by {
                    assert(given(events[i]) is None);
                }
            }
        }
    }
}

/// What is the latest given stays so until an event gives another.
pub proof fn law_latest_stays<T>(
    earlier: Seq<Event>,
    later: Seq<Event>,
    given: spec_fn(Event) -> Option<T>,
)
    requires
        earlier.is_prefix_of(later),
    ensures
        (forall|i: int| earlier.len() <= i < later.len() ==> given(#[trigger] later[i]) is None)
            ==> latest(later, given) == latest(earlier, given),
    decreases later.len(),
{
    if later.len() == earlier.len() {
        assert(later =~= earlier);
    } else {
        let before = later.drop_last();
        assert(earlier =~= before.subrange(0, earlier.len() as int));
        law_latest_stays(earlier, before, given);
        if forall|i: int| earlier.len() <= i < later.len() ==> given(#[trigger] later[i]) is None {
            assert forall|i: int| earlier.len() <= i < before.len() implies given(
                #[trigger] before[i],
            ) is None by {
                assert(before[i] == later[i]);
            }
            assert(given(later[later.len() - 1]) is None);
        }
    }
}

/// Adding one event to a record is pushing it, and adding none changes nothing.
pub proof fn lemma_one_more(events: Seq<Event>)
    ensures
        forall|event: Event| #[trigger] (events + seq![event]) == events.push(event),
        events + Seq::<Event>::empty() == events,
{
    assert forall|event: Event| #[trigger] (events + seq![event]) == events.push(event) by {
        assert(events + seq![event] =~= events.push(event));
    }
    assert(events + Seq::<Event>::empty() =~= events);
}

/// An event that rests on known handles leaves a consistent state consistent.
pub proof fn law_events_keep_consistency(state: SecurityState, event: Event)
    requires
        state.consistent(),
        state.allows(event),
    ensures
        state.after(event).consistent(),
{
}

/// What one more event, or none, adds to the record.
pub proof fn lemma_recorded(events: Seq<Event>, new: Seq<Event>)
    requires
        new.len() <= 1,
    ensures
        new.len() == 0 ==> events + new == events,
        new.len() == 1 ==> outcome(events + new) == outcome(events).after(new[0]),
        new.len() == 1 ==> (founded(events + new) <==> founded(events) && outcome(events).allows(
            new[0],
        )),
{
    if new.len() == 0 {
        assert(events + new =~= events);
    } else {
        assert((events + new).drop_last() =~= events);
        assert((events + new).last() == new[0]);
    }
}

/// The record up to any point is founded too, and leads to the state in which the
/// event at that point found the handles that it rests on.
pub proof fn law_founded_at_every_point(events: Seq<Event>, n: int)
    requires
        founded(events),
        0 <= n < events.len(),
    ensures
        founded(events.take(n)),
        outcome(events.take(n)).allows(events[n]),
        outcome(events.take(n + 1)) == outcome(events.take(n)).after(events[n]),
    decreases events.len(),
{
    let before = events.drop_last();
    if n == before.len() {
        assert(events.take(n) =~= before);
        assert(events.take(n + 1) =~= events);
    } else {
        law_founded_at_every_point(before, n);
        assert(events.take(n) =~= before.take(n));
        assert(events.take(n + 1) =~= before.take(n + 1));
    }
}

/// A founded record leads to a consistent state.
pub proof fn law_founded_is_consistent(events: Seq<Event>)
    requires
        founded(events),
    ensures
        outcome(events).consistent(),
    decreases events.len(),
{
    if events.len() > 0 {
        law_founded_is_consistent(events.drop_last());
        law_events_keep_consistency(outcome(events.drop_last()), events.last());
    }
}

} // verus!
