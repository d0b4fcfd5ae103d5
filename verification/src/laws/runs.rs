//! What holds over whole runs of operations.

use vstd::prelude::*;

use crate::access_control::AccessControl;
use crate::authentication::Authentication;
use crate::cryptographic::Cryptographic;
use crate::error::{both, SecurityError};
use crate::guid::{GuidPrefix, GUID};
use crate::history::{
    gives_last, latest, law_founded_at_every_point, law_founded_is_consistent, law_latest,
    law_latest_stays, outcome, Event,
};
use crate::security_plugins::SecurityPlugins;
use crate::types::EndpointCryptoHandle;

verus! {

/// An identity handle is the latest one that events give.
proof fn lemma_identity_of(events: Seq<Event>, guidp: GuidPrefix)
    ensures
        outcome(events).identity_handle(guidp) == latest(
            events,
            |event: Event| event.identity_of(guidp),
        ).ok_or(SecurityError::IdentityHandleNotFound(guidp)),
    decreases events.len(),
{
    if events.len() > 0 {
        lemma_identity_of(events.drop_last(), guidp);
    }
}

/// A permissions handle is the latest one that events give.
proof fn lemma_permissions_of(events: Seq<Event>, guidp: GuidPrefix)
    ensures
        outcome(events).permissions_handle(guidp) == latest(
            events,
            |event: Event| event.permissions_of(guidp),
        ).ok_or(SecurityError::PermissionsHandleNotFound(guidp)),
    decreases events.len(),
{
    if events.len() > 0 {
        lemma_permissions_of(events.drop_last(), guidp);
    }
}

/// A handshake handle is the latest one that events give.
proof fn lemma_handshake_of(events: Seq<Event>, guidp: GuidPrefix)
    ensures
        outcome(events).handshake_handle(guidp) == latest(
            events,
            |event: Event| event.handshake_of(guidp),
        ).ok_or(SecurityError::HandshakeHandleNotFound(guidp)),
    decreases events.len(),
{
    if events.len() > 0 {
        lemma_handshake_of(events.drop_last(), guidp);
    }
}

/// A participant's crypto handle is the latest one that events give.
proof fn lemma_participant_crypto_of(events: Seq<Event>, guid_prefix: GuidPrefix)
    ensures
        outcome(events).participant_crypto_handle(guid_prefix) == latest(
            events,
            |event: Event| event.participant_crypto_of(guid_prefix),
        ).ok_or(SecurityError::ParticipantCryptoHandleNotFound(guid_prefix)),
    decreases events.len(),
{
    if events.len() > 0 {
        lemma_participant_crypto_of(events.drop_last(), guid_prefix);
    }
}

/// A local endpoint's crypto handle is the latest one that events give.
proof fn lemma_local_endpoint_crypto_of(events: Seq<Event>, guid: GUID)
    ensures
        outcome(events).local_endpoint_crypto_handle(guid) == latest(
            events,
            |event: Event| event.local_endpoint_crypto_of(guid),
        ).ok_or(SecurityError::LocalEndpointCryptoHandleNotFound(guid)),
    decreases events.len(),
{
    if events.len() > 0 {
        lemma_local_endpoint_crypto_of(events.drop_last(), guid);
    }
}

/// A matched remote endpoint's crypto handle is the latest one that events give.
proof fn lemma_remote_endpoint_crypto_of(events: Seq<Event>, local_endpoint: GUID, proxy: GUID)
    ensures
        outcome(events).remote_endpoint_crypto_handle(local_endpoint, proxy) == latest(
            events,
            |event: Event| event.remote_endpoint_crypto_of(local_endpoint, proxy),
        ).ok_or((SecurityError::RemoteEndpointCryptoHandleNotFound { local_endpoint, proxy })),
    decreases events.len(),
{
    if events.len() > 0 {
        lemma_remote_endpoint_crypto_of(events.drop_last(), local_endpoint, proxy);
    }
}

/// Some event is of a sort exactly if the last one is or an earlier one is.
proof fn lemma_last_or_earlier(events: Seq<Event>, is_one: spec_fn(Event) -> bool)
    requires
        events.len() > 0,
    ensures
        (exists|i: int| 0 <= i < events.len() && is_one(#[trigger] events[i])) <==> is_one(
            events.last(),
        ) || exists|i: int|
            0 <= i < events.drop_last().len() && is_one(#[trigger] events.drop_last()[i]),
{
    let before = events.drop_last();
    assert forall|i: int| 0 <= i < before.len() implies #[trigger] events[i] == before[i] by {}
    if exists|i: int| 0 <= i < before.len() && is_one(#[trigger] before[i]) {
        let i = choose|i: int| 0 <= i < before.len() && is_one(#[trigger] before[i]);
        assert(is_one(events[i]));
    }
    if is_one(events.last()) {
        assert(is_one(events[events.len() - 1]));
    }
}

/// A participant is marked by its unprotected registrations, and by nothing else.
proof fn lemma_rtps_marks(events: Seq<Event>, guid_prefix: GuidPrefix)
    ensures
        outcome(events).rtps_not_protected.contains(guid_prefix) <==> exists|i: int|
            0 <= i < events.len() && (#[trigger] events[i]).leaves_rtps_unprotected(guid_prefix),
    decreases events.len(),
{
    if events.len() > 0 {
        lemma_rtps_marks(events.drop_last(), guid_prefix);
        lemma_last_or_earlier(events, |event: Event| event.leaves_rtps_unprotected(guid_prefix));
    }
}

/// An endpoint's submessages are marked by its registrations that leave them
/// unprotected, and by nothing else.
proof fn lemma_submessage_marks(events: Seq<Event>, guid: GUID)
    ensures
        outcome(events).submessage_not_protected.contains(guid) <==> exists|i: int|
            0 <= i < events.len() && (#[trigger] events[i]).leaves_submessages_unprotected(guid),
    decreases events.len(),
{
    if events.len() > 0 {
        lemma_submessage_marks(events.drop_last(), guid);
        lemma_last_or_earlier(events, |event: Event| event.leaves_submessages_unprotected(guid));
    }
}

/// An endpoint's payloads are marked by its registrations that leave them
/// unprotected, and by nothing else.
proof fn lemma_payload_marks(events: Seq<Event>, guid: GUID)
    ensures
        outcome(events).payload_not_protected.contains(guid) <==> exists|i: int|
            0 <= i < events.len() && (#[trigger] events[i]).leaves_payloads_unprotected(guid),
    decreases events.len(),
{
    if events.len() > 0 {
        lemma_payload_marks(events.drop_last(), guid);
        lemma_last_or_earlier(events, |event: Event| event.leaves_payloads_unprotected(guid));
    }
}

/// More events only add to what is stored.
proof fn lemma_outcomes_retain(earlier: Seq<Event>, later: Seq<Event>)
    requires
        earlier.is_prefix_of(later),
    ensures
        outcome(later).retains(outcome(earlier)),
    decreases later.len(),
{
    if later.len() == earlier.len() {
        assert(later =~= earlier);
    } else {
        let before = later.drop_last();
        assert(earlier =~= before.subrange(0, earlier.len() as int));
        lemma_outcomes_retain(earlier, before);
    }
}

/// The identity handle of a participant is that of the latest validation that
/// returned a GUID with its prefix, or that succeeded for it as a remote
/// participant. There is none exactly if there was no such validation.
pub proof fn law_identity_is_the_latest<
    A: Authentication + ?Sized,
    P: AccessControl<A> + ?Sized,
    C: Cryptographic + ?Sized,
>(plugins: &SecurityPlugins<A, P, C>, guidp: GuidPrefix)
    requires
        plugins.well_formed(),
    ensures
        plugins@.identity_handle(guidp) == latest(
            plugins.history(),
            |event: Event| event.identity_of(guidp),
        ).ok_or(SecurityError::IdentityHandleNotFound(guidp)),
{
    lemma_identity_of(plugins.history(), guidp);
}

/// The permissions handle of a participant is that of the latest validation of its
/// permissions that succeeded. There is none exactly if there was no such
/// validation.
pub proof fn law_permissions_are_the_latest<
    A: Authentication + ?Sized,
    P: AccessControl<A> + ?Sized,
    C: Cryptographic + ?Sized,
>(plugins: &SecurityPlugins<A, P, C>, guidp: GuidPrefix)
    requires
        plugins.well_formed(),
    ensures
        plugins@.permissions_handle(guidp) == latest(
            plugins.history(),
            |event: Event| event.permissions_of(guidp),
        ).ok_or(SecurityError::PermissionsHandleNotFound(guidp)),
{
    lemma_permissions_of(plugins.history(), guidp);
}

/// The handshake handle of a participant is that of the latest handshake that was
/// begun with it as the remote side, by a request or by a reply. There is none
/// exactly if there was no such handshake: being the local side of one gives none.
pub proof fn law_handshake_is_the_latest<
    A: Authentication + ?Sized,
    P: AccessControl<A> + ?Sized,
    C: Cryptographic + ?Sized,
>(plugins: &SecurityPlugins<A, P, C>, guidp: GuidPrefix)
    requires
        plugins.well_formed(),
    ensures
        plugins@.handshake_handle(guidp) == latest(
            plugins.history(),
            |event: Event| event.handshake_of(guidp),
        ).ok_or(SecurityError::HandshakeHandleNotFound(guidp)),
{
    lemma_handshake_of(plugins.history(), guidp);
}

/// The crypto handle of a participant is that of its latest registration that
/// succeeded, as the local participant or as a remote one. There is none exactly if
/// there was no such registration.
pub proof fn law_participant_crypto_is_the_latest<
    A: Authentication + ?Sized,
    P: AccessControl<A> + ?Sized,
    C: Cryptographic + ?Sized,
>(plugins: &SecurityPlugins<A, P, C>, guid_prefix: GuidPrefix)
    requires
        plugins.well_formed(),
    ensures
        plugins@.participant_crypto_handle(guid_prefix) == latest(
            plugins.history(),
            |event: Event| event.participant_crypto_of(guid_prefix),
        ).ok_or(SecurityError::ParticipantCryptoHandleNotFound(guid_prefix)),
{
    lemma_participant_crypto_of(plugins.history(), guid_prefix);
}

/// The crypto handle of a local endpoint is that of its latest registration that
/// succeeded. There is none exactly if there was no such registration.
pub proof fn law_local_endpoint_crypto_is_the_latest<
    A: Authentication + ?Sized,
    P: AccessControl<A> + ?Sized,
    C: Cryptographic + ?Sized,
>(plugins: &SecurityPlugins<A, P, C>, guid: GUID)
    requires
        plugins.well_formed(),
    ensures
        plugins@.local_endpoint_crypto_handle(guid) == latest(
            plugins.history(),
            |event: Event| event.local_endpoint_crypto_of(guid),
        ).ok_or(SecurityError::LocalEndpointCryptoHandleNotFound(guid)),
{
    lemma_local_endpoint_crypto_of(plugins.history(), guid);
}

/// The crypto handle of a remote endpoint, as matched with a local one, is that of
/// the latest registration of the pair that succeeded. There is none exactly if
/// there was no such registration.
pub proof fn law_remote_endpoint_crypto_is_the_latest<
    A: Authentication + ?Sized,
    P: AccessControl<A> + ?Sized,
    C: Cryptographic + ?Sized,
>(plugins: &SecurityPlugins<A, P, C>, local_endpoint: GUID, proxy: GUID)
    requires
        plugins.well_formed(),
    ensures
        plugins@.remote_endpoint_crypto_handle(local_endpoint, proxy) == latest(
            plugins.history(),
            |event: Event| event.remote_endpoint_crypto_of(local_endpoint, proxy),
        ).ok_or((SecurityError::RemoteEndpointCryptoHandleNotFound { local_endpoint, proxy })),
{
    lemma_remote_endpoint_crypto_of(plugins.history(), local_endpoint, proxy);
}

/// A participant is marked as unprotected exactly if it was once registered as the
/// local participant with attributes that ask for no protection, while both its
/// identity handle and its permissions handle were known. So no other operation
/// marks it, the registration of a remote participant included, and none unmarks it.
pub proof fn law_participant_is_unprotected_once_registered_so<
    A: Authentication + ?Sized,
    P: AccessControl<A> + ?Sized,
    C: Cryptographic + ?Sized,
>(
    plugins: &SecurityPlugins<A, P, C>,
    guid_prefix: GuidPrefix,
)
    requires
        plugins.well_formed(),
    ensures
        plugins@.rtps_not_protected.contains(guid_prefix) <==> exists|i: int|
            {
                &&& 0 <= i < plugins.history().len()
                &&& (#[trigger] plugins.history()[i]).leaves_rtps_unprotected(guid_prefix)
                &&& outcome(plugins.history().take(i)).identity_handle(guid_prefix) is Ok
                &&& outcome(plugins.history().take(i)).permissions_handle(guid_prefix) is Ok
            },
{
    let events = plugins.history();
    lemma_rtps_marks(events, guid_prefix);
    assert forall|i: int|
        0 <= i < events.len() && (#[trigger] events[i]).leaves_rtps_unprotected(
            guid_prefix,
        ) implies {
        &&& outcome(events.take(i)).identity_handle(guid_prefix) is Ok
        &&& outcome(events.take(i)).permissions_handle(guid_prefix) is Ok
    } by {
        law_founded_at_every_point(events, i);
    }
}

/// The submessages of an endpoint, and its payloads, are marked as unprotected
/// exactly if it was once registered as a local endpoint with attributes that ask
/// for no protection of them, while the crypto handle of its participant was known.
pub proof fn law_endpoint_is_unprotected_once_registered_so<
    A: Authentication + ?Sized,
    P: AccessControl<A> + ?Sized,
    C: Cryptographic + ?Sized,
>(
    plugins: &SecurityPlugins<A, P, C>,
    guid: GUID,
)
    requires
        plugins.well_formed(),
    ensures
        plugins@.submessage_not_protected.contains(guid) <==> exists|i: int|
            {
                &&& 0 <= i < plugins.history().len()
                &&& (#[trigger] plugins.history()[i]).leaves_submessages_unprotected(guid)
                &&& outcome(plugins.history().take(i)).participant_crypto_handle(guid.prefix) is Ok
            },
        plugins@.payload_not_protected.contains(guid) <==> exists|i: int|
            {
                &&& 0 <= i < plugins.history().len()
                &&& (#[trigger] plugins.history()[i]).leaves_payloads_unprotected(guid)
                &&& outcome(plugins.history().take(i)).participant_crypto_handle(guid.prefix) is Ok
            },
{
    let events = plugins.history();
    lemma_submessage_marks(events, guid);
    lemma_payload_marks(events, guid);
    assert forall|i: int|
        0 <= i < events.len() && ((#[trigger] events[i]).leaves_submessages_unprotected(guid)
            || events[i].leaves_payloads_unprotected(guid)) implies outcome(
        events.take(i),
    ).participant_crypto_handle(guid.prefix) is Ok by {
        law_founded_at_every_point(events, i);
    }
}

/// Whatever operations were called, a known handle comes with those that it rests
/// on: permissions, handshakes and participants' key material with an identity,
/// participants' key material with permissions too, a local endpoint's key material
/// with that of its participant, and a matched remote endpoint's key material with
/// that of the local endpoint and of its own participant and with a handshake.
pub proof fn law_known_handles_come_with_those_they_rest_on<
    A: Authentication + ?Sized,
    P: AccessControl<A> + ?Sized,
    C: Cryptographic + ?Sized,
>(
    plugins: &SecurityPlugins<A, P, C>,
    guidp: GuidPrefix,
    guid: GUID,
    other: GUID,
)
    requires
        plugins.well_formed(),
    ensures
        plugins@.consistent(),
        plugins@.permissions_handle(guidp) is Ok ==> plugins@.identity_handle(guidp) is Ok,
        plugins@.handshake_handle(guidp) is Ok ==> plugins@.identity_handle(guidp) is Ok,
        plugins@.participant_crypto_handle(guidp) is Ok ==> plugins@.identity_handle(guidp) is Ok
            && plugins@.permissions_handle(guidp) is Ok,
        plugins@.local_endpoint_crypto_handle(guid) is Ok ==> plugins@.participant_crypto_handle(
            guid.prefix,
        ) is Ok,
        plugins@.remote_endpoint_crypto_handle(guid, other) is Ok
            ==> plugins@.local_endpoint_crypto_handle(guid) is Ok
            && plugins@.participant_crypto_handle(other.prefix) is Ok && plugins@.handshake_handle(
            other.prefix,
        ) is Ok,
{
    let state = plugins@;
    law_founded_is_consistent(plugins.history());
    assert(state.permissions.dom().contains(guidp) ==> state.identities.dom().contains(guidp));
    assert(state.handshakes.dom().contains(guidp) ==> state.identities.dom().contains(guidp));
    assert(state.participant_crypto.dom().contains(guidp) ==> state.identities.dom().contains(guidp)
        && state.permissions.dom().contains(guidp));
}

/// A value follows itself, and what follows a value follows all that the value
/// follows: so the laws on earlier and later values hold over any run of operations.
pub proof fn law_following_adds_up<
    A: Authentication + ?Sized,
    P: AccessControl<A> + ?Sized,
    C: Cryptographic + ?Sized,
>(
    first: &SecurityPlugins<A, P, C>,
    second: &SecurityPlugins<A, P, C>,
    third: &SecurityPlugins<A, P, C>,
)
    requires
        first.well_formed(),
    ensures
        first.follows(first),
        second.follows(first) && third.follows(second) ==> third.follows(first),
{
}

/// Over any run of operations, no identifier loses its handle and no mark is lost.
pub proof fn law_nothing_is_forgotten<
    A: Authentication + ?Sized,
    P: AccessControl<A> + ?Sized,
    C: Cryptographic + ?Sized,
>(earlier: &SecurityPlugins<A, P, C>, later: &SecurityPlugins<A, P, C>)
    requires
        earlier.well_formed(),
        later.follows(earlier),
    ensures
        later@.retains(earlier@),
{
    lemma_outcomes_retain(earlier.history(), later.history());
}

/// Over any run of operations, a handle stays the same until an operation gives
/// another for the same identifier.
pub proof fn law_handles_stay_until_given_anew<
    A: Authentication + ?Sized,
    P: AccessControl<A> + ?Sized,
    C: Cryptographic + ?Sized,
>(
    earlier: &SecurityPlugins<A, P, C>,
    later: &SecurityPlugins<A, P, C>,
    guidp: GuidPrefix,
    guid: GUID,
    other: GUID,
)
    requires
        earlier.well_formed(),
        later.follows(earlier),
    ensures
        (forall|i: int|
            earlier.history().len() <= i < later.history().len()
                ==> (#[trigger] later.history()[i]).identity_of(guidp) is None)
            ==> later@.identity_handle(guidp) == earlier@.identity_handle(guidp),
        (forall|i: int|
            earlier.history().len() <= i < later.history().len()
                ==> (#[trigger] later.history()[i]).permissions_of(guidp) is None)
            ==> later@.permissions_handle(guidp) == earlier@.permissions_handle(guidp),
        (forall|i: int|
            earlier.history().len() <= i < later.history().len()
                ==> (#[trigger] later.history()[i]).handshake_of(guidp) is None)
            ==> later@.handshake_handle(guidp) == earlier@.handshake_handle(guidp),
        (forall|i: int|
            earlier.history().len() <= i < later.history().len()
                ==> (#[trigger] later.history()[i]).participant_crypto_of(guidp) is None)
            ==> later@.participant_crypto_handle(guidp) == earlier@.participant_crypto_handle(
            guidp,
        ),
        (forall|i: int|
            earlier.history().len() <= i < later.history().len()
                ==> (#[trigger] later.history()[i]).local_endpoint_crypto_of(guid) is None)
            ==> later@.local_endpoint_crypto_handle(guid) == earlier@.local_endpoint_crypto_handle(
            guid,
        ),
        (forall|i: int|
            earlier.history().len() <= i < later.history().len()
                ==> (#[trigger] later.history()[i]).remote_endpoint_crypto_of(guid, other) is None)
            ==> later@.remote_endpoint_crypto_handle(guid, other)
            == earlier@.remote_endpoint_crypto_handle(guid, other),
{
    let (before, after) = (earlier.history(), later.history());
    lemma_identity_of(before, guidp);
    lemma_identity_of(after, guidp);
    law_latest_stays(before, after, |event: Event| event.identity_of(guidp));
    lemma_permissions_of(before, guidp);
    lemma_permissions_of(after, guidp);
    law_latest_stays(before, after, |event: Event| event.permissions_of(guidp));
    lemma_handshake_of(before, guidp);
    lemma_handshake_of(after, guidp);
    law_latest_stays(before, after, |event: Event| event.handshake_of(guidp));
    lemma_participant_crypto_of(before, guidp);
    lemma_participant_crypto_of(after, guidp);
    law_latest_stays(before, after, |event: Event| event.participant_crypto_of(guidp));
    lemma_local_endpoint_crypto_of(before, guid);
    lemma_local_endpoint_crypto_of(after, guid);
    law_latest_stays(before, after, |event: Event| event.local_endpoint_crypto_of(guid));
    lemma_remote_endpoint_crypto_of(before, guid, other);
    lemma_remote_endpoint_crypto_of(after, guid, other);
    law_latest_stays(before, after, |event: Event| event.remote_endpoint_crypto_of(guid, other));
}

/// The key material of two matched endpoints is exchanged by the handle that the
/// local endpoint had when the pair was registered and by the handle that this
/// registration gave, in this order, until the local endpoint or the pair is
/// registered again.
pub proof fn law_keys_are_exchanged_by_the_registered_handles<
    A: Authentication + ?Sized,
    P: AccessControl<A> + ?Sized,
    C: Cryptographic + ?Sized,
>(
    plugins: &SecurityPlugins<A, P, C>,
    registered: int,
    local_endpoint: GUID,
    proxy: GUID,
    handle: EndpointCryptoHandle,
)
    requires
        plugins.well_formed(),
        0 <= registered < plugins.history().len(),
        plugins.history()[registered] == (Event::RemoteEndpoint { local_endpoint, proxy, handle }),
        forall|i: int|
            registered < i < plugins.history().len() ==> (
            #[trigger] plugins.history()[i]).local_endpoint_crypto_of(local_endpoint) is None
                && plugins.history()[i].remote_endpoint_crypto_of(local_endpoint, proxy) is None,
    ensures
        outcome(plugins.history().take(registered)).local_endpoint_crypto_handle(
            local_endpoint,
        ) is Ok,
        both(
            plugins@.local_endpoint_crypto_handle(local_endpoint),
            plugins@.remote_endpoint_crypto_handle(local_endpoint, proxy),
        ) == Ok::<(EndpointCryptoHandle, EndpointCryptoHandle), SecurityError>(
            (
                outcome(plugins.history().take(registered)).local_endpoint_crypto_handle(
                    local_endpoint,
                )->Ok_0,
                handle,
            ),
        ),
{
    let events = plugins.history();
    let local_crypto_of = |event: Event| event.local_endpoint_crypto_of(local_endpoint);
    let remote_crypto_of = |event: Event| event.remote_endpoint_crypto_of(local_endpoint, proxy);
    law_founded_at_every_point(events, registered);
    lemma_local_endpoint_crypto_of(events, local_endpoint);
    lemma_local_endpoint_crypto_of(events.take(registered), local_endpoint);
    law_latest_stays(events.take(registered), events, local_crypto_of);
    lemma_remote_endpoint_crypto_of(events, local_endpoint, proxy);
    law_latest(events, remote_crypto_of);
    assert(gives_last(events, remote_crypto_of, registered));
}

} // verus!
