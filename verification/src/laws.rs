//! What holds of the security plugins across operations.
//!
//! The modules named after the parts of the interface hold a law for each operation:
//! what it hands to which plugin, what it returns for each reply, what it stores and
//! what stays as it was. They speak of a call, be it of the operation or of a
//! plugin's method, by `call_ensures`, which relates its arguments to its result.
//! [`runs`] holds the laws over whole runs of operations.

use vstd::prelude::*;

use crate::access_control::AccessControl;
use crate::authentication::{Authentication, ValidationOutcome};
use crate::cryptographic::{Cryptographic, EncodedSubmessage};
use crate::error::{all, both, law_all, SecurityError, SecurityResult};
use crate::guid::{GuidPrefix, GUID};
use crate::recipients::{distinct_sorted, law_recipients_ignore_order_and_repetition};
use crate::rtps::{Message, ParameterList, Submessage};
use crate::security_plugins::SecurityPlugins;
use crate::state::SecurityState;
use crate::types::{
    AuthRequestMessageToken, CryptoHandle, EndpointCryptoHandle, EndpointSecurityAttributes,
    HandshakeHandle, HandshakeMessageToken, IdentityHandle, ParticipantCryptoHandle,
    ParticipantSecurityAttributes, PermissionsHandle,
};

pub mod access_control;
pub mod authentication;
pub mod crypto_key_exchange;
pub mod crypto_key_factory;
pub mod crypto_transform;
pub mod runs;
pub mod values;

verus! {

/// At first nothing is known and nothing passes unprotected.
pub proof fn law_nothing_known_at_first(guidp: GuidPrefix, guid: GUID, other: GUID)
    ensures
        SecurityState::empty().identity_handle(guidp) is Err,
        SecurityState::empty().permissions_handle(guidp) is Err,
        SecurityState::empty().handshake_handle(guidp) is Err,
        SecurityState::empty().participant_crypto_handle(guidp) is Err,
        SecurityState::empty().local_endpoint_crypto_handle(guid) is Err,
        SecurityState::empty().remote_endpoint_crypto_handle(guid, other) is Err,
        !SecurityState::empty().message_passes(guidp),
        !SecurityState::empty().submessage_passes(guid),
        !SecurityState::empty().payload_passes(guid),
{
}

/// What is known in a state is known in every later state that retains it, and
/// what passes unprotected goes on passing.
pub proof fn law_known_stays_known(
    earlier: SecurityState,
    later: SecurityState,
    guidp: GuidPrefix,
    guid: GUID,
    other: GUID,
)
    requires
        later.retains(earlier),
    ensures
        earlier.identity_handle(guidp) is Ok ==> later.identity_handle(guidp) is Ok,
        earlier.permissions_handle(guidp) is Ok ==> later.permissions_handle(guidp) is Ok,
        earlier.handshake_handle(guidp) is Ok ==> later.handshake_handle(guidp) is Ok,
        earlier.participant_crypto_handle(guidp) is Ok ==> later.participant_crypto_handle(
            guidp,
        ) is Ok,
        earlier.local_endpoint_crypto_handle(guid) is Ok ==> later.local_endpoint_crypto_handle(
            guid,
        ) is Ok,
        earlier.remote_endpoint_crypto_handle(guid, other) is Ok
            ==> later.remote_endpoint_crypto_handle(guid, other) is Ok,
        earlier.message_passes(guidp) ==> later.message_passes(guidp),
        earlier.submessage_passes(guid) ==> later.submessage_passes(guid),
        earlier.payload_passes(guid) ==> later.payload_passes(guid),
{
    assert(earlier.identities.dom().contains(guidp) ==> later.identities.dom().contains(guidp));
    assert(earlier.permissions.dom().contains(guidp) ==> later.permissions.dom().contains(guidp));
    assert(earlier.handshakes.dom().contains(guidp) ==> later.handshakes.dom().contains(guidp));
    assert(earlier.participant_crypto.dom().contains(guidp)
        ==> later.participant_crypto.dom().contains(guidp));
    assert(earlier.local_endpoint_crypto.dom().contains(guid)
        ==> later.local_endpoint_crypto.dom().contains(guid));
    assert(earlier.remote_endpoint_crypto.dom().contains((guid, other))
        ==> later.remote_endpoint_crypto.dom().contains((guid, other)));
}

/// A state retains itself, and what retains a state retains all that the state
/// retained: so nothing is forgotten over any run of operations.
pub proof fn law_retaining_adds_up(
    first: SecurityState,
    second: SecurityState,
    third: SecurityState,
)
    ensures
        first.retains(first),
        second.retains(first) && third.retains(second) ==> third.retains(first),
{
}

/// Starting from nothing, the crypto transform is never turned off, so that what
/// passes unprotected is what was marked, and nothing else.
pub proof fn law_only_what_is_marked_passes(state: SecurityState, guidp: GuidPrefix, guid: GUID)
    requires
        state.retains(SecurityState::empty()),
    ensures
        state.message_passes(guidp) <==> state.rtps_not_protected.contains(guidp),
        state.submessage_passes(guid) <==> state.submessage_not_protected.contains(guid),
        state.payload_passes(guid) <==> state.payload_not_protected.contains(guid),
{
}

/// A valid local identity is found again under the prefix of the GUID returned,
/// and the identities of other participants are as before. Any other reply is an
/// error and stores nothing.
pub proof fn law_local_identity_found_again(
    state: SecurityState,
    reply: SecurityResult<(ValidationOutcome, IdentityHandle, GUID)>,
    result: SecurityResult<GUID>,
    post: SecurityState,
    other: GuidPrefix,
)
    requires
        state.takes_local_identity(reply, result, post),
    ensures
        result matches Ok(guid) ==> reply == Ok::<
            (ValidationOutcome, IdentityHandle, GUID),
            SecurityError,
        >((ValidationOutcome::Valid, reply->Ok_0.1, guid)) && post.identity_handle(guid.prefix)
            == Ok::<IdentityHandle, SecurityError>(reply->Ok_0.1),
        !(result matches Ok(guid) && guid.prefix == other) ==> post.identity_handle(other)
            == state.identity_handle(other),
        !(reply matches Ok((ValidationOutcome::Valid, _, _))) ==> result is Err && post == state,
{
}

/// A remote identity is found again, whatever the outcome of the validation, and
/// the identities of other participants are as before. A failed reply stores nothing.
pub proof fn law_remote_identity_found_again(
    state: SecurityState,
    remote_guidp: GuidPrefix,
    reply: SecurityResult<(ValidationOutcome, IdentityHandle, Option<AuthRequestMessageToken>)>,
    result: SecurityResult<(ValidationOutcome, Option<AuthRequestMessageToken>)>,
    post: SecurityState,
    other: GuidPrefix,
)
    requires
        state.takes_remote_identity(remote_guidp, reply, result, post),
    ensures
        reply is Ok <==> result is Ok,
        reply is Err ==> post == state,
        reply matches Ok((_, handle, _)) ==> post.identity_handle(remote_guidp) == Ok::<
            IdentityHandle,
            SecurityError,
        >(handle),
        other != remote_guidp ==> post.identity_handle(other) == state.identity_handle(other),
{
}

/// A handshake that is opened with a remote participant is found again, and the
/// handshakes with other participants are as before. A failed reply stores nothing.
pub proof fn law_handshake_found_again(
    state: SecurityState,
    remote_guidp: GuidPrefix,
    reply: SecurityResult<(ValidationOutcome, HandshakeHandle, HandshakeMessageToken)>,
    result: SecurityResult<(ValidationOutcome, HandshakeMessageToken)>,
    post: SecurityState,
    other: GuidPrefix,
)
    requires
        state.takes_handshake(remote_guidp, reply, result, post),
    ensures
        reply is Ok <==> result is Ok,
        reply is Err ==> post == state,
        reply matches Ok((_, handle, _)) ==> post.handshake_handle(remote_guidp) == Ok::<
            HandshakeHandle,
            SecurityError,
        >(handle),
        other != remote_guidp ==> post.handshake_handle(other) == state.handshake_handle(other),
{
}

/// Permissions that are validated for a participant are found again, and the
/// permissions of other participants are as before. A failed reply stores nothing.
pub proof fn law_permissions_found_again(
    state: SecurityState,
    guidp: GuidPrefix,
    reply: SecurityResult<PermissionsHandle>,
    result: SecurityResult<()>,
    post: SecurityState,
    other: GuidPrefix,
)
    requires
        state.takes_permissions(guidp, reply, result, post),
    ensures
        reply is Ok <==> result is Ok,
        reply is Err ==> post == state,
        reply is Ok ==> post.permissions_handle(guidp) == reply,
        other != guidp ==> post.permissions_handle(other) == state.permissions_handle(other),
{
}

/// Key material that is made for a participant is found again, and that of other
/// participants is as before. A failed reply stores nothing.
pub proof fn law_participant_crypto_found_again(
    state: SecurityState,
    guid_prefix: GuidPrefix,
    reply: SecurityResult<ParticipantCryptoHandle>,
    result: SecurityResult<()>,
    post: SecurityState,
    other: GuidPrefix,
)
    requires
        state.takes_participant_crypto(guid_prefix, reply, result, post),
    ensures
        reply is Ok <==> result is Ok,
        reply is Err ==> post == state,
        reply is Ok ==> post.participant_crypto_handle(guid_prefix) == reply,
        other != guid_prefix ==> post.participant_crypto_handle(other)
            == state.participant_crypto_handle(other),
{
}

/// Key material that is made for a local endpoint is found again, its handle and no
/// other is confirmed for the endpoint, and what is known of other endpoints is as
/// before. A failed reply stores nothing.
pub proof fn law_local_endpoint_crypto_found_again(
    state: SecurityState,
    guid: GUID,
    reply: SecurityResult<EndpointCryptoHandle>,
    result: SecurityResult<()>,
    post: SecurityState,
    other: GUID,
)
    requires
        state.takes_local_endpoint_crypto(guid, reply, result, post),
    ensures
        reply is Ok <==> result is Ok,
        reply is Err ==> post == state,
        reply is Ok ==> post.local_endpoint_crypto_handle(guid) == reply,
        reply is Ok ==> forall|handle: EndpointCryptoHandle| #[trigger]
            post.confirms_local_endpoint(handle, guid) <==> handle == reply->Ok_0,
        other != guid ==> post.local_endpoint_crypto_handle(other)
            == state.local_endpoint_crypto_handle(other),
{
}

/// Key material that is made for a remote endpoint, as matched with a local one, is
/// found again for that pair in that order, and what is known of other pairs is as
/// before. A failed reply stores nothing.
pub proof fn law_remote_endpoint_crypto_found_again(
    state: SecurityState,
    local_endpoint: GUID,
    proxy: GUID,
    reply: SecurityResult<EndpointCryptoHandle>,
    result: SecurityResult<()>,
    post: SecurityState,
    other_local_endpoint: GUID,
    other_proxy: GUID,
)
    requires
        state.takes_remote_endpoint_crypto(local_endpoint, proxy, reply, result, post),
    ensures
        reply is Ok <==> result is Ok,
        reply is Err ==> post == state,
        reply is Ok ==> post.remote_endpoint_crypto_handle(local_endpoint, proxy) == reply,
        (other_local_endpoint, other_proxy) != (local_endpoint, proxy)
            ==> post.remote_endpoint_crypto_handle(other_local_endpoint, other_proxy)
            == state.remote_endpoint_crypto_handle(other_local_endpoint, other_proxy),
{
}

/// Once a remote endpoint has been registered as matched with a known local one,
/// both handles that the exchange of their key material needs are found.
pub proof fn law_matched_endpoints_can_exchange_keys(
    state: SecurityState,
    local_endpoint: GUID,
    proxy: GUID,
    reply: SecurityResult<EndpointCryptoHandle>,
    result: SecurityResult<()>,
    post: SecurityState,
)
    requires
        state.local_endpoint_crypto_handle(local_endpoint) is Ok,
        state.takes_remote_endpoint_crypto(local_endpoint, proxy, reply, result, post),
        result is Ok,
    ensures
        both(
            post.local_endpoint_crypto_handle(local_endpoint),
            post.remote_endpoint_crypto_handle(local_endpoint, proxy),
        ) == Ok::<(EndpointCryptoHandle, EndpointCryptoHandle), SecurityError>(
            (state.local_endpoint_crypto_handle(local_endpoint)->Ok_0, reply->Ok_0),
        ),
{
}

/// Registering a local participant marks it as unprotected exactly if the
/// attributes ask for no protection or it was so marked before, whether or not the
/// plugin then makes key material. Other participants keep their marks.
pub proof fn law_participant_marks(
    state: SecurityState,
    guidp: GuidPrefix,
    attributes: ParticipantSecurityAttributes,
    reply: SecurityResult<ParticipantCryptoHandle>,
    result: SecurityResult<()>,
    post: SecurityState,
    other: GuidPrefix,
)
    requires
        state.with_participant_marks(guidp, attributes).takes_participant_crypto(
            guidp,
            reply,
            result,
            post,
        ),
    ensures
        post.rtps_not_protected.contains(guidp) <==> !attributes.is_rtps_protected
            || state.rtps_not_protected.contains(guidp),
        other != guidp ==> (post.rtps_not_protected.contains(other)
            <==> state.rtps_not_protected.contains(other)),
        post.submessage_not_protected == state.submessage_not_protected,
        post.payload_not_protected == state.payload_not_protected,
{
}

/// Registering a local endpoint marks its submessages and its payloads as
/// unprotected exactly if the attributes ask for no protection of them or they were
/// so marked before, whether or not the plugin then makes key material. Other
/// endpoints keep their marks.
pub proof fn law_endpoint_marks(
    state: SecurityState,
    guid: GUID,
    attributes: EndpointSecurityAttributes,
    reply: SecurityResult<EndpointCryptoHandle>,
    result: SecurityResult<()>,
    post: SecurityState,
    other: GUID,
)
    requires
        state.with_endpoint_marks(guid, attributes).takes_local_endpoint_crypto(
            guid,
            reply,
            result,
            post,
        ),
    ensures
        post.submessage_not_protected.contains(guid) <==> !attributes.is_submessage_protected
            || state.submessage_not_protected.contains(guid),
        post.payload_not_protected.contains(guid) <==> !attributes.is_payload_protected
            || state.payload_not_protected.contains(guid),
        other != guid ==> (post.submessage_not_protected.contains(other)
            <==> state.submessage_not_protected.contains(other)),
        other != guid ==> (post.payload_not_protected.contains(other)
            <==> state.payload_not_protected.contains(other)),
        post.rtps_not_protected == state.rtps_not_protected,
{
}

/// A payload that neither the writer's side nor the reader's side protects comes out
/// as it went in, whatever the plugins do.
pub proof fn law_unprotected_payload_round_trip<
    A: Authentication + ?Sized,
    P: AccessControl<A> + ?Sized,
    C: Cryptographic + ?Sized,
    A2: Authentication + ?Sized,
    P2: AccessControl<A2> + ?Sized,
    C2: Cryptographic + ?Sized,
>(
    sender: &SecurityPlugins<A, P, C>,
    receiver: &SecurityPlugins<A2, P2, C2>,
    payload: Seq<u8>,
    writer: GUID,
    reader: GUID,
    encoded: SecurityResult<(Vec<u8>, ParameterList)>,
    decoded: SecurityResult<Vec<u8>>,
)
    requires
        sender@.payload_passes(writer),
        receiver@.payload_passes(reader),
        sender.encodes_serialized_payload(payload, writer, encoded),
        encoded matches Ok((bytes, inline_qos)) ==> receiver.decodes_serialized_payload(
            bytes@,
            inline_qos@,
            writer,
            reader,
            decoded,
        ),
    ensures
        encoded is Ok,
        decoded matches Ok(bytes) && bytes@ == payload,
{
}

/// A protected payload comes out as it went in if the plugins undo each other's
/// work for the handles that the writer's side and the reader's side have stored.
pub proof fn law_protected_payload_round_trip<
    A: Authentication + ?Sized,
    P: AccessControl<A> + ?Sized,
    C: Cryptographic + ?Sized,
    A2: Authentication + ?Sized,
    P2: AccessControl<A2> + ?Sized,
    C2: Cryptographic + ?Sized,
>(
    sender: &SecurityPlugins<A, P, C>,
    receiver: &SecurityPlugins<A2, P2, C2>,
    payload: Seq<u8>,
    writer: GUID,
    reader: GUID,
    writer_crypto: EndpointCryptoHandle,
    reader_crypto: EndpointCryptoHandle,
    remote_writer_crypto: EndpointCryptoHandle,
    encoded: SecurityResult<(Vec<u8>, ParameterList)>,
    decoded: SecurityResult<Vec<u8>>,
)
    requires
        !sender@.payload_passes(writer),
        !receiver@.payload_passes(reader),
        sender@.local_endpoint_crypto_handle(writer) == Ok::<EndpointCryptoHandle, SecurityError>(
            writer_crypto,
        ),
        receiver@.local_endpoint_crypto_handle(reader) == Ok::<EndpointCryptoHandle, SecurityError>(
            reader_crypto,
        ),
        receiver@.remote_endpoint_crypto_handle(reader, writer) == Ok::<
            EndpointCryptoHandle,
            SecurityError,
        >(remote_writer_crypto),
        forall|bytes: Vec<u8>, inline_qos: ParameterList, plain: SecurityResult<Vec<u8>>|
            sender.crypto().may_encode_serialized_payload(
                payload,
                writer_crypto,
                Ok::<(Vec<u8>, ParameterList), SecurityError>((bytes, inline_qos)),
            ) && #[trigger] receiver.crypto().may_decode_serialized_payload(
                bytes@,
                inline_qos@,
                reader_crypto,
                remote_writer_crypto,
                plain,
            ) ==> (plain matches Ok(undone) && undone@ == payload),
        sender.encodes_serialized_payload(payload, writer, encoded),
        encoded is Ok,
        receiver.decodes_serialized_payload(
            encoded->Ok_0.0@,
            encoded->Ok_0.1@,
            writer,
            reader,
            decoded,
        ),
    ensures
        decoded matches Ok(bytes) && bytes@ == payload,
{
}

/// A protected message comes out as it went in if the plugins undo each other's
/// work for the handles that the sending side and the receiving side have stored.
pub proof fn law_protected_message_round_trip<
    A: Authentication + ?Sized,
    P: AccessControl<A> + ?Sized,
    C: Cryptographic + ?Sized,
    A2: Authentication + ?Sized,
    P2: AccessControl<A2> + ?Sized,
    C2: Cryptographic + ?Sized,
>(
    sender: &SecurityPlugins<A, P, C>,
    receiver: &SecurityPlugins<A2, P2, C2>,
    message: Message,
    source: GuidPrefix,
    destination: GuidPrefix,
    destinations: Seq<GuidPrefix>,
    source_crypto: ParticipantCryptoHandle,
    destinations_crypto: Seq<ParticipantCryptoHandle>,
    destination_crypto: ParticipantCryptoHandle,
    remote_source_crypto: ParticipantCryptoHandle,
    encoded: SecurityResult<Message>,
    decoded: SecurityResult<Message>,
)
    requires
        !sender@.message_passes(source),
        sender@.participant_crypto_handle(source) == Ok::<ParticipantCryptoHandle, SecurityError>(
            source_crypto,
        ),
        sender@.participant_crypto_handles(destinations) == Ok::<
            Seq<ParticipantCryptoHandle>,
            SecurityError,
        >(destinations_crypto),
        receiver@.participant_crypto_handle(destination) == Ok::<
            ParticipantCryptoHandle,
            SecurityError,
        >(destination_crypto),
        receiver@.participant_crypto_handle(source) == Ok::<ParticipantCryptoHandle, SecurityError>(
            remote_source_crypto,
        ),
        forall|protected: Message, plain: SecurityResult<Message>|
            sender.crypto().may_encode_rtps_message(
                message,
                source_crypto,
                distinct_sorted(destinations_crypto),
                Ok::<Message, SecurityError>(protected),
            ) && #[trigger] receiver.crypto().may_decode_rtps_message(
                protected,
                destination_crypto,
                remote_source_crypto,
                plain,
            ) ==> plain == Ok::<Message, SecurityError>(message),
        sender.encodes_message(message, source, destinations, encoded),
        encoded is Ok,
        receiver.decodes_rtps_message(encoded->Ok_0, source, destination, decoded),
    ensures
        decoded == Ok::<Message, SecurityError>(message),
{
}

/// Looking up the same keys in another order, or more often, finds all of them or
/// fails alike, and gives the plugin the same recipients.
proof fn lemma_same_recipients<K>(
    keys: Seq<K>,
    others: Seq<K>,
    lookup: spec_fn(K) -> SecurityResult<CryptoHandle>,
)
    requires
        keys.to_set() == others.to_set(),
    ensures
        all(keys.map_values(lookup)) is Ok <==> all(others.map_values(lookup)) is Ok,
        all(keys.map_values(lookup)) is Ok ==> distinct_sorted(all(keys.map_values(lookup))->Ok_0)
            == distinct_sorted(all(others.map_values(lookup))->Ok_0),
{
    let found = keys.map_values(lookup);
    let found_others = others.map_values(lookup);
    law_all(found);
    law_all(found_others);
    assert forall|i: int| 0 <= i < others.len() implies exists|j: int|
        0 <= j < keys.len() && keys[j] == #[trigger] others[i] by {
        assert(others.to_set().contains(others[i]));
        assert(keys.contains(others[i]));
    }
    assert forall|j: int| 0 <= j < keys.len() implies exists|i: int|
        0 <= i < others.len() && others[i] == #[trigger] keys[j] by {
        assert(keys.to_set().contains(keys[j]));
        assert(others.contains(keys[j]));
    }
    if all(found) is Ok {
        assert forall|i: int| 0 <= i < others.len() implies (#[trigger] found_others[i]) is Ok by {
            let j = choose|j: int| 0 <= j < keys.len() && keys[j] == others[i];
            assert(found[j] == found_others[i]);
        }
    }
    if all(found_others) is Ok {
        assert forall|j: int| 0 <= j < keys.len() implies (#[trigger] found[j]) is Ok by {
            let i = choose|i: int| 0 <= i < others.len() && others[i] == keys[j];
            assert(found[j] == found_others[i]);
        }
    }
    if all(found) is Ok {
        let handles = all(found)->Ok_0;
        let other_handles = all(found_others)->Ok_0;
        assert(handles.to_set() =~= other_handles.to_set()) by {
            assert forall|handle: CryptoHandle| handles.contains(handle) implies #[trigger]
                other_handles.contains(handle) by {
                let j = handles.index_of(handle);
                let i = choose|i: int| 0 <= i < others.len() && others[i] == keys[j];
                assert(found[j] == found_others[i]);
                assert(other_handles[i] == handle);
            }
            assert forall|handle: CryptoHandle| other_handles.contains(handle) implies #[trigger]
                handles.contains(handle) by {
                let i = other_handles.index_of(handle);
                let j = choose|j: int| 0 <= j < keys.len() && keys[j] == others[i];
                assert(found[j] == found_others[i]);
                assert(handles[j] == handle);
            }
        }
        law_recipients_ignore_order_and_repetition(handles, other_handles);
    }
}

/// The recipients of a submessage are found exactly if each destination is known;
/// otherwise the error is the one for the first destination that is not.
pub proof fn law_submessage_recipients_found(
    state: SecurityState,
    source: GUID,
    destinations: Seq<GUID>,
)
    ensures
        match state.remote_endpoint_crypto_handles(source, destinations) {
            Ok(handles) => {
                &&& handles.len() == destinations.len()
                &&& forall|i: int|
                    0 <= i < destinations.len() ==> state.remote_endpoint_crypto_handle(
                        source,
                        #[trigger] destinations[i],
                    ) == Ok::<CryptoHandle, SecurityError>(handles[i])
            },
            Err(e) => exists|first: int|
                {
                    &&& 0 <= first < destinations.len()
                    &&& e == (SecurityError::RemoteEndpointCryptoHandleNotFound {
                        local_endpoint: source,
                        proxy: #[trigger] destinations[first],
                    })
                    &&& state.remote_endpoint_crypto_handle(source, destinations[first]) is Err
                    &&& forall|i: int|
                        0 <= i < first ==> state.remote_endpoint_crypto_handle(
                            source,
                            #[trigger] destinations[i],
                        ) is Ok
                },
        },
{
    let found = destinations.map_values(
        |proxy: GUID| state.remote_endpoint_crypto_handle(source, proxy),
    );
    law_all(found);
    assert forall|i: int| 0 <= i < destinations.len() implies found[i]
        == state.remote_endpoint_crypto_handle(source, #[trigger] destinations[i]) by {}
    if let Err(e) = all(found) {
        let first = choose|first: int|
            {
                &&& 0 <= first < found.len()
                &&& #[trigger] found[first] == Err::<CryptoHandle, SecurityError>(e)
                &&& forall|i: int| 0 <= i < first ==> (#[trigger] found[i]) is Ok
            };
        assert(state.remote_endpoint_crypto_handle(source, destinations[first]) is Err);
    }
}

/// The recipients of a message are found exactly if each destination is known;
/// otherwise the error is the one for the first destination that is not.
pub proof fn law_message_recipients_found(state: SecurityState, destinations: Seq<GuidPrefix>)
    ensures
        match state.participant_crypto_handles(destinations) {
            Ok(handles) => {
                &&& handles.len() == destinations.len()
                &&& forall|i: int|
                    0 <= i < destinations.len() ==> state.participant_crypto_handle(
                        #[trigger] destinations[i],
                    ) == Ok::<CryptoHandle, SecurityError>(handles[i])
            },
            Err(e) => exists|first: int|
                {
                    &&& 0 <= first < destinations.len()
                    &&& e == SecurityError::ParticipantCryptoHandleNotFound(
                        #[trigger] destinations[first],
                    )
                    &&& state.participant_crypto_handle(destinations[first]) is Err
                    &&& forall|i: int|
                        0 <= i < first ==> state.participant_crypto_handle(
                            #[trigger] destinations[i],
                        ) is Ok
                },
        },
{
    let found = destinations.map_values(
        |guid_prefix: GuidPrefix| state.participant_crypto_handle(guid_prefix),
    );
    law_all(found);
    assert forall|i: int| 0 <= i < destinations.len() implies found[i]
        == state.participant_crypto_handle(#[trigger] destinations[i]) by {}
    if let Err(e) = all(found) {
        let first = choose|first: int|
            {
                &&& 0 <= first < found.len()
                &&& #[trigger] found[first] == Err::<CryptoHandle, SecurityError>(e)
                &&& forall|i: int| 0 <= i < first ==> (#[trigger] found[i]) is Ok
            };
        assert(state.participant_crypto_handle(destinations[first]) is Err);
    }
}

/// The order in which the destinations of a submessage are listed, and how often,
/// makes no difference to its encoding, if they are all known or the submessage
/// passes unprotected. Otherwise its encoding fails however they are listed, though
/// which of the unknown ones the error names depends on the order.
pub proof fn law_submessage_destinations_are_a_set<
    A: Authentication + ?Sized,
    P: AccessControl<A> + ?Sized,
    C: Cryptographic + ?Sized,
>(
    plugins: &SecurityPlugins<A, P, C>,
    plain_submessage: Submessage,
    source: GUID,
    destinations: Seq<GUID>,
    others: Seq<GUID>,
    result: SecurityResult<EncodedSubmessage>,
)
    requires
        destinations.to_set() == others.to_set(),
    ensures
        plugins@.remote_endpoint_crypto_handles(source, destinations) is Ok
            <==> plugins@.remote_endpoint_crypto_handles(source, others) is Ok,
        plugins@.submessage_passes(source) || plugins@.remote_endpoint_crypto_handles(
            source,
            destinations,
        ) is Ok ==> {
            &&& plugins.encodes_datawriter_submessage(
                plain_submessage,
                source,
                destinations,
                result,
            ) <==> plugins.encodes_datawriter_submessage(plain_submessage, source, others, result)
            &&& plugins.encodes_datareader_submessage(
                plain_submessage,
                source,
                destinations,
                result,
            ) <==> plugins.encodes_datareader_submessage(plain_submessage, source, others, result)
        },
        !plugins@.submessage_passes(source) && plugins@.remote_endpoint_crypto_handles(
            source,
            destinations,
        ) is Err ==> {
            &&& plugins.encodes_datawriter_submessage(
                plain_submessage,
                source,
                destinations,
                result,
            ) ==> result is Err
            &&& plugins.encodes_datawriter_submessage(plain_submessage, source, others, result)
                ==> result is Err
            &&& plugins.encodes_datareader_submessage(
                plain_submessage,
                source,
                destinations,
                result,
            ) ==> result is Err
            &&& plugins.encodes_datareader_submessage(plain_submessage, source, others, result)
                ==> result is Err
        },
{
    lemma_same_recipients(
        destinations,
        others,
        |proxy: GUID| plugins@.remote_endpoint_crypto_handle(source, proxy),
    );
}

/// The order in which the destinations of a message are listed, and how often, makes
/// no difference to its encoding, if they are all known or the message passes
/// unprotected. Otherwise its encoding fails however they are listed, though which
/// of the unknown ones the error names depends on the order.
pub proof fn law_message_destinations_are_a_set<
    A: Authentication + ?Sized,
    P: AccessControl<A> + ?Sized,
    C: Cryptographic + ?Sized,
>(
    plugins: &SecurityPlugins<A, P, C>,
    plain_message: Message,
    source: GuidPrefix,
    destinations: Seq<GuidPrefix>,
    others: Seq<GuidPrefix>,
    result: SecurityResult<Message>,
)
    requires
        destinations.to_set() == others.to_set(),
    ensures
        plugins@.participant_crypto_handles(destinations) is Ok
            <==> plugins@.participant_crypto_handles(others) is Ok,
        plugins@.message_passes(source) || plugins@.participant_crypto_handles(destinations) is Ok
            ==> (plugins.encodes_message(plain_message, source, destinations, result)
            <==> plugins.encodes_message(plain_message, source, others, result)),
        !plugins@.message_passes(source) && plugins@.participant_crypto_handles(destinations) is Err
            ==> {
            &&& plugins.encodes_message(plain_message, source, destinations, result)
                ==> result is Err
            &&& plugins.encodes_message(plain_message, source, others, result) ==> result is Err
        },
{
    lemma_same_recipients(
        destinations,
        others,
        |guid_prefix: GuidPrefix| plugins@.participant_crypto_handle(guid_prefix),
    );
}

} // verus!
