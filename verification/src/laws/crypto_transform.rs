//! What the operations that put protection on and take it off do, call by call.

use vstd::prelude::*;

use crate::access_control::AccessControl;
use crate::authentication::Authentication;
use crate::cryptographic::{Cryptographic, EncodedSubmessage, SecureSubmessageCategory};
use crate::error::{SecurityError, SecurityResult};
use crate::guid::{GuidPrefix, GUID};
use crate::recipients::{distinct_sorted, law_distinct_sorted};
use crate::rtps::{
    Message, ParameterList, ReaderSubmessage, SecurePostfix, SecurePrefix, Submessage,
    WriterSubmessage,
};
use crate::security_plugins::SecurityPlugins;
use crate::state::SecurityState;
use crate::types::{CryptoHandle, DatareaderCryptoHandle, DatawriterCryptoHandle};

use super::{law_message_recipients_found, law_submessage_recipients_found};

verus! {

/// What the lookup of the destinations of a submessage gives, said by the map that
/// holds the crypto handles of pairs.
proof fn lemma_submessage_receivers(state: SecurityState, source: GUID, destinations: Seq<GUID>)
    ensures
        match state.remote_endpoint_crypto_handles(source, destinations) {
            Ok(handles) => {
                &&& forall|i: int|
                    0 <= i < destinations.len() ==> state.remote_endpoint_crypto.contains_key(
                        (source, #[trigger] destinations[i]),
                    )
                &&& forall|i: int, j: int|
                    0 <= i < j < distinct_sorted(handles).len() ==> distinct_sorted(handles)[i]
                        < distinct_sorted(handles)[j]
                &&& forall|handle: CryptoHandle| #[trigger]
                    distinct_sorted(handles).contains(handle) <==> exists|i: int|
                        0 <= i < destinations.len() && state.remote_endpoint_crypto[(
                            source,
                            #[trigger] destinations[i],
                        )] == handle
            },
            Err(e) => exists|first: int|
                {
                    &&& 0 <= first < destinations.len()
                    &&& !state.remote_endpoint_crypto.contains_key(
                        (source, #[trigger] destinations[first]),
                    )
                    &&& forall|i: int|
                        0 <= i < first ==> state.remote_endpoint_crypto.contains_key(
                            (source, #[trigger] destinations[i]),
                        )
                    &&& e == (SecurityError::RemoteEndpointCryptoHandleNotFound {
                        local_endpoint: source,
                        proxy: destinations[first],
                    })
                },
        },
{
    law_submessage_recipients_found(state, source, destinations);
    match state.remote_endpoint_crypto_handles(source, destinations) {
        Ok(handles) => {
            law_distinct_sorted(handles);
            assert forall|i: int| 0 <= i < destinations.len() implies {
                &&& state.remote_endpoint_crypto.contains_key((source, #[trigger] destinations[i]))
                &&& state.remote_endpoint_crypto[(source, destinations[i])] == handles[i]
            } by {
                assert(state.remote_endpoint_crypto_handle(source, destinations[i]) == Ok::<
                    CryptoHandle,
                    SecurityError,
                >(handles[i]));
            }
            lemma_same_members(
                handles,
                destinations,
                |proxy: GUID| state.remote_endpoint_crypto[(source, proxy)],
            );
        },
        Err(e) => {
            let first = choose|first: int|
                {
                    &&& 0 <= first < destinations.len()
                    &&& e == (SecurityError::RemoteEndpointCryptoHandleNotFound {
                        local_endpoint: source,
                        proxy: #[trigger] destinations[first],
                    })
                    &&& state.remote_endpoint_crypto_handle(source, destinations[first]) is Err
                    &&& forall|i: int|
                        0 <= i < first ==> state.remote_endpoint_crypto_handle(
                            source,
                            #[trigger] destinations[i],
                        ) is Ok
                };
            assert(!state.remote_endpoint_crypto.contains_key((source, destinations[first])));
        },
    }
}

/// What the lookup of the destinations of a message gives, said by the map that
/// holds the crypto handles of participants.
proof fn lemma_message_receivers(state: SecurityState, destinations: Seq<GuidPrefix>)
    ensures
        match state.participant_crypto_handles(destinations) {
            Ok(handles) => {
                &&& forall|i: int|
                    0 <= i < destinations.len() ==> state.participant_crypto.contains_key(
                        #[trigger] destinations[i],
                    )
                &&& forall|i: int, j: int|
                    0 <= i < j < distinct_sorted(handles).len() ==> distinct_sorted(handles)[i]
                        < distinct_sorted(handles)[j]
                &&& forall|handle: CryptoHandle| #[trigger]
                    distinct_sorted(handles).contains(handle) <==> exists|i: int|
                        0 <= i < destinations.len()
                            && state.participant_crypto[#[trigger] destinations[i]] == handle
            },
            Err(e) => exists|first: int|
                {
                    &&& 0 <= first < destinations.len()
                    &&& !state.participant_crypto.contains_key(#[trigger] destinations[first])
                    &&& forall|i: int|
                        0 <= i < first ==> state.participant_crypto.contains_key(
                            #[trigger] destinations[i],
                        )
                    &&& e == SecurityError::ParticipantCryptoHandleNotFound(destinations[first])
                },
        },
{
    law_message_recipients_found(state, destinations);
    match state.participant_crypto_handles(destinations) {
        Ok(handles) => {
            law_distinct_sorted(handles);
            assert forall|i: int| 0 <= i < destinations.len() implies {
                &&& state.participant_crypto.contains_key(#[trigger] destinations[i])
                &&& state.participant_crypto[destinations[i]] == handles[i]
            } by {
                assert(state.participant_crypto_handle(destinations[i]) == Ok::<
                    CryptoHandle,
                    SecurityError,
                >(handles[i]));
            }
            lemma_same_members(
                handles,
                destinations,
                |guid_prefix: GuidPrefix| state.participant_crypto[guid_prefix],
            );
        },
        Err(e) => {
            let first = choose|first: int|
                {
                    &&& 0 <= first < destinations.len()
                    &&& e == SecurityError::ParticipantCryptoHandleNotFound(
                        #[trigger] destinations[first],
                    )
                    &&& state.participant_crypto_handle(destinations[first]) is Err
                    &&& forall|i: int|
                        0 <= i < first ==> state.participant_crypto_handle(
                            #[trigger] destinations[i],
                        ) is Ok
                };
            assert(!state.participant_crypto.contains_key(destinations[first]));
        },
    }
}

/// The handles that belong to keys are those that some key has.
proof fn lemma_same_members<K>(
    handles: Seq<CryptoHandle>,
    keys: Seq<K>,
    handle_of: spec_fn(K) -> CryptoHandle,
)
    requires
        handles.len() == keys.len(),
        forall|i: int| 0 <= i < keys.len() ==> handle_of(#[trigger] keys[i]) == handles[i],
    ensures
        forall|handle: CryptoHandle| #[trigger]
            handles.contains(handle) <==> exists|i: int|
                0 <= i < keys.len() && handle_of(#[trigger] keys[i]) == handle,
{
    assert forall|handle: CryptoHandle| #[trigger]
        handles.contains(handle) <==> exists|i: int|
            0 <= i < keys.len() && handle_of(#[trigger] keys[i]) == handle by {
        if handles.contains(handle) {
            assert(handle_of(keys[handles.index_of(handle)]) == handle);
        }
        if exists|i: int| 0 <= i < keys.len() && handle_of(#[trigger] keys[i]) == handle {
            let i = choose|i: int| 0 <= i < keys.len() && handle_of(#[trigger] keys[i]) == handle;
            assert(handles[i] == handle);
        }
    }
}

/// A payload goes out as it is, with no parameters, exactly where the writer's
/// payloads are marked as unprotected or the crypto transform is turned off.
/// Anywhere else the result is what the cryptographic plugin makes of that payload
/// for the writer's crypto handle; without such a handle the error names the
/// writer.
pub proof fn law_encode_serialized_payload<
    A: Authentication + ?Sized,
    P: AccessControl<A> + ?Sized,
    C: Cryptographic + ?Sized,
>(
    plugins: &SecurityPlugins<A, P, C>,
    payload: Vec<u8>,
    writer: &GUID,
    result: SecurityResult<(Vec<u8>, ParameterList)>,
)
    requires
        call_ensures(
            SecurityPlugins::<A, P, C>::encode_serialized_payload,
            (plugins, payload, writer),
            result,
        ),
    ensures
        plugins@.test_disable_crypto_transform || plugins@.payload_not_protected.contains(*writer)
            ==> (result matches Ok((bytes, inline_qos)) && bytes@ == payload@
            && inline_qos.parameters@.len() == 0),
        !plugins@.test_disable_crypto_transform && !plugins@.payload_not_protected.contains(*writer)
            && !plugins@.local_endpoint_crypto.contains_key(*writer) ==> result == Err::<
            (Vec<u8>, ParameterList),
            SecurityError,
        >(SecurityError::LocalEndpointCryptoHandleNotFound(*writer)),
        !plugins@.test_disable_crypto_transform && !plugins@.payload_not_protected.contains(*writer)
            && plugins@.local_endpoint_crypto.contains_key(*writer) ==> call_ensures(
            C::encode_serialized_payload,
            (plugins.crypto(), payload, plugins@.local_endpoint_crypto[*writer]),
            result,
        ),
{
}

/// A submessage goes out as it is exactly where the writer's submessages are
/// marked as unprotected or the crypto transform is turned off; how its payloads
/// are marked makes no difference. Anywhere else the result is what the
/// cryptographic plugin makes of that submessage for the writer's crypto handle
/// and for the handles of all destinations as matched with it, each once and in
/// increasing order. The first destination that is not matched is an error, and so
/// is an unknown writer if all destinations are matched.
pub proof fn law_encode_datawriter_submessage<
    A: Authentication + ?Sized,
    P: AccessControl<A> + ?Sized,
    C: Cryptographic + ?Sized,
>(
    plugins: &SecurityPlugins<A, P, C>,
    submessage: Submessage,
    source: &GUID,
    destinations: &[GUID],
    result: SecurityResult<EncodedSubmessage>,
)
    requires
        call_ensures(
            SecurityPlugins::<A, P, C>::encode_datawriter_submessage,
            (plugins, submessage, source, destinations),
            result,
        ),
    ensures
        plugins@.test_disable_crypto_transform || plugins@.submessage_not_protected.contains(*source)
            ==> result == Ok::<EncodedSubmessage, SecurityError>(
            EncodedSubmessage::Unencoded(submessage),
        ),
        !plugins@.test_disable_crypto_transform && !plugins@.submessage_not_protected.contains(
            *source,
        ) ==> {
            &&& forall|first: int|
                0 <= first < destinations@.len() && !plugins@.remote_endpoint_crypto.contains_key(
                    (*source, #[trigger] destinations@[first]),
                ) && (forall|i: int|
                    0 <= i < first ==> plugins@.remote_endpoint_crypto.contains_key(
                        (*source, #[trigger] destinations@[i]),
                    )) ==> result == Err::<EncodedSubmessage, SecurityError>(
                    (SecurityError::RemoteEndpointCryptoHandleNotFound {
                        local_endpoint: *source,
                        proxy: destinations@[first],
                    }),
                )
            &&& (forall|i: int|
                0 <= i < destinations@.len() ==> plugins@.remote_endpoint_crypto.contains_key(
                    (*source, #[trigger] destinations@[i]),
                )) && !plugins@.local_endpoint_crypto.contains_key(*source) ==> result == Err::<
                EncodedSubmessage,
                SecurityError,
            >(SecurityError::LocalEndpointCryptoHandleNotFound(*source))
            &&& (forall|i: int|
                0 <= i < destinations@.len() ==> plugins@.remote_endpoint_crypto.contains_key(
                    (*source, #[trigger] destinations@[i]),
                )) && plugins@.local_endpoint_crypto.contains_key(*source) ==> exists|
                receivers: Vec<DatareaderCryptoHandle>,
            |
                {
                    &&& #[trigger] call_ensures(
                        C::encode_datawriter_submessage,
                        (
                            plugins.crypto(),
                            submessage,
                            plugins@.local_endpoint_crypto[*source],
                            receivers,
                        ),
                        result,
                    )
                    &&& forall|i: int, j: int|
                        0 <= i < j < receivers@.len() ==> receivers@[i] < receivers@[j]
                    &&& forall|handle: DatareaderCryptoHandle| #[trigger]
                        receivers@.contains(handle) <==> exists|i: int|
                            0 <= i < destinations@.len() && plugins@.remote_endpoint_crypto[(
                                *source,
                                #[trigger] destinations@[i],
                            )] == handle
                }
        },
{
    lemma_submessage_receivers(plugins@, *source, destinations@);
}

/// A submessage goes out as it is exactly where the reader's submessages are
/// marked as unprotected or the crypto transform is turned off; how its payloads
/// are marked makes no difference. Anywhere else the result is what the
/// cryptographic plugin makes of that submessage for the reader's crypto handle
/// and for the handles of all destinations as matched with it, each once and in
/// increasing order. The first destination that is not matched is an error, and so
/// is an unknown reader if all destinations are matched.
pub proof fn law_encode_datareader_submessage<
    A: Authentication + ?Sized,
    P: AccessControl<A> + ?Sized,
    C: Cryptographic + ?Sized,
>(
    plugins: &SecurityPlugins<A, P, C>,
    submessage: Submessage,
    source: &GUID,
    destinations: &[GUID],
    result: SecurityResult<EncodedSubmessage>,
)
    requires
        call_ensures(
            SecurityPlugins::<A, P, C>::encode_datareader_submessage,
            (plugins, submessage, source, destinations),
            result,
        ),
    ensures
        plugins@.test_disable_crypto_transform || plugins@.submessage_not_protected.contains(*source)
            ==> result == Ok::<EncodedSubmessage, SecurityError>(
            EncodedSubmessage::Unencoded(submessage),
        ),
        !plugins@.test_disable_crypto_transform && !plugins@.submessage_not_protected.contains(
            *source,
        ) ==> {
            &&& forall|first: int|
                0 <= first < destinations@.len() && !plugins@.remote_endpoint_crypto.contains_key(
                    (*source, #[trigger] destinations@[first]),
                ) && (forall|i: int|
                    0 <= i < first ==> plugins@.remote_endpoint_crypto.contains_key(
                        (*source, #[trigger] destinations@[i]),
                    )) ==> result == Err::<EncodedSubmessage, SecurityError>(
                    (SecurityError::RemoteEndpointCryptoHandleNotFound {
                        local_endpoint: *source,
                        proxy: destinations@[first],
                    }),
                )
            &&& (forall|i: int|
                0 <= i < destinations@.len() ==> plugins@.remote_endpoint_crypto.contains_key(
                    (*source, #[trigger] destinations@[i]),
                )) && !plugins@.local_endpoint_crypto.contains_key(*source) ==> result == Err::<
                EncodedSubmessage,
                SecurityError,
            >(SecurityError::LocalEndpointCryptoHandleNotFound(*source))
            &&& (forall|i: int|
                0 <= i < destinations@.len() ==> plugins@.remote_endpoint_crypto.contains_key(
                    (*source, #[trigger] destinations@[i]),
                )) && plugins@.local_endpoint_crypto.contains_key(*source) ==> exists|
                receivers: Vec<DatawriterCryptoHandle>,
            |
                {
                    &&& #[trigger] call_ensures(
                        C::encode_datareader_submessage,
                        (
                            plugins.crypto(),
                            submessage,
                            plugins@.local_endpoint_crypto[*source],
                            receivers,
                        ),
                        result,
                    )
                    &&& forall|i: int, j: int|
                        0 <= i < j < receivers@.len() ==> receivers@[i] < receivers@[j]
                    &&& forall|handle: DatawriterCryptoHandle| #[trigger]
                        receivers@.contains(handle) <==> exists|i: int|
                            0 <= i < destinations@.len() && plugins@.remote_endpoint_crypto[(
                                *source,
                                #[trigger] destinations@[i],
                            )] == handle
                }
        },
{
    lemma_submessage_receivers(plugins@, *source, destinations@);
}

/// A message goes out as it is exactly where the participant's messages are marked
/// as unprotected or the crypto transform is turned off. Anywhere else the result
/// is what the cryptographic plugin makes of that message for the participant's
/// crypto handle and for the handles of all destinations, each once and in
/// increasing order. The first destination without a handle is an error, and so is
/// an unknown participant if all destinations have one.
pub proof fn law_encode_message<
    A: Authentication + ?Sized,
    P: AccessControl<A> + ?Sized,
    C: Cryptographic + ?Sized,
>(
    plugins: &SecurityPlugins<A, P, C>,
    message: Message,
    source: &GuidPrefix,
    destinations: &[GuidPrefix],
    result: SecurityResult<Message>,
)
    requires
        call_ensures(
            SecurityPlugins::<A, P, C>::encode_message,
            (plugins, message, source, destinations),
            result,
        ),
    ensures
        plugins@.test_disable_crypto_transform || plugins@.rtps_not_protected.contains(*source)
            ==> result == Ok::<Message, SecurityError>(message),
        !plugins@.test_disable_crypto_transform && !plugins@.rtps_not_protected.contains(*source)
            ==> {
            &&& forall|first: int|
                0 <= first < destinations@.len() && !plugins@.participant_crypto.contains_key(
                    #[trigger] destinations@[first],
                ) && (forall|i: int|
                    0 <= i < first ==> plugins@.participant_crypto.contains_key(
                        #[trigger] destinations@[i],
                    )) ==> result == Err::<Message, SecurityError>(
                    SecurityError::ParticipantCryptoHandleNotFound(destinations@[first]),
                )
            &&& (forall|i: int|
                0 <= i < destinations@.len() ==> plugins@.participant_crypto.contains_key(
                    #[trigger] destinations@[i],
                )) && !plugins@.participant_crypto.contains_key(*source) ==> result == Err::<
                Message,
                SecurityError,
            >(SecurityError::ParticipantCryptoHandleNotFound(*source))
            &&& (forall|i: int|
                0 <= i < destinations@.len() ==> plugins@.participant_crypto.contains_key(
                    #[trigger] destinations@[i],
                )) && plugins@.participant_crypto.contains_key(*source) ==> exists|
                receivers: Vec<CryptoHandle>,
            |
                {
                    &&& #[trigger] call_ensures(
                        C::encode_rtps_message,
                        (
                            plugins.crypto(),
                            message,
                            plugins@.participant_crypto[*source],
                            receivers,
                        ),
                        result,
                    )
                    &&& forall|i: int, j: int|
                        0 <= i < j < receivers@.len() ==> receivers@[i] < receivers@[j]
                    &&& forall|handle: CryptoHandle| #[trigger]
                        receivers@.contains(handle) <==> exists|i: int|
                            0 <= i < destinations@.len()
                                && plugins@.participant_crypto[#[trigger] destinations@[i]] == handle
                }
        },
{
    lemma_message_receivers(plugins@, destinations@);
}

/// The protection is taken off a message by the cryptographic plugin, for the
/// crypto handles of the receiving participant and of the sending one, in this
/// order, whatever their marks. The first of the two without a handle is an error.
pub proof fn law_decode_rtps_message<
    A: Authentication + ?Sized,
    P: AccessControl<A> + ?Sized,
    C: Cryptographic + ?Sized,
>(
    plugins: &SecurityPlugins<A, P, C>,
    message: Message,
    source: &GuidPrefix,
    destination: &GuidPrefix,
    result: SecurityResult<Message>,
)
    requires
        call_ensures(
            SecurityPlugins::<A, P, C>::decode_rtps_message,
            (plugins, message, source, destination),
            result,
        ),
    ensures
        !plugins@.participant_crypto.contains_key(*destination) ==> result == Err::<
            Message,
            SecurityError,
        >(SecurityError::ParticipantCryptoHandleNotFound(*destination)),
        plugins@.participant_crypto.contains_key(*destination)
            && !plugins@.participant_crypto.contains_key(*source) ==> result == Err::<
            Message,
            SecurityError,
        >(SecurityError::ParticipantCryptoHandleNotFound(*source)),
        plugins@.participant_crypto.contains_key(*destination)
            && plugins@.participant_crypto.contains_key(*source) ==> call_ensures(
            C::decode_rtps_message,
            (
                plugins.crypto(),
                message,
                plugins@.participant_crypto[*destination],
                plugins@.participant_crypto[*source],
            ),
            result,
        ),
{
}

/// What a protected submessage is, and whom it concerns, is what the cryptographic
/// plugin says of its prefix, for the crypto handles of the receiving participant
/// and of the sending one, in this order. The first of the two without a handle is
/// an error.
pub proof fn law_preprocess_secure_submessage<
    A: Authentication + ?Sized,
    P: AccessControl<A> + ?Sized,
    C: Cryptographic + ?Sized,
>(
    plugins: &SecurityPlugins<A, P, C>,
    prefix: &SecurePrefix,
    source: &GuidPrefix,
    destination: &GuidPrefix,
    result: SecurityResult<SecureSubmessageCategory>,
)
    requires
        call_ensures(
            SecurityPlugins::<A, P, C>::preprocess_secure_submessage,
            (plugins, prefix, source, destination),
            result,
        ),
    ensures
        !plugins@.participant_crypto.contains_key(*destination) ==> result == Err::<
            SecureSubmessageCategory,
            SecurityError,
        >(SecurityError::ParticipantCryptoHandleNotFound(*destination)),
        plugins@.participant_crypto.contains_key(*destination)
            && !plugins@.participant_crypto.contains_key(*source) ==> result == Err::<
            SecureSubmessageCategory,
            SecurityError,
        >(SecurityError::ParticipantCryptoHandleNotFound(*source)),
        plugins@.participant_crypto.contains_key(*destination)
            && plugins@.participant_crypto.contains_key(*source) ==> call_ensures(
            C::preprocess_secure_submessage,
            (
                plugins.crypto(),
                prefix,
                plugins@.participant_crypto[*destination],
                plugins@.participant_crypto[*source],
            ),
            result,
        ),
{
}

/// The protection is taken off a writer's submessage by the cryptographic plugin,
/// for the handles given, that of the receiver first.
pub proof fn law_decode_datawriter_submessage<
    A: Authentication + ?Sized,
    P: AccessControl<A> + ?Sized,
    C: Cryptographic + ?Sized,
>(
    plugins: &SecurityPlugins<A, P, C>,
    encoded: (SecurePrefix, Submessage, SecurePostfix),
    receiver: DatareaderCryptoHandle,
    sender: DatawriterCryptoHandle,
    result: SecurityResult<WriterSubmessage>,
)
    requires
        call_ensures(
            SecurityPlugins::<A, P, C>::decode_datawriter_submessage,
            (plugins, encoded, receiver, sender),
            result,
        ),
    ensures
        call_ensures(
            C::decode_datawriter_submessage,
            (plugins.crypto(), encoded, receiver, sender),
            result,
        ),
{
}

/// The protection is taken off a reader's submessage by the cryptographic plugin,
/// for the handles given, that of the receiver first.
pub proof fn law_decode_datareader_submessage<
    A: Authentication + ?Sized,
    P: AccessControl<A> + ?Sized,
    C: Cryptographic + ?Sized,
>(
    plugins: &SecurityPlugins<A, P, C>,
    encoded: (SecurePrefix, Submessage, SecurePostfix),
    receiver: DatawriterCryptoHandle,
    sender: DatareaderCryptoHandle,
    result: SecurityResult<ReaderSubmessage>,
)
    requires
        call_ensures(
            SecurityPlugins::<A, P, C>::decode_datareader_submessage,
            (plugins, encoded, receiver, sender),
            result,
        ),
    ensures
        call_ensures(
            C::decode_datareader_submessage,
            (plugins.crypto(), encoded, receiver, sender),
            result,
        ),
{
}

/// A payload comes in as it is, whatever its inline parameters and whether or not
/// the writer is known, exactly where the reader's payloads are marked as
/// unprotected or the crypto transform is turned off. Anywhere else the result is
/// what the cryptographic plugin makes of that payload and these parameters for
/// the crypto handle of the reader and for that of the writer as matched with it,
/// in this order. The first of the two handles that is missing is an error.
pub proof fn law_decode_serialized_payload<
    A: Authentication + ?Sized,
    P: AccessControl<A> + ?Sized,
    C: Cryptographic + ?Sized,
>(
    plugins: &SecurityPlugins<A, P, C>,
    payload: Vec<u8>,
    inline_qos: ParameterList,
    source: &GUID,
    destination: &GUID,
    result: SecurityResult<Vec<u8>>,
)
    requires
        call_ensures(
            SecurityPlugins::<A, P, C>::decode_serialized_payload,
            (plugins, payload, inline_qos, source, destination),
            result,
        ),
    ensures
        plugins@.test_disable_crypto_transform || plugins@.payload_not_protected.contains(
            *destination,
        ) ==> (result matches Ok(bytes) && bytes@ == payload@),
        !plugins@.test_disable_crypto_transform && !plugins@.payload_not_protected.contains(
            *destination,
        ) ==> {
            &&& !plugins@.local_endpoint_crypto.contains_key(*destination) ==> result == Err::<
                Vec<u8>,
                SecurityError,
            >(SecurityError::LocalEndpointCryptoHandleNotFound(*destination))
            &&& plugins@.local_endpoint_crypto.contains_key(*destination)
                && !plugins@.remote_endpoint_crypto.contains_key((*destination, *source))
                ==> result == Err::<Vec<u8>, SecurityError>(
                (SecurityError::RemoteEndpointCryptoHandleNotFound {
                    local_endpoint: *destination,
                    proxy: *source,
                }),
            )
            &&& plugins@.local_endpoint_crypto.contains_key(*destination)
                && plugins@.remote_endpoint_crypto.contains_key((*destination, *source))
                ==> call_ensures(
                C::decode_serialized_payload,
                (
                    plugins.crypto(),
                    payload,
                    inline_qos,
                    plugins@.local_endpoint_crypto[*destination],
                    plugins@.remote_endpoint_crypto[(*destination, *source)],
                ),
                result,
            )
        },
{
}

/// A participant's messages count as unprotected exactly if the participant is so
/// marked.
pub proof fn law_rtps_not_protected<
    A: Authentication + ?Sized,
    P: AccessControl<A> + ?Sized,
    C: Cryptographic + ?Sized,
>(plugins: &SecurityPlugins<A, P, C>, guidp: &GuidPrefix, result: bool)
    requires
        call_ensures(SecurityPlugins::<A, P, C>::rtps_not_protected, (plugins, guidp), result),
    ensures
        result <==> plugins@.rtps_not_protected.contains(*guidp),
{
}

/// An endpoint's submessages count as unprotected exactly if the endpoint is so
/// marked.
pub proof fn law_submessage_not_protected<
    A: Authentication + ?Sized,
    P: AccessControl<A> + ?Sized,
    C: Cryptographic + ?Sized,
>(plugins: &SecurityPlugins<A, P, C>, guid: &GUID, result: bool)
    requires
        call_ensures(SecurityPlugins::<A, P, C>::submessage_not_protected, (plugins, guid), result),
    ensures
        result <==> plugins@.submessage_not_protected.contains(*guid),
{
}

/// An endpoint's payloads count as unprotected exactly if the endpoint is so
/// marked.
pub proof fn law_payload_not_protected<
    A: Authentication + ?Sized,
    P: AccessControl<A> + ?Sized,
    C: Cryptographic + ?Sized,
>(plugins: &SecurityPlugins<A, P, C>, guid: &GUID, result: bool)
    requires
        call_ensures(SecurityPlugins::<A, P, C>::payload_not_protected, (plugins, guid), result),
    ensures
        result <==> plugins@.payload_not_protected.contains(*guid),
{
}

} // verus!
