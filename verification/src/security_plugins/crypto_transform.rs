//! The interface to the crypto transform of the cryptographic plugin.

use vstd::prelude::*;

use crate::access_control::AccessControl;
use crate::authentication::Authentication;
use crate::cryptographic::{Cryptographic, EncodedSubmessage, SecureSubmessageCategory};
use crate::error::{all, both, lemma_all_stops, SecurityError, SecurityResult};
use crate::guid::{GuidPrefix, GUID};
use crate::recipients::{distinct_sorted, remove_duplicates};
use crate::rtps::{
    Message, Parameter, ParameterList, ReaderSubmessage, SecurePostfix, SecurePrefix, Submessage,
    WriterSubmessage,
};
use crate::types::{CryptoHandle, DatareaderCryptoHandle, DatawriterCryptoHandle};

use super::SecurityPlugins;

verus! {

/// What encoding and decoding return.
impl<
    A: Authentication + ?Sized,
    P: AccessControl<A> + ?Sized,
    C: Cryptographic + ?Sized,
> SecurityPlugins<A, P, C> {
    /// What the encoding of a payload returns.
    pub open spec fn encodes_serialized_payload(
        &self,
        serialized_payload: Seq<u8>,
        sending_datawriter_guid: GUID,
        result: SecurityResult<(Vec<u8>, ParameterList)>,
    ) -> bool {
        if self@.payload_passes(sending_datawriter_guid) {
            match result {
                Ok((payload, inline_qos)) => {
                    &&& payload@ == serialized_payload
                    &&& inline_qos@ == Seq::<Parameter>::empty()
                },
                Err(_) => false,
            }
        } else {
            match self@.local_endpoint_crypto_handle(sending_datawriter_guid) {
                Ok(sender) => self.crypto().may_encode_serialized_payload(
                    serialized_payload,
                    sender,
                    result,
                ),
                Err(e) => result == Err::<(Vec<u8>, ParameterList), SecurityError>(e),
            }
        }
    }

    /// What the encoding of a writer's submessage returns.
    pub open spec fn encodes_datawriter_submessage(
        &self,
        plain_submessage: Submessage,
        source_guid: GUID,
        destination_guids: Seq<GUID>,
        result: SecurityResult<EncodedSubmessage>,
    ) -> bool {
        if self@.submessage_passes(source_guid) {
            result == Ok::<EncodedSubmessage, SecurityError>(
                EncodedSubmessage::Unencoded(plain_submessage),
            )
        } else {
            match both(
                self@.remote_endpoint_crypto_handles(source_guid, destination_guids),
                self@.local_endpoint_crypto_handle(source_guid),
            ) {
                Ok((receivers, sender)) => self.crypto().may_encode_datawriter_submessage(
                    plain_submessage,
                    sender,
                    distinct_sorted(receivers),
                    result,
                ),
                Err(e) => result == Err::<EncodedSubmessage, SecurityError>(e),
            }
        }
    }

    /// What the encoding of a reader's submessage returns.
    pub open spec fn encodes_datareader_submessage(
        &self,
        plain_submessage: Submessage,
        source_guid: GUID,
        destination_guids: Seq<GUID>,
        result: SecurityResult<EncodedSubmessage>,
    ) -> bool {
        if self@.submessage_passes(source_guid) {
            result == Ok::<EncodedSubmessage, SecurityError>(
                EncodedSubmessage::Unencoded(plain_submessage),
            )
        } else {
            match both(
                self@.remote_endpoint_crypto_handles(source_guid, destination_guids),
                self@.local_endpoint_crypto_handle(source_guid),
            ) {
                Ok((receivers, sender)) => self.crypto().may_encode_datareader_submessage(
                    plain_submessage,
                    sender,
                    distinct_sorted(receivers),
                    result,
                ),
                Err(e) => result == Err::<EncodedSubmessage, SecurityError>(e),
            }
        }
    }

    /// What the encoding of a message returns.
    pub open spec fn encodes_message(
        &self,
        plain_message: Message,
        source_guid_prefix: GuidPrefix,
        destination_guid_prefixes: Seq<GuidPrefix>,
        result: SecurityResult<Message>,
    ) -> bool {
        if self@.message_passes(source_guid_prefix) {
            result == Ok::<Message, SecurityError>(plain_message)
        } else {
            match both(
                self@.participant_crypto_handles(destination_guid_prefixes),
                self@.participant_crypto_handle(source_guid_prefix),
            ) {
                Ok((receivers, sender)) => self.crypto().may_encode_rtps_message(
                    plain_message,
                    sender,
                    distinct_sorted(receivers),
                    result,
                ),
                Err(e) => result == Err::<Message, SecurityError>(e),
            }
        }
    }

    /// What the decoding of a message returns.
    pub open spec fn decodes_rtps_message(
        &self,
        encoded_message: Message,
        source_guid_prefix: GuidPrefix,
        destination_guid_prefix: GuidPrefix,
        result: SecurityResult<Message>,
    ) -> bool {
        match both(
            self@.participant_crypto_handle(destination_guid_prefix),
            self@.participant_crypto_handle(source_guid_prefix),
        ) {
            Ok((receiver, sender)) => self.crypto().may_decode_rtps_message(
                encoded_message,
                receiver,
                sender,
                result,
            ),
            Err(e) => result == Err::<Message, SecurityError>(e),
        }
    }

    /// What the decoding of a payload returns.
    pub open spec fn decodes_serialized_payload(
        &self,
        encoded_payload: Seq<u8>,
        inline_qos: Seq<Parameter>,
        source_guid: GUID,
        destination_guid: GUID,
        result: SecurityResult<Vec<u8>>,
    ) -> bool {
        if self@.payload_passes(destination_guid) {
            match result {
                Ok(payload) => payload@ == encoded_payload,
                Err(_) => false,
            }
        } else {
            match both(
                self@.local_endpoint_crypto_handle(destination_guid),
                self@.remote_endpoint_crypto_handle(destination_guid, source_guid),
            ) {
                Ok((receiver, sender)) => self.crypto().may_decode_serialized_payload(
                    encoded_payload,
                    inline_qos,
                    receiver,
                    sender,
                    result,
                ),
                Err(e) => result == Err::<Vec<u8>, SecurityError>(e),
            }
        }
    }
}

/// The handles that the lookup finds for the keys, in the order given; or the error
/// for the first key without one.
fn collect_handles<K, F: Fn(&K) -> SecurityResult<CryptoHandle>>(
    keys: &[K],
    lookup: F,
    Ghost(handle_of): Ghost<spec_fn(K) -> SecurityResult<CryptoHandle>>,
) -> (result: SecurityResult<Vec<CryptoHandle>>)
    requires
        forall|key: &K| #[trigger] call_requires(lookup, (key,)),
        forall|key: &K, found: SecurityResult<CryptoHandle>| #[trigger]
            call_ensures(lookup, (key,), found) ==> found == handle_of(*key),
    ensures
        match result {
            Ok(handles) => all(keys@.map_values(handle_of)) == Ok::<
                Seq<CryptoHandle>,
                SecurityError,
            >(handles@),
            Err(e) => all(keys@.map_values(handle_of)) == Err::<Seq<CryptoHandle>, SecurityError>(
                e,
            ),
        },
{
    let ghost found = keys@.map_values(handle_of);
    let mut handles: Vec<CryptoHandle> = Vec::new();
    assert(found.take(0) =~= Seq::empty());
    for i in 0..keys.len()
        invariant
            forall|key: &K| #[trigger] call_requires(lookup, (key,)),
            forall|key: &K, found: SecurityResult<CryptoHandle>| #[trigger]
                call_ensures(lookup, (key,), found) ==> found == handle_of(*key),
            found == keys@.map_values(handle_of),
            all(found.take(i as int)) == Ok::<Seq<CryptoHandle>, SecurityError>(handles@),
    {
        proof {
            assert(found.take(i + 1).drop_last() =~= found.take(i as int));
            assert(found.take(i + 1).last() == found[i as int]);
        }
        match lookup(&keys[i]) {
            Ok(handle) => handles.push(handle),
            Err(e) => {
                proof {
                    lemma_all_stops(found, i + 1);
                }
                return Err(e);
            },
        }
    }
    assert(found.take(found.len() as int) =~= found);
    Ok(handles)
}

/// Interface for using the CryptoTransform of the Cryptographic plugin.
impl<
    A: Authentication + ?Sized,
    P: AccessControl<A> + ?Sized,
    C: Cryptographic + ?Sized,
> SecurityPlugins<A, P, C> {
    /// The crypto handles of the destinations, as matched with the source, in
    /// the order given; or the error for the first destination without one.
    fn get_remote_endpoint_crypto_handles(
        &self,
        source_guid: &GUID,
        destination_guid_list: &[GUID],
    ) -> (result: SecurityResult<Vec<CryptoHandle>>)
        ensures
            match result {
                Ok(handles) => self@.remote_endpoint_crypto_handles(
                    *source_guid,
                    destination_guid_list@,
                ) == Ok::<Seq<CryptoHandle>, SecurityError>(handles@),
                Err(e) => self@.remote_endpoint_crypto_handles(*source_guid, destination_guid_list@)
                    == Err::<Seq<CryptoHandle>, SecurityError>(e),
            },
    {
        let lookup = |proxy: &GUID| -> (found: SecurityResult<CryptoHandle>)
            ensures
                found == self@.remote_endpoint_crypto_handle(*source_guid, *proxy),
            { self.get_remote_endpoint_crypto_handle((source_guid, proxy)) };
        collect_handles(
            destination_guid_list,
            lookup,
            Ghost(|proxy: GUID| self@.remote_endpoint_crypto_handle(*source_guid, proxy)),
        )
    }

    /// The crypto handles of the participants, in the order given; or the error
    /// for the first participant without one.
    fn get_participant_crypto_handles(
        &self,
        guid_prefix_list: &[GuidPrefix],
    ) -> (result: SecurityResult<Vec<CryptoHandle>>)
        ensures
            match result {
                Ok(handles) => self@.participant_crypto_handles(guid_prefix_list@) == Ok::<
                    Seq<CryptoHandle>,
                    SecurityError,
                >(handles@),
                Err(e) => self@.participant_crypto_handles(guid_prefix_list@) == Err::<
                    Seq<CryptoHandle>,
                    SecurityError,
                >(e),
            },
    {
        let lookup = |guid_prefix: &GuidPrefix| -> (found: SecurityResult<CryptoHandle>)
            ensures
                found == self@.participant_crypto_handle(*guid_prefix),
            { self.get_participant_crypto_handle(guid_prefix) };
        collect_handles(
            guid_prefix_list,
            lookup,
            Ghost(|guid_prefix: GuidPrefix| self@.participant_crypto_handle(guid_prefix)),
        )
    }

    /// Protects the payload of a local writer's data. Where the writer's payloads
    /// need no protection, the plugin is not asked.
    pub fn encode_serialized_payload(
        &self,
        serialized_payload: Vec<u8>,
        sending_datawriter_guid: &GUID,
    ) -> (result: SecurityResult<(Vec<u8>, ParameterList)>)
        ensures
            self.encodes_serialized_payload(serialized_payload@, *sending_datawriter_guid, result),
            !self@.test_disable_crypto_transform && !self@.payload_not_protected.contains(
                *sending_datawriter_guid,
            ) && self@.local_endpoint_crypto.contains_key(*sending_datawriter_guid) ==> call_ensures(
                C::encode_serialized_payload,
                (
                    self.crypto(),
                    serialized_payload,
                    self@.local_endpoint_crypto[*sending_datawriter_guid],
                ),
                result,
            ),
    {
        if self.test_disable_crypto_transform {
            return Ok((serialized_payload, ParameterList::new()));
        }
        if self.payload_not_protected(sending_datawriter_guid) {
            return Ok((serialized_payload, ParameterList::new()));
        }
        let sender: DatawriterCryptoHandle = self.get_local_endpoint_crypto_handle(
            sending_datawriter_guid,
        )?;
        let plugin: &C = &*self.crypto;
        plugin.encode_serialized_payload(serialized_payload, sender)
    }

    /// Protects a submessage of a local writer for the readers that are to receive
    /// it. Where the writer's submessages need no protection, the plugin is not
    /// asked.
    pub fn encode_datawriter_submessage(
        &self,
        plain_submessage: Submessage,
        source_guid: &GUID,
        destination_guid_list: &[GUID],
    ) -> (result: SecurityResult<EncodedSubmessage>)
        ensures
            self.encodes_datawriter_submessage(
                plain_submessage,
                *source_guid,
                destination_guid_list@,
                result,
            ),
            !self@.test_disable_crypto_transform && !self@.submessage_not_protected.contains(
                *source_guid,
            ) && self@.remote_endpoint_crypto_handles(*source_guid, destination_guid_list@) is Ok
                && self@.local_endpoint_crypto.contains_key(*source_guid) ==> exists|
                receivers: Vec<DatareaderCryptoHandle>,
            |
                {
                    &&& receivers@ == distinct_sorted(
                        self@.remote_endpoint_crypto_handles(
                            *source_guid,
                            destination_guid_list@,
                        )->Ok_0,
                    )
                    &&& #[trigger] call_ensures(
                        C::encode_datawriter_submessage,
                        (
                            self.crypto(),
                            plain_submessage,
                            self@.local_endpoint_crypto[*source_guid],
                            receivers,
                        ),
                        result,
                    )
                },
    {
        if self.test_disable_crypto_transform {
            return Ok(EncodedSubmessage::Unencoded(plain_submessage));
        }
        if self.submessage_not_protected(source_guid) {
            return Ok(EncodedSubmessage::Unencoded(plain_submessage));
        }
        // Convert the destination GUIDs to crypto handles.
        let handles: Vec<DatareaderCryptoHandle> = self.get_remote_endpoint_crypto_handles(
            source_guid,
            destination_guid_list,
        )?;
        let receiving_datareader_crypto_list: Vec<DatareaderCryptoHandle> = remove_duplicates(
            &handles,
        );
        let sender: DatawriterCryptoHandle = self.get_local_endpoint_crypto_handle(source_guid)?;
        let plugin: &C = &*self.crypto;
        plugin.encode_datawriter_submessage(
            plain_submessage,
            sender,
            receiving_datareader_crypto_list,
        )
    }

    /// Protects a submessage of a local reader for the writers that are to receive
    /// it. Where the reader's submessages need no protection, the plugin is not
    /// asked.
    pub fn encode_datareader_submessage(
        &self,
        plain_submessage: Submessage,
        source_guid: &GUID,
        destination_guid_list: &[GUID],
    ) -> (result: SecurityResult<EncodedSubmessage>)
        ensures
            self.encodes_datareader_submessage(
                plain_submessage,
                *source_guid,
                destination_guid_list@,
                result,
            ),
            !self@.test_disable_crypto_transform && !self@.submessage_not_protected.contains(
                *source_guid,
            ) && self@.remote_endpoint_crypto_handles(*source_guid, destination_guid_list@) is Ok
                && self@.local_endpoint_crypto.contains_key(*source_guid) ==> exists|
                receivers: Vec<DatawriterCryptoHandle>,
            |
                {
                    &&& receivers@ == distinct_sorted(
                        self@.remote_endpoint_crypto_handles(
                            *source_guid,
                            destination_guid_list@,
                        )->Ok_0,
                    )
                    &&& #[trigger] call_ensures(
                        C::encode_datareader_submessage,
                        (
                            self.crypto(),
                            plain_submessage,
                            self@.local_endpoint_crypto[*source_guid],
                            receivers,
                        ),
                        result,
                    )
                },
    {
        if self.test_disable_crypto_transform {
            return Ok(EncodedSubmessage::Unencoded(plain_submessage));
        }
        if self.submessage_not_protected(source_guid) {
            return Ok(EncodedSubmessage::Unencoded(plain_submessage));
        }
        // Convert the destination GUIDs to crypto handles.
        let handles: Vec<DatawriterCryptoHandle> = self.get_remote_endpoint_crypto_handles(
            source_guid,
            destination_guid_list,
        )?;
        let receiving_datawriter_crypto_list: Vec<DatawriterCryptoHandle> = remove_duplicates(
            &handles,
        );
        let sender: DatareaderCryptoHandle = self.get_local_endpoint_crypto_handle(source_guid)?;
        let plugin: &C = &*self.crypto;
        plugin.encode_datareader_submessage(
            plain_submessage,
            sender,
            receiving_datawriter_crypto_list,
        )
    }

    /// Protects a message of a local participant for the participants that are to
    /// receive it. Where the participant's messages need no protection, the
    /// plugin is not asked.
    pub fn encode_message(
        &self,
        plain_message: Message,
        source_guid_prefix: &GuidPrefix,
        destination_guid_prefix_list: &[GuidPrefix],
    ) -> (result: SecurityResult<Message>)
        ensures
            self.encodes_message(
                plain_message,
                *source_guid_prefix,
                destination_guid_prefix_list@,
                result,
            ),
            !self@.test_disable_crypto_transform && !self@.rtps_not_protected.contains(
                *source_guid_prefix,
            ) && self@.participant_crypto_handles(destination_guid_prefix_list@) is Ok
                && self@.participant_crypto.contains_key(*source_guid_prefix) ==> exists|
                receivers: Vec<CryptoHandle>,
            |
                {
                    &&& receivers@ == distinct_sorted(
                        self@.participant_crypto_handles(destination_guid_prefix_list@)->Ok_0,
                    )
                    &&& #[trigger] call_ensures(
                        C::encode_rtps_message,
                        (
                            self.crypto(),
                            plain_message,
                            self@.participant_crypto[*source_guid_prefix],
                            receivers,
                        ),
                        result,
                    )
                },
    {
        if self.test_disable_crypto_transform {
            return Ok(plain_message);
        }
        if self.rtps_not_protected(source_guid_prefix) {
            return Ok(plain_message);
        }
        // Convert the destination GUID prefixes to crypto handles.
        let handles: Vec<CryptoHandle> = self.get_participant_crypto_handles(
            destination_guid_prefix_list,
        )?;
        let receiving_participant_crypto_list: Vec<CryptoHandle> = remove_duplicates(&handles);
        let sender: CryptoHandle = self.get_participant_crypto_handle(source_guid_prefix)?;
        let plugin: &C = &*self.crypto;
        plugin.encode_rtps_message(plain_message, sender, receiving_participant_crypto_list)
    }

    /// Takes the protection off a message.
    pub fn decode_rtps_message(
        &self,
        encoded_message: Message,
        source_guid_prefix: &GuidPrefix,
        destination_guid_prefix: &GuidPrefix,
    ) -> (result: SecurityResult<Message>)
        ensures
            self.decodes_rtps_message(
                encoded_message,
                *source_guid_prefix,
                *destination_guid_prefix,
                result,
            ),
            self@.participant_crypto.contains_key(*destination_guid_prefix)
                && self@.participant_crypto.contains_key(*source_guid_prefix) ==> call_ensures(
                C::decode_rtps_message,
                (
                    self.crypto(),
                    encoded_message,
                    self@.participant_crypto[*destination_guid_prefix],
                    self@.participant_crypto[*source_guid_prefix],
                ),
                result,
            ),
    {
        let receiver: CryptoHandle = self.get_participant_crypto_handle(destination_guid_prefix)?;
        let sender: CryptoHandle = self.get_participant_crypto_handle(source_guid_prefix)?;
        let plugin: &C = &*self.crypto;
        plugin.decode_rtps_message(encoded_message, receiver, sender)
    }

    /// Finds out what a protected submessage is and which endpoints it concerns.
    pub fn preprocess_secure_submessage(
        &self,
        secure_prefix: &SecurePrefix,
        source_guid_prefix: &GuidPrefix,
        destination_guid_prefix: &GuidPrefix,
    ) -> (result: SecurityResult<SecureSubmessageCategory>)
        ensures
            match both(
                self@.participant_crypto_handle(*destination_guid_prefix),
                self@.participant_crypto_handle(*source_guid_prefix),
            ) {
                Ok((receiver, sender)) => self.crypto().may_preprocess_secure_submessage(
                    *secure_prefix,
                    receiver,
                    sender,
                    result,
                ),
                Err(e) => result == Err::<SecureSubmessageCategory, SecurityError>(e),
            },
            self@.participant_crypto.contains_key(*destination_guid_prefix)
                && self@.participant_crypto.contains_key(*source_guid_prefix) ==> call_ensures(
                C::preprocess_secure_submessage,
                (
                    self.crypto(),
                    secure_prefix,
                    self@.participant_crypto[*destination_guid_prefix],
                    self@.participant_crypto[*source_guid_prefix],
                ),
                result,
            ),
    {
        let receiver: CryptoHandle = self.get_participant_crypto_handle(destination_guid_prefix)?;
        let sender: CryptoHandle = self.get_participant_crypto_handle(source_guid_prefix)?;
        let plugin: &C = &*self.crypto;
        plugin.preprocess_secure_submessage(secure_prefix, receiver, sender)
    }

    /// Takes the protection off a writer's submessage.
    pub fn decode_datawriter_submessage(
        &self,
        encoded_rtps_submessage: (SecurePrefix, Submessage, SecurePostfix),
        receiving_datareader_crypto: DatareaderCryptoHandle,
        sending_datawriter_crypto: DatawriterCryptoHandle,
    ) -> (result: SecurityResult<WriterSubmessage>)
        ensures
            self.crypto().may_decode_datawriter_submessage(
                encoded_rtps_submessage,
                receiving_datareader_crypto,
                sending_datawriter_crypto,
                result,
            ),
            call_ensures(
                C::decode_datawriter_submessage,
                (
                    self.crypto(),
                    encoded_rtps_submessage,
                    receiving_datareader_crypto,
                    sending_datawriter_crypto,
                ),
                result,
            ),
    {
        let plugin: &C = &*self.crypto;
        plugin.decode_datawriter_submessage(
            encoded_rtps_submessage,
            receiving_datareader_crypto,
            sending_datawriter_crypto,
        )
    }

    /// Takes the protection off a reader's submessage.
    pub fn decode_datareader_submessage(
        &self,
        encoded_rtps_submessage: (SecurePrefix, Submessage, SecurePostfix),
        receiving_datawriter_crypto: DatawriterCryptoHandle,
        sending_datareader_crypto: DatareaderCryptoHandle,
    ) -> (result: SecurityResult<ReaderSubmessage>)
        ensures
            self.crypto().may_decode_datareader_submessage(
                encoded_rtps_submessage,
                receiving_datawriter_crypto,
                sending_datareader_crypto,
                result,
            ),
            call_ensures(
                C::decode_datareader_submessage,
                (
                    self.crypto(),
                    encoded_rtps_submessage,
                    receiving_datawriter_crypto,
                    sending_datareader_crypto,
                ),
                result,
            ),
    {
        let plugin: &C = &*self.crypto;
        plugin.decode_datareader_submessage(
            encoded_rtps_submessage,
            receiving_datawriter_crypto,
            sending_datareader_crypto,
        )
    }

    /// Takes the protection off a payload that came in for a local reader. Where
    /// the reader's payloads need no protection, the plugin is not asked.
    pub fn decode_serialized_payload(
        &self,
        encoded_payload: Vec<u8>,
        inline_qos: ParameterList,
        source_guid: &GUID,
        destination_guid: &GUID,
    ) -> (result: SecurityResult<Vec<u8>>)
        ensures
            self.decodes_serialized_payload(
                encoded_payload@,
                inline_qos@,
                *source_guid,
                *destination_guid,
                result,
            ),
            !self@.test_disable_crypto_transform && !self@.payload_not_protected.contains(
                *destination_guid,
            ) && self@.local_endpoint_crypto.contains_key(*destination_guid)
                && self@.remote_endpoint_crypto.contains_key((*destination_guid, *source_guid))
                ==> call_ensures(
                C::decode_serialized_payload,
                (
                    self.crypto(),
                    encoded_payload,
                    inline_qos,
                    self@.local_endpoint_crypto[*destination_guid],
                    self@.remote_endpoint_crypto[(*destination_guid, *source_guid)],
                ),
                result,
            ),
    {
        if self.test_disable_crypto_transform {
            return Ok(encoded_payload);
        }
        if self.payload_not_protected(destination_guid) {
            Ok(encoded_payload)
        } else {
            let receiver: DatareaderCryptoHandle = self.get_local_endpoint_crypto_handle(
                destination_guid,
            )?;
            let sender: DatawriterCryptoHandle = self.get_remote_endpoint_crypto_handle(
                (destination_guid, source_guid),
            )?;
            let plugin: &C = &*self.crypto;
            plugin.decode_serialized_payload(encoded_payload, inline_qos, receiver, sender)
        }
    }

    /// Whether unprotected messages without crypto headers are allowed in the
    /// domain of the local participant.
    pub fn rtps_not_protected(&self, local_participant_guid_prefix: &GuidPrefix) -> (not_protected:
        bool)
        ensures
            not_protected == self@.rtps_not_protected.contains(*local_participant_guid_prefix),
    {
        self.rtps_not_protected.contains(local_participant_guid_prefix)
    }

    /// Whether unprotected submessages without crypto headers are allowed in the
    /// topic of the local endpoint.
    pub fn submessage_not_protected(&self, local_endpoint_guid: &GUID) -> (not_protected: bool)
        ensures
            not_protected == self@.submessage_not_protected.contains(*local_endpoint_guid),
    {
        self.submessage_not_protected.contains(local_endpoint_guid)
    }

    /// Whether unprotected payloads without crypto headers are allowed in the
    /// topic of the local endpoint.
    pub fn payload_not_protected(&self, local_endpoint_guid: &GUID) -> (not_protected: bool)
        ensures
            not_protected == self@.payload_not_protected.contains(*local_endpoint_guid),
    {
        self.payload_not_protected.contains(local_endpoint_guid)
    }
}

} // verus!
