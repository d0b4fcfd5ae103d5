//! The interface of the cryptographic plugin.

use vstd::prelude::*;

use crate::error::SecurityResult;
use crate::plugin::Plugin;
use crate::rtps::{
    Message, Parameter, ParameterList, ReaderSubmessage, SecurePostfix, SecurePrefix, Submessage,
    WriterSubmessage,
};
use crate::types::{
    DatareaderCryptoHandle, DatareaderCryptoToken, DatawriterCryptoHandle, DatawriterCryptoToken,
    EndpointSecurityAttributes, IdentityHandle, ParticipantCryptoHandle, ParticipantCryptoToken,
    ParticipantSecurityAttributes, PermissionsHandle, Property, SharedSecretHandle,
};

verus! {

/// What became of a submessage that was to be protected.
#[derive(Clone, PartialEq, Eq, Debug)]
pub enum EncodedSubmessage {
    /// The submessage goes out as it was.
    Unencoded(Submessage),
    /// The submessage goes out protected, between a prefix and a postfix.
    Encoded(SecurePrefix, Submessage, SecurePostfix),
}

/// What a protected submessage is and which endpoints it concerns.
#[derive(Clone, Copy, PartialEq, Eq, Debug)]
pub enum SecureSubmessageCategory {
    /// An informational submessage, which concerns no endpoint.
    InfoSubmessage,
    /// A submessage from the writer to the reader.
    DatawriterSubmessage(DatawriterCryptoHandle, DatareaderCryptoHandle),
    /// A submessage from the reader to the writer.
    DatareaderSubmessage(DatareaderCryptoHandle, DatawriterCryptoHandle),
}

/// The part of the cryptographic plugin that makes and discards key material.
///
/// Each method has a companion `may_...`, as [`Plugin`] explains.
pub trait CryptoKeyFactory: Plugin {
    /// Whether `register_local_participant` may have this outcome.
    open spec fn may_register_local_participant(
        &self,
        participant_identity: IdentityHandle,
        participant_permissions: PermissionsHandle,
        participant_properties: Seq<Property>,
        participant_security_attributes: ParticipantSecurityAttributes,
        reply: SecurityResult<ParticipantCryptoHandle>,
        post: Seq<u8>,
    ) -> bool {
        true
    }

    /// Makes key material for the local participant.
    fn register_local_participant(
        &mut self,
        participant_identity: IdentityHandle,
        participant_permissions: PermissionsHandle,
        participant_properties: &[Property],
        participant_security_attributes: ParticipantSecurityAttributes,
    ) -> (reply: SecurityResult<ParticipantCryptoHandle>)
        ensures
            old(self).may_register_local_participant(
                participant_identity,
                participant_permissions,
                participant_properties@,
                participant_security_attributes,
                reply,
                final(self).state(),
            ),
    ;

    /// Whether `register_matched_remote_participant` may have this outcome.
    open spec fn may_register_matched_remote_participant(
        &self,
        local_participant_crypto_handle: ParticipantCryptoHandle,
        remote_participant_identity: IdentityHandle,
        remote_participant_permissions: PermissionsHandle,
        shared_secret: SharedSecretHandle,
        reply: SecurityResult<ParticipantCryptoHandle>,
        post: Seq<u8>,
    ) -> bool {
        true
    }

    /// Makes key material shared with a remote participant.
    fn register_matched_remote_participant(
        &mut self,
        local_participant_crypto_handle: ParticipantCryptoHandle,
        remote_participant_identity: IdentityHandle,
        remote_participant_permissions: PermissionsHandle,
        shared_secret: SharedSecretHandle,
    ) -> (reply: SecurityResult<ParticipantCryptoHandle>)
        ensures
            old(self).may_register_matched_remote_participant(
                local_participant_crypto_handle,
                remote_participant_identity,
                remote_participant_permissions,
                shared_secret,
                reply,
                final(self).state(),
            ),
    ;

    /// Whether `register_local_datawriter` may have this outcome.
    open spec fn may_register_local_datawriter(
        &self,
        participant_crypto: ParticipantCryptoHandle,
        datawriter_properties: Seq<Property>,
        datawriter_security_attributes: EndpointSecurityAttributes,
        reply: SecurityResult<DatawriterCryptoHandle>,
        post: Seq<u8>,
    ) -> bool {
        true
    }

    /// Makes key material for a local writer.
    fn register_local_datawriter(
        &mut self,
        participant_crypto: ParticipantCryptoHandle,
        datawriter_properties: &[Property],
        datawriter_security_attributes: EndpointSecurityAttributes,
    ) -> (reply: SecurityResult<DatawriterCryptoHandle>)
        ensures
            old(self).may_register_local_datawriter(
                participant_crypto,
                datawriter_properties@,
                datawriter_security_attributes,
                reply,
                final(self).state(),
            ),
    ;

    /// Whether `register_matched_remote_datareader` may have this outcome.
    open spec fn may_register_matched_remote_datareader(
        &self,
        local_datawriter_crypto_handle: DatawriterCryptoHandle,
        remote_participant_crypto: ParticipantCryptoHandle,
        shared_secret: SharedSecretHandle,
        relay_only: bool,
        reply: SecurityResult<DatareaderCryptoHandle>,
        post: Seq<u8>,
    ) -> bool {
        true
    }

    /// Makes key material for a remote reader that a local writer is matched with.
    fn register_matched_remote_datareader(
        &mut self,
        local_datawriter_crypto_handle: DatawriterCryptoHandle,
        remote_participant_crypto: ParticipantCryptoHandle,
        shared_secret: SharedSecretHandle,
        relay_only: bool,
    ) -> (reply: SecurityResult<DatareaderCryptoHandle>)
        ensures
            old(self).may_register_matched_remote_datareader(
                local_datawriter_crypto_handle,
                remote_participant_crypto,
                shared_secret,
                relay_only,
                reply,
                final(self).state(),
            ),
    ;

    /// Whether `register_local_datareader` may have this outcome.
    open spec fn may_register_local_datareader(
        &self,
        participant_crypto: ParticipantCryptoHandle,
        datareader_properties: Seq<Property>,
        datareader_security_attributes: EndpointSecurityAttributes,
        reply: SecurityResult<DatareaderCryptoHandle>,
        post: Seq<u8>,
    ) -> bool {
        true
    }

    /// Makes key material for a local reader.
    fn register_local_datareader(
        &mut self,
        participant_crypto: ParticipantCryptoHandle,
        datareader_properties: &[Property],
        datareader_security_attributes: EndpointSecurityAttributes,
    ) -> (reply: SecurityResult<DatareaderCryptoHandle>)
        ensures
            old(self).may_register_local_datareader(
                participant_crypto,
                datareader_properties@,
                datareader_security_attributes,
                reply,
                final(self).state(),
            ),
    ;

    /// Whether `register_matched_remote_datawriter` may have this outcome.
    open spec fn may_register_matched_remote_datawriter(
        &self,
        local_datareader_crypto_handle: DatareaderCryptoHandle,
        remote_participant_crypto: ParticipantCryptoHandle,
        shared_secret: SharedSecretHandle,
        reply: SecurityResult<DatawriterCryptoHandle>,
        post: Seq<u8>,
    ) -> bool {
        true
    }

    /// Makes key material for a remote writer that a local reader is matched with.
    fn register_matched_remote_datawriter(
        &mut self,
        local_datareader_crypto_handle: DatareaderCryptoHandle,
        remote_participant_crypto: ParticipantCryptoHandle,
        shared_secret: SharedSecretHandle,
    ) -> (reply: SecurityResult<DatawriterCryptoHandle>)
        ensures
            old(self).may_register_matched_remote_datawriter(
                local_datareader_crypto_handle,
                remote_participant_crypto,
                shared_secret,
                reply,
                final(self).state(),
            ),
    ;

    /// Whether `unregister_datawriter` may have this outcome.
    open spec fn may_unregister_datawriter(
        &self,
        datawriter_crypto_handle: DatawriterCryptoHandle,
        reply: SecurityResult<()>,
        post: Seq<u8>,
    ) -> bool {
        true
    }

    /// Discards the key material of a writer.
    fn unregister_datawriter(
        &mut self,
        datawriter_crypto_handle: DatawriterCryptoHandle,
    ) -> (reply: SecurityResult<()>)
        ensures
            old(self).may_unregister_datawriter(
                datawriter_crypto_handle,
                reply,
                final(self).state(),
            ),
    ;

    /// Whether `unregister_datareader` may have this outcome.
    open spec fn may_unregister_datareader(
        &self,
        datareader_crypto_handle: DatareaderCryptoHandle,
        reply: SecurityResult<()>,
        post: Seq<u8>,
    ) -> bool {
        true
    }

    /// Discards the key material of a reader.
    fn unregister_datareader(
        &mut self,
        datareader_crypto_handle: DatareaderCryptoHandle,
    ) -> (reply: SecurityResult<()>)
        ensures
            old(self).may_unregister_datareader(
                datareader_crypto_handle,
                reply,
                final(self).state(),
            ),
    ;
}

/// The part of the cryptographic plugin that exchanges key material with peers.
///
/// Each method has a companion `may_...`, as [`Plugin`] explains.
pub trait CryptoKeyExchange: Plugin {
    /// Whether `create_local_participant_crypto_tokens` may have this outcome.
    open spec fn may_create_local_participant_crypto_tokens(
        &self,
        local_participant_crypto: ParticipantCryptoHandle,
        remote_participant_crypto: ParticipantCryptoHandle,
        reply: SecurityResult<Vec<ParticipantCryptoToken>>,
        post: Seq<u8>,
    ) -> bool {
        true
    }

    /// The key material that the remote participant needs.
    fn create_local_participant_crypto_tokens(
        &mut self,
        local_participant_crypto: ParticipantCryptoHandle,
        remote_participant_crypto: ParticipantCryptoHandle,
    ) -> (reply: SecurityResult<Vec<ParticipantCryptoToken>>)
        ensures
            old(self).may_create_local_participant_crypto_tokens(
                local_participant_crypto,
                remote_participant_crypto,
                reply,
                final(self).state(),
            ),
    ;

    /// Whether `set_remote_participant_crypto_tokens` may have this outcome.
    open spec fn may_set_remote_participant_crypto_tokens(
        &self,
        local_participant_crypto: ParticipantCryptoHandle,
        remote_participant_crypto: ParticipantCryptoHandle,
        remote_participant_tokens: Seq<ParticipantCryptoToken>,
        reply: SecurityResult<()>,
        post: Seq<u8>,
    ) -> bool {
        true
    }

    /// Takes in key material that a remote participant sent.
    fn set_remote_participant_crypto_tokens(
        &mut self,
        local_participant_crypto: ParticipantCryptoHandle,
        remote_participant_crypto: ParticipantCryptoHandle,
        remote_participant_tokens: Vec<ParticipantCryptoToken>,
    ) -> (reply: SecurityResult<()>)
        ensures
            old(self).may_set_remote_participant_crypto_tokens(
                local_participant_crypto,
                remote_participant_crypto,
                remote_participant_tokens@,
                reply,
                final(self).state(),
            ),
    ;

    /// Whether `create_local_datawriter_crypto_tokens` may have this outcome.
    open spec fn may_create_local_datawriter_crypto_tokens(
        &self,
        local_datawriter_crypto: DatawriterCryptoHandle,
        remote_datareader_crypto: DatareaderCryptoHandle,
        reply: SecurityResult<Vec<DatawriterCryptoToken>>,
        post: Seq<u8>,
    ) -> bool {
        true
    }

    /// The key material of a local writer that a remote reader needs.
    fn create_local_datawriter_crypto_tokens(
        &mut self,
        local_datawriter_crypto: DatawriterCryptoHandle,
        remote_datareader_crypto: DatareaderCryptoHandle,
    ) -> (reply: SecurityResult<Vec<DatawriterCryptoToken>>)
        ensures
            old(self).may_create_local_datawriter_crypto_tokens(
                local_datawriter_crypto,
                remote_datareader_crypto,
                reply,
                final(self).state(),
            ),
    ;

    /// Whether `set_remote_datawriter_crypto_tokens` may have this outcome.
    open spec fn may_set_remote_datawriter_crypto_tokens(
        &self,
        local_datareader_crypto: DatareaderCryptoHandle,
        remote_datawriter_crypto: DatawriterCryptoHandle,
        remote_datawriter_tokens: Seq<DatawriterCryptoToken>,
        reply: SecurityResult<()>,
        post: Seq<u8>,
    ) -> bool {
        true
    }

    /// Takes in key material of a remote writer.
    fn set_remote_datawriter_crypto_tokens(
        &mut self,
        local_datareader_crypto: DatareaderCryptoHandle,
        remote_datawriter_crypto: DatawriterCryptoHandle,
        remote_datawriter_tokens: Vec<DatawriterCryptoToken>,
    ) -> (reply: SecurityResult<()>)
        ensures
            old(self).may_set_remote_datawriter_crypto_tokens(
                local_datareader_crypto,
                remote_datawriter_crypto,
                remote_datawriter_tokens@,
                reply,
                final(self).state(),
            ),
    ;

    /// Whether `create_local_datareader_crypto_tokens` may have this outcome.
    open spec fn may_create_local_datareader_crypto_tokens(
        &self,
        local_datareader_crypto: DatareaderCryptoHandle,
        remote_datawriter_crypto: DatawriterCryptoHandle,
        reply: SecurityResult<Vec<DatareaderCryptoToken>>,
        post: Seq<u8>,
    ) -> bool {
        true
    }

    /// The key material of a local reader that a remote writer needs.
    fn create_local_datareader_crypto_tokens(
        &mut self,
        local_datareader_crypto: DatareaderCryptoHandle,
        remote_datawriter_crypto: DatawriterCryptoHandle,
    ) -> (reply: SecurityResult<Vec<DatareaderCryptoToken>>)
        ensures
            old(self).may_create_local_datareader_crypto_tokens(
                local_datareader_crypto,
                remote_datawriter_crypto,
                reply,
                final(self).state(),
            ),
    ;

    /// Whether `set_remote_datareader_crypto_tokens` may have this outcome.
    open spec fn may_set_remote_datareader_crypto_tokens(
        &self,
        local_datawriter_crypto: DatawriterCryptoHandle,
        remote_datareader_crypto: DatareaderCryptoHandle,
        remote_datareader_tokens: Seq<DatareaderCryptoToken>,
        reply: SecurityResult<()>,
        post: Seq<u8>,
    ) -> bool {
        true
    }

    /// Takes in key material of a remote reader.
    fn set_remote_datareader_crypto_tokens(
        &mut self,
        local_datawriter_crypto: DatawriterCryptoHandle,
        remote_datareader_crypto: DatareaderCryptoHandle,
        remote_datareader_tokens: Vec<DatareaderCryptoToken>,
    ) -> (reply: SecurityResult<()>)
        ensures
            old(self).may_set_remote_datareader_crypto_tokens(
                local_datawriter_crypto,
                remote_datareader_crypto,
                remote_datareader_tokens@,
                reply,
                final(self).state(),
            ),
    ;
}

/// The part of the cryptographic plugin that puts protection on and takes it off.
///
/// Each method has a companion `may_...`, as [`Plugin`] explains.
pub trait CryptoTransform: Plugin {
    /// Whether `encode_serialized_payload` may have this outcome.
    open spec fn may_encode_serialized_payload(
        &self,
        plain_buffer: Seq<u8>,
        sending_datawriter_crypto: DatawriterCryptoHandle,
        reply: SecurityResult<(Vec<u8>, ParameterList)>,
    ) -> bool {
        true
    }

    /// Protects the payload of a local writer's data.
    fn encode_serialized_payload(
        &self,
        plain_buffer: Vec<u8>,
        sending_datawriter_crypto: DatawriterCryptoHandle,
    ) -> (reply: SecurityResult<(Vec<u8>, ParameterList)>)
        ensures
            self.may_encode_serialized_payload(plain_buffer@, sending_datawriter_crypto, reply),
    ;

    /// Whether `encode_datawriter_submessage` may have this outcome.
    open spec fn may_encode_datawriter_submessage(
        &self,
        plain_submessage: Submessage,
        sending_datawriter_crypto: DatawriterCryptoHandle,
        receiving_datareader_crypto_list: Seq<DatareaderCryptoHandle>,
        reply: SecurityResult<EncodedSubmessage>,
    ) -> bool {
        true
    }

    /// Protects a submessage of a local writer.
    fn encode_datawriter_submessage(
        &self,
        plain_submessage: Submessage,
        sending_datawriter_crypto: DatawriterCryptoHandle,
        receiving_datareader_crypto_list: Vec<DatareaderCryptoHandle>,
    ) -> (reply: SecurityResult<EncodedSubmessage>)
        ensures
            self.may_encode_datawriter_submessage(
                plain_submessage,
                sending_datawriter_crypto,
                receiving_datareader_crypto_list@,
                reply,
            ),
    ;

    /// Whether `encode_datareader_submessage` may have this outcome.
    open spec fn may_encode_datareader_submessage(
        &self,
        plain_submessage: Submessage,
        sending_datareader_crypto: DatareaderCryptoHandle,
        receiving_datawriter_crypto_list: Seq<DatawriterCryptoHandle>,
        reply: SecurityResult<EncodedSubmessage>,
    ) -> bool {
        true
    }

    /// Protects a submessage of a local reader.
    fn encode_datareader_submessage(
        &self,
        plain_submessage: Submessage,
        sending_datareader_crypto: DatareaderCryptoHandle,
        receiving_datawriter_crypto_list: Vec<DatawriterCryptoHandle>,
    ) -> (reply: SecurityResult<EncodedSubmessage>)
        ensures
            self.may_encode_datareader_submessage(
                plain_submessage,
                sending_datareader_crypto,
                receiving_datawriter_crypto_list@,
                reply,
            ),
    ;

    /// Whether `encode_rtps_message` may have this outcome.
    open spec fn may_encode_rtps_message(
        &self,
        plain_message: Message,
        sending_participant_crypto: ParticipantCryptoHandle,
        receiving_participant_crypto_list: Seq<ParticipantCryptoHandle>,
        reply: SecurityResult<Message>,
    ) -> bool {
        true
    }

    /// Protects a whole message.
    fn encode_rtps_message(
        &self,
        plain_message: Message,
        sending_participant_crypto: ParticipantCryptoHandle,
        receiving_participant_crypto_list: Vec<ParticipantCryptoHandle>,
    ) -> (reply: SecurityResult<Message>)
        ensures
            self.may_encode_rtps_message(
                plain_message,
                sending_participant_crypto,
                receiving_participant_crypto_list@,
                reply,
            ),
    ;

    /// Whether `decode_rtps_message` may have this outcome.
    open spec fn may_decode_rtps_message(
        &self,
        encoded_message: Message,
        receiving_participant_crypto: ParticipantCryptoHandle,
        sending_participant_crypto: ParticipantCryptoHandle,
        reply: SecurityResult<Message>,
    ) -> bool {
        true
    }

    /// Takes the protection off a whole message.
    fn decode_rtps_message(
        &self,
        encoded_message: Message,
        receiving_participant_crypto: ParticipantCryptoHandle,
        sending_participant_crypto: ParticipantCryptoHandle,
    ) -> (reply: SecurityResult<Message>)
        ensures
            self.may_decode_rtps_message(
                encoded_message,
                receiving_participant_crypto,
                sending_participant_crypto,
                reply,
            ),
    ;

    /// Whether `preprocess_secure_submessage` may have this outcome.
    open spec fn may_preprocess_secure_submessage(
        &self,
        secure_prefix: SecurePrefix,
        receiving_participant_crypto: ParticipantCryptoHandle,
        sending_participant_crypto: ParticipantCryptoHandle,
        reply: SecurityResult<SecureSubmessageCategory>,
    ) -> bool {
        true
    }

    /// Finds out what a protected submessage is and whom it concerns.
    fn preprocess_secure_submessage(
        &self,
        secure_prefix: &SecurePrefix,
        receiving_participant_crypto: ParticipantCryptoHandle,
        sending_participant_crypto: ParticipantCryptoHandle,
    ) -> (reply: SecurityResult<SecureSubmessageCategory>)
        ensures
            self.may_preprocess_secure_submessage(
                *secure_prefix,
                receiving_participant_crypto,
                sending_participant_crypto,
                reply,
            ),
    ;

    /// Whether `decode_datawriter_submessage` may have this outcome.
    open spec fn may_decode_datawriter_submessage(
        &self,
        encoded_rtps_submessage: (SecurePrefix, Submessage, SecurePostfix),
        receiving_datareader_crypto: DatareaderCryptoHandle,
        sending_datawriter_crypto: DatawriterCryptoHandle,
        reply: SecurityResult<WriterSubmessage>,
    ) -> bool {
        true
    }

    /// Takes the protection off a writer's submessage.
    fn decode_datawriter_submessage(
        &self,
        encoded_rtps_submessage: (SecurePrefix, Submessage, SecurePostfix),
        receiving_datareader_crypto: DatareaderCryptoHandle,
        sending_datawriter_crypto: DatawriterCryptoHandle,
    ) -> (reply: SecurityResult<WriterSubmessage>)
        ensures
            self.may_decode_datawriter_submessage(
                encoded_rtps_submessage,
                receiving_datareader_crypto,
                sending_datawriter_crypto,
                reply,
            ),
    ;

    /// Whether `decode_datareader_submessage` may have this outcome.
    open spec fn may_decode_datareader_submessage(
        &self,
        encoded_rtps_submessage: (SecurePrefix, Submessage, SecurePostfix),
        receiving_datawriter_crypto: DatawriterCryptoHandle,
        sending_datareader_crypto: DatareaderCryptoHandle,
        reply: SecurityResult<ReaderSubmessage>,
    ) -> bool {
        true
    }

    /// Takes the protection off a reader's submessage.
    fn decode_datareader_submessage(
        &self,
        encoded_rtps_submessage: (SecurePrefix, Submessage, SecurePostfix),
        receiving_datawriter_crypto: DatawriterCryptoHandle,
        sending_datareader_crypto: DatareaderCryptoHandle,
    ) -> (reply: SecurityResult<ReaderSubmessage>)
        ensures
            self.may_decode_datareader_submessage(
                encoded_rtps_submessage,
                receiving_datawriter_crypto,
                sending_datareader_crypto,
                reply,
            ),
    ;

    /// Whether `decode_serialized_payload` may have this outcome.
    open spec fn may_decode_serialized_payload(
        &self,
        encoded_buffer: Seq<u8>,
        inline_qos: Seq<Parameter>,
        receiving_datareader_crypto: DatareaderCryptoHandle,
        sending_datawriter_crypto: DatawriterCryptoHandle,
        reply: SecurityResult<Vec<u8>>,
    ) -> bool {
        true
    }

    /// Takes the protection off the payload of a remote writer's data.
    fn decode_serialized_payload(
        &self,
        encoded_buffer: Vec<u8>,
        inline_qos: ParameterList,
        receiving_datareader_crypto: DatareaderCryptoHandle,
        sending_datawriter_crypto: DatawriterCryptoHandle,
    ) -> (reply: SecurityResult<Vec<u8>>)
        ensures
            self.may_decode_serialized_payload(
                encoded_buffer@,
                inline_qos@,
                receiving_datareader_crypto,
                sending_datawriter_crypto,
                reply,
            ),
    ;
}

/// The cryptographic plugin.
pub trait Cryptographic: CryptoKeyFactory + CryptoKeyExchange + CryptoTransform {

}

impl<T: CryptoKeyFactory + CryptoKeyExchange + CryptoTransform> Cryptographic for T {

}

} // verus!
