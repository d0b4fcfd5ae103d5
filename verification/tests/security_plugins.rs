//! The plugins below write down how they are called, give out the handle that the
//! test has set, and fail when the test says so.

use std::cell::{Cell, RefCell};
use std::rc::Rc;

use dds_security::access_control::AccessControl;
use dds_security::authentication::{Authentication, ValidationOutcome};
use dds_security::cryptographic::{
    CryptoKeyExchange, CryptoKeyFactory, CryptoTransform, EncodedSubmessage,
    SecureSubmessageCategory,
};
use dds_security::guid::{EntityId, GuidPrefix, GUID};
use dds_security::qos::{policy, QosPolicies};
use dds_security::rtps::{
    Header, Message, Parameter, ParameterList, ReaderSubmessage, SecurePostfix, SecurePrefix,
    Submessage, SubmessageHeader, WriterSubmessage,
};
use dds_security::types::{
    AuthRequestMessageToken, AuthenticatedPeerCredentialToken, CryptoToken, DataHolder,
    EndpointSecurityAttributes, HandshakeMessageToken, IdentityStatusToken, IdentityToken,
    ParticipantBuiltinTopicDataSecure, ParticipantSecurityAttributes, PermissionsCredentialToken,
    PermissionsToken, Property, SharedSecretHandle, TopicSecurityAttributes,
};
use dds_security::{Plugin, SecurityError, SecurityPlugins, SecurityResult};

/// What the test shares with the plugins.
#[derive(Clone)]
struct Shared {
    log: Rc<RefCell<Vec<String>>>,
    handle: Rc<Cell<u32>>,
    outcome: Rc<Cell<ValidationOutcome>>,
    failing: Rc<Cell<bool>>,
}

impl Shared {
    fn reply<T>(&self, call: String, value: T) -> SecurityResult<T> {
        self.log.borrow_mut().push(call);
        if self.failing.get() {
            Err(SecurityError::Plugin("out of order".to_string()))
        } else {
            Ok(value)
        }
    }
}

struct Auth(Shared);
struct Access(Shared);
struct Crypto(Shared);

impl Plugin for Auth {}
impl Plugin for Access {}
impl Plugin for Crypto {}

fn holder(class_id: &str) -> DataHolder {
    DataHolder {
        class_id: class_id.to_string(),
        properties: vec![],
        binary_properties: vec![],
    }
}

fn crypto_token(class_id: &str) -> CryptoToken {
    CryptoToken { data_holder: holder(class_id) }
}

impl Authentication for Auth {
    fn validate_local_identity(
        &mut self,
        domain_id: u16,
        participant_qos: &QosPolicies,
        candidate_participant_guid: GUID,
    ) -> SecurityResult<(ValidationOutcome, u32, GUID)> {
        let settled = GUID {
            prefix: GuidPrefix { bytes: [candidate_participant_guid.prefix.bytes[0] + 1; 12] },
            ..candidate_participant_guid
        };
        self.0.reply(
            format!("validate_local_identity {} {}", domain_id, participant_qos.property.is_some()),
            (self.0.outcome.get(), self.0.handle.get(), settled),
        )
    }

    fn get_identity_token(&self, handle: u32) -> SecurityResult<IdentityToken> {
        self.0.reply(
            format!("get_identity_token {}", handle),
            IdentityToken { data_holder: holder("identity") },
        )
    }

    fn get_identity_status_token(&self, handle: u32) -> SecurityResult<IdentityStatusToken> {
        self.0.reply(
            format!("get_identity_status_token {}", handle),
            IdentityStatusToken { data_holder: holder("status") },
        )
    }

    fn set_permissions_credential_and_token(
        &mut self,
        handle: u32,
        permissions_credential_token: PermissionsCredentialToken,
        permissions_token: PermissionsToken,
    ) -> SecurityResult<()> {
        self.0.reply(
            format!(
                "set_permissions_credential_and_token {} {} {}",
                handle,
                permissions_credential_token.data_holder.class_id,
                permissions_token.data_holder.class_id
            ),
            (),
        )
    }

    fn validate_remote_identity(
        &mut self,
        remote_auth_request_token: Option<AuthRequestMessageToken>,
        local_identity_handle: u32,
        remote_identity_token: IdentityToken,
        remote_participant_guidp: GuidPrefix,
    ) -> SecurityResult<(ValidationOutcome, u32, Option<AuthRequestMessageToken>)> {
        self.0.reply(
            format!(
                "validate_remote_identity {} {} {} {}",
                remote_auth_request_token.is_some(),
                local_identity_handle,
                remote_identity_token.data_holder.class_id,
                remote_participant_guidp.bytes[0]
            ),
            (self.0.outcome.get(), self.0.handle.get(), remote_auth_request_token),
        )
    }

    fn begin_handshake_request(
        &mut self,
        initiator_identity_handle: u32,
        replier_identity_handle: u32,
        serialized_local_participant_data: Vec<u8>,
    ) -> SecurityResult<(ValidationOutcome, u32, HandshakeMessageToken)> {
        self.0.reply(
            format!(
                "begin_handshake_request {} {} {:?}",
                initiator_identity_handle, replier_identity_handle, serialized_local_participant_data
            ),
            (
                self.0.outcome.get(),
                self.0.handle.get(),
                HandshakeMessageToken { data_holder: holder("request") },
            ),
        )
    }

    fn begin_handshake_reply(
        &mut self,
        handshake_message_in: HandshakeMessageToken,
        initiator_identity_handle: u32,
        replier_identity_handle: u32,
        serialized_local_participant_data: Vec<u8>,
    ) -> SecurityResult<(ValidationOutcome, u32, HandshakeMessageToken)> {
        self.0.reply(
            format!(
                "begin_handshake_reply {} {} {} {:?}",
                handshake_message_in.data_holder.class_id,
                initiator_identity_handle,
                replier_identity_handle,
                serialized_local_participant_data
            ),
            (
                self.0.outcome.get(),
                self.0.handle.get(),
                HandshakeMessageToken { data_holder: holder("reply") },
            ),
        )
    }

    fn process_handshake(
        &mut self,
        handshake_message_in: HandshakeMessageToken,
        handshake_handle: u32,
    ) -> SecurityResult<(ValidationOutcome, Option<HandshakeMessageToken>)> {
        self.0.reply(
            format!(
                "process_handshake {} {}",
                handshake_message_in.data_holder.class_id, handshake_handle
            ),
            (self.0.outcome.get(), Some(HandshakeMessageToken { data_holder: holder("final") })),
        )
    }

    fn get_authenticated_peer_credential_token(
        &self,
        handshake_handle: u32,
    ) -> SecurityResult<AuthenticatedPeerCredentialToken> {
        self.0.reply(
            format!("get_authenticated_peer_credential_token {}", handshake_handle),
            AuthenticatedPeerCredentialToken { data_holder: holder("peer") },
        )
    }

    fn get_shared_secret(&self, handshake_handle: u32) -> SecurityResult<SharedSecretHandle> {
        self.0.reply(format!("get_shared_secret {}", handshake_handle), secret(9))
    }
}

impl AccessControl<Auth> for Access {
    fn validate_local_permissions(
        &mut self,
        auth_plugin: &Auth,
        identity_handle: u32,
        domain_id: u16,
        participant_qos: &QosPolicies,
    ) -> SecurityResult<u32> {
        assert!(Rc::ptr_eq(&auth_plugin.0.log, &self.0.log));
        self.0.reply(
            format!(
                "validate_local_permissions {} {} {}",
                identity_handle,
                domain_id,
                participant_qos.property.is_some()
            ),
            self.0.handle.get(),
        )
    }

    fn validate_remote_permissions(
        &mut self,
        auth_plugin: &Auth,
        local_identity_handle: u32,
        remote_identity_handle: u32,
        remote_permissions_token: &PermissionsToken,
        remote_credential_token: &AuthenticatedPeerCredentialToken,
    ) -> SecurityResult<u32> {
        assert!(Rc::ptr_eq(&auth_plugin.0.log, &self.0.log));
        self.0.reply(
            format!(
                "validate_remote_permissions {} {} {} {}",
                local_identity_handle,
                remote_identity_handle,
                remote_permissions_token.data_holder.class_id,
                remote_credential_token.data_holder.class_id
            ),
            self.0.handle.get(),
        )
    }

    fn check_create_participant(
        &self,
        permissions_handle: u32,
        domain_id: u16,
        qos: &QosPolicies,
    ) -> SecurityResult<()> {
        self.0.reply(
            format!(
                "check_create_participant {} {} {}",
                permissions_handle,
                domain_id,
                qos.property.is_some()
            ),
            (),
        )
    }

    fn check_remote_participant(
        &self,
        permissions_handle: u32,
        domain_id: u16,
        participant_data: Option<&ParticipantBuiltinTopicDataSecure>,
    ) -> SecurityResult<()> {
        self.0.reply(
            format!(
                "check_remote_participant {} {} {}",
                permissions_handle,
                domain_id,
                participant_data.is_some()
            ),
            (),
        )
    }

    fn get_permissions_token(&self, handle: u32) -> SecurityResult<PermissionsToken> {
        self.0.reply(
            format!("get_permissions_token {}", handle),
            PermissionsToken { data_holder: holder("permissions") },
        )
    }

    fn get_permissions_credential_token(
        &self,
        handle: u32,
    ) -> SecurityResult<PermissionsCredentialToken> {
        self.0.reply(
            format!("get_permissions_credential_token {}", handle),
            PermissionsCredentialToken { data_holder: holder("credential") },
        )
    }

    fn get_participant_sec_attributes(
        &self,
        permissions_handle: u32,
    ) -> SecurityResult<ParticipantSecurityAttributes> {
        self.0.reply(
            format!("get_participant_sec_attributes {}", permissions_handle),
            participant_attributes(true),
        )
    }

    fn get_datareader_sec_attributes(
        &self,
        permissions_handle: u32,
        topic_name: String,
    ) -> SecurityResult<EndpointSecurityAttributes> {
        self.0.reply(
            format!("get_datareader_sec_attributes {} {}", permissions_handle, topic_name),
            endpoint_attributes(true, false),
        )
    }

    fn get_datawriter_sec_attributes(
        &self,
        permissions_handle: u32,
        topic_name: String,
    ) -> SecurityResult<EndpointSecurityAttributes> {
        self.0.reply(
            format!("get_datawriter_sec_attributes {} {}", permissions_handle, topic_name),
            endpoint_attributes(false, true),
        )
    }
}

fn names(properties: &[Property]) -> Vec<String> {
    properties.iter().map(|property| property.name.clone()).collect()
}

impl CryptoKeyFactory for Crypto {
    fn register_local_participant(
        &mut self,
        participant_identity: u32,
        participant_permissions: u32,
        participant_properties: &[Property],
        participant_security_attributes: ParticipantSecurityAttributes,
    ) -> SecurityResult<u32> {
        self.0.reply(
            format!(
                "register_local_participant {} {} {:?} {}",
                participant_identity,
                participant_permissions,
                names(participant_properties),
                participant_security_attributes.is_rtps_protected
            ),
            self.0.handle.get(),
        )
    }

    fn register_matched_remote_participant(
        &mut self,
        local_participant_crypto_handle: u32,
        remote_participant_identity: u32,
        remote_participant_permissions: u32,
        shared_secret: SharedSecretHandle,
    ) -> SecurityResult<u32> {
        self.0.reply(
            format!(
                "register_matched_remote_participant {} {} {} {:?}",
                local_participant_crypto_handle,
                remote_participant_identity,
                remote_participant_permissions,
                shared_secret.shared_secret
            ),
            self.0.handle.get(),
        )
    }

    fn register_local_datawriter(
        &mut self,
        participant_crypto: u32,
        datawriter_properties: &[Property],
        datawriter_security_attributes: EndpointSecurityAttributes,
    ) -> SecurityResult<u32> {
        self.0.reply(
            format!(
                "register_local_datawriter {} {:?} {} {}",
                participant_crypto,
                names(datawriter_properties),
                datawriter_security_attributes.is_submessage_protected,
                datawriter_security_attributes.is_payload_protected
            ),
            self.0.handle.get(),
        )
    }

    fn register_matched_remote_datareader(
        &mut self,
        local_datawriter_crypto_handle: u32,
        remote_participant_crypto: u32,
        shared_secret: SharedSecretHandle,
        relay_only: bool,
    ) -> SecurityResult<u32> {
        self.0.reply(
            format!(
                "register_matched_remote_datareader {} {} {:?} {}",
                local_datawriter_crypto_handle,
                remote_participant_crypto,
                shared_secret.shared_secret,
                relay_only
            ),
            self.0.handle.get(),
        )
    }

    fn register_local_datareader(
        &mut self,
        participant_crypto: u32,
        datareader_properties: &[Property],
        datareader_security_attributes: EndpointSecurityAttributes,
    ) -> SecurityResult<u32> {
        self.0.reply(
            format!(
                "register_local_datareader {} {:?} {} {}",
                participant_crypto,
                names(datareader_properties),
                datareader_security_attributes.is_submessage_protected,
                datareader_security_attributes.is_payload_protected
            ),
            self.0.handle.get(),
        )
    }

    fn register_matched_remote_datawriter(
        &mut self,
        local_datareader_crypto_handle: u32,
        remote_participant_crypto: u32,
        shared_secret: SharedSecretHandle,
    ) -> SecurityResult<u32> {
        self.0.reply(
            format!(
                "register_matched_remote_datawriter {} {} {:?}",
                local_datareader_crypto_handle,
                remote_participant_crypto,
                shared_secret.shared_secret
            ),
            self.0.handle.get(),
        )
    }

    fn unregister_datawriter(&mut self, datawriter_crypto_handle: u32) -> SecurityResult<()> {
        self.0.reply(format!("unregister_datawriter {}", datawriter_crypto_handle), ())
    }

    fn unregister_datareader(&mut self, datareader_crypto_handle: u32) -> SecurityResult<()> {
        self.0.reply(format!("unregister_datareader {}", datareader_crypto_handle), ())
    }
}

impl CryptoKeyExchange for Crypto {
    fn create_local_participant_crypto_tokens(
        &mut self,
        local_participant_crypto: u32,
        remote_participant_crypto: u32,
    ) -> SecurityResult<Vec<CryptoToken>> {
        self.0.reply(
            format!(
                "create_local_participant_crypto_tokens {} {}",
                local_participant_crypto, remote_participant_crypto
            ),
            vec![crypto_token("participant")],
        )
    }

    fn set_remote_participant_crypto_tokens(
        &mut self,
        local_participant_crypto: u32,
        remote_participant_crypto: u32,
        remote_participant_tokens: Vec<CryptoToken>,
    ) -> SecurityResult<()> {
        self.0.reply(
            format!(
                "set_remote_participant_crypto_tokens {} {} {}",
                local_participant_crypto,
                remote_participant_crypto,
                remote_participant_tokens.len()
            ),
            (),
        )
    }

    fn create_local_datawriter_crypto_tokens(
        &mut self,
        local_datawriter_crypto: u32,
        remote_datareader_crypto: u32,
    ) -> SecurityResult<Vec<CryptoToken>> {
        self.0.reply(
            format!(
                "create_local_datawriter_crypto_tokens {} {}",
                local_datawriter_crypto, remote_datareader_crypto
            ),
            vec![crypto_token("writer")],
        )
    }

    fn set_remote_datawriter_crypto_tokens(
        &mut self,
        local_datareader_crypto: u32,
        remote_datawriter_crypto: u32,
        remote_datawriter_tokens: Vec<CryptoToken>,
    ) -> SecurityResult<()> {
        self.0.reply(
            format!(
                "set_remote_datawriter_crypto_tokens {} {} {}",
                local_datareader_crypto,
                remote_datawriter_crypto,
                remote_datawriter_tokens.len()
            ),
            (),
        )
    }

    fn create_local_datareader_crypto_tokens(
        &mut self,
        local_datareader_crypto: u32,
        remote_datawriter_crypto: u32,
    ) -> SecurityResult<Vec<CryptoToken>> {
        self.0.reply(
            format!(
                "create_local_datareader_crypto_tokens {} {}",
                local_datareader_crypto, remote_datawriter_crypto
            ),
            vec![crypto_token("reader")],
        )
    }

    fn set_remote_datareader_crypto_tokens(
        &mut self,
        local_datawriter_crypto: u32,
        remote_datareader_crypto: u32,
        remote_datareader_tokens: Vec<CryptoToken>,
    ) -> SecurityResult<()> {
        self.0.reply(
            format!(
                "set_remote_datareader_crypto_tokens {} {} {}",
                local_datawriter_crypto,
                remote_datareader_crypto,
                remote_datareader_tokens.len()
            ),
            (),
        )
    }
}

impl CryptoTransform for Crypto {
    fn encode_serialized_payload(
        &self,
        plain_buffer: Vec<u8>,
        sending_datawriter_crypto: u32,
    ) -> SecurityResult<(Vec<u8>, ParameterList)> {
        let encoded = plain_buffer.iter().map(|octet| octet ^ 0x55).collect();
        let inline_qos =
            ParameterList { parameters: vec![Parameter { parameter_id: 7, value: vec![1] }] };
        self.0.reply(
            format!("encode_serialized_payload {:?} {}", plain_buffer, sending_datawriter_crypto),
            (encoded, inline_qos),
        )
    }

    fn encode_datawriter_submessage(
        &self,
        plain_submessage: Submessage,
        sending_datawriter_crypto: u32,
        receiving_datareader_crypto_list: Vec<u32>,
    ) -> SecurityResult<EncodedSubmessage> {
        self.0.reply(
            format!(
                "encode_datawriter_submessage {:?} {} {:?}",
                plain_submessage.body, sending_datawriter_crypto, receiving_datareader_crypto_list
            ),
            EncodedSubmessage::Encoded(secure_prefix(), plain_submessage, secure_postfix()),
        )
    }

    fn encode_datareader_submessage(
        &self,
        plain_submessage: Submessage,
        sending_datareader_crypto: u32,
        receiving_datawriter_crypto_list: Vec<u32>,
    ) -> SecurityResult<EncodedSubmessage> {
        self.0.reply(
            format!(
                "encode_datareader_submessage {:?} {} {:?}",
                plain_submessage.body, sending_datareader_crypto, receiving_datawriter_crypto_list
            ),
            EncodedSubmessage::Encoded(secure_prefix(), plain_submessage, secure_postfix()),
        )
    }

    fn encode_rtps_message(
        &self,
        plain_message: Message,
        sending_participant_crypto: u32,
        receiving_participant_crypto_list: Vec<u32>,
    ) -> SecurityResult<Message> {
        let mut encoded = plain_message.clone();
        encoded.submessages.push(submessage(&[0xee]));
        self.0.reply(
            format!(
                "encode_rtps_message {} {} {:?}",
                plain_message.submessages.len(),
                sending_participant_crypto,
                receiving_participant_crypto_list
            ),
            encoded,
        )
    }

    fn decode_rtps_message(
        &self,
        encoded_message: Message,
        receiving_participant_crypto: u32,
        sending_participant_crypto: u32,
    ) -> SecurityResult<Message> {
        let mut decoded = encoded_message.clone();
        decoded.submessages.pop();
        self.0.reply(
            format!(
                "decode_rtps_message {} {} {}",
                encoded_message.submessages.len(),
                receiving_participant_crypto,
                sending_participant_crypto
            ),
            decoded,
        )
    }

    fn preprocess_secure_submessage(
        &self,
        secure_prefix: &SecurePrefix,
        receiving_participant_crypto: u32,
        sending_participant_crypto: u32,
    ) -> SecurityResult<SecureSubmessageCategory> {
        self.0.reply(
            format!(
                "preprocess_secure_submessage {:?} {} {}",
                secure_prefix.crypto_header, receiving_participant_crypto, sending_participant_crypto
            ),
            SecureSubmessageCategory::DatawriterSubmessage(1, 2),
        )
    }

    fn decode_datawriter_submessage(
        &self,
        encoded_rtps_submessage: (SecurePrefix, Submessage, SecurePostfix),
        receiving_datareader_crypto: u32,
        sending_datawriter_crypto: u32,
    ) -> SecurityResult<WriterSubmessage> {
        self.0.reply(
            format!(
                "decode_datawriter_submessage {} {}",
                receiving_datareader_crypto, sending_datawriter_crypto
            ),
            WriterSubmessage::Gap(encoded_rtps_submessage.1),
        )
    }

    fn decode_datareader_submessage(
        &self,
        encoded_rtps_submessage: (SecurePrefix, Submessage, SecurePostfix),
        receiving_datawriter_crypto: u32,
        sending_datareader_crypto: u32,
    ) -> SecurityResult<ReaderSubmessage> {
        self.0.reply(
            format!(
                "decode_datareader_submessage {} {}",
                receiving_datawriter_crypto, sending_datareader_crypto
            ),
            ReaderSubmessage::AckNack(encoded_rtps_submessage.1),
        )
    }

    fn decode_serialized_payload(
        &self,
        encoded_buffer: Vec<u8>,
        inline_qos: ParameterList,
        receiving_datareader_crypto: u32,
        sending_datawriter_crypto: u32,
    ) -> SecurityResult<Vec<u8>> {
        let decoded = encoded_buffer.iter().map(|octet| octet ^ 0x55).collect();
        self.0.reply(
            format!(
                "decode_serialized_payload {:?} {} {} {}",
                encoded_buffer,
                inline_qos.parameters.len(),
                receiving_datareader_crypto,
                sending_datawriter_crypto
            ),
            decoded,
        )
    }
}

fn prefix(n: u8) -> GuidPrefix {
    GuidPrefix { bytes: [n; 12] }
}

fn guid(n: u8, entity: u8) -> GUID {
    GUID {
        prefix: prefix(n),
        entity_id: EntityId { entity_key: [0, 0, entity], entity_kind: 2 },
    }
}

fn secret(octet: u8) -> SharedSecretHandle {
    SharedSecretHandle { shared_secret: vec![octet], challenge1: vec![], challenge2: vec![] }
}

fn qos(with_property: bool) -> QosPolicies {
    QosPolicies {
        property: if with_property { Some(property_policy(&[])) } else { None },
        parameters: ParameterList::new(),
    }
}

fn property_policy(property_names: &[&str]) -> policy::Property {
    policy::Property {
        value: property_names
            .iter()
            .map(|name| Property {
                name: name.to_string(),
                value: String::new(),
                propagate: false,
            })
            .collect(),
        binary_value: vec![],
    }
}

fn participant_attributes(is_rtps_protected: bool) -> ParticipantSecurityAttributes {
    ParticipantSecurityAttributes {
        allow_unauthenticated_participants: false,
        is_access_protected: true,
        is_rtps_protected,
        is_discovery_protected: true,
        is_liveliness_protected: true,
        plugin_participant_attributes: 0,
        ac_participant_properties: vec![],
    }
}

fn endpoint_attributes(
    is_submessage_protected: bool,
    is_payload_protected: bool,
) -> EndpointSecurityAttributes {
    EndpointSecurityAttributes {
        topic_security_attributes: TopicSecurityAttributes {
            is_read_protected: true,
            is_write_protected: true,
            is_discovery_protected: true,
            is_liveliness_protected: true,
        },
        is_submessage_protected,
        is_payload_protected,
        is_key_protected: false,
        plugin_endpoint_attributes: 0,
        ac_endpoint_properties: vec![],
    }
}

fn submessage(body: &[u8]) -> Submessage {
    Submessage {
        header: SubmessageHeader { kind: 0x15, flags: 1, content_length: body.len() as u16 },
        body: body.to_vec(),
    }
}

fn message(bodies: &[u8]) -> Message {
    Message {
        header: Header {
            protocol_id: [b'R', b'T', b'P', b'S'],
            protocol_version: [2, 4],
            vendor_id: [1, 18],
            guid_prefix: prefix(1),
        },
        submessages: bodies.iter().map(|body| submessage(&[*body])).collect(),
    }
}

fn secure_prefix() -> SecurePrefix {
    SecurePrefix { crypto_header: vec![3] }
}

fn secure_postfix() -> SecurePostfix {
    SecurePostfix { crypto_footer: vec![4] }
}

struct World {
    plugins: SecurityPlugins<Auth, Access, Crypto>,
    shared: Shared,
}

fn world() -> World {
    let shared = Shared {
        log: Rc::new(RefCell::new(vec![])),
        handle: Rc::new(Cell::new(0)),
        outcome: Rc::new(Cell::new(ValidationOutcome::Valid)),
        failing: Rc::new(Cell::new(false)),
    };
    World {
        plugins: SecurityPlugins::new(
            Box::new(Auth(shared.clone())),
            Box::new(Access(shared.clone())),
            Box::new(Crypto(shared.clone())),
        ),
        shared,
    }
}

impl World {
    /// The calls made since the last time.
    fn calls(&self) -> Vec<String> {
        self.shared.log.borrow_mut().drain(..).collect()
    }

    fn give(&self, handle: u32) {
        self.shared.handle.set(handle);
    }

    fn fail(&self, failing: bool) {
        self.shared.failing.set(failing);
    }

    /// Participant 1 is local, with identity 10, permissions 20 and crypto 30;
    /// participant 2 is remote, with identity 11, handshake 41, permissions 21 and
    /// crypto 31.
    fn with_participants(mut self, is_rtps_protected: bool) -> Self {
        self.give(10);
        assert_eq!(
            self.plugins.validate_local_identity(0, &qos(false), guid(0, 0)),
            Ok(guid_of_participant(1))
        );
        self.give(11);
        assert!(self
            .plugins
            .validate_remote_identity(
                prefix(1),
                IdentityToken { data_holder: holder("remote") },
                prefix(2),
                None
            )
            .is_ok());
        self.give(41);
        assert!(self.plugins.begin_handshake_request(prefix(1), prefix(2), vec![]).is_ok());
        self.give(20);
        assert_eq!(self.plugins.validate_local_permissions(0, prefix(1), &qos(false)), Ok(()));
        self.give(21);
        assert_eq!(
            self.plugins.validate_remote_permissions(
                prefix(1),
                prefix(2),
                &PermissionsToken { data_holder: holder("p") },
                &AuthenticatedPeerCredentialToken { data_holder: holder("c") },
            ),
            Ok(())
        );
        self.give(30);
        assert_eq!(
            self.plugins.register_local_participant(
                prefix(1),
                None,
                participant_attributes(is_rtps_protected)
            ),
            Ok(())
        );
        self.give(31);
        assert_eq!(
            self.plugins.register_matched_remote_participant(prefix(1), prefix(2), secret(1)),
            Ok(())
        );
        self.calls();
        self
    }

    /// Makes another remote participant known, with one handle for everything.
    fn introduce(&mut self, remote: GuidPrefix, handle: u32) {
        self.give(handle);
        assert!(self
            .plugins
            .validate_remote_identity(
                prefix(1),
                IdentityToken { data_holder: holder("other") },
                remote,
                None
            )
            .is_ok());
        assert_eq!(
            self.plugins.validate_remote_permissions(
                prefix(1),
                remote,
                &PermissionsToken { data_holder: holder("p") },
                &AuthenticatedPeerCredentialToken { data_holder: holder("c") },
            ),
            Ok(())
        );
        assert_eq!(
            self.plugins.register_matched_remote_participant(prefix(1), remote, secret(1)),
            Ok(())
        );
    }

    fn with_writer(mut self, entity: u8, handle: u32, submessages: bool, payloads: bool) -> Self {
        self.give(handle);
        assert_eq!(
            self.plugins.register_local_writer(
                guid(1, entity),
                None,
                endpoint_attributes(submessages, payloads)
            ),
            Ok(())
        );
        self.calls();
        self
    }

    fn with_reader(mut self, entity: u8, handle: u32, submessages: bool, payloads: bool) -> Self {
        self.give(handle);
        assert_eq!(
            self.plugins.register_local_reader(
                guid(1, entity),
                None,
                endpoint_attributes(submessages, payloads)
            ),
            Ok(())
        );
        self.calls();
        self
    }

    fn with_remote_reader(mut self, remote: u8, local: u8, handle: u32) -> Self {
        self.give(handle);
        assert_eq!(
            self.plugins.register_matched_remote_reader(guid(2, remote), guid(1, local), false),
            Ok(())
        );
        self.calls();
        self
    }

    fn with_remote_writer(mut self, remote: u8, local: u8, handle: u32) -> Self {
        self.give(handle);
        assert_eq!(
            self.plugins.register_matched_remote_writer(guid(2, remote), guid(1, local)),
            Ok(())
        );
        self.calls();
        self
    }
}

/// What the authentication plugin above settles for the candidate `guid(0, 0)`.
fn guid_of_participant(n: u8) -> GUID {
    GUID { prefix: prefix(n), ..guid(0, 0) }
}

fn out_of_order<T>() -> SecurityResult<T> {
    Err(SecurityError::Plugin("out of order".to_string()))
}

#[test]
fn nothing_is_known_at_first() {
    let mut w = world();
    let no_identity = SecurityError::IdentityHandleNotFound(prefix(1));
    let no_permissions = SecurityError::PermissionsHandleNotFound(prefix(1));
    let no_handshake = SecurityError::HandshakeHandleNotFound(prefix(1));
    let no_crypto = SecurityError::ParticipantCryptoHandleNotFound(prefix(1));
    let no_endpoint = SecurityError::LocalEndpointCryptoHandleNotFound(guid(1, 1));
    assert_eq!(w.plugins.get_identity_token(prefix(1)), Err(no_identity.clone()));
    assert_eq!(w.plugins.get_identity_status_token(prefix(1)), Err(no_identity.clone()));
    assert_eq!(
        w.plugins.begin_handshake_request(prefix(1), prefix(2), vec![]),
        Err(no_identity.clone())
    );
    assert_eq!(
        w.plugins.validate_local_permissions(0, prefix(1), &qos(false)),
        Err(no_identity.clone())
    );
    assert_eq!(
        w.plugins.register_local_participant(prefix(1), None, participant_attributes(false)),
        Err(no_identity)
    );
    assert_eq!(
        w.plugins.check_create_participant(0, prefix(1), &qos(false)),
        Err(no_permissions.clone())
    );
    assert_eq!(w.plugins.check_remote_participant(0, prefix(1)), Err(no_permissions.clone()));
    assert_eq!(w.plugins.get_permissions_token(prefix(1)), Err(no_permissions.clone()));
    assert_eq!(w.plugins.get_permissions_credential_token(prefix(1)), Err(no_permissions.clone()));
    assert_eq!(w.plugins.get_participant_sec_attributes(prefix(1)), Err(no_permissions.clone()));
    assert_eq!(
        w.plugins.get_reader_sec_attributes(guid(1, 1), "t".to_string()),
        Err(no_permissions.clone())
    );
    assert_eq!(
        w.plugins.get_writer_sec_attributes(guid(1, 1), "t".to_string()),
        Err(no_permissions)
    );
    assert_eq!(w.plugins.get_shared_secret(prefix(1)), Err(no_handshake.clone()));
    assert_eq!(
        w.plugins.get_authenticated_peer_credential_token(prefix(1)),
        Err(no_handshake.clone())
    );
    assert_eq!(
        w.plugins.process_handshake(
            prefix(1),
            HandshakeMessageToken { data_holder: holder("m") }
        ),
        Err(no_handshake.clone())
    );
    assert_eq!(
        w.plugins.register_matched_remote_reader(guid(1, 1), guid(1, 1), true),
        Err(no_handshake.clone())
    );
    assert_eq!(
        w.plugins.register_matched_remote_writer(guid(1, 1), guid(1, 1)),
        Err(no_handshake)
    );
    assert_eq!(
        w.plugins.register_local_reader(guid(1, 1), None, endpoint_attributes(false, false)),
        Err(no_crypto.clone())
    );
    assert_eq!(
        w.plugins.register_local_writer(guid(1, 1), None, endpoint_attributes(false, false)),
        Err(no_crypto.clone())
    );
    assert_eq!(
        w.plugins.create_local_participant_crypto_tokens(prefix(1), prefix(2)),
        Err(no_crypto.clone())
    );
    assert_eq!(
        w.plugins.set_remote_participant_crypto_tokens(prefix(1), prefix(2), vec![]),
        Err(no_crypto.clone())
    );
    assert_eq!(
        w.plugins.decode_rtps_message(message(&[]), &prefix(2), &prefix(1)),
        Err(no_crypto.clone())
    );
    assert_eq!(
        w.plugins.preprocess_secure_submessage(&secure_prefix(), &prefix(2), &prefix(1)),
        Err(no_crypto.clone())
    );
    assert_eq!(w.plugins.encode_message(message(&[]), &prefix(1), &[]), Err(no_crypto));
    assert_eq!(w.plugins.unregister_local_reader(&guid(1, 1)), Err(no_endpoint.clone()));
    assert_eq!(w.plugins.unregister_local_writer(&guid(1, 1)), Err(no_endpoint.clone()));
    assert_eq!(
        w.plugins.encode_serialized_payload(vec![1], &guid(1, 1)),
        Err(no_endpoint.clone())
    );
    assert_eq!(
        w.plugins.encode_datawriter_submessage(submessage(&[1]), &guid(1, 1), &[]),
        Err(no_endpoint.clone())
    );
    assert_eq!(
        w.plugins.encode_datareader_submessage(submessage(&[1]), &guid(1, 1), &[]),
        Err(no_endpoint)
    );
    assert!(!w.plugins.confirm_local_endpoint_guid(0, &guid(1, 1)));
    assert!(!w.plugins.rtps_not_protected(&prefix(1)));
    assert!(!w.plugins.submessage_not_protected(&guid(1, 1)));
    assert!(!w.plugins.payload_not_protected(&guid(1, 1)));
    assert_eq!(w.calls(), Vec::<String>::new());
}

#[test]
fn local_identity_is_stored_under_the_settled_guid() {
    let mut w = world();
    w.give(10);
    assert_eq!(
        w.plugins.validate_local_identity(5, &qos(true), guid(3, 9)),
        Ok(GUID { prefix: prefix(4), ..guid(3, 9) })
    );
    assert!(w.plugins.get_identity_token(prefix(3)).is_err());
    assert_eq!(
        w.plugins.get_identity_token(prefix(4)),
        Ok(IdentityToken { data_holder: holder("identity") })
    );
    assert_eq!(
        w.plugins.get_identity_status_token(prefix(4)),
        Ok(IdentityStatusToken { data_holder: holder("status") })
    );
    assert_eq!(
        w.calls(),
        vec![
            "validate_local_identity 5 true",
            "get_identity_token 10",
            "get_identity_status_token 10"
        ]
    );
}

#[test]
fn unexpected_local_identity_outcome_is_an_error() {
    for outcome in [
        ValidationOutcome::PendingRetry,
        ValidationOutcome::PendingHandshakeRequest,
        ValidationOutcome::PendingHandshakeMessage,
        ValidationOutcome::OkFinalMessage,
    ] {
        let mut w = world();
        w.shared.outcome.set(outcome);
        assert_eq!(
            w.plugins.validate_local_identity(0, &qos(false), guid(0, 0)),
            Err(SecurityError::UnexpectedLocalIdentityOutcome)
        );
        assert!(w.plugins.get_identity_token(prefix(1)).is_err());
    }
}

#[test]
fn failed_local_identity_is_passed_on() {
    let mut w = world();
    w.fail(true);
    assert_eq!(w.plugins.validate_local_identity(0, &qos(false), guid(0, 0)), out_of_order());
    w.fail(false);
    assert!(w.plugins.get_identity_token(prefix(1)).is_err());
}

#[test]
fn permissions_are_attached_to_the_identity() {
    let mut w = world().with_participants(true);
    assert_eq!(
        w.plugins.set_permissions_credential_and_token(
            prefix(1),
            PermissionsCredentialToken { data_holder: holder("cred") },
            PermissionsToken { data_holder: holder("perm") },
        ),
        Ok(())
    );
    assert_eq!(w.calls(), vec!["set_permissions_credential_and_token 10 cred perm"]);
    assert_eq!(
        w.plugins.set_permissions_credential_and_token(
            prefix(3),
            PermissionsCredentialToken { data_holder: holder("cred") },
            PermissionsToken { data_holder: holder("perm") },
        ),
        Err(SecurityError::IdentityHandleNotFound(prefix(3)))
    );
}

#[test]
fn remote_identity_is_stored_whatever_the_outcome() {
    let mut w = world();
    w.give(10);
    assert!(w.plugins.validate_local_identity(0, &qos(false), guid(0, 0)).is_ok());
    w.calls();
    w.give(15);
    w.shared.outcome.set(ValidationOutcome::PendingHandshakeMessage);
    let request = AuthRequestMessageToken { data_holder: holder("auth request") };
    assert_eq!(
        w.plugins.validate_remote_identity(
            prefix(1),
            IdentityToken { data_holder: holder("remote") },
            prefix(5),
            Some(request.clone()),
        ),
        Ok((ValidationOutcome::PendingHandshakeMessage, Some(request)))
    );
    assert!(w.plugins.get_identity_token(prefix(5)).is_ok());
    assert_eq!(
        w.calls(),
        vec!["validate_remote_identity true 10 remote 5", "get_identity_token 15"]
    );
    assert_eq!(
        w.plugins.validate_remote_identity(
            prefix(8),
            IdentityToken { data_holder: holder("remote") },
            prefix(5),
            None,
        ),
        Err(SecurityError::IdentityHandleNotFound(prefix(8)))
    );
    w.fail(true);
    assert_eq!(
        w.plugins.validate_remote_identity(
            prefix(1),
            IdentityToken { data_holder: holder("remote") },
            prefix(6),
            None,
        ),
        out_of_order()
    );
    w.fail(false);
    assert!(w.plugins.get_identity_token(prefix(6)).is_err());
}

#[test]
fn handshake_request_names_the_local_participant_as_initiator() {
    let mut w = world().with_participants(true);
    w.give(42);
    w.shared.outcome.set(ValidationOutcome::PendingHandshakeMessage);
    assert_eq!(
        w.plugins.begin_handshake_request(prefix(1), prefix(2), vec![1, 2]),
        Ok((
            ValidationOutcome::PendingHandshakeMessage,
            HandshakeMessageToken { data_holder: holder("request") }
        ))
    );
    assert_eq!(w.plugins.get_shared_secret(prefix(2)), Ok(secret(9)));
    assert_eq!(
        w.calls(),
        vec!["begin_handshake_request 10 11 [1, 2]", "get_shared_secret 42"]
    );
    assert_eq!(
        w.plugins.begin_handshake_request(prefix(1), prefix(7), vec![]),
        Err(SecurityError::IdentityHandleNotFound(prefix(7)))
    );
}

#[test]
fn handshake_reply_names_the_remote_participant_as_initiator() {
    let mut w = world().with_participants(true);
    w.give(43);
    assert_eq!(
        w.plugins.begin_handshake_reply(
            prefix(1),
            prefix(2),
            HandshakeMessageToken { data_holder: holder("in") },
            vec![3],
        ),
        Ok((ValidationOutcome::Valid, HandshakeMessageToken { data_holder: holder("reply") }))
    );
    assert_eq!(
        w.plugins.get_authenticated_peer_credential_token(prefix(2)),
        Ok(AuthenticatedPeerCredentialToken { data_holder: holder("peer") })
    );
    assert_eq!(
        w.calls(),
        vec!["begin_handshake_reply in 11 10 [3]", "get_authenticated_peer_credential_token 43"]
    );
    // The remote participant is looked up first.
    assert_eq!(
        w.plugins.begin_handshake_reply(
            prefix(7),
            prefix(8),
            HandshakeMessageToken { data_holder: holder("in") },
            vec![],
        ),
        Err(SecurityError::IdentityHandleNotFound(prefix(8)))
    );
}

#[test]
fn failed_handshake_keeps_the_earlier_one() {
    let mut w = world().with_participants(true);
    w.give(99);
    w.fail(true);
    assert_eq!(w.plugins.begin_handshake_request(prefix(1), prefix(2), vec![]), out_of_order());
    w.fail(false);
    w.calls();
    assert_eq!(
        w.plugins.process_handshake(
            prefix(2),
            HandshakeMessageToken { data_holder: holder("next") }
        ),
        Ok((
            ValidationOutcome::Valid,
            Some(HandshakeMessageToken { data_holder: holder("final") })
        ))
    );
    assert_eq!(w.calls(), vec!["process_handshake next 41"]);
}

#[test]
fn permissions_are_stored_and_used() {
    let mut w = world();
    w.give(10);
    assert!(w.plugins.validate_local_identity(0, &qos(false), guid(0, 0)).is_ok());
    w.calls();
    w.give(20);
    assert_eq!(w.plugins.validate_local_permissions(6, prefix(1), &qos(true)), Ok(()));
    assert_eq!(w.plugins.check_create_participant(6, prefix(1), &qos(true)), Ok(()));
    assert_eq!(w.plugins.check_remote_participant(6, prefix(1)), Ok(()));
    assert_eq!(
        w.plugins.get_permissions_token(prefix(1)),
        Ok(PermissionsToken { data_holder: holder("permissions") })
    );
    assert_eq!(
        w.plugins.get_permissions_credential_token(prefix(1)),
        Ok(PermissionsCredentialToken { data_holder: holder("credential") })
    );
    assert_eq!(
        w.plugins.get_participant_sec_attributes(prefix(1)),
        Ok(participant_attributes(true))
    );
    assert_eq!(
        w.plugins.get_reader_sec_attributes(guid(1, 4), "Square".to_string()),
        Ok(endpoint_attributes(true, false))
    );
    assert_eq!(
        w.plugins.get_writer_sec_attributes(guid(1, 4), "Circle".to_string()),
        Ok(endpoint_attributes(false, true))
    );
    assert_eq!(
        w.calls(),
        vec![
            "validate_local_permissions 10 6 true",
            "check_create_participant 20 6 true",
            "check_remote_participant 20 6 false",
            "get_permissions_token 20",
            "get_permissions_credential_token 20",
            "get_participant_sec_attributes 20",
            "get_datareader_sec_attributes 20 Square",
            "get_datawriter_sec_attributes 20 Circle"
        ]
    );
}

#[test]
fn remote_permissions_are_stored_for_the_remote_participant() {
    let mut w = world().with_participants(true);
    w.give(28);
    let permissions = PermissionsToken { data_holder: holder("p") };
    let credential = AuthenticatedPeerCredentialToken { data_holder: holder("c") };
    assert_eq!(
        w.plugins.validate_remote_permissions(prefix(1), prefix(2), &permissions, &credential),
        Ok(())
    );
    assert!(w.plugins.get_permissions_token(prefix(2)).is_ok());
    assert!(w.plugins.get_permissions_token(prefix(1)).is_ok());
    assert_eq!(
        w.calls(),
        vec![
            "validate_remote_permissions 10 11 p c",
            "get_permissions_token 28",
            "get_permissions_token 20"
        ]
    );
    assert_eq!(
        w.plugins.validate_remote_permissions(prefix(6), prefix(7), &permissions, &credential),
        Err(SecurityError::IdentityHandleNotFound(prefix(6)))
    );
    assert_eq!(
        w.plugins.validate_remote_permissions(prefix(1), prefix(7), &permissions, &credential),
        Err(SecurityError::IdentityHandleNotFound(prefix(7)))
    );
    w.fail(true);
    assert_eq!(
        w.plugins.validate_remote_permissions(prefix(1), prefix(2), &permissions, &credential),
        out_of_order()
    );
}

#[test]
fn local_participant_is_registered_with_its_properties() {
    let mut w = world();
    w.give(10);
    assert!(w.plugins.validate_local_identity(0, &qos(false), guid(0, 0)).is_ok());
    assert_eq!(
        w.plugins.register_local_participant(prefix(1), None, participant_attributes(false)),
        Err(SecurityError::PermissionsHandleNotFound(prefix(1)))
    );
    assert!(!w.plugins.rtps_not_protected(&prefix(1)));
    w.give(20);
    assert!(w.plugins.validate_local_permissions(0, prefix(1), &qos(false)).is_ok());
    w.calls();
    w.give(30);
    assert_eq!(
        w.plugins.register_local_participant(
            prefix(1),
            Some(property_policy(&["a", "b"])),
            participant_attributes(true)
        ),
        Ok(())
    );
    assert!(!w.plugins.rtps_not_protected(&prefix(1)));
    assert_eq!(w.calls(), vec!["register_local_participant 10 20 [\"a\", \"b\"] true"]);
}

#[test]
fn marks_are_made_even_if_the_plugin_fails() {
    let mut w = world().with_participants(true);
    w.fail(true);
    assert_eq!(
        w.plugins.register_local_participant(prefix(1), None, participant_attributes(false)),
        out_of_order()
    );
    assert_eq!(
        w.plugins.register_local_reader(guid(1, 1), None, endpoint_attributes(false, true)),
        out_of_order()
    );
    assert_eq!(
        w.plugins.register_local_writer(guid(1, 2), None, endpoint_attributes(true, false)),
        out_of_order()
    );
    assert!(w.plugins.rtps_not_protected(&prefix(1)));
    assert!(w.plugins.submessage_not_protected(&guid(1, 1)));
    assert!(!w.plugins.payload_not_protected(&guid(1, 1)));
    assert!(!w.plugins.submessage_not_protected(&guid(1, 2)));
    assert!(w.plugins.payload_not_protected(&guid(1, 2)));
    assert!(!w.plugins.confirm_local_endpoint_guid(0, &guid(1, 1)));
}

#[test]
fn marks_stay_when_registered_again_as_protected() {
    let mut w = world().with_participants(false).with_reader(1, 50, false, false);
    assert!(w.plugins.rtps_not_protected(&prefix(1)));
    w.give(51);
    assert_eq!(
        w.plugins.register_local_participant(prefix(1), None, participant_attributes(true)),
        Ok(())
    );
    assert_eq!(
        w.plugins.register_local_reader(guid(1, 1), None, endpoint_attributes(true, true)),
        Ok(())
    );
    assert!(w.plugins.rtps_not_protected(&prefix(1)));
    assert!(w.plugins.submessage_not_protected(&guid(1, 1)));
    assert!(w.plugins.payload_not_protected(&guid(1, 1)));
    assert!(!w.plugins.submessage_not_protected(&guid(1, 2)));
    assert!(w.plugins.confirm_local_endpoint_guid(51, &guid(1, 1)));
}

#[test]
fn local_endpoints_are_registered_and_confirmed() {
    let mut w = world().with_participants(true);
    w.give(50);
    assert_eq!(
        w.plugins.register_local_reader(
            guid(1, 1),
            Some(property_policy(&["r"])),
            endpoint_attributes(true, true)
        ),
        Ok(())
    );
    w.give(60);
    assert_eq!(
        w.plugins.register_local_writer(
            guid(1, 2),
            Some(property_policy(&["w"])),
            endpoint_attributes(true, false)
        ),
        Ok(())
    );
    assert_eq!(
        w.calls(),
        vec![
            "register_local_datareader 30 [\"r\"] true true",
            "register_local_datawriter 30 [\"w\"] true false"
        ]
    );
    assert!(w.plugins.confirm_local_endpoint_guid(50, &guid(1, 1)));
    assert!(!w.plugins.confirm_local_endpoint_guid(60, &guid(1, 1)));
    assert!(w.plugins.confirm_local_endpoint_guid(60, &guid(1, 2)));
    assert!(!w.plugins.confirm_local_endpoint_guid(50, &guid(2, 1)));
}

#[test]
fn unregistered_endpoints_stay_known() {
    let mut w = world()
        .with_participants(true)
        .with_reader(1, 50, true, true)
        .with_writer(2, 60, true, true);
    assert_eq!(w.plugins.unregister_local_reader(&guid(1, 1)), Ok(()));
    assert_eq!(w.plugins.unregister_local_writer(&guid(1, 2)), Ok(()));
    assert_eq!(w.calls(), vec!["unregister_datareader 50", "unregister_datawriter 60"]);
    assert!(w.plugins.confirm_local_endpoint_guid(50, &guid(1, 1)));
    assert!(w.plugins.confirm_local_endpoint_guid(60, &guid(1, 2)));
    w.fail(true);
    assert_eq!(w.plugins.unregister_local_reader(&guid(1, 1)), out_of_order());
}

#[test]
fn remote_participant_is_registered_with_the_secret() {
    let mut w = world().with_participants(true);
    w.give(35);
    assert_eq!(
        w.plugins.register_matched_remote_participant(prefix(1), prefix(2), secret(6)),
        Ok(())
    );
    assert_eq!(w.calls(), vec!["register_matched_remote_participant 30 11 21 [6]"]);
    assert_eq!(
        w.plugins.create_local_participant_crypto_tokens(prefix(1), prefix(2)),
        Ok(vec![crypto_token("participant")])
    );
    assert_eq!(
        w.plugins.set_remote_participant_crypto_tokens(
            prefix(1),
            prefix(2),
            vec![crypto_token("x"), crypto_token("y")]
        ),
        Ok(())
    );
    assert_eq!(
        w.calls(),
        vec![
            "create_local_participant_crypto_tokens 30 35",
            "set_remote_participant_crypto_tokens 30 35 2"
        ]
    );
    assert_eq!(
        w.plugins.register_matched_remote_participant(prefix(5), prefix(6), secret(6)),
        Err(SecurityError::ParticipantCryptoHandleNotFound(prefix(5)))
    );
    assert_eq!(
        w.plugins.register_matched_remote_participant(prefix(1), prefix(6), secret(6)),
        Err(SecurityError::IdentityHandleNotFound(prefix(6)))
    );
}

#[test]
fn matched_remote_reader_exchanges_keys_with_the_writer() {
    let mut w = world().with_participants(true).with_writer(2, 60, true, true);
    w.give(70);
    assert_eq!(
        w.plugins.register_matched_remote_reader(guid(2, 7), guid(1, 2), true),
        Ok(())
    );
    assert_eq!(
        w.calls(),
        vec!["get_shared_secret 41", "register_matched_remote_datareader 60 31 [9] true"]
    );
    assert_eq!(
        w.plugins.create_local_writer_crypto_tokens(guid(1, 2), guid(2, 7)),
        Ok(vec![crypto_token("writer")])
    );
    assert_eq!(
        w.plugins.set_remote_reader_crypto_tokens(
            guid(2, 7),
            guid(1, 2),
            vec![crypto_token("z")]
        ),
        Ok(())
    );
    assert_eq!(
        w.calls(),
        vec![
            "create_local_datawriter_crypto_tokens 60 70",
            "set_remote_datareader_crypto_tokens 60 70 1"
        ]
    );
    assert_eq!(
        w.plugins.create_local_writer_crypto_tokens(guid(1, 2), guid(2, 8)),
        Err(SecurityError::RemoteEndpointCryptoHandleNotFound {
            local_endpoint: guid(1, 2),
            proxy: guid(2, 8)
        })
    );
}

#[test]
fn matched_remote_writer_exchanges_keys_with_the_reader() {
    let mut w = world().with_participants(true).with_reader(1, 50, true, true);
    w.give(80);
    assert_eq!(w.plugins.register_matched_remote_writer(guid(2, 7), guid(1, 1)), Ok(()));
    assert_eq!(
        w.calls(),
        vec!["get_shared_secret 41", "register_matched_remote_datawriter 50 31 [9]"]
    );
    assert_eq!(
        w.plugins.create_local_reader_crypto_tokens(guid(1, 1), guid(2, 7)),
        Ok(vec![crypto_token("reader")])
    );
    assert_eq!(
        w.plugins.set_remote_writer_crypto_tokens(guid(2, 7), guid(1, 1), vec![]),
        Ok(())
    );
    assert_eq!(
        w.calls(),
        vec![
            "create_local_datareader_crypto_tokens 50 80",
            "set_remote_datawriter_crypto_tokens 50 80 0"
        ]
    );
    // The pair is ordered: the local endpoint comes first.
    assert_eq!(
        w.plugins.create_local_reader_crypto_tokens(guid(2, 7), guid(1, 1)),
        Err(SecurityError::LocalEndpointCryptoHandleNotFound(guid(2, 7)))
    );
    assert_eq!(
        w.plugins.set_remote_writer_crypto_tokens(guid(1, 1), guid(1, 1), vec![]),
        Err(SecurityError::RemoteEndpointCryptoHandleNotFound {
            local_endpoint: guid(1, 1),
            proxy: guid(1, 1)
        })
    );
}

#[test]
fn failing_secret_stops_the_registration() {
    let mut w = world().with_participants(true);
    w.fail(true);
    assert_eq!(
        w.plugins.register_matched_remote_reader(guid(2, 7), guid(1, 9), false),
        out_of_order()
    );
    assert_eq!(w.calls(), vec!["get_shared_secret 41"]);
    w.fail(false);
    assert_eq!(
        w.plugins.register_matched_remote_reader(guid(2, 7), guid(1, 9), false),
        Err(SecurityError::LocalEndpointCryptoHandleNotFound(guid(1, 9)))
    );
}

#[test]
fn protected_payload_makes_the_round_trip() {
    let w = world()
        .with_participants(true)
        .with_writer(2, 60, true, true)
        .with_reader(1, 50, true, true)
        .with_remote_writer(2, 1, 80);
    let (encoded, inline_qos) =
        w.plugins.encode_serialized_payload(vec![1, 2], &guid(1, 2)).unwrap();
    assert_eq!(encoded, vec![0x54, 0x57]);
    assert_eq!(
        w.plugins.decode_serialized_payload(encoded, inline_qos, &guid(2, 2), &guid(1, 1)),
        Ok(vec![1, 2])
    );
    assert_eq!(
        w.calls(),
        vec![
            "encode_serialized_payload [1, 2] 60",
            "decode_serialized_payload [84, 87] 1 50 80"
        ]
    );
}

#[test]
fn unprotected_payload_makes_the_round_trip_without_the_plugin() {
    let w = world()
        .with_participants(true)
        .with_writer(2, 60, true, false)
        .with_reader(1, 50, true, false);
    w.fail(true);
    let (encoded, inline_qos) =
        w.plugins.encode_serialized_payload(vec![1, 2], &guid(1, 2)).unwrap();
    assert_eq!(encoded, vec![1, 2]);
    assert_eq!(inline_qos, ParameterList::new());
    assert_eq!(
        w.plugins.decode_serialized_payload(encoded, inline_qos, &guid(2, 2), &guid(1, 1)),
        Ok(vec![1, 2])
    );
    assert_eq!(w.calls(), Vec::<String>::new());
}

#[test]
fn payload_from_an_unmatched_writer_is_refused() {
    let w = world().with_participants(true).with_reader(1, 50, true, true);
    assert_eq!(
        w.plugins.decode_serialized_payload(vec![1], ParameterList::new(), &guid(2, 2), &guid(1, 1)),
        Err(SecurityError::RemoteEndpointCryptoHandleNotFound {
            local_endpoint: guid(1, 1),
            proxy: guid(2, 2)
        })
    );
    assert_eq!(
        w.plugins.decode_serialized_payload(vec![1], ParameterList::new(), &guid(2, 2), &guid(1, 3)),
        Err(SecurityError::LocalEndpointCryptoHandleNotFound(guid(1, 3)))
    );
}

#[test]
fn writer_submessage_goes_to_each_recipient_once_in_order() {
    let w = world()
        .with_participants(true)
        .with_writer(2, 60, true, true)
        .with_remote_reader(1, 2, 73)
        .with_remote_reader(2, 2, 71)
        .with_remote_reader(3, 2, 73)
        .with_remote_reader(4, 2, 72);
    let destinations = [guid(2, 1), guid(2, 2), guid(2, 3), guid(2, 4), guid(2, 2)];
    assert_eq!(
        w.plugins.encode_datawriter_submessage(submessage(&[5]), &guid(1, 2), &destinations),
        Ok(EncodedSubmessage::Encoded(secure_prefix(), submessage(&[5]), secure_postfix()))
    );
    let others = [guid(2, 4), guid(2, 3), guid(2, 2)];
    assert!(w
        .plugins
        .encode_datawriter_submessage(submessage(&[5]), &guid(1, 2), &others)
        .is_ok());
    assert_eq!(
        w.calls(),
        vec![
            "encode_datawriter_submessage [5] 60 [71, 72, 73]",
            "encode_datawriter_submessage [5] 60 [71, 72, 73]"
        ]
    );
}

#[test]
fn reader_submessage_goes_to_each_recipient_once_in_order() {
    let w = world()
        .with_participants(true)
        .with_reader(1, 50, true, true)
        .with_remote_writer(1, 1, 82)
        .with_remote_writer(2, 1, 81);
    let destinations = [guid(2, 1), guid(2, 2), guid(2, 1)];
    assert_eq!(
        w.plugins.encode_datareader_submessage(submessage(&[6]), &guid(1, 1), &destinations),
        Ok(EncodedSubmessage::Encoded(secure_prefix(), submessage(&[6]), secure_postfix()))
    );
    assert!(w
        .plugins
        .encode_datareader_submessage(submessage(&[6]), &guid(1, 1), &[])
        .is_ok());
    assert_eq!(
        w.calls(),
        vec![
            "encode_datareader_submessage [6] 50 [81, 82]",
            "encode_datareader_submessage [6] 50 []"
        ]
    );
}

#[test]
fn unknown_recipient_is_named_before_unknown_sender() {
    let w = world()
        .with_participants(true)
        .with_writer(2, 60, true, true)
        .with_remote_reader(1, 2, 73);
    assert_eq!(
        w.plugins.encode_datawriter_submessage(
            submessage(&[5]),
            &guid(1, 2),
            &[guid(2, 1), guid(2, 8), guid(2, 9)]
        ),
        Err(SecurityError::RemoteEndpointCryptoHandleNotFound {
            local_endpoint: guid(1, 2),
            proxy: guid(2, 8)
        })
    );
    assert_eq!(
        w.plugins.encode_datareader_submessage(submessage(&[5]), &guid(1, 3), &[guid(2, 1)]),
        Err(SecurityError::RemoteEndpointCryptoHandleNotFound {
            local_endpoint: guid(1, 3),
            proxy: guid(2, 1)
        })
    );
    assert_eq!(
        w.plugins.encode_message(message(&[]), &prefix(5), &[prefix(1), prefix(6)]),
        Err(SecurityError::ParticipantCryptoHandleNotFound(prefix(6)))
    );
    assert_eq!(
        w.plugins.encode_message(message(&[]), &prefix(5), &[prefix(1)]),
        Err(SecurityError::ParticipantCryptoHandleNotFound(prefix(5)))
    );
    assert_eq!(w.calls(), Vec::<String>::new());
}

#[test]
fn unprotected_submessages_pass_whatever_the_recipients() {
    let w = world()
        .with_participants(true)
        .with_writer(2, 60, false, true)
        .with_reader(1, 50, false, true);
    assert_eq!(
        w.plugins.encode_datawriter_submessage(submessage(&[5]), &guid(1, 2), &[guid(9, 9)]),
        Ok(EncodedSubmessage::Unencoded(submessage(&[5])))
    );
    assert_eq!(
        w.plugins.encode_datareader_submessage(submessage(&[5]), &guid(1, 1), &[guid(9, 9)]),
        Ok(EncodedSubmessage::Unencoded(submessage(&[5])))
    );
    assert_eq!(w.calls(), Vec::<String>::new());
}

#[test]
fn messages_are_encoded_and_decoded() {
    let w = world().with_participants(true);
    assert_eq!(
        w.plugins.encode_message(
            message(&[1]),
            &prefix(1),
            &[prefix(2), prefix(1), prefix(2)]
        ),
        Ok(message(&[1, 0xee]))
    );
    assert_eq!(
        w.plugins.decode_rtps_message(message(&[1, 0xee]), &prefix(2), &prefix(1)),
        Ok(message(&[1]))
    );
    assert_eq!(
        w.plugins.preprocess_secure_submessage(&secure_prefix(), &prefix(2), &prefix(1)),
        Ok(SecureSubmessageCategory::DatawriterSubmessage(1, 2))
    );
    assert_eq!(
        w.calls(),
        vec![
            "encode_rtps_message 1 30 [30, 31]",
            "decode_rtps_message 2 30 31",
            "preprocess_secure_submessage [3] 30 31"
        ]
    );
    // The destination is looked up first.
    assert_eq!(
        w.plugins.decode_rtps_message(message(&[]), &prefix(8), &prefix(9)),
        Err(SecurityError::ParticipantCryptoHandleNotFound(prefix(9)))
    );
    assert_eq!(
        w.plugins.preprocess_secure_submessage(&secure_prefix(), &prefix(8), &prefix(1)),
        Err(SecurityError::ParticipantCryptoHandleNotFound(prefix(8)))
    );
}

#[test]
fn unprotected_message_passes_whatever_the_recipients() {
    let w = world().with_participants(false);
    assert_eq!(
        w.plugins.encode_message(message(&[1, 2]), &prefix(1), &[prefix(9)]),
        Ok(message(&[1, 2]))
    );
    assert_eq!(w.calls(), Vec::<String>::new());
    // Decoding asks the plugin all the same.
    assert_eq!(
        w.plugins.decode_rtps_message(message(&[1, 2]), &prefix(2), &prefix(1)),
        Ok(message(&[1]))
    );
    assert_eq!(w.calls(), vec!["decode_rtps_message 2 30 31"]);
}

#[test]
fn submessages_are_decoded_with_the_handles_given() {
    let w = world();
    assert_eq!(
        w.plugins.decode_datawriter_submessage(
            (secure_prefix(), submessage(&[1]), secure_postfix()),
            3,
            4
        ),
        Ok(WriterSubmessage::Gap(submessage(&[1])))
    );
    assert_eq!(
        w.plugins.decode_datareader_submessage(
            (secure_prefix(), submessage(&[2]), secure_postfix()),
            5,
            6
        ),
        Ok(ReaderSubmessage::AckNack(submessage(&[2])))
    );
    assert_eq!(
        w.calls(),
        vec!["decode_datawriter_submessage 3 4", "decode_datareader_submessage 5 6"]
    );
}

#[test]
fn identifiers_that_differ_in_one_octet_are_told_apart() {
    let mut w = world().with_participants(true);
    let base = guid(1, 1);
    let mut differing = vec![];
    for i in 0..12 {
        let mut other = base;
        other.prefix.bytes[i] = 200;
        differing.push(other);
    }
    for i in 0..3 {
        let mut other = base;
        other.entity_id.entity_key[i] = 200;
        differing.push(other);
    }
    let mut other = base;
    other.entity_id.entity_kind = 200;
    differing.push(other);
    w = w.with_writer(1, 1, true, true);
    for (i, other) in differing.iter().enumerate() {
        assert!(!w.plugins.confirm_local_endpoint_guid(1, other));
        if other.prefix != base.prefix {
            assert_eq!(
                w.plugins.register_local_reader(*other, None, endpoint_attributes(true, true)),
                Err(SecurityError::ParticipantCryptoHandleNotFound(other.prefix))
            );
            w.introduce(other.prefix, 300 + i as u32);
        }
        w.give(100 + i as u32);
        assert_eq!(
            w.plugins.register_local_reader(*other, None, endpoint_attributes(true, true)),
            Ok(())
        );
    }
    for (i, other) in differing.iter().enumerate() {
        assert!(w.plugins.confirm_local_endpoint_guid(100 + i as u32, other));
    }
    assert!(w.plugins.confirm_local_endpoint_guid(1, &base));
}

#[test]
fn latest_identity_is_the_one_used() {
    let mut w = world().with_participants(true);
    let again = |w: &mut World, remote: GuidPrefix, handle: u32| {
        w.give(handle);
        w.plugins
            .validate_remote_identity(
                prefix(1),
                IdentityToken { data_holder: holder("again") },
                remote,
                None,
            )
            .is_ok()
    };
    assert!(again(&mut w, prefix(2), 50));
    assert!(again(&mut w, prefix(2), 51));
    // Neither a failed validation, nor one of another participant, nor anything else
    // changes it.
    w.fail(true);
    assert!(!again(&mut w, prefix(2), 52));
    w.fail(false);
    assert!(again(&mut w, prefix(3), 53));
    w = w.with_writer(1, 54, true, true);
    w.give(55);
    assert!(w.plugins.begin_handshake_request(prefix(1), prefix(2), vec![]).is_ok());
    w.calls();
    assert!(w.plugins.get_identity_token(prefix(2)).is_ok());
    assert_eq!(w.calls(), vec!["get_identity_token 51"]);
    assert!(w.plugins.get_identity_token(prefix(1)).is_ok());
    assert_eq!(w.calls(), vec!["get_identity_token 10"]);
    // A local and a remote validation of one participant replace each other's handles.
    assert!(again(&mut w, prefix(1), 56));
    w.calls();
    assert!(w.plugins.get_identity_token(prefix(1)).is_ok());
    assert_eq!(w.calls(), vec!["get_identity_token 56"]);
    w.give(57);
    assert!(w.plugins.validate_local_identity(0, &qos(false), guid(0, 0)).is_ok());
    w.calls();
    assert!(w.plugins.get_identity_token(prefix(1)).is_ok());
    assert_eq!(w.calls(), vec!["get_identity_token 57"]);
}

#[test]
fn latest_handshake_is_the_one_used() {
    let mut w = world().with_participants(true);
    let token = HandshakeMessageToken { data_holder: holder("m") };
    w.give(42);
    assert!(w
        .plugins
        .begin_handshake_reply(prefix(1), prefix(2), token.clone(), vec![])
        .is_ok());
    w.give(43);
    assert!(w.plugins.process_handshake(prefix(2), token).is_ok());
    assert_eq!(w.plugins.validate_local_permissions(0, prefix(1), &qos(false)), Ok(()));
    w.calls();
    assert!(w.plugins.get_shared_secret(prefix(2)).is_ok());
    assert_eq!(w.calls(), vec!["get_shared_secret 42"]);
    // The local side of a handshake has no handle.
    assert_eq!(
        w.plugins.get_shared_secret(prefix(1)),
        Err(SecurityError::HandshakeHandleNotFound(prefix(1)))
    );
    w.give(44);
    assert!(w.plugins.begin_handshake_request(prefix(2), prefix(1), vec![]).is_ok());
    w.calls();
    assert!(w.plugins.get_shared_secret(prefix(1)).is_ok());
    assert!(w.plugins.get_shared_secret(prefix(2)).is_ok());
    assert_eq!(w.calls(), vec!["get_shared_secret 44", "get_shared_secret 42"]);
}

#[test]
fn latest_permissions_and_participant_keys_are_the_ones_used() {
    let mut w = world().with_participants(true);
    w.give(22);
    assert_eq!(w.plugins.validate_local_permissions(0, prefix(1), &qos(false)), Ok(()));
    w.give(32);
    assert_eq!(
        w.plugins.register_local_participant(prefix(1), None, participant_attributes(true)),
        Ok(())
    );
    w.fail(true);
    w.give(33);
    assert_eq!(
        w.plugins.register_local_participant(prefix(1), None, participant_attributes(true)),
        out_of_order()
    );
    assert_eq!(
        w.plugins.register_matched_remote_participant(prefix(1), prefix(2), secret(1)),
        out_of_order()
    );
    w.fail(false);
    w.calls();
    assert!(w.plugins.get_permissions_token(prefix(1)).is_ok());
    assert!(w.plugins.create_local_participant_crypto_tokens(prefix(1), prefix(2)).is_ok());
    assert_eq!(
        w.calls(),
        vec!["get_permissions_token 22", "create_local_participant_crypto_tokens 32 31"]
    );
}

#[test]
fn keys_are_exchanged_by_the_handles_of_the_registered_pair() {
    let mut w = world()
        .with_participants(true)
        .with_writer(1, 51, true, true)
        .with_remote_reader(1, 1, 61)
        // None of these registers the writer or the pair again.
        .with_writer(2, 52, true, true)
        .with_remote_reader(1, 2, 62)
        .with_remote_reader(2, 1, 63)
        .with_reader(3, 53, true, true)
        .with_remote_writer(1, 3, 64);
    assert_eq!(w.plugins.unregister_local_writer(&guid(1, 1)), Ok(()));
    w.fail(true);
    assert_eq!(
        w.plugins.register_local_writer(guid(1, 1), None, endpoint_attributes(true, true)),
        out_of_order()
    );
    w.fail(false);
    w.calls();
    let exchange = |w: &mut World| {
        assert!(w.plugins.create_local_writer_crypto_tokens(guid(1, 1), guid(2, 1)).is_ok());
        w.calls()
    };
    assert_eq!(exchange(&mut w), vec!["create_local_datawriter_crypto_tokens 51 61"]);
    assert_eq!(exchange(&mut w), vec!["create_local_datawriter_crypto_tokens 51 61"]);
    let mut w = w.with_remote_reader(1, 1, 65);
    assert_eq!(exchange(&mut w), vec!["create_local_datawriter_crypto_tokens 51 65"]);
    let mut w = w.with_writer(1, 54, true, true);
    assert_eq!(exchange(&mut w), vec!["create_local_datawriter_crypto_tokens 54 65"]);
}

#[test]
fn participant_is_unprotected_once_registered_so() {
    let mut w = world();
    w.give(10);
    assert!(w.plugins.validate_local_identity(0, &qos(false), guid(0, 0)).is_ok());
    // The handles are not both known yet.
    assert_eq!(
        w.plugins.register_local_participant(prefix(1), None, participant_attributes(false)),
        Err(SecurityError::PermissionsHandleNotFound(prefix(1)))
    );
    assert!(!w.plugins.rtps_not_protected(&prefix(1)));
    let mut w = w.with_participants(true);
    assert!(!w.plugins.rtps_not_protected(&prefix(1)));
    assert!(!w.plugins.rtps_not_protected(&prefix(2)));
    assert_eq!(
        w.plugins.register_local_participant(prefix(1), None, participant_attributes(false)),
        Ok(())
    );
    assert!(w.plugins.rtps_not_protected(&prefix(1)));
    assert!(!w.plugins.rtps_not_protected(&prefix(2)));
    let w = w.with_participants(true);
    assert!(w.plugins.rtps_not_protected(&prefix(1)));
}

#[test]
fn known_handles_come_with_those_they_rest_on() {
    let mut w = world();
    w.give(1);
    let no_identity = SecurityError::IdentityHandleNotFound(prefix(1));
    assert_eq!(
        w.plugins.validate_local_permissions(0, prefix(1), &qos(false)),
        Err(no_identity.clone())
    );
    assert_eq!(
        w.plugins.get_permissions_token(prefix(1)),
        Err(SecurityError::PermissionsHandleNotFound(prefix(1)))
    );
    assert_eq!(
        w.plugins.register_local_participant(prefix(1), None, participant_attributes(true)),
        Err(no_identity)
    );
    assert_eq!(
        w.plugins.register_local_writer(guid(1, 1), None, endpoint_attributes(false, false)),
        Err(SecurityError::ParticipantCryptoHandleNotFound(prefix(1)))
    );
    assert!(!w.plugins.submessage_not_protected(&guid(1, 1)));
    assert!(!w.plugins.payload_not_protected(&guid(1, 1)));
    assert!(!w.plugins.confirm_local_endpoint_guid(1, &guid(1, 1)));
    assert_eq!(w.calls(), Vec::<String>::new());
    let mut w = w.with_participants(true);
    // The local endpoint is not known, so the pair does not get to be known either.
    assert_eq!(
        w.plugins.register_matched_remote_reader(guid(2, 1), guid(1, 1), false),
        Err(SecurityError::LocalEndpointCryptoHandleNotFound(guid(1, 1)))
    );
    let mut w = w.with_writer(1, 51, true, true);
    assert_eq!(
        w.plugins.create_local_writer_crypto_tokens(guid(1, 1), guid(2, 1)),
        Err(SecurityError::RemoteEndpointCryptoHandleNotFound {
            local_endpoint: guid(1, 1),
            proxy: guid(2, 1)
        })
    );
}

#[test]
fn unknown_destination_fails_the_encoding_wherever_it_is_listed() {
    let w = world()
        .with_participants(true)
        .with_writer(1, 51, true, true)
        .with_remote_reader(1, 1, 61);
    let unknown = |n: u8| {
        Err(SecurityError::RemoteEndpointCryptoHandleNotFound {
            local_endpoint: guid(1, 1),
            proxy: guid(2, n),
        })
    };
    let encode = |destinations: &[GUID]| {
        w.plugins.encode_datawriter_submessage(submessage(&[1]), &guid(1, 1), destinations)
    };
    assert_eq!(encode(&[guid(2, 1), guid(2, 8), guid(2, 9)]), unknown(8));
    assert_eq!(encode(&[guid(2, 9), guid(2, 1), guid(2, 8), guid(2, 1)]), unknown(9));
    let encode_message = |destinations: &[GuidPrefix]| {
        w.plugins.encode_message(message(&[1]), &prefix(1), destinations)
    };
    assert_eq!(
        encode_message(&[prefix(2), prefix(8)]),
        Err(SecurityError::ParticipantCryptoHandleNotFound(prefix(8)))
    );
    assert_eq!(
        encode_message(&[prefix(8), prefix(8), prefix(2)]),
        Err(SecurityError::ParticipantCryptoHandleNotFound(prefix(8)))
    );
    assert_eq!(w.calls(), Vec::<String>::new());
}
