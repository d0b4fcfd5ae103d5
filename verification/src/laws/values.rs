//! What new values, confirmations, recipients, properties and messages are.

use vstd::prelude::*;

use crate::access_control::AccessControl;
use crate::authentication::Authentication;
use crate::cryptographic::Cryptographic;
use crate::error::{guid_text, hex, hex_digit, SecurityError};
use crate::guid::{GuidPrefix, GUID};
use crate::qos::policy;
use crate::qos::policy::into_properties;
use crate::recipients::{law_distinct_sorted, remove_duplicates};
use crate::rtps::ParameterList;
use crate::security_plugins::SecurityPlugins;
use crate::types::{CryptoHandle, EndpointCryptoHandle, Property};

verus! {

/// Taking over the plugins, with nothing stored, nothing marked and the crypto
/// transform turned on.
pub proof fn law_new<
    A: Authentication + ?Sized,
    P: AccessControl<A> + ?Sized,
    C: Cryptographic + ?Sized,
>(
    auth: Box<A>,
    access: Box<P>,
    crypto: Box<C>,
    plugins: SecurityPlugins<A, P, C>,
)
    requires
        call_ensures(SecurityPlugins::<A, P, C>::new, (auth, access, crypto), plugins),
    ensures
        plugins.auth() == &*auth,
        plugins.access() == &*access,
        plugins.crypto() == &*crypto,
        plugins@.identities.dom() == Set::<GuidPrefix>::empty(),
        plugins@.permissions.dom() == Set::<GuidPrefix>::empty(),
        plugins@.handshakes.dom() == Set::<GuidPrefix>::empty(),
        plugins@.participant_crypto.dom() == Set::<GuidPrefix>::empty(),
        plugins@.local_endpoint_crypto.dom() == Set::<GUID>::empty(),
        plugins@.remote_endpoint_crypto.dom() == Set::<(GUID, GUID)>::empty(),
        plugins@.rtps_not_protected == Set::<GuidPrefix>::empty(),
        plugins@.submessage_not_protected == Set::<GUID>::empty(),
        plugins@.payload_not_protected == Set::<GUID>::empty(),
        !plugins@.test_disable_crypto_transform,
        plugins.history().len() == 0,
{
}

/// A handle is confirmed for a local endpoint exactly if it is the one stored for it.
pub proof fn law_confirm_local_endpoint_guid<
    A: Authentication + ?Sized,
    P: AccessControl<A> + ?Sized,
    C: Cryptographic + ?Sized,
>(
    plugins: &SecurityPlugins<A, P, C>,
    handle: EndpointCryptoHandle,
    guid: &GUID,
    confirmed: bool,
)
    requires
        call_ensures(
            SecurityPlugins::<A, P, C>::confirm_local_endpoint_guid,
            (plugins, handle, guid),
            confirmed,
        ),
    ensures
        confirmed <==> plugins@.local_endpoint_crypto.contains_key(*guid)
            && plugins@.local_endpoint_crypto[*guid] == handle,
{
}

/// The list of recipients is in strictly increasing order and holds the handles given
/// and no others.
pub proof fn law_remove_duplicates(handles: &Vec<CryptoHandle>, list: Vec<CryptoHandle>)
    requires
        call_ensures(remove_duplicates, (handles,), list),
    ensures
        forall|i: int, j: int| 0 <= i < j < list@.len() ==> list@[i] < list@[j],
        forall|handle: CryptoHandle|
            #![trigger list@.contains(handle)]
            #![trigger handles@.contains(handle)]
            list@.contains(handle) <==> handles@.contains(handle),
{
    law_distinct_sorted(handles@);
}

/// The properties of a policy are its text properties, all of them and in their
/// order; without a policy there are none.
pub proof fn law_into_properties(property: Option<policy::Property>, properties: Vec<Property>)
    requires
        call_ensures(into_properties, (property,), properties),
    ensures
        property matches Some(given) ==> properties@ == given.value@,
        property is None ==> properties@.len() == 0,
{
}

/// A new list holds no parameters.
pub proof fn law_new_parameter_list(list: ParameterList)
    requires
        call_ensures(ParameterList::new, (), list),
    ensures
        list.parameters@.len() == 0,
{
}

/// Whether the character is a digit or one of the letters from a to f.
pub open spec fn is_digit(digit: char) -> bool {
    '0' <= digit <= '9' || 'a' <= digit <= 'f'
}

/// What a hexadecimal digit counts.
pub open spec fn digit_value(digit: char) -> int {
    if '0' <= digit <= '9' {
        digit as int - '0' as int
    } else {
        digit as int - 'a' as int + 10
    }
}

/// Whether two digits, of which the first counts sixteen times as much, spell the
/// octet.
pub open spec fn spell_octet(high: char, low: char, octet: u8) -> bool {
    &&& is_digit(high)
    &&& is_digit(low)
    &&& 16 * digit_value(high) + digit_value(low) == octet
}

/// Whether the text spells the octets, each by two digits, in their order.
pub open spec fn spells(text: Seq<char>, octets: Seq<u8>) -> bool {
    &&& text.len() == 2 * octets.len()
    &&& forall|i: int|
        0 <= i < octets.len() ==> spell_octet(text[2 * i], text[2 * i + 1], #[trigger] octets[i])
}

/// All octets of an endpoint's identifier.
pub open spec fn octets_of(guid: GUID) -> Seq<u8> {
    guid.prefix.bytes@ + guid.entity_id.entity_key@ + seq![guid.entity_id.entity_kind]
}

proof fn lemma_digit(n: u8)
    requires
        n < 16,
    ensures
        is_digit(hex_digit(n)),
        digit_value(hex_digit(n)) == n,
{
    reveal_strlit("0123456789abcdef");
}

proof fn lemma_hex_spells(octets: Seq<u8>)
    ensures
        spells(hex(octets), octets),
    decreases octets.len(),
{
    if octets.len() > 0 {
        let before = octets.drop_last();
        lemma_hex_spells(before);
        lemma_digit(octets.last() / 16);
        lemma_digit(octets.last() % 16);
        assert forall|i: int| 0 <= i < octets.len() implies spell_octet(
            hex(octets)[2 * i],
            hex(octets)[2 * i + 1],
            #[trigger] octets[i],
        ) by {
            if i < before.len() {
                assert(before[i] == octets[i]);
                assert(hex(octets)[2 * i] == hex(before)[2 * i]);
                assert(hex(octets)[2 * i + 1] == hex(before)[2 * i + 1]);
            }
        }
    }
}

proof fn lemma_spells_on(text: Seq<char>, octets: Seq<u8>, more: Seq<char>, more_octets: Seq<u8>)
    requires
        spells(text, octets),
        spells(more, more_octets),
    ensures
        spells(text + more, octets + more_octets),
{
    let (all, all_octets) = (text + more, octets + more_octets);
    assert forall|i: int| 0 <= i < all_octets.len() implies spell_octet(
        all[2 * i],
        all[2 * i + 1],
        #[trigger] all_octets[i],
    ) by {
        if i < octets.len() {
            assert(all_octets[i] == octets[i]);
        } else {
            let k = i - octets.len();
            assert(all_octets[i] == more_octets[k]);
            assert(all[2 * i] == more[2 * k]);
            assert(all[2 * i + 1] == more[2 * k + 1]);
        }
    }
}

proof fn lemma_guid_text_spells(guid: GUID)
    ensures
        spells(guid_text(guid), octets_of(guid)),
{
    lemma_hex_spells(guid.prefix.bytes@);
    lemma_hex_spells(guid.entity_id.entity_key@);
    lemma_hex_spells(seq![guid.entity_id.entity_kind]);
    lemma_spells_on(
        hex(guid.prefix.bytes@),
        guid.prefix.bytes@,
        hex(guid.entity_id.entity_key@),
        guid.entity_id.entity_key@,
    );
    lemma_spells_on(
        hex(guid.prefix.bytes@) + hex(guid.entity_id.entity_key@),
        guid.prefix.bytes@ + guid.entity_id.entity_key@,
        hex(seq![guid.entity_id.entity_kind]),
        seq![guid.entity_id.entity_kind],
    );
}

/// The message of an error says what is missing and spells the identifier for which
/// it is missing, all octets in their order; and the reason that a plugin gave is
/// passed on word for word.
pub proof fn law_message(error: &SecurityError, message: String)
    requires
        call_ensures(SecurityError::message, (error,), message),
    ensures
        match *error {
            SecurityError::IdentityHandleNotFound(prefix) => exists|digits: Seq<char>|
                {
                    &&& #[trigger] spells(digits, prefix.bytes@)
                    &&& message@ == "Could not find an IdentityHandle for the GUID prefix "@
                        + digits
                },
            SecurityError::PermissionsHandleNotFound(prefix) => exists|digits: Seq<char>|
                {
                    &&& #[trigger] spells(digits, prefix.bytes@)
                    &&& message@ == "Could not find a PermissionsHandle for the GUID prefix "@
                        + digits
                },
            SecurityError::HandshakeHandleNotFound(prefix) => exists|digits: Seq<char>|
                {
                    &&& #[trigger] spells(digits, prefix.bytes@)
                    &&& message@ == "Could not find a HandshakeHandle for the GUID prefix "@
                        + digits
                },
            SecurityError::ParticipantCryptoHandleNotFound(prefix) => exists|digits: Seq<char>|
                {
                    &&& #[trigger] spells(digits, prefix.bytes@)
                    &&& message@ == "Could not find a ParticipantCryptoHandle for the GuidPrefix "@
                        + digits
                },
            SecurityError::LocalEndpointCryptoHandleNotFound(guid) => exists|digits: Seq<char>|
                {
                    &&& #[trigger] spells(digits, octets_of(guid))
                    &&& message@ == "Could not find a local EndpointCryptoHandle for the GUID "@
                        + digits
                },
            SecurityError::RemoteEndpointCryptoHandleNotFound { local_endpoint, proxy } => exists|
                local_digits: Seq<char>,
                proxy_digits: Seq<char>,
            |
                {
                    &&& #[trigger] spells(local_digits, octets_of(local_endpoint))
                    &&& #[trigger] spells(proxy_digits, octets_of(proxy))
                    &&& message@
                        == "Could not find a remote EndpointCryptoHandle for the (local_endpoint_guid, proxy_guid) pair ("@
                        + local_digits + ", "@ + proxy_digits + ")"@
                },
            SecurityError::UnexpectedLocalIdentityOutcome => message@
                == "Validating local identity produced an unexpected outcome"@,
            SecurityError::Plugin(reason) => message@ == reason@,
        },
{
    match *error {
        SecurityError::IdentityHandleNotFound(prefix) => lemma_hex_spells(prefix.bytes@),
        SecurityError::PermissionsHandleNotFound(prefix) => lemma_hex_spells(prefix.bytes@),
        SecurityError::HandshakeHandleNotFound(prefix) => lemma_hex_spells(prefix.bytes@),
        SecurityError::ParticipantCryptoHandleNotFound(prefix) => lemma_hex_spells(prefix.bytes@),
        SecurityError::LocalEndpointCryptoHandleNotFound(guid) => lemma_guid_text_spells(guid),
        SecurityError::RemoteEndpointCryptoHandleNotFound { local_endpoint, proxy } => {
            lemma_guid_text_spells(local_endpoint);
            lemma_guid_text_spells(proxy);
        },
        SecurityError::UnexpectedLocalIdentityOutcome => {},
        SecurityError::Plugin(_) => {},
    }
}

} // verus!
