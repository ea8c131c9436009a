//! From a session key to content keys.
//!
//! Three keys are derived from the session key. The licence is authenticated
//! with one of them before anything in it is trusted; a licence that fails
//! is refused whole. Each key container of an authenticated licence is then
//! unwrapped on its own: a container that fails is reported as failed, with
//! its identifier, and does not take the others with it.

use vstd::prelude::*;

use crate::bytes::{append, array_at, slice_to_vec};
use crate::error::{CdmError, CdmErrorView, UnwrapFault};
use crate::license::primitives::{
    aes128_cbc_decrypt, aes_cbc_plain, aes_cmac, cmac_aes128, hmac_sha256, hmac_sha256_matches,
};
use crate::license::types::{ContentKey, DerivedKeys, KeyType};
use crate::wrm_header::{kid_to_uuid, swapped};

verus! {

/// The two context strings of a key derivation: one for the encryption key,
/// one for the authentication keys.
#[derive(Debug, Clone, PartialEq, Eq)]
pub struct KeyContexts {
    pub enc: Vec<u8>,
    pub mac: Vec<u8>,
}

/// One wrapped key of a licence.
#[derive(Debug, Clone, PartialEq, Eq)]
pub struct KeyContainer {
    /// The key identifier, in its mixed-endian wire form.
    pub id: Vec<u8>,
    /// The initialization vector of this key.
    pub iv: Vec<u8>,
    /// The key, encrypted and padded.
    pub key: Vec<u8>,
    /// The kind of key, as the wire gives it; zero where it gives none.
    pub key_type: u32,
}

/// [`KeyContainer`] as a mathematical value.
pub struct KeyContainerView {
    pub id: Seq<u8>,
    pub iv: Seq<u8>,
    pub key: Seq<u8>,
    pub key_type: u32,
}

impl View for KeyContainer {
    type V = KeyContainerView;

    open spec fn view(&self) -> KeyContainerView {
        KeyContainerView { id: self.id@, iv: self.iv@, key: self.key@, key_type: self.key_type }
    }
}

/// A licence as it was received: the bytes that its signature covers, the
/// signature, and the key containers.
#[derive(Debug, Clone, PartialEq, Eq)]
pub struct LicenseBody {
    pub message: Vec<u8>,
    pub signature: Vec<u8>,
    pub keys: Vec<KeyContainer>,
}

/// The kind of an unwrapped key. A container that names no kind, or one that
/// is not known, gives an untyped key: it is unwrapped and kept all the same.
#[derive(Debug, Clone, Copy, PartialEq, Eq, Structural)]
pub enum KeyClass {
    Typed(KeyType),
    Untyped,
}

/// A key that was unwrapped.
#[derive(Debug, Clone, PartialEq, Eq)]
pub struct UnwrappedKey {
    /// The key identifier in canonical big-endian order.
    pub kid: [u8; 16],
    pub key: Vec<u8>,
    pub class: KeyClass,
}

/// What became of one key container.
#[derive(Debug, Clone, PartialEq, Eq)]
pub enum KeyOutcome {
    Unwrapped(UnwrappedKey),
    /// The container could not be unwrapped; `id` is its identifier as it
    /// was received.
    Failed { id: Vec<u8>, fault: UnwrapFault },
}

impl KeyOutcome {
    /// The key of an outcome, or the failure of the container as an error of
    /// its own kind: a key that could not be unwrapped is no failure of the
    /// licence.
    pub fn key(&self) -> (r: Result<&UnwrappedKey, CdmError>)
        ensures
            match *self {
                KeyOutcome::Unwrapped(k) => r is Ok && *r->Ok_0 == k,
                KeyOutcome::Failed { id, fault } => r is Err && r->Err_0@
                    == CdmErrorView::KeyUnwrapFailed(fault),
            },
    {
        match self {
            KeyOutcome::Unwrapped(k) => Ok(k),
            KeyOutcome::Failed { id: _, fault } => Err(CdmError::KeyUnwrapFailed(*fault)),
        }
    }
}

/// [`KeyOutcome`] as a mathematical value.
pub enum KeyOutcomeView {
    Unwrapped { kid: Seq<u8>, key: Seq<u8>, class: KeyClass },
    Failed { id: Seq<u8>, fault: UnwrapFault },
}

impl View for KeyOutcome {
    type V = KeyOutcomeView;

    open spec fn view(&self) -> KeyOutcomeView {
        match *self {
            KeyOutcome::Unwrapped(k) => KeyOutcomeView::Unwrapped {
                kid: k.kid@,
                key: k.key@,
                class: k.class,
            },
            KeyOutcome::Failed { id, fault } => KeyOutcomeView::Failed { id: id@, fault },
        }
    }
}

/// [`DerivedKeys`] as a mathematical value.
pub struct DerivedKeysView {
    pub enc_key: Seq<u8>,
    pub mac_key_server: Seq<u8>,
    pub mac_key_client: Seq<u8>,
}

impl View for DerivedKeys {
    type V = DerivedKeysView;

    open spec fn view(&self) -> DerivedKeysView {
        DerivedKeysView {
            enc_key: self.enc_key@,
            mac_key_server: self.mac_key_server@,
            mac_key_client: self.mac_key_client@,
        }
    }
}

/// [`ContentKey`] as a mathematical value.
pub struct ContentKeyView {
    pub kid: Seq<u8>,
    pub key: Seq<u8>,
    pub key_type: KeyType,
}

impl View for ContentKey {
    type V = ContentKeyView;

    open spec fn view(&self) -> ContentKeyView {
        ContentKeyView { kid: self.kid@, key: self.key@, key_type: self.key_type }
    }
}

/// The outcomes of a list as mathematical values, in order.
pub open spec fn outcomes_view(outcomes: Seq<KeyOutcome>) -> Seq<KeyOutcomeView> {
    outcomes.map_values(|o: KeyOutcome| o@)
}

/// The containers of a list as mathematical values, in order.
pub open spec fn containers_view(containers: Seq<KeyContainer>) -> Seq<KeyContainerView> {
    containers.map_values(|c: KeyContainer| c@)
}

/// The content keys of a list as mathematical values, in order.
pub open spec fn content_keys_view(keys: Seq<ContentKey>) -> Seq<ContentKeyView> {
    keys.map_values(|k: ContentKey| k@)
}

/// One block of derived key material: the tag of the counter byte followed
/// by the context.
pub open spec fn derived_block(session_key: Seq<u8>, counter: u8, context: Seq<u8>) -> Seq<u8> {
    aes_cmac(session_key, seq![counter] + context)
}

/// The three keys that a session key gives with the two contexts: the
/// encryption key is block 1 of the encryption context; the server key is
/// blocks 1 and 2 of the authentication context, the client key blocks 3 and
/// 4.
pub open spec fn derived_from(session_key: Seq<u8>, enc: Seq<u8>, mac: Seq<u8>) -> DerivedKeysView {
    DerivedKeysView {
        enc_key: derived_block(session_key, 1, enc),
        mac_key_server: derived_block(session_key, 1, mac) + derived_block(session_key, 2, mac),
        mac_key_client: derived_block(session_key, 3, mac) + derived_block(session_key, 4, mac),
    }
}

/// Whether `data` ends in well-formed padding: its last byte `p` is between
/// 1 and 16, `data` is at least `p` long, and its last `p` bytes all are `p`.
pub open spec fn well_padded(data: Seq<u8>) -> bool {
    &&& data.len() > 0
    &&& 1 <= data[data.len() - 1] <= 16
    &&& data[data.len() - 1] <= data.len()
    &&& forall|i: int|
        data.len() - data[data.len() - 1] <= i < data.len() ==> #[trigger] data[i] == data[data.len()
            - 1]
}

/// `data` without its padding.
pub open spec fn unpadded(data: Seq<u8>) -> Seq<u8> {
    data.take(data.len() - data[data.len() - 1])
}

impl KeyClass {
    /// The class that the wire value `raw` stands for.
    pub open spec fn of(raw: u32) -> KeyClass {
        if raw == 1 {
            KeyClass::Typed(KeyType::Signing)
        } else if raw == 2 {
            KeyClass::Typed(KeyType::Content)
        } else if raw == 3 {
            KeyClass::Typed(KeyType::KeyControl)
        } else if raw == 4 {
            KeyClass::Typed(KeyType::OperatorSession)
        } else if raw == 5 {
            KeyClass::Typed(KeyType::Entitlement)
        } else if raw == 6 {
            KeyClass::Typed(KeyType::OemContent)
        } else {
            KeyClass::Untyped
        }
    }

    /// The class that the wire value `raw` stands for.
    pub fn from_wire(raw: u32) -> (r: KeyClass)
        ensures
            r == KeyClass::of(raw),
    {
        if raw >= 1 && raw <= 6 {
            match KeyType::from_u8(raw as u8) {
                Some(t) => KeyClass::Typed(t),
                None => KeyClass::Untyped,
            }
        } else {
            KeyClass::Untyped
        }
    }
}

/// What unwrapping one container with the encryption key gives.
pub open spec fn outcome_of(enc_key: Seq<u8>, c: KeyContainerView) -> KeyOutcomeView {
    if c.id.len() != 16 {
        KeyOutcomeView::Failed { id: c.id, fault: UnwrapFault::KeyIdLength }
    } else if c.iv.len() != 16 {
        KeyOutcomeView::Failed { id: c.id, fault: UnwrapFault::IvLength }
    } else if c.key.len() == 0 || c.key.len() % 16 != 0 {
        KeyOutcomeView::Failed { id: c.id, fault: UnwrapFault::CiphertextLength }
    } else if !well_padded(aes_cbc_plain(enc_key, c.iv, c.key)) {
        KeyOutcomeView::Failed { id: c.id, fault: UnwrapFault::Padding }
    } else {
        KeyOutcomeView::Unwrapped {
            kid: swapped(c.id),
            key: unpadded(aes_cbc_plain(enc_key, c.iv, c.key)),
            class: KeyClass::of(c.key_type),
        }
    }
}

/// What a licence gives under a session key: the outcome of every container
/// in order, or the refusal of the whole licence where its signature is not
/// the tag of its message under the server key.
pub open spec fn license_outcome(
    session_key: Seq<u8>,
    enc: Seq<u8>,
    mac: Seq<u8>,
    message: Seq<u8>,
    signature: Seq<u8>,
    containers: Seq<KeyContainerView>,
) -> Result<Seq<KeyOutcomeView>, CdmErrorView> {
    let keys = derived_from(session_key, enc, mac);
    if signature != hmac_sha256(keys.mac_key_server, message) {
        Err(CdmErrorView::ResponseAuthenticationFailed)
    } else {
        Ok(containers.map_values(|c: KeyContainerView| outcome_of(keys.enc_key, c)))
    }
}

/// The keys of kind `Content` among `outcomes[from..]`, appended to `acc`.
pub open spec fn content_from(
    outcomes: Seq<KeyOutcomeView>,
    from: int,
    acc: Seq<ContentKeyView>,
) -> Seq<ContentKeyView>
    decreases outcomes.len() - from,
{
    if from < 0 || from >= outcomes.len() {
        acc
    } else {
        match outcomes[from] {
            KeyOutcomeView::Unwrapped { kid, key, class: KeyClass::Typed(KeyType::Content) } => {
                content_from(
                    outcomes,
                    from + 1,
                    acc.push(ContentKeyView { kid, key, key_type: KeyType::Content }),
                )
            },
            _ => content_from(outcomes, from + 1, acc),
        }
    }
}

/// One block of derived key material.
fn derive_block(session_key: &[u8; 16], counter: u8, context: &[u8]) -> (tag: [u8; 16])
    ensures
        tag@ == derived_block(session_key@, counter, context@),
{
    let mut input: Vec<u8> = Vec::new();
    input.push(counter);
    append(&mut input, context);
    cmac_aes128(session_key, input.as_slice())
}

/// Two blocks, one after the other.
fn joined(first: &[u8; 16], second: &[u8; 16]) -> (r: [u8; 32])
    ensures
        r@ == first@ + second@,
{
    let mut out = [0u8; 32];
    let mut i: usize = 0;
    while i < 16
        invariant
            i <= 16,
            forall|j: int| 0 <= j < i ==> out@[j] == first@[j],
            forall|j: int| 0 <= j < i ==> out@[16 + j] == second@[j],
        decreases 16 - i,
    {
        out[i] = first[i];
        out[16 + i] = second[i];
        i = i + 1;
    }
    out
}

/// Derives the three keys of a licence transaction from the session key.
pub fn derive_keys(session_key: &[u8; 16], contexts: &KeyContexts) -> (keys: DerivedKeys)
    ensures
        keys@ == derived_from(session_key@, contexts.enc@, contexts.mac@),
{
    let enc_key = derive_block(session_key, 1, contexts.enc.as_slice());
    let s1 = derive_block(session_key, 1, contexts.mac.as_slice());
    let s2 = derive_block(session_key, 2, contexts.mac.as_slice());
    let c1 = derive_block(session_key, 3, contexts.mac.as_slice());
    let c2 = derive_block(session_key, 4, contexts.mac.as_slice());
    DerivedKeys { enc_key, mac_key_server: joined(&s1, &s2), mac_key_client: joined(&c1, &c2) }
}

/// Removes the padding of a decrypted key; `None` where the bytes do not end
/// in well-formed padding.
pub fn remove_padding(data: &[u8]) -> (r: Option<&[u8]>)
    ensures
        r is Some <==> well_padded(data@),
        r is Some ==> r->Some_0@ == unpadded(data@),
{
    let n = data.len();
    if n == 0 {
        return None;
    }
    let p = data[n - 1];
    if p < 1 || p > 16 || p as usize > n {
        return None;
    }
    let start = n - p as usize;
    let mut i: usize = start;
    while i < n
        invariant
            start <= i <= n,
            n == data@.len(),
            p == data@[n - 1],
            start == n - p,
            forall|j: int| start <= j < i ==> data@[j] == p,
        decreases n - i,
    {
        if data[i] != p {
            return None;
        }
        i = i + 1;
    }
    Some(vstd::slice::slice_subrange(data, 0, start))
}

/// Unwraps one key container with the encryption key.
pub fn unwrap_key(enc_key: &[u8; 16], container: &KeyContainer) -> (r: KeyOutcome)
    ensures
        r@ == outcome_of(enc_key@, container@),
{
    if container.id.len() != 16 {
        return KeyOutcome::Failed {
            id: slice_to_vec(container.id.as_slice()),
            fault: UnwrapFault::KeyIdLength,
        };
    }
    if container.iv.len() != 16 {
        return KeyOutcome::Failed {
            id: slice_to_vec(container.id.as_slice()),
            fault: UnwrapFault::IvLength,
        };
    }
    if container.key.len() == 0 || container.key.len() % 16 != 0 {
        return KeyOutcome::Failed {
            id: slice_to_vec(container.id.as_slice()),
            fault: UnwrapFault::CiphertextLength,
        };
    }
    let iv: [u8; 16] = array_at::<16>(container.iv.as_slice(), 0);
    assert(iv@ =~= container.iv@);
    let plain = aes128_cbc_decrypt(enc_key, &iv, container.key.as_slice());
    match remove_padding(plain.as_slice()) {
        None => KeyOutcome::Failed {
            id: slice_to_vec(container.id.as_slice()),
            fault: UnwrapFault::Padding,
        },
        Some(key) => {
            let wire: [u8; 16] = array_at::<16>(container.id.as_slice(), 0);
            KeyOutcome::Unwrapped(
                UnwrappedKey {
                    kid: kid_to_uuid(&wire),
                    key: slice_to_vec(key),
                    class: KeyClass::from_wire(container.key_type),
                },
            )
        },
    }
}

/// Authenticates a licence and unwraps its keys.
///
/// A licence whose signature does not match is refused as a whole, and no
/// key of it is unwrapped. Otherwise there is one outcome for each
/// container, in order; a container that fails does not stop the others.
pub fn derive_and_unwrap(session_key: &[u8; 16], contexts: &KeyContexts, license: &LicenseBody) -> (r:
    Result<Vec<KeyOutcome>, CdmError>)
    ensures
        match license_outcome(
            session_key@,
            contexts.enc@,
            contexts.mac@,
            license.message@,
            license.signature@,
            containers_view(license.keys@),
        ) {
            Ok(outcomes) => r is Ok && outcomes_view(r->Ok_0@) == outcomes,
            Err(e) => r is Err && r->Err_0@ == e,
        },
{
    let keys = derive_keys(session_key, contexts);
    if !hmac_sha256_matches(
        keys.mac_key_server.as_slice(),
        license.message.as_slice(),
        license.signature.as_slice(),
    ) {
        return Err(CdmError::ResponseAuthenticationFailed);
    }
    let ghost enc = keys.enc_key@;
    let ghost wanted = containers_view(license.keys@).map_values(
        |c: KeyContainerView| outcome_of(enc, c),
    );
    let mut outcomes: Vec<KeyOutcome> = Vec::new();
    let mut i: usize = 0;
    while i < license.keys.len()
        invariant
            i <= license.keys.len(),
            enc == keys.enc_key@,
            wanted == containers_view(license.keys@).map_values(
                |c: KeyContainerView| outcome_of(enc, c),
            ),
            outcomes@.len() == i,
            forall|j: int| 0 <= j < i ==> (#[trigger] outcomes@[j])@ == wanted[j],
        decreases license.keys.len() - i,
    {
        let outcome = unwrap_key(&keys.enc_key, &license.keys[i]);
        outcomes.push(outcome);
        i = i + 1;
    }
    Ok(outcomes)
}

/// The keys of kind `Content` among the outcomes, in order: what a decryption
/// pipeline is handed by default. The other keys stay in the outcomes.
pub fn content_keys(outcomes: &Vec<KeyOutcome>) -> (r: Vec<ContentKey>)
    ensures
        content_keys_view(r@) == content_from(outcomes_view(outcomes@), 0, Seq::empty()),
{
    let mut keys: Vec<ContentKey> = Vec::new();
    assert(content_keys_view(keys@) =~= Seq::<ContentKeyView>::empty());
    let mut i: usize = 0;
    while i < outcomes.len()
        invariant
            i <= outcomes.len(),
            content_from(outcomes_view(outcomes@), 0, Seq::empty()) == content_from(
                outcomes_view(outcomes@),
                i as int,
                content_keys_view(keys@),
            ),
        decreases outcomes.len() - i,
    {
        let ghost before = content_keys_view(keys@);
        match &outcomes[i] {
            KeyOutcome::Unwrapped(k) => {
                match k.class {
                    KeyClass::Typed(KeyType::Content) => {
                        let key = ContentKey {
                            kid: k.kid,
                            key: slice_to_vec(k.key.as_slice()),
                            key_type: KeyType::Content,
                        };
                        keys.push(key);
                        assert(content_keys_view(keys@) =~= before.push(key@));
                    },
                    _ => {},
                }
            },
            _ => {},
        }
        i = i + 1;
    }
    keys
}

/// An unauthenticated licence yields no key: whatever its containers hold,
/// a signature that is not the tag of the message is the end of it.
pub proof fn lemma_unauthenticated_yields_nothing(
    session_key: Seq<u8>,
    enc: Seq<u8>,
    mac: Seq<u8>,
    message: Seq<u8>,
    signature: Seq<u8>,
    containers: Seq<KeyContainerView>,
)
    requires
        signature != hmac_sha256(derived_from(session_key, enc, mac).mac_key_server, message),
    ensures
        license_outcome(session_key, enc, mac, message, signature, containers) == Err::<
            Seq<KeyOutcomeView>,
            CdmErrorView,
        >(CdmErrorView::ResponseAuthenticationFailed),
{
}

/// An authenticated licence has one outcome for each container, and the
/// outcome of a container depends on that container alone: a failed one does
/// not change what the others give.
pub proof fn lemma_outcomes_are_independent(
    session_key: Seq<u8>,
    enc: Seq<u8>,
    mac: Seq<u8>,
    message: Seq<u8>,
    signature: Seq<u8>,
    containers: Seq<KeyContainerView>,
    i: int,
)
    requires
        signature == hmac_sha256(derived_from(session_key, enc, mac).mac_key_server, message),
        0 <= i < containers.len(),
    ensures
        license_outcome(session_key, enc, mac, message, signature, containers) is Ok,
        license_outcome(session_key, enc, mac, message, signature, containers)->Ok_0.len()
            == containers.len(),
        license_outcome(session_key, enc, mac, message, signature, containers)->Ok_0[i]
            == outcome_of(derived_from(session_key, enc, mac).enc_key, containers[i]),
{
}

} // verus!
