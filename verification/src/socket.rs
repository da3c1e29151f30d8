//! Connecting to a remote desktop and verifying its password.
//!
//! Connecting registers an endpoint for the remote device together with the
//! RSA key with which the remote device wants the password encrypted. The
//! password verification takes that key out of the endpoint (it serves one
//! verification), encrypts the password with it, and sends it along with an
//! ephemeral X25519 public key and a salt; once the remote device answers,
//! the session keys are derived with HKDF-SHA512.
//!
//! Each operation is split where it awaits the remote device: the
//! first half builds the request, the caller sends it and awaits the reply,
//! the second half takes the reply.
use crate::crypto::{
    exponent_accepted, fill_random, pkcs1v15_encrypts, hkdf_sha512_fill, le_byte_len, x25519_agree, x25519_generate,
    x25519_public_key, PasswordVerifyKey, CHACHA20_POLY1305_KEY_LEN, X25519_KEY_LEN,
};
use crate::error::{CoreError, CoreResult};
use ring::agreement::EphemeralPrivateKey;
use ring::rand::SystemRandom;
use vstd::prelude::*;

verus! {

/// What the library knows of one connected endpoint: the local device id and,
/// while it is still there, the password-verification key (modulus and
/// exponent, little-endian).
pub type EndpointView = (Seq<char>, Option<(Seq<u8>, Seq<u8>)>);

/// The view of an optional password-verification key.
pub open spec fn key_view(key: Option<PasswordVerifyKey>) -> Option<(Seq<u8>, Seq<u8>)> {
    match key {
        Some(k) => Some(k.view()),
        None => None,
    }
}

/// A connection to a remote device.
pub struct Endpoint {
    local_device_id: String,
    remote_device_id: String,
    password_verify_key: Option<PasswordVerifyKey>,
}

impl View for Endpoint {
    type V = EndpointView;

    closed spec fn view(&self) -> EndpointView {
        (self.local_device_id@, key_view(self.password_verify_key))
    }
}

impl Endpoint {
    pub closed spec fn remote_id(&self) -> Seq<char> {
        self.remote_device_id@
    }
}

/// The endpoints of this device, one per remote device.
pub struct EndpointTable {
    endpoints: Vec<Endpoint>,
}

/// No remote device occurs twice in `s`.
pub closed spec fn distinct_ids(s: Seq<Endpoint>) -> bool {
    forall|i: int, j: int|
        0 <= i < j < s.len() ==> #[trigger] s[i].remote_id() != #[trigger] s[j].remote_id()
}

pub closed spec fn has_id(s: Seq<Endpoint>, id: Seq<char>) -> bool {
    exists|i: int| 0 <= i < s.len() && #[trigger] s[i].remote_id() == id
}

pub closed spec fn index_of_id(s: Seq<Endpoint>, id: Seq<char>) -> int {
    choose|i: int| 0 <= i < s.len() && #[trigger] s[i].remote_id() == id
}

/// The endpoints of `s`, keyed by remote device id.
pub closed spec fn table_view(s: Seq<Endpoint>) -> Map<Seq<char>, EndpointView> {
    Map::new(|id: Seq<char>| has_id(s, id), |id: Seq<char>| s[index_of_id(s, id)].view())
}

proof fn lemma_index_of(s: Seq<Endpoint>, i: int)
    requires
        distinct_ids(s),
        0 <= i < s.len(),
    ensures
        has_id(s, s[i].remote_id()),
        index_of_id(s, s[i].remote_id()) == i,
        table_view(s).dom().contains(s[i].remote_id()),
        table_view(s)[s[i].remote_id()] == s[i].view(),
{
    let id = s[i].remote_id();
    assert(has_id(s, id));
    let j = index_of_id(s, id);
    if j < i {
        assert(s[j].remote_id() != s[i].remote_id());
    } else if i < j {
        assert(s[i].remote_id() != s[j].remote_id());
    }
}

/// `t` holds `e` and otherwise the entries of `s` at the same positions, so
/// its view is that of `s` with the endpoint of `e` set.
proof fn lemma_view_with_entry(s: Seq<Endpoint>, t: Seq<Endpoint>, k: int, e: Endpoint)
    requires
        distinct_ids(s),
        distinct_ids(t),
        0 <= k < t.len(),
        t[k] == e,
        forall|j: int| 0 <= j < s.len() && s[j].remote_id() != e.remote_id() ==> j < t.len() && t[j] == s[j],
        forall|j: int| 0 <= j < t.len() && t[j].remote_id() != e.remote_id() ==> j < s.len() && t[j] == s[j],
    ensures
        table_view(t) == table_view(s).insert(e.remote_id(), e.view()),
{
    lemma_index_of(t, k);
    assert forall|id: Seq<char>| id != e.remote_id() implies has_id(t, id) == has_id(s, id) by {
        if has_id(s, id) {
            let j = index_of_id(s, id);
            assert(t[j].remote_id() == id);
        }
        if has_id(t, id) {
            let j = index_of_id(t, id);
            assert(s[j].remote_id() == id);
        }
    }
    assert forall|id: Seq<char>| #[trigger] has_id(t, id) && id != e.remote_id() implies t[index_of_id(
        t,
        id,
    )].view() == s[index_of_id(s, id)].view() by {
        let j = index_of_id(t, id);
        lemma_index_of(t, j);
        lemma_index_of(s, j);
    }
    assert(table_view(t) =~= table_view(s).insert(e.remote_id(), e.view()));
}

proof fn lemma_view_update(s: Seq<Endpoint>, i: int, e: Endpoint)
    requires
        distinct_ids(s),
        0 <= i < s.len(),
        e.remote_id() == s[i].remote_id(),
    ensures
        distinct_ids(s.update(i, e)),
        table_view(s.update(i, e)) == table_view(s).insert(e.remote_id(), e.view()),
{
    let t = s.update(i, e);
    assert forall|a: int, b: int| 0 <= a < b < t.len() implies #[trigger] t[a].remote_id()
        != #[trigger] t[b].remote_id() by {
        assert(s[a].remote_id() != s[b].remote_id());
    }
    lemma_view_with_entry(s, t, i, e);
}

proof fn lemma_view_push(s: Seq<Endpoint>, e: Endpoint)
    requires
        distinct_ids(s),
        !has_id(s, e.remote_id()),
    ensures
        distinct_ids(s.push(e)),
        table_view(s.push(e)) == table_view(s).insert(e.remote_id(), e.view()),
{
    let t = s.push(e);
    assert forall|a: int, b: int| 0 <= a < b < t.len() implies #[trigger] t[a].remote_id()
        != #[trigger] t[b].remote_id() by {
        if b == s.len() {
            assert(s[a].remote_id() != e.remote_id());
        } else {
            assert(s[a].remote_id() != s[b].remote_id());
        }
    }
    assert forall|j: int| 0 <= j < s.len() && s[j].remote_id() != e.remote_id() implies j < t.len() && t[j] == s[j] by {}
    lemma_view_with_entry(s, t, s.len() as int, e);
}

impl View for EndpointTable {
    type V = Map<Seq<char>, EndpointView>;

    closed spec fn view(&self) -> Map<Seq<char>, EndpointView> {
        table_view(self.endpoints@)
    }
}

impl EndpointTable {
    #[verifier::type_invariant]
    closed spec fn ids_are_distinct(self) -> bool {
        distinct_ids(self.endpoints@)
    }

    /// A table without endpoints.
    pub fn new() -> (t: Self)
        ensures
            t@ == Map::<Seq<char>, EndpointView>::empty(),
    {
        let t = EndpointTable { endpoints: Vec::new() };
        assert(t@ =~= Map::<Seq<char>, EndpointView>::empty());
        t
    }

    /// Where the endpoint of `remote_device_id` stands, if there is one.
    fn position(&self, remote_device_id: &String) -> (r: Option<usize>)
        ensures
            r matches Some(i) ==> i < self.endpoints@.len() && self.endpoints@[i as int].remote_id()
                == remote_device_id@,
            r is None ==> !has_id(self.endpoints@, remote_device_id@),
    {
        let mut i: usize = 0;
        while i < self.endpoints.len()
            invariant
                i <= self.endpoints@.len(),
                forall|j: int| 0 <= j < i ==> #[trigger] self.endpoints@[j].remote_id()
                    != remote_device_id@,
            decreases self.endpoints@.len() - i,
        {
            if self.endpoints[i].remote_device_id == *remote_device_id {
                return Some(i);
            }
            i = i + 1;
        }
        None
    }

    /// Whether `remote_device_id` is connected.
    pub fn contains(&self, remote_device_id: &String) -> (b: bool)
        ensures
            b == self@.dom().contains(remote_device_id@),
    {
        proof {
            use_type_invariant(self);
        }
        match self.position(remote_device_id) {
            Some(i) => {
                proof {
                    lemma_index_of(self.endpoints@, i as int);
                }
                true
            },
            None => false,
        }
    }

    /// The key size in bytes of the password-verification key of
    /// `remote_device_id`, if it is connected and the key is still there.
    pub fn password_verify_key_size(&self, remote_device_id: &String) -> (r: Option<usize>)
        ensures
            r == (match self@.get(remote_device_id@) {
                Some(e) => match e.1 {
                    Some(k) => Some(le_byte_len(k.0) as usize),
                    None => None,
                },
                None => None,
            }),
    {
        proof {
            use_type_invariant(self);
        }
        match self.position(remote_device_id) {
            Some(i) => {
                proof {
                    lemma_index_of(self.endpoints@, i as int);
                }
                match &self.endpoints[i].password_verify_key {
                    Some(k) => Some(k.key_size()),
                    None => None,
                }
            },
            None => None,
        }
    }

    /// Registers `endpoint`, replacing the endpoint of the same remote device.
    fn insert(&mut self, endpoint: Endpoint)
        ensures
            final(self)@ == old(self)@.insert(endpoint.remote_id(), endpoint.view()),
    {
        proof {
            use_type_invariant(&*self);
        }
        let ghost s = self.endpoints@;
        let position = self.position(&endpoint.remote_device_id);
        let mut endpoints = Vec::new();
        std::mem::swap(&mut endpoints, &mut self.endpoints);
        match position {
            Some(i) => {
                proof {
                    lemma_view_update(s, i as int, endpoint);
                }
                endpoints.set(i, endpoint);
            },
            None => {
                proof {
                    lemma_view_push(s, endpoint);
                }
                endpoints.push(endpoint);
            },
        }
        self.endpoints = endpoints;
    }

    /// Takes the password-verification key out of the endpoint of
    /// `remote_device_id`; the endpoint stays, without a key.
    pub fn take_password_verify_key(&mut self, remote_device_id: &String) -> (r: CoreResult<
        PasswordVerifyKey,
    >)
        ensures
            key_exchange_refusal(old(self)@, remote_device_id@) matches Some(err) ==> r == Err::<
                PasswordVerifyKey,
                CoreError,
            >(err) && final(self)@ == old(self)@,
            key_exchange_refusal(old(self)@, remote_device_id@) is None ==> (r matches Ok(k) && Some(
                k.view(),
            ) == old(self)@[remote_device_id@].1 && final(self)@ == key_taken(
                old(self)@,
                remote_device_id@,
            )),
    {
        proof {
            use_type_invariant(&*self);
        }
        let ghost s = self.endpoints@;
        match self.position(remote_device_id) {
            None => Err(CoreError::RemoteDeviceNotConnected),
            Some(i) => {
                proof {
                    lemma_index_of(s, i as int);
                }
                if self.endpoints[i].password_verify_key.is_none() {
                    return Err(CoreError::PasswordVerifyPublicKeyNotExists);
                }
                let local_device_id = self.endpoints[i].local_device_id.clone();
                let remote = self.endpoints[i].remote_device_id.clone();
                let emptied = Endpoint {
                    local_device_id,
                    remote_device_id: remote,
                    password_verify_key: None,
                };
                proof {
                    lemma_view_update(s, i as int, emptied);
                }
                let mut endpoints = Vec::new();
                std::mem::swap(&mut endpoints, &mut self.endpoints);
                let mut old_endpoint = emptied;
                std::mem::swap(&mut endpoints[i], &mut old_endpoint);
                self.endpoints = endpoints;
                match old_endpoint.password_verify_key {
                    Some(k) => Ok(k),
                    None => Err(CoreError::PasswordVerifyPublicKeyNotExists),
                }
            },
        }
    }
}

/// Why a password verification with `remote_device_id` is refused before
/// anything is computed, if it is: the device is not connected, or its key
/// has already been used.
pub open spec fn key_exchange_refusal(endpoints: Map<Seq<char>, EndpointView>, remote_device_id: Seq<char>) -> Option<CoreError> {
    if !endpoints.dom().contains(remote_device_id) {
        Some(CoreError::RemoteDeviceNotConnected)
    } else if endpoints[remote_device_id].1 is None {
        Some(CoreError::PasswordVerifyPublicKeyNotExists)
    } else {
        None
    }
}

/// The endpoints once the key of `remote_device_id` has been taken out.
pub open spec fn key_taken(endpoints: Map<Seq<char>, EndpointView>, remote_device_id: Seq<char>) -> Map<Seq<char>, EndpointView> {
    endpoints.insert(remote_device_id, (endpoints[remote_device_id].0, None))
}


/// The two device ids of a connection that is being set up.
pub struct ConnectTarget {
    pub local_device_id: String,
    pub remote_device_id: String,
}

/// Why connecting to `remote_device_id` is refused before anything is sent,
/// if it is: the device is already connected, or this device has no id.
pub open spec fn connect_refusal(endpoints: Map<Seq<char>, EndpointView>, remote_device_id: Seq<char>, local_device_id: Option<String>) -> Option<CoreError> {
    if endpoints.dom().contains(remote_device_id) {
        Some(CoreError::AlreadyConnected)
    } else if local_device_id is None {
        Some(CoreError::LocalDeviceIdNotSet)
    } else {
        None
    }
}

/// The endpoints once the connection to `target` is registered with the key
/// whose modulus and exponent the remote device sent.
pub open spec fn connected(endpoints: Map<Seq<char>, EndpointView>, target: ConnectTarget, pub_key_n: Seq<u8>, pub_key_e: Seq<u8>) -> Map<Seq<char>, EndpointView> {
    endpoints.insert(target.remote_device_id@, (target.local_device_id@, Some((pub_key_n, pub_key_e))))
}

/// The first half of connecting to a remote desktop, before the connect
/// request goes out: a device that is already connected is refused, and this
/// device must have an id (`local_device_id`, as read from the configuration).
pub fn prepare_desktop_connect(endpoints: &EndpointTable, remote_device_id: String, local_device_id: Option<String>) -> (r: CoreResult<ConnectTarget>)
    ensures
        connect_refusal(endpoints@, remote_device_id@, local_device_id) matches Some(err) ==> r
            == Err::<ConnectTarget, CoreError>(err),
        connect_refusal(endpoints@, remote_device_id@, local_device_id) is None ==> r == Ok::<
            ConnectTarget,
            CoreError,
        >(ConnectTarget { local_device_id: local_device_id.unwrap(), remote_device_id }),
        endpoints@.dom().contains(remote_device_id@) ==> r == Err::<ConnectTarget, CoreError>(
            CoreError::AlreadyConnected,
        ),
        !endpoints@.dom().contains(remote_device_id@) && local_device_id is None ==> r == Err::<
            ConnectTarget,
            CoreError,
        >(CoreError::LocalDeviceIdNotSet),
        !endpoints@.dom().contains(remote_device_id@) && local_device_id is Some ==> (r matches Ok(
            t,
        ) && t.remote_device_id@ == remote_device_id@ && t.local_device_id@
            == local_device_id.unwrap()@),
{
    if endpoints.contains(&remote_device_id) {
        return Err(CoreError::AlreadyConnected);
    }
    match local_device_id {
        Some(local_device_id) => Ok(ConnectTarget { local_device_id, remote_device_id }),
        None => Err(CoreError::LocalDeviceIdNotSet),
    }
}

/// The second half of connecting, once the remote device has answered with
/// the modulus and exponent (little-endian) of its password-verification
/// key: the key is built and the endpoint registered with it. A key that
/// `rsa` refuses leaves the endpoints as they were.
pub fn complete_desktop_connect(endpoints: &mut EndpointTable, target: ConnectTarget, pub_key_n: &[u8], pub_key_e: &[u8]) -> (r: CoreResult<()>)
    ensures
        exponent_accepted(pub_key_e@) ==> r is Ok && final(endpoints)@ == connected(
            old(endpoints)@,
            target,
            pub_key_n@,
            pub_key_e@,
        ),
        !exponent_accepted(pub_key_e@) ==> r == Err::<(), CoreError>(
            CoreError::InvalidPasswordVerifyPublicKey,
        ) && final(endpoints)@ == old(endpoints)@,
{
    let key = match PasswordVerifyKey::from_le_bytes(pub_key_n, pub_key_e) {
        Ok(key) => key,
        Err(_) => return Err(CoreError::InvalidPasswordVerifyPublicKey),
    };
    let endpoint = Endpoint {
        local_device_id: target.local_device_id,
        remote_device_id: target.remote_device_id,
        password_verify_key: Some(key),
    };
    endpoints.insert(endpoint);
    Ok(())
}

/// What goes to the remote device to verify the password and exchange keys.
pub struct KeyExchangeAndVerifyPasswordRequest {
    pub password_secret: Vec<u8>,
    pub exchange_pub_key: Vec<u8>,
    pub exchange_salt: Vec<u8>,
}

/// What the remote device answers.
pub struct KeyExchangeAndVerifyPasswordResponse {
    pub success: bool,
    pub exchange_pub_key: Vec<u8>,
    pub exchange_salt: Vec<u8>,
}

/// A key exchange waiting for the remote device's answer: the ephemeral
/// private key and the salt that were sent.
pub struct PendingKeyExchange {
    local_private_key: EphemeralPrivateKey,
    exchange_salt: Vec<u8>,
}

/// The password as the bytes that get encrypted (UTF-8).
pub open spec fn password_bytes(password: Seq<char>) -> Seq<u8> {
    vstd::utf8::encode_utf8(password)
}

/// Whether the password fits in one PKCS#1 v1.5 block of a key with this modulus.
pub open spec fn password_fits(password: Seq<char>, modulus: Seq<u8>) -> bool {
    password_bytes(password).len() + 11 <= le_byte_len(modulus)
}

/// The errors that the randomised steps of a key exchange may end in.
pub open spec fn random_step_error(err: CoreError) -> bool {
    ||| err == CoreError::GenerateEphemeralKeyFailed
    ||| err == CoreError::ComputePublicKeyFailed
    ||| err == CoreError::GenerateExchangeSaltFailed
}

/// The first half of verifying the password of `remote_device_id` and
/// exchanging keys with it, before the request goes out.
///
/// The password-verification key is taken out of the endpoint (so it serves
/// this attempt only, whatever comes of it), the password is encrypted with
/// it, and an ephemeral X25519 key pair is generated. The exchange salt is a
/// vector with room for 32 bytes that the system generator fills, which
/// leaves it empty, as it has no length yet.
///
/// Whether the random generators fail is not in the caller's hands; the
/// encrypted password is as long as the key and the public key 32 bytes.
pub fn begin_key_exchange_and_password_verify(endpoints: &mut EndpointTable, remote_device_id: &String, password: &String) -> (r: CoreResult<(KeyExchangeAndVerifyPasswordRequest, PendingKeyExchange)>)
    requires
        old(endpoints)@.dom().contains(remote_device_id@) ==> (old(endpoints)@[remote_device_id@].1 matches Some(k) ==> le_byte_len(k.0) >= 11),
    ensures
        key_exchange_refusal(old(endpoints)@, remote_device_id@) matches Some(err) ==> r
            == Err::<(KeyExchangeAndVerifyPasswordRequest, PendingKeyExchange), CoreError>(err)
            && final(endpoints)@ == old(endpoints)@,
        key_exchange_refusal(old(endpoints)@, remote_device_id@) is None ==> ({
            let modulus = old(endpoints)@[remote_device_id@].1.unwrap().0;
            &&& final(endpoints)@ == key_taken(old(endpoints)@, remote_device_id@)
            &&& !password_fits(password@, modulus) ==> r
                == Err::<(KeyExchangeAndVerifyPasswordRequest, PendingKeyExchange), CoreError>(
                CoreError::EncryptPasswordFailed,
            )
            &&& password_fits(password@, modulus) ==> (r matches Err(err) ==> random_step_error(err))
            &&& r matches Ok((request, _)) ==> {
                &&& pkcs1v15_encrypts(
                    modulus,
                    old(endpoints)@[remote_device_id@].1.unwrap().1,
                    password_bytes(password@),
                    request.password_secret@,
                )
                &&& request.password_secret@.len() == le_byte_len(modulus)
                &&& request.exchange_pub_key@.len() == X25519_KEY_LEN
                &&& request.exchange_salt@.len() == 0
            }
        }),
{
    let key = match endpoints.take_password_verify_key(remote_device_id) {
        Ok(key) => key,
        Err(err) => return Err(err),
    };
    let mut rng = rand::thread_rng();
    let password_secret = match key.encrypt_pkcs1v15(&mut rng, password.as_str().as_bytes()) {
        Ok(secret) => secret,
        Err(_) => return Err(CoreError::EncryptPasswordFailed),
    };
    let ephemeral_rng = SystemRandom::new();
    let local_private_key = match x25519_generate(&ephemeral_rng) {
        Ok(key) => key,
        Err(_) => return Err(CoreError::GenerateEphemeralKeyFailed),
    };
    let exchange_pub_key = match x25519_public_key(&local_private_key) {
        Ok(public_key) => public_key,
        Err(_) => return Err(CoreError::ComputePublicKeyFailed),
    };
    let mut exchange_salt: Vec<u8> = Vec::with_capacity(32);
    match fill_random(&ephemeral_rng, &mut exchange_salt) {
        Ok(()) => {},
        Err(_) => return Err(CoreError::GenerateExchangeSaltFailed),
    }
    let request = KeyExchangeAndVerifyPasswordRequest {
        password_secret,
        exchange_pub_key,
        exchange_salt: exchange_salt.clone(),
    };
    Ok((request, PendingKeyExchange { local_private_key, exchange_salt }))
}

/// The second half of the password verification, once the remote device has
/// answered.
///
/// A refused password is `Ok(false)`. Otherwise the shared secret is agreed
/// with the remote's public key and the send and receive keys are derived
/// from it with HKDF-SHA512 (salted with our salt and the remote's salt).
/// Each key is filled into a vector with room for 32 bytes but no length,
/// which ring refuses, so an accepted password always ends in
/// `KeyAgreementFailed`.
pub fn finish_key_exchange_and_password_verify(pending: PendingKeyExchange, response: &KeyExchangeAndVerifyPasswordResponse) -> (r: CoreResult<bool>)
    ensures
        !response.success ==> r == Ok::<bool, CoreError>(false),
        response.success ==> r == Err::<bool, CoreError>(CoreError::KeyAgreementFailed),
{
    if !response.success {
        return Ok(false);
    }
    let key_material = match x25519_agree(pending.local_private_key, response.exchange_pub_key.as_slice()) {
        Ok(secret) => secret,
        Err(_) => return Err(CoreError::KeyAgreementFailed),
    };
    let no_info: Vec<u8> = Vec::new();
    let mut send_key: Vec<u8> = Vec::with_capacity(CHACHA20_POLY1305_KEY_LEN);
    match hkdf_sha512_fill(pending.exchange_salt.as_slice(), key_material.as_slice(), no_info.as_slice(), &mut send_key) {
        Ok(()) => {},
        Err(_) => return Err(CoreError::KeyAgreementFailed),
    }
    let mut recv_key: Vec<u8> = Vec::with_capacity(CHACHA20_POLY1305_KEY_LEN);
    match hkdf_sha512_fill(response.exchange_salt.as_slice(), key_material.as_slice(), no_info.as_slice(), &mut recv_key) {
        Ok(()) => {},
        Err(_) => return Err(CoreError::KeyAgreementFailed),
    }
    Ok(true)
}


/// Once a device is connected, connecting to it again is refused, whatever
/// the local device id.
pub proof fn law_connected_device_is_refused(endpoints: Map<Seq<char>, EndpointView>, target: ConnectTarget, pub_key_n: Seq<u8>, pub_key_e: Seq<u8>, local_device_id: Option<String>)
    ensures
        connect_refusal(
            connected(endpoints, target, pub_key_n, pub_key_e),
            target.remote_device_id@,
            local_device_id,
        ) == Some(CoreError::AlreadyConnected),
{
}

/// A fresh connection holds the key that the remote device sent, so a
/// password verification with it goes ahead.
pub proof fn law_fresh_connection_has_key(endpoints: Map<Seq<char>, EndpointView>, target: ConnectTarget, pub_key_n: Seq<u8>, pub_key_e: Seq<u8>)
    ensures
        key_exchange_refusal(
            connected(endpoints, target, pub_key_n, pub_key_e),
            target.remote_device_id@,
        ) is None,
        connected(endpoints, target, pub_key_n, pub_key_e)[target.remote_device_id@] == (
            target.local_device_id@,
            Some((pub_key_n, pub_key_e)),
        ),
{
}

/// The password-verification key serves one verification: once taken, the
/// endpoint stays connected and the next verification is refused with
/// `PasswordVerifyPublicKeyNotExists` until the device connects again.
pub proof fn law_key_serves_once(endpoints: Map<Seq<char>, EndpointView>, remote_device_id: Seq<char>)
    requires
        key_exchange_refusal(endpoints, remote_device_id) is None,
    ensures
        key_taken(endpoints, remote_device_id).dom() == endpoints.dom(),
        key_exchange_refusal(key_taken(endpoints, remote_device_id), remote_device_id) == Some(
            CoreError::PasswordVerifyPublicKeyNotExists,
        ),
{
    assert(key_taken(endpoints, remote_device_id).dom() =~= endpoints.dom());
}

/// Connecting to one device, or verifying the password of one device, leaves
/// the endpoints of every other device as they were.
pub proof fn law_other_endpoints_untouched(endpoints: Map<Seq<char>, EndpointView>, target: ConnectTarget, pub_key_n: Seq<u8>, pub_key_e: Seq<u8>, remote_device_id: Seq<char>, other: Seq<char>)
    requires
        other != target.remote_device_id@,
        other != remote_device_id,
    ensures
        connected(endpoints, target, pub_key_n, pub_key_e).dom().contains(other) == endpoints.dom().contains(other),
        key_taken(endpoints, remote_device_id).dom().contains(other) == endpoints.dom().contains(other),
        endpoints.dom().contains(other) ==> connected(endpoints, target, pub_key_n, pub_key_e)[other] == endpoints[other]
            && key_taken(endpoints, remote_device_id)[other] == endpoints[other],
{
}


/// After a connection, one password verification goes ahead, and whatever
/// came of it (it takes the key out on every outcome past the refusals), the
/// next verification with the same device is refused with
/// `PasswordVerifyPublicKeyNotExists` until the device connects again.
pub proof fn law_second_verification_after_connect_is_refused(endpoints: Map<Seq<char>, EndpointView>, target: ConnectTarget, pub_key_n: Seq<u8>, pub_key_e: Seq<u8>)
    ensures
        key_exchange_refusal(
            connected(endpoints, target, pub_key_n, pub_key_e),
            target.remote_device_id@,
        ) is None,
        key_exchange_refusal(
            key_taken(connected(endpoints, target, pub_key_n, pub_key_e), target.remote_device_id@),
            target.remote_device_id@,
        ) == Some(CoreError::PasswordVerifyPublicKeyNotExists),
{
    law_fresh_connection_has_key(endpoints, target, pub_key_n, pub_key_e);
    law_key_serves_once(connected(endpoints, target, pub_key_n, pub_key_e), target.remote_device_id@);
}


/// Connecting is refused only for these two reasons: as already connected
/// exactly when the table holds the remote device, and for a missing local id
/// exactly when it does not and no local id is set; any other device, with a
/// local id, is connected.
pub proof fn law_connect_refused_only_when_connected_or_unnamed(endpoints: Map<Seq<char>, EndpointView>, remote_device_id: Seq<char>, local_device_id: Option<String>)
    ensures
        connect_refusal(endpoints, remote_device_id, local_device_id) == Some(CoreError::AlreadyConnected)
            <==> endpoints.dom().contains(remote_device_id),
        connect_refusal(endpoints, remote_device_id, local_device_id) == Some(CoreError::LocalDeviceIdNotSet)
            <==> !endpoints.dom().contains(remote_device_id) && local_device_id is None,
        connect_refusal(endpoints, remote_device_id, local_device_id) is None
            <==> !endpoints.dom().contains(remote_device_id) && local_device_id is Some,
{
}

} // verus!
