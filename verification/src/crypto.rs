//! Protection of wallet private keys: the key is sealed with a key derived
//! from the user's PIN, then with a random data encryption key (DEK), and the
//! DEK is sealed with the master key. Sealing XORs the data with the key and
//! appends a 16-byte tag taken from SHA-256 over data, key and IV; opening
//! checks the tag. Binary fields are stored hex-encoded.
use vstd::prelude::*;
use vstd::utf8::{encode_utf8, decode_utf8, valid_utf8};
use crate::error::AppError;
use crate::store::KeyedStore;
use crate::text::{owned, str_eq};

verus! {

/// PBKDF2 iteration count for PIN-derived keys.
pub const PBKDF2_ITERATIONS: u32 = 10000;
/// Length of the PIN salt.
pub const SALT_LENGTH: usize = 16;
/// Length of each IV.
pub const IV_LENGTH: usize = 12;
/// Length of derived keys and DEKs.
pub const KEY_LENGTH: usize = 32;
/// Length of the authentication tag.
pub const TAG_LENGTH: usize = 16;

/// SHA-256 digest of the bytes (computed by the `sha2` crate).
pub uninterp spec fn sha256(data: Seq<u8>) -> Seq<u8>;

/// PBKDF2 with HMAC-SHA512 (computed by the `pbkdf2` crate): the key of
/// length `len` derived from `password` and `salt` in `rounds` iterations.
pub uninterp spec fn pbkdf2_hmac_sha512(password: Seq<u8>, salt: Seq<u8>, rounds: u32, len: nat) -> Seq<u8>;

/// SHA-256 of `data` (`sha2::Sha256::digest`): the named digest, 32 bytes long.
#[verifier::external_body]
fn sha256_digest(data: &[u8]) -> (r: Vec<u8>)
    ensures
        r@ == sha256(data@),
        r@.len() == 32,
{
    <sha2::Sha256 as sha2::Digest>::digest(data).to_vec()
}

/// `pbkdf2::pbkdf2::<Hmac<Sha512>>` into a buffer of `len` zero bytes. With
/// HMAC as the PRF the call cannot fail (HMAC accepts keys of any length), so
/// the derived key is always returned.
#[verifier::external_body]
fn pbkdf2_sha512(password: &[u8], salt: &[u8], rounds: u32, len: usize) -> (r: Option<Vec<u8>>)
    ensures
        r is Some,
        r->0@ == pbkdf2_hmac_sha512(password@, salt@, rounds, len as nat),
        r->0@.len() == len,
{
    let mut key = vec![0u8; len];
    match pbkdf2::pbkdf2::<hmac::Hmac<sha2::Sha512>>(password, salt, rounds, &mut key) {
        Ok(()) => Some(key),
        Err(_) => None,
    }
}

/// `len` bytes from the thread-local generator of `rand` (`rng().fill_bytes`);
/// only the length is known.
#[verifier::external_body]
fn random_bytes(len: usize) -> (r: Vec<u8>)
    ensures
        r@.len() == len,
{
    let mut bytes = vec![0u8; len];
    rand::RngCore::fill_bytes(&mut rand::rng(), &mut bytes);
    bytes
}

/// A fresh random UUID (`uuid::Uuid::new_v4`) in its hyphenated form.
#[verifier::external_body]
fn new_uuid_string() -> (r: String) {
    uuid::Uuid::new_v4().to_string()
}

/// Lowercase hexadecimal digit for `n < 16`.
pub open spec fn hex_digit(n: u8) -> char {
    if n < 10 { (('0' as u8) + n) as char } else { (('a' as u8) + (n - 10)) as char }
}

/// `hex::encode`: two lowercase digits per byte, high nibble first.
pub open spec fn hex_encode(b: Seq<u8>) -> Seq<char> {
    Seq::new(2 * b.len(), |i: int| if i % 2 == 0 { hex_digit(b[i / 2] / 16) } else { hex_digit(b[i / 2] % 16) })
}

/// A character that `hex::decode` accepts.
pub open spec fn is_hex_char(c: char) -> bool {
    ('0' <= c && c <= '9') || ('a' <= c && c <= 'f') || ('A' <= c && c <= 'F')
}

/// Value of a hexadecimal digit.
pub open spec fn hex_val(c: char) -> int {
    if '0' <= c && c <= '9' { c as int - '0' as int }
    else if 'a' <= c && c <= 'f' { c as int - 'a' as int + 10 }
    else { c as int - 'A' as int + 10 }
}

/// `hex::decode`: an even number of hexadecimal digits (either case), two per byte.
pub open spec fn hex_decode(s: Seq<char>) -> Option<Seq<u8>> {
    if s.len() % 2 == 0 && (forall|i: int| 0 <= i < s.len() ==> #[trigger] is_hex_char(s[i])) {
        Some(Seq::new(s.len() / 2, |i: int| (hex_val(s[2 * i]) * 16 + hex_val(s[2 * i + 1])) as u8))
    } else {
        None
    }
}

/// `hex::encode` (lowercase digits, high nibble first).
#[verifier::external_body]
fn hex_encode_bytes(b: &[u8]) -> (r: String)
    ensures
        r@ == hex_encode(b@),
{
    hex::encode(b)
}

/// `prefix` followed by the hex form of `bytes`.
pub fn hex_string(bytes: &[u8], prefix: &str) -> (r: String)
    ensures
        r@ == prefix@ + hex_encode(bytes@),
{
    let h = hex_encode_bytes(bytes);
    let mut r = owned(prefix);
    r.append(h.as_str());
    r
}

/// `hex::decode` of the string's bytes: `None` for an odd length or a
/// character that is not a hexadecimal digit (any non-ASCII character is one).
#[verifier::external_body]
fn hex_decode_str(s: &str) -> (r: Option<Vec<u8>>)
    ensures
        r is Some <==> hex_decode(s@) is Some,
        r matches Some(b) ==> b@ == hex_decode(s@)->0,
{
    match hex::decode(s) {
        Ok(b) => Some(b),
        Err(_) => None,
    }
}

/// `String::from_utf8`: the string when the bytes are valid UTF-8.
#[verifier::external_body]
fn string_from_utf8(b: Vec<u8>) -> (r: Option<String>)
    ensures
        r is Some <==> valid_utf8(b@),
        r matches Some(s) ==> s@ == decode_utf8(b@),
{
    match String::from_utf8(b) {
        Ok(s) => Some(s),
        Err(_) => None,
    }
}

/// Every byte of `d` XORed with the key byte at the same position modulo the key length.
pub open spec fn xor_key(d: Seq<u8>, k: Seq<u8>) -> Seq<u8> {
    Seq::new(d.len(), |i: int| d[i] ^ k[i % (k.len() as int)])
}

/// The tag of `d` under key `k` and IV `iv`: the first 16 bytes of SHA-256 over `d ++ k ++ iv`.
pub open spec fn tag(d: Seq<u8>, k: Seq<u8>, iv: Seq<u8>) -> Seq<u8> {
    sha256(d + k + iv).take(16)
}

/// Sealed data: `d` XORed with the key, followed by the tag.
pub open spec fn seal(d: Seq<u8>, k: Seq<u8>, iv: Seq<u8>) -> Seq<u8> {
    xor_key(d, k) + tag(d, k, iv)
}

/// Opening sealed data: the data when the tag checks, otherwise the reason.
pub open spec fn open_sealed(ct: Seq<u8>, k: Seq<u8>, iv: Seq<u8>) -> Result<Seq<u8>, Seq<char>> {
    if ct.len() < 16 {
        Err("Invalid ciphertext format"@)
    } else {
        let d = xor_key(ct.take(ct.len() - 16), k);
        if ct.skip(ct.len() - 16) == tag(d, k, iv) {
            Ok(d)
        } else {
            Err("Invalid authentication tag"@)
        }
    }
}

/// The key is usable for data of this length (a key is needed unless the data is empty).
pub open spec fn key_usable(data_len: int, k: Seq<u8>) -> bool {
    data_len <= 0 || k.len() > 0
}

proof fn lemma_xor_twice(d: Seq<u8>, k: Seq<u8>)
    requires
        key_usable(d.len() as int, k),
    ensures
        xor_key(xor_key(d, k), k) =~= d,
{
    assert forall|i: int| 0 <= i < d.len() implies #[trigger] xor_key(xor_key(d, k), k)[i] == d[i] by {
        let a = d[i];
        let b = k[i % (k.len() as int)];
        assert((a ^ b) ^ b == a) by (bit_vector);
    }
}

/// Opening what was sealed under the same key and IV gives back the data.
pub proof fn lemma_open_seal(d: Seq<u8>, k: Seq<u8>, iv: Seq<u8>)
    requires
        key_usable(d.len() as int, k),
        sha256(d + k + iv).len() == 32,
    ensures
        open_sealed(seal(d, k, iv), k, iv) == Ok::<Seq<u8>, Seq<char>>(d),
{
    let ct = seal(d, k, iv);
    assert(ct.take(ct.len() - 16) =~= xor_key(d, k));
    assert(ct.skip(ct.len() - 16) =~= tag(d, k, iv));
    lemma_xor_twice(d, k);
}

proof fn lemma_hex_digit_val(n: u8)
    requires
        n < 16,
    ensures
        is_hex_char(hex_digit(n)),
        hex_val(hex_digit(n)) == n,
{
}

/// Decoding the hex encoding of bytes gives back the bytes.
pub proof fn lemma_hex_roundtrip(b: Seq<u8>)
    ensures
        hex_decode(hex_encode(b)) == Some(b),
{
    let e = hex_encode(b);
    assert forall|i: int| 0 <= i < e.len() implies #[trigger] is_hex_char(e[i]) by {
        lemma_hex_digit_val(b[i / 2] / 16);
        lemma_hex_digit_val(b[i / 2] % 16);
    }
    let r = hex_decode(e)->0;
    assert forall|i: int| 0 <= i < b.len() implies #[trigger] r[i] == b[i] by {
        assert((2 * i) / 2 == i);
        assert((2 * i + 1) / 2 == i);
        assert((2 * i) % 2 == 0);
        assert((2 * i + 1) % 2 == 1);
        lemma_hex_digit_val(b[i] / 16);
        lemma_hex_digit_val(b[i] % 16);
        assert(b[i] / 16 * 16 + b[i] % 16 == b[i]);
    }
    assert(r =~= b);
}

fn copy_bytes(b: &[u8]) -> (r: Vec<u8>)
    ensures
        r@ == b@,
{
    let mut r: Vec<u8> = Vec::new();
    let mut i: usize = 0;
    while i < b.len()
        invariant
            i <= b@.len(),
            r@ == b@.subrange(0, i as int),
        decreases b.len() - i,
    {
        r.push(b[i]);
        i = i + 1;
    }
    r
}

fn xor_with_key(data: &[u8], key: &[u8]) -> (r: Vec<u8>)
    requires
        key_usable(data@.len() as int, key@),
    ensures
        r@ == xor_key(data@, key@),
{
    let mut r: Vec<u8> = Vec::new();
    let mut i: usize = 0;
    while i < data.len()
        invariant
            i <= data@.len(),
            key_usable(data@.len() as int, key@),
            r@ =~= xor_key(data@, key@).subrange(0, i as int),
        decreases data.len() - i,
    {
        r.push(data[i] ^ key[i % key.len()]);
        i = i + 1;
    }
    r
}

fn tag_of(data: &[u8], key: &[u8], iv: &[u8]) -> (t: Vec<u8>)
    ensures
        t@ == tag(data@, key@, iv@),
        t@.len() == 16,
        sha256(data@ + key@ + iv@).len() == 32,
{
    let mut input = copy_bytes(data);
    let mut rest = copy_bytes(key);
    input.append(&mut rest);
    let mut rest = copy_bytes(iv);
    input.append(&mut rest);
    let digest = sha256_digest(input.as_slice());
    let mut t: Vec<u8> = Vec::new();
    let mut i: usize = 0;
    while i < 16
        invariant
            i <= 16,
            digest@.len() == 32,
            t@ =~= digest@.take(i as int),
        decreases 16 - i,
    {
        t.push(digest[i]);
        i = i + 1;
    }
    t
}

/// Seals `data` under `key` and `iv` (the XOR-and-tag scheme described above).
fn aes_gcm_encrypt(data: &[u8], key: &[u8], iv: &[u8]) -> (r: Vec<u8>)
    requires
        key_usable(data@.len() as int, key@),
    ensures
        r@ == seal(data@, key@, iv@),
        sha256(data@ + key@ + iv@).len() == 32,
{
    let mut r = xor_with_key(data, key);
    let mut t = tag_of(data, key, iv);
    r.append(&mut t);
    r
}

/// Opens data sealed under `key` and `iv`, checking its tag.
fn aes_gcm_decrypt(ciphertext: &[u8], key: &[u8], iv: &[u8]) -> (r: Result<Vec<u8>, AppError>)
    requires
        key_usable(ciphertext@.len() - 16, key@),
    ensures
        match open_sealed(ciphertext@, key@, iv@) {
            Ok(d) => r matches Ok(v) && v@ == d,
            Err(m) => r matches Err(e) && e is ValidationError && e->ValidationError_0@ == m,
        },
{
    if ciphertext.len() < TAG_LENGTH {
        return Err(AppError::ValidationError(owned("Invalid ciphertext format")));
    }
    let n = ciphertext.len() - TAG_LENGTH;
    let mut enc: Vec<u8> = Vec::new();
    let mut i: usize = 0;
    while i < n
        invariant
            n == ciphertext@.len() - 16,
            i <= n,
            enc@ =~= ciphertext@.take(i as int),
        decreases n - i,
    {
        enc.push(ciphertext[i]);
        i = i + 1;
    }
    assert(enc@ =~= ciphertext@.take(ciphertext@.len() - 16));
    let result = xor_with_key(enc.as_slice(), key);
    let expected = tag_of(result.as_slice(), key, iv);
    let mut j: usize = 0;
    while j < TAG_LENGTH
        invariant
            n + 16 == ciphertext@.len(),
            ciphertext@.len() <= usize::MAX,
            j <= 16,
            expected@.len() == 16,
            result@ == xor_key(ciphertext@.take(n as int), key@),
            expected@ == tag(result@, key@, iv@),
            forall|m: int| 0 <= m < j ==> ciphertext@[n + m] == expected@[m],
        decreases 16 - j,
    {
        if ciphertext[n + j] != expected[j] {
            assert(ciphertext@.skip(n as int)[j as int] != expected@[j as int]);
            return Err(AppError::ValidationError(owned("Invalid authentication tag")));
        }
        j = j + 1;
    }
    assert(ciphertext@.skip(n as int) =~= expected@);
    Ok(result)
}

/// The key derived from a PIN and salt: PBKDF2-HMAC-SHA512 over the PIN's
/// UTF-8 bytes, 10000 rounds, 32 bytes.
pub open spec fn pin_key(pin: Seq<char>, salt: Seq<u8>) -> Seq<u8> {
    pbkdf2_hmac_sha512(encode_utf8(pin), salt, PBKDF2_ITERATIONS, KEY_LENGTH as nat)
}

/// Derives the PIN key for `salt`.
fn derive_key_from_pin(pin: &str, salt: &[u8]) -> (r: Result<Vec<u8>, AppError>)
    ensures
        r is Ok,
        r->Ok_0@ == pin_key(pin@, salt@),
        r->Ok_0@.len() == KEY_LENGTH,
{
    match pbkdf2_sha512(pin.as_bytes(), salt, PBKDF2_ITERATIONS, KEY_LENGTH) {
        Some(key) => Ok(key),
        None => Err(AppError::CryptoError(owned("Failed to derive key from PIN"))),
    }
}

/// Cache of data encryption keys by DEK identifier.
pub struct DekCache {
    cache: KeyedStore<Vec<u8>>,
}

impl DekCache {
    #[verifier::type_invariant]
    spec fn inv(&self) -> bool {
        self.cache.wf()
    }

    /// The cached keys by identifier.
    pub closed spec fn view(&self) -> Map<Seq<char>, Seq<u8>> {
        self.cache.view().map_values(|v: Vec<u8>| v@)
    }

    /// An empty cache.
    pub fn new() -> (c: Self)
        ensures
            c@ == Map::<Seq<char>, Seq<u8>>::empty(),
    {
        let c = DekCache { cache: KeyedStore::new() };
        assert(c@ =~= Map::<Seq<char>, Seq<u8>>::empty());
        c
    }

    /// The key cached under `dek_id`.
    pub fn get(&self, dek_id: &str) -> (r: Option<Vec<u8>>)
        ensures
            r is Some <==> self@.contains_key(dek_id@),
            r matches Some(v) ==> v@ == self@[dek_id@],
    {
        proof {
            use_type_invariant(self);
        }
        match self.cache.get(dek_id) {
            Some(v) => Some(copy_bytes(v.as_slice())),
            None => None,
        }
    }

    /// Caches `dek` under `dek_id`, replacing any earlier key.
    pub fn set(&mut self, dek_id: String, dek: Vec<u8>)
        ensures
            final(self)@ == old(self)@.insert(dek_id@, dek@),
    {
        proof {
            use_type_invariant(&*self);
        }
        let mut store = KeyedStore::new();
        std::mem::swap(&mut store, &mut self.cache);
        store.insert(dek_id.as_str(), dek);
        self.cache = store;
        assert(self@ =~= old(self)@.insert(dek_id@, dek@));
    }
}

/// The stored form of an encrypted wallet key, as character sequences.
#[verifier::ext_equal]
pub struct WalletRecordView {
    pub user_id: Seq<char>,
    pub encrypted_private_key: Seq<char>,
    pub encrypted_dek: Seq<char>,
    pub master_key_identifier: Seq<char>,
    pub dek_id: Seq<char>,
    pub algorithm: Seq<char>,
    pub pin_salt: Seq<char>,
    pub pin_iv: Seq<char>,
    pub dek_iv: Seq<char>,
    pub master_iv: Seq<char>,
}

/// An encrypted wallet private key with everything needed to decrypt it
/// except the PIN and the master key. Binary fields are hex-encoded.
#[derive(Debug, Clone)]
pub struct WalletEncryptedData {
    pub user_id: String,
    pub encrypted_private_key: String,
    pub encrypted_dek: String,
    pub master_key_identifier: String,
    pub dek_id: String,
    pub algorithm: String,
    pub pin_salt: String,
    pub pin_iv: String,
    pub dek_iv: String,
    pub master_iv: String,
}

impl WalletEncryptedData {
    /// The fields as character sequences.
    pub open spec fn view(&self) -> WalletRecordView {
        WalletRecordView {
            user_id: self.user_id@,
            encrypted_private_key: self.encrypted_private_key@,
            encrypted_dek: self.encrypted_dek@,
            master_key_identifier: self.master_key_identifier@,
            dek_id: self.dek_id@,
            algorithm: self.algorithm@,
            pin_salt: self.pin_salt@,
            pin_iv: self.pin_iv@,
            dek_iv: self.dek_iv@,
            master_iv: self.master_iv@,
        }
    }

    /// The same record associated with `user_id`.
    pub fn with_user_id(self, user_id: &str) -> (r: Self)
        ensures
            r@ == (WalletRecordView { user_id: user_id@, ..self@ }),
    {
        let mut r = self;
        r.user_id = owned(user_id);
        r
    }
}

/// The record sealed from the given random values: the private key's UTF-8
/// bytes sealed with the PIN key, then with the DEK; the DEK sealed with the
/// master key; salts and IVs hex-encoded; no user yet.
pub open spec fn sealed_record(
    master_key_id: Seq<char>,
    master_key: Seq<u8>,
    private_key: Seq<char>,
    pin: Seq<char>,
    pin_salt: Seq<u8>,
    pin_iv: Seq<u8>,
    dek: Seq<u8>,
    dek_iv: Seq<u8>,
    master_iv: Seq<u8>,
    dek_id: Seq<char>,
) -> WalletRecordView {
    WalletRecordView {
        user_id: Seq::empty(),
        encrypted_private_key: hex_encode(
            seal(seal(encode_utf8(private_key), pin_key(pin, pin_salt), pin_iv), dek, dek_iv),
        ),
        encrypted_dek: hex_encode(seal(dek, master_key, master_iv)),
        master_key_identifier: master_key_id,
        dek_id: dek_id,
        algorithm: "AES-256-GCM"@,
        pin_salt: hex_encode(pin_salt),
        pin_iv: hex_encode(pin_iv),
        dek_iv: hex_encode(dek_iv),
        master_iv: hex_encode(master_iv),
    }
}

/// The DEK for a record: the cached one, else the record's encrypted DEK
/// opened with the master key.
pub open spec fn dek_result(master_key: Seq<u8>, cache: Map<Seq<char>, Seq<u8>>, v: WalletRecordView) -> Result<Seq<u8>, Seq<char>> {
    if cache.contains_key(v.dek_id) {
        Ok(cache[v.dek_id])
    } else {
        match hex_decode(v.encrypted_dek) {
            None => Err("Invalid DEK format"@),
            Some(ed) => match hex_decode(v.master_iv) {
                None => Err("Invalid master IV format"@),
                Some(miv) => open_sealed(ed, master_key, miv),
            },
        }
    }
}

/// Opening a record's private key with its DEK and the PIN.
pub open spec fn open_with_dek(v: WalletRecordView, dek: Seq<u8>, pin: Seq<char>) -> Result<Seq<char>, Seq<char>> {
    match hex_decode(v.encrypted_private_key) {
        None => Err("Invalid encrypted data format"@),
        Some(de) => match hex_decode(v.dek_iv) {
            None => Err("Invalid DEK IV format"@),
            Some(div) => match open_sealed(de, dek, div) {
                Err(m) => Err(m),
                Ok(pe) => match hex_decode(v.pin_salt) {
                    None => Err("Invalid PIN salt format"@),
                    Some(salt) => match hex_decode(v.pin_iv) {
                        None => Err("Invalid PIN IV format"@),
                        Some(piv) => match open_sealed(pe, pin_key(pin, salt), piv) {
                            Err(m) => Err(m),
                            Ok(b) => if valid_utf8(b) {
                                Ok(decode_utf8(b))
                            } else {
                                Err("Invalid private key data"@)
                            },
                        },
                    },
                },
            },
        },
    }
}

/// Decrypting a record: the master key identifier must match, then the DEK
/// is found and the private key opened. An error is the validation message.
pub open spec fn decrypt_result(
    master_key_id: Seq<char>,
    master_key: Seq<u8>,
    cache: Map<Seq<char>, Seq<u8>>,
    v: WalletRecordView,
    pin: Seq<char>,
) -> Result<Seq<char>, Seq<char>> {
    if v.master_key_identifier != master_key_id {
        Err("Invalid master key identifier"@)
    } else {
        match dek_result(master_key, cache, v) {
            Err(m) => Err(m),
            Ok(dek) => open_with_dek(v, dek, pin),
        }
    }
}

/// The cache after decrypting a record: a DEK opened with the master key is cached.
pub open spec fn cache_after_decrypt(
    master_key_id: Seq<char>,
    master_key: Seq<u8>,
    cache: Map<Seq<char>, Seq<u8>>,
    v: WalletRecordView,
) -> Map<Seq<char>, Seq<u8>> {
    if v.master_key_identifier == master_key_id && !cache.contains_key(v.dek_id)
        && dek_result(master_key, cache, v) is Ok {
        cache.insert(v.dek_id, dek_result(master_key, cache, v)->Ok_0)
    } else {
        cache
    }
}

/// Opening the encrypted DEK would index into an empty master key.
pub open spec fn dek_lookup_faults(
    master_key_id: Seq<char>,
    master_key: Seq<u8>,
    cache: Map<Seq<char>, Seq<u8>>,
    v: WalletRecordView,
) -> bool {
    &&& v.master_key_identifier == master_key_id
    &&& !cache.contains_key(v.dek_id)
    &&& hex_decode(v.encrypted_dek) matches Some(ed) && ed.len() > TAG_LENGTH
    &&& hex_decode(v.master_iv) is Some
    &&& master_key.len() == 0
}

/// Opening the private key would index into an empty DEK.
pub open spec fn dek_use_faults(
    master_key_id: Seq<char>,
    master_key: Seq<u8>,
    cache: Map<Seq<char>, Seq<u8>>,
    v: WalletRecordView,
) -> bool {
    &&& v.master_key_identifier == master_key_id
    &&& dek_result(master_key, cache, v) matches Ok(dek) && dek.len() == 0
    &&& hex_decode(v.encrypted_private_key) matches Some(de) && de.len() > TAG_LENGTH
    &&& hex_decode(v.dek_iv) is Some
}

/// Decodes a hex field, or fails with a validation error carrying `msg`.
fn decode_field(field: &str, msg: &str) -> (r: Result<Vec<u8>, AppError>)
    ensures
        match hex_decode(field@) {
            Some(b) => r matches Ok(v) && v@ == b,
            None => r matches Err(e) && e is ValidationError && e->ValidationError_0@ == msg@,
        },
{
    match hex_decode_str(field) {
        Some(b) => Ok(b),
        None => Err(AppError::ValidationError(owned(msg))),
    }
}

/// Opens the private key of `data` with `dek` and the PIN.
fn decrypt_with_dek(data: &WalletEncryptedData, dek: &[u8], pin: &str) -> (r: Result<String, AppError>)
    requires
        !(hex_decode(data@.encrypted_private_key) matches Some(de) && de.len() > TAG_LENGTH
            && hex_decode(data@.dek_iv) is Some && dek@.len() == 0),
    ensures
        match open_with_dek(data@, dek@, pin@) {
            Ok(s) => r matches Ok(x) && x@ == s,
            Err(m) => r matches Err(e) && e is ValidationError && e->ValidationError_0@ == m,
        },
{
    let dek_encrypted = decode_field(data.encrypted_private_key.as_str(), "Invalid encrypted data format")?;
    let dek_iv = decode_field(data.dek_iv.as_str(), "Invalid DEK IV format")?;
    let pin_encrypted = aes_gcm_decrypt(dek_encrypted.as_slice(), dek, dek_iv.as_slice())?;
    let pin_salt = decode_field(data.pin_salt.as_str(), "Invalid PIN salt format")?;
    let pin_key = derive_key_from_pin(pin, pin_salt.as_slice())?;
    let pin_iv = decode_field(data.pin_iv.as_str(), "Invalid PIN IV format")?;
    let private_key_bytes = aes_gcm_decrypt(pin_encrypted.as_slice(), pin_key.as_slice(), pin_iv.as_slice())?;
    match string_from_utf8(private_key_bytes) {
        Some(s) => Ok(s),
        None => Err(AppError::ValidationError(owned("Invalid private key data"))),
    }
}

/// Protects wallet private keys with a PIN, a per-record DEK and a master key.
pub struct WalletEncryptionService {
    pub master_key_id: String,
    dek_cache: DekCache,
    master_key: Vec<u8>,
}

impl WalletEncryptionService {
    /// The master key identifier.
    pub closed spec fn key_id(&self) -> Seq<char> {
        self.master_key_id@
    }

    /// The master key.
    pub closed spec fn master_key_bytes(&self) -> Seq<u8> {
        self.master_key@
    }

    /// The DEKs cached so far, by identifier.
    pub closed spec fn cached_deks(&self) -> Map<Seq<char>, Seq<u8>> {
        self.dek_cache@
    }

    /// A service for the master key `master_key` named `master_key_id`, with an empty cache.
    pub fn new(master_key_id: &str, master_key: &[u8]) -> (s: Self)
        ensures
            s.key_id() == master_key_id@,
            s.master_key_bytes() == master_key@,
            s.cached_deks() == Map::<Seq<char>, Seq<u8>>::empty(),
    {
        WalletEncryptionService {
            master_key_id: owned(master_key_id),
            dek_cache: DekCache::new(),
            master_key: copy_bytes(master_key),
        }
    }

    /// Builds the record for `private_key` under `pin` from the given salt,
    /// IVs, DEK and DEK identifier.
    pub fn seal_private_key(
        &self,
        private_key: &str,
        pin: &str,
        pin_salt: &[u8],
        pin_iv: &[u8],
        dek: &[u8],
        dek_iv: &[u8],
        master_iv: &[u8],
        dek_id: &str,
    ) -> (r: WalletEncryptedData)
        requires
            dek@.len() > 0,
            self.master_key_bytes().len() > 0,
        ensures
            r@ == sealed_record(self.key_id(), self.master_key_bytes(), private_key@, pin@,
                pin_salt@, pin_iv@, dek@, dek_iv@, master_iv@, dek_id@),
            pin_key(pin@, pin_salt@).len() == KEY_LENGTH,
            sha256(encode_utf8(private_key@) + pin_key(pin@, pin_salt@) + pin_iv@).len() == 32,
            sha256(seal(encode_utf8(private_key@), pin_key(pin@, pin_salt@), pin_iv@) + dek@ + dek_iv@).len() == 32,
            sha256(dek@ + self.master_key_bytes() + master_iv@).len() == 32,
    {
        proof {
            reveal_strlit("");
        }
        let pin_key = match derive_key_from_pin(pin, pin_salt) {
            Ok(k) => k,
            Err(_) => Vec::new(),
        };
        let pin_encrypted = aes_gcm_encrypt(private_key.as_bytes(), pin_key.as_slice(), pin_iv);
        let dek_encrypted = aes_gcm_encrypt(pin_encrypted.as_slice(), dek, dek_iv);
        let encrypted_dek = aes_gcm_encrypt(dek, self.master_key.as_slice(), master_iv);
        WalletEncryptedData {
            user_id: owned(""),
            encrypted_private_key: hex_encode_bytes(dek_encrypted.as_slice()),
            encrypted_dek: hex_encode_bytes(encrypted_dek.as_slice()),
            master_key_identifier: owned(self.master_key_id.as_str()),
            dek_id: owned(dek_id),
            algorithm: owned("AES-256-GCM"),
            pin_salt: hex_encode_bytes(pin_salt),
            pin_iv: hex_encode_bytes(pin_iv),
            dek_iv: hex_encode_bytes(dek_iv),
            master_iv: hex_encode_bytes(master_iv),
        }
    }

    /// Encrypts `private_key` under `pin` with a fresh salt, IVs, DEK and DEK
    /// identifier, and caches the DEK. The record can be decrypted with the
    /// same PIN.
    pub fn encrypt_private_key(&mut self, private_key: &str, pin: &str) -> (r: Result<WalletEncryptedData, AppError>)
        requires
            old(self).master_key_bytes().len() > 0,
        ensures
            final(self).key_id() == old(self).key_id(),
            final(self).master_key_bytes() == old(self).master_key_bytes(),
            r is Ok,
            exists|salt: Seq<u8>, piv: Seq<u8>, dek: Seq<u8>, div: Seq<u8>, miv: Seq<u8>, id: Seq<char>|
                #![trigger sealed_record(old(self).key_id(), old(self).master_key_bytes(), private_key@, pin@, salt, piv, dek, div, miv, id)]
                {
                    &&& salt.len() == SALT_LENGTH
                    &&& piv.len() == IV_LENGTH
                    &&& dek.len() == KEY_LENGTH
                    &&& div.len() == IV_LENGTH
                    &&& miv.len() == IV_LENGTH
                    &&& r->Ok_0@ == sealed_record(old(self).key_id(), old(self).master_key_bytes(), private_key@, pin@, salt, piv, dek, div, miv, id)
                    &&& final(self).cached_deks() == old(self).cached_deks().insert(id, dek)
                    &&& pin_key(pin@, salt).len() == KEY_LENGTH
                    &&& sha256(encode_utf8(private_key@) + pin_key(pin@, salt) + piv).len() == 32
                    &&& sha256(seal(encode_utf8(private_key@), pin_key(pin@, salt), piv) + dek + div).len() == 32
                    &&& sha256(dek + old(self).master_key_bytes() + miv).len() == 32
                },
            decrypt_result(final(self).key_id(), final(self).master_key_bytes(), final(self).cached_deks(), r->Ok_0@, pin@)
                == Ok::<Seq<char>, Seq<char>>(private_key@),
    {
        let pin_salt = random_bytes(SALT_LENGTH);
        let pin_iv = random_bytes(IV_LENGTH);
        let dek = random_bytes(KEY_LENGTH);
        let dek_iv = random_bytes(IV_LENGTH);
        let master_iv = random_bytes(IV_LENGTH);
        let dek_id = new_uuid_string();
        let record = self.seal_private_key(
            private_key,
            pin,
            pin_salt.as_slice(),
            pin_iv.as_slice(),
            dek.as_slice(),
            dek_iv.as_slice(),
            master_iv.as_slice(),
            dek_id.as_str(),
        );
        self.dek_cache.set(owned(dek_id.as_str()), copy_bytes(dek.as_slice()));
        proof {
            law_decrypt_inverts_encrypt(self.key_id(), self.master_key_bytes(), self.cached_deks(), private_key@, pin@,
                pin_salt@, pin_iv@, dek@, dek_iv@, master_iv@, dek_id@);
        }
        Ok(record)
    }

    /// The DEK of a record whose master key identifier matches.
    fn lookup_dek(&self, data: &WalletEncryptedData) -> (r: Result<Vec<u8>, AppError>)
        requires
            !dek_lookup_faults(self.key_id(), self.master_key_bytes(), self.cached_deks(), data@),
            data@.master_key_identifier == self.key_id(),
        ensures
            match dek_result(self.master_key_bytes(), self.cached_deks(), data@) {
                Ok(k) => r matches Ok(v) && v@ == k,
                Err(m) => r matches Err(e) && e is ValidationError && e->ValidationError_0@ == m,
            },
    {
        match self.dek_cache.get(data.dek_id.as_str()) {
            Some(d) => Ok(d),
            None => {
                let encrypted_dek = decode_field(data.encrypted_dek.as_str(), "Invalid DEK format")?;
                let master_iv = decode_field(data.master_iv.as_str(), "Invalid master IV format")?;
                aes_gcm_decrypt(encrypted_dek.as_slice(), self.master_key.as_slice(), master_iv.as_slice())
            },
        }
    }

    /// Decrypts the private key of `data` with `pin`. A DEK that had to be
    /// opened with the master key is cached. Every failure is a validation
    /// error.
    pub fn decrypt_private_key(&mut self, data: &WalletEncryptedData, pin: &str) -> (r: Result<String, AppError>)
        requires
            !dek_lookup_faults(old(self).key_id(), old(self).master_key_bytes(), old(self).cached_deks(), data@),
            !dek_use_faults(old(self).key_id(), old(self).master_key_bytes(), old(self).cached_deks(), data@),
        ensures
            final(self).key_id() == old(self).key_id(),
            final(self).master_key_bytes() == old(self).master_key_bytes(),
            final(self).cached_deks() == cache_after_decrypt(old(self).key_id(), old(self).master_key_bytes(), old(self).cached_deks(), data@),
            match decrypt_result(old(self).key_id(), old(self).master_key_bytes(), old(self).cached_deks(), data@, pin@) {
                Ok(s) => r matches Ok(x) && x@ == s,
                Err(m) => r matches Err(e) && e is ValidationError && e->ValidationError_0@ == m,
            },
    {
        if !str_eq(data.master_key_identifier.as_str(), self.master_key_id.as_str()) {
            return Err(AppError::ValidationError(owned("Invalid master key identifier")));
        }
        let dek = match self.dek_cache.get(data.dek_id.as_str()) {
            Some(d) => d,
            None => {
                let d = self.lookup_dek(data)?;
                self.dek_cache.set(owned(data.dek_id.as_str()), copy_bytes(d.as_slice()));
                d
            },
        };
        decrypt_with_dek(data, dek.as_slice(), pin)
    }

    /// `decrypt_private_key`, or `None` (with nothing changed) where the DEK
    /// found for the record is empty while its encrypted private key holds data.
    pub fn decrypt_private_key_checked(&mut self, data: &WalletEncryptedData, pin: &str) -> (r: Option<Result<String, AppError>>)
        requires
            !dek_lookup_faults(old(self).key_id(), old(self).master_key_bytes(), old(self).cached_deks(), data@),
        ensures
            r is None <==> dek_use_faults(old(self).key_id(), old(self).master_key_bytes(), old(self).cached_deks(), data@),
            final(self).key_id() == old(self).key_id(),
            final(self).master_key_bytes() == old(self).master_key_bytes(),
            r is None ==> final(self).cached_deks() == old(self).cached_deks(),
            r matches Some(x) ==> final(self).cached_deks() == cache_after_decrypt(old(self).key_id(), old(self).master_key_bytes(), old(self).cached_deks(), data@)
                && match decrypt_result(old(self).key_id(), old(self).master_key_bytes(), old(self).cached_deks(), data@, pin@) {
                    Ok(s) => x matches Ok(y) && y@ == s,
                    Err(m) => x matches Err(e) && e is ValidationError && e->ValidationError_0@ == m,
                },
    {
        if str_eq(data.master_key_identifier.as_str(), self.master_key_id.as_str()) {
            if let Ok(dek) = self.lookup_dek(data) {
                if dek.len() == 0 {
                    if let Some(de) = hex_decode_str(data.encrypted_private_key.as_str()) {
                        if de.len() > TAG_LENGTH && hex_decode_str(data.dek_iv.as_str()).is_some() {
                            return None;
                        }
                    }
                }
            }
        }
        Some(self.decrypt_private_key(data, pin))
    }
}

/// Law: a record sealed from any salt, IVs, nonempty DEK and nonempty master
/// key decrypts, with the same PIN and master key, to the private key it was
/// sealed from, whether its DEK is cached or has to be opened; either way
/// the DEK is cached afterwards and no step indexes into an empty key.
#[verifier::spinoff_prover]
#[verifier::rlimit(60)]
pub proof fn law_decrypt_inverts_encrypt(
    master_key_id: Seq<char>,
    master_key: Seq<u8>,
    cache: Map<Seq<char>, Seq<u8>>,
    private_key: Seq<char>,
    pin: Seq<char>,
    salt: Seq<u8>,
    piv: Seq<u8>,
    dek: Seq<u8>,
    div: Seq<u8>,
    miv: Seq<u8>,
    id: Seq<char>,
)
    requires
        master_key.len() > 0,
        dek.len() > 0,
        pin_key(pin, salt).len() == KEY_LENGTH,
        sha256(encode_utf8(private_key) + pin_key(pin, salt) + piv).len() == 32,
        sha256(seal(encode_utf8(private_key), pin_key(pin, salt), piv) + dek + div).len() == 32,
        sha256(dek + master_key + miv).len() == 32,
        !cache.contains_key(id) || cache[id] == dek,
    ensures
        decrypt_result(master_key_id, master_key, cache,
            sealed_record(master_key_id, master_key, private_key, pin, salt, piv, dek, div, miv, id), pin)
            == Ok::<Seq<char>, Seq<char>>(private_key),
        cache_after_decrypt(master_key_id, master_key, cache,
            sealed_record(master_key_id, master_key, private_key, pin, salt, piv, dek, div, miv, id))
            == cache.insert(id, dek),
        !dek_lookup_faults(master_key_id, master_key, cache,
            sealed_record(master_key_id, master_key, private_key, pin, salt, piv, dek, div, miv, id)),
        !dek_use_faults(master_key_id, master_key, cache,
            sealed_record(master_key_id, master_key, private_key, pin, salt, piv, dek, div, miv, id)),
{
    let bytes = encode_utf8(private_key);
    let k = pin_key(pin, salt);
    let pe = seal(bytes, k, piv);
    lemma_hex_roundtrip(seal(pe, dek, div));
    lemma_hex_roundtrip(seal(dek, master_key, miv));
    lemma_hex_roundtrip(salt);
    lemma_hex_roundtrip(piv);
    lemma_hex_roundtrip(div);
    lemma_hex_roundtrip(miv);
    lemma_open_seal(dek, master_key, miv);
    lemma_open_seal(pe, dek, div);
    lemma_open_seal(bytes, k, piv);
    vstd::utf8::encode_utf8_valid_utf8(private_key);
    vstd::utf8::encode_utf8_decode_utf8(private_key);
    if cache.contains_key(id) {
        assert(cache.insert(id, dek) =~= cache);
    }
}

/// The value of the last entry named `name`.
pub open spec fn last_value(entries: Seq<(String, String)>, name: Seq<char>) -> Option<Seq<char>>
    decreases entries.len(),
{
    if entries.len() == 0 {
        None
    } else if entries.last().0@ == name {
        Some(entries.last().1@)
    } else {
        last_value(entries.drop_last(), name)
    }
}

/// An optional string as an optional character sequence.
pub open spec fn opt_view(o: Option<String>) -> Option<Seq<char>> {
    match o {
        Some(s) => Some(s@),
        None => None,
    }
}

/// The record read from named string fields: each field takes the value of
/// the last entry with its name, other names are ignored, and every field
/// must be present.
pub open spec fn record_from_entries(e: Seq<(String, String)>) -> Option<WalletRecordView> {
    if last_value(e, "user_id"@) is Some
        && last_value(e, "encrypted_private_key"@) is Some
        && last_value(e, "encrypted_dek"@) is Some
        && last_value(e, "master_key_identifier"@) is Some
        && last_value(e, "dek_id"@) is Some
        && last_value(e, "algorithm"@) is Some
        && last_value(e, "pin_salt"@) is Some
        && last_value(e, "pin_iv"@) is Some
        && last_value(e, "dek_iv"@) is Some
        && last_value(e, "master_iv"@) is Some {
        Some(WalletRecordView {
            user_id: last_value(e, "user_id"@)->0,
            encrypted_private_key: last_value(e, "encrypted_private_key"@)->0,
            encrypted_dek: last_value(e, "encrypted_dek"@)->0,
            master_key_identifier: last_value(e, "master_key_identifier"@)->0,
            dek_id: last_value(e, "dek_id"@)->0,
            algorithm: last_value(e, "algorithm"@)->0,
            pin_salt: last_value(e, "pin_salt"@)->0,
            pin_iv: last_value(e, "pin_iv"@)->0,
            dek_iv: last_value(e, "dek_iv"@)->0,
            master_iv: last_value(e, "master_iv"@)->0,
        })
    } else {
        None
    }
}

proof fn lemma_last_value_step(e: Seq<(String, String)>, i: int, name: Seq<char>)
    requires
        0 <= i < e.len(),
    ensures
        last_value(e.take(i + 1), name) == if e[i].0@ == name {
            Some(e[i].1@)
        } else {
            last_value(e.take(i), name)
        },
{
    assert(e.take(i + 1).drop_last() =~= e.take(i));
}

/// Keeps `slot`, or takes `value` when the entry's key is `name`.
fn take_if_named(slot: Option<String>, key: &str, name: &str, value: &str) -> (r: Option<String>)
    ensures
        opt_view(r) == if key@ == name@ { Some(value@) } else { opt_view(slot) },
{
    if str_eq(key, name) {
        Some(owned(value))
    } else {
        slot
    }
}

impl WalletEncryptedData {
    /// Reads a record from its named string fields (the storage form): the
    /// last entry with a field's name gives its value, unknown names are
    /// ignored, and a missing field makes the data invalid.
    pub fn from_field_entries(entries: &Vec<(String, String)>) -> (r: Result<WalletEncryptedData, AppError>)
        ensures
            match record_from_entries(entries@) {
                Some(v) => r matches Ok(d) && d@ == v,
                None => r matches Err(e) && e is ValidationError && e->ValidationError_0@ == "Invalid encrypted data format"@,
            },
    {
        let mut user_id: Option<String> = None;
        let mut encrypted_private_key: Option<String> = None;
        let mut encrypted_dek: Option<String> = None;
        let mut master_key_identifier: Option<String> = None;
        let mut dek_id: Option<String> = None;
        let mut algorithm: Option<String> = None;
        let mut pin_salt: Option<String> = None;
        let mut pin_iv: Option<String> = None;
        let mut dek_iv: Option<String> = None;
        let mut master_iv: Option<String> = None;
        let mut i: usize = 0;
        while i < entries.len()
            invariant
                i <= entries@.len(),
                opt_view(user_id) == last_value(entries@.take(i as int), "user_id"@),
                opt_view(encrypted_private_key) == last_value(entries@.take(i as int), "encrypted_private_key"@),
                opt_view(encrypted_dek) == last_value(entries@.take(i as int), "encrypted_dek"@),
                opt_view(master_key_identifier) == last_value(entries@.take(i as int), "master_key_identifier"@),
                opt_view(dek_id) == last_value(entries@.take(i as int), "dek_id"@),
                opt_view(algorithm) == last_value(entries@.take(i as int), "algorithm"@),
                opt_view(pin_salt) == last_value(entries@.take(i as int), "pin_salt"@),
                opt_view(pin_iv) == last_value(entries@.take(i as int), "pin_iv"@),
                opt_view(dek_iv) == last_value(entries@.take(i as int), "dek_iv"@),
                opt_view(master_iv) == last_value(entries@.take(i as int), "master_iv"@),
            decreases entries.len() - i,
        {
            let key = entries[i].0.as_str();
            let value = entries[i].1.as_str();
            proof {
                lemma_last_value_step(entries@, i as int, "user_id"@);
                lemma_last_value_step(entries@, i as int, "encrypted_private_key"@);
                lemma_last_value_step(entries@, i as int, "encrypted_dek"@);
                lemma_last_value_step(entries@, i as int, "master_key_identifier"@);
                lemma_last_value_step(entries@, i as int, "dek_id"@);
                lemma_last_value_step(entries@, i as int, "algorithm"@);
                lemma_last_value_step(entries@, i as int, "pin_salt"@);
                lemma_last_value_step(entries@, i as int, "pin_iv"@);
                lemma_last_value_step(entries@, i as int, "dek_iv"@);
                lemma_last_value_step(entries@, i as int, "master_iv"@);
            }
            user_id = take_if_named(user_id, key, "user_id", value);
            encrypted_private_key = take_if_named(encrypted_private_key, key, "encrypted_private_key", value);
            encrypted_dek = take_if_named(encrypted_dek, key, "encrypted_dek", value);
            master_key_identifier = take_if_named(master_key_identifier, key, "master_key_identifier", value);
            dek_id = take_if_named(dek_id, key, "dek_id", value);
            algorithm = take_if_named(algorithm, key, "algorithm", value);
            pin_salt = take_if_named(pin_salt, key, "pin_salt", value);
            pin_iv = take_if_named(pin_iv, key, "pin_iv", value);
            dek_iv = take_if_named(dek_iv, key, "dek_iv", value);
            master_iv = take_if_named(master_iv, key, "master_iv", value);
            i = i + 1;
        }
        assert(entries@.take(entries@.len() as int) =~= entries@);
        let invalid = AppError::ValidationError(owned("Invalid encrypted data format"));
        let user_id = match user_id { Some(v) => v, None => return Err(invalid) };
        let encrypted_private_key = match encrypted_private_key { Some(v) => v, None => return Err(invalid) };
        let encrypted_dek = match encrypted_dek { Some(v) => v, None => return Err(invalid) };
        let master_key_identifier = match master_key_identifier { Some(v) => v, None => return Err(invalid) };
        let dek_id = match dek_id { Some(v) => v, None => return Err(invalid) };
        let algorithm = match algorithm { Some(v) => v, None => return Err(invalid) };
        let pin_salt = match pin_salt { Some(v) => v, None => return Err(invalid) };
        let pin_iv = match pin_iv { Some(v) => v, None => return Err(invalid) };
        let dek_iv = match dek_iv { Some(v) => v, None => return Err(invalid) };
        let master_iv = match master_iv { Some(v) => v, None => return Err(invalid) };
        Ok(WalletEncryptedData {
            user_id,
            encrypted_private_key,
            encrypted_dek,
            master_key_identifier,
            dek_id,
            algorithm,
            pin_salt,
            pin_iv,
            dek_iv,
            master_iv,
        })
    }
}

/// The last entry named `name` is at `k` when `e[k]` has that name and no
/// later entry does.
proof fn lemma_last_value_at(e: Seq<(String, String)>, k: int, name: Seq<char>)
    requires
        0 <= k < e.len(),
        e[k].0@ == name,
        forall|j: int| k < j < e.len() ==> (#[trigger] e[j]).0@ != name,
    ensures
        last_value(e, name) == Some(e[k].1@),
    decreases e.len(),
{
    if e.len() - 1 != k {
        let d = e.drop_last();
        assert(e.last() == e[e.len() - 1]);
        assert forall|j: int| k < j < d.len() implies (#[trigger] d[j]).0@ != name by {
            assert(d[j] == e[j]);
        }
        lemma_last_value_at(d, k, name);
    }
}

/// Two names differ when their lengths, first or sixth characters do.
proof fn lemma_names_differ(a: Seq<char>, b: Seq<char>)
    requires
        a.len() > 5,
        b.len() > 5,
        a.len() != b.len() || a[0] != b[0] || a[5] != b[5],
    ensures
        a != b,
{
}

/// Law: the ten fields of a record, named in storage order (as
/// `to_field_entries` writes them), read back as the same record.
pub proof fn law_entries_round_trip(e: Seq<(String, String)>, v: WalletRecordView)
    requires
        e.len() == 10,
        e[0].0@ == "user_id"@ && e[0].1@ == v.user_id,
        e[1].0@ == "encrypted_private_key"@ && e[1].1@ == v.encrypted_private_key,
        e[2].0@ == "encrypted_dek"@ && e[2].1@ == v.encrypted_dek,
        e[3].0@ == "master_key_identifier"@ && e[3].1@ == v.master_key_identifier,
        e[4].0@ == "dek_id"@ && e[4].1@ == v.dek_id,
        e[5].0@ == "algorithm"@ && e[5].1@ == v.algorithm,
        e[6].0@ == "pin_salt"@ && e[6].1@ == v.pin_salt,
        e[7].0@ == "pin_iv"@ && e[7].1@ == v.pin_iv,
        e[8].0@ == "dek_iv"@ && e[8].1@ == v.dek_iv,
        e[9].0@ == "master_iv"@ && e[9].1@ == v.master_iv,
    ensures
        record_from_entries(e) == Some(v),
{
    reveal_strlit("user_id");
    reveal_strlit("encrypted_private_key");
    reveal_strlit("encrypted_dek");
    reveal_strlit("master_key_identifier");
    reveal_strlit("dek_id");
    reveal_strlit("algorithm");
    reveal_strlit("pin_salt");
    reveal_strlit("pin_iv");
    reveal_strlit("dek_iv");
    reveal_strlit("master_iv");
    // Each later name differs from the field's own name.
    assert forall|j: int| 0 < j < e.len() implies (#[trigger] e[j]).0@ != "user_id"@ by {
        if j == 1 {
            lemma_names_differ(e[1].0@, e[0].0@);
        } else if j == 2 {
            lemma_names_differ(e[2].0@, e[0].0@);
        } else if j == 3 {
            lemma_names_differ(e[3].0@, e[0].0@);
        } else if j == 4 {
            lemma_names_differ(e[4].0@, e[0].0@);
        } else if j == 5 {
            lemma_names_differ(e[5].0@, e[0].0@);
        } else if j == 6 {
            lemma_names_differ(e[6].0@, e[0].0@);
        } else if j == 7 {
            lemma_names_differ(e[7].0@, e[0].0@);
        } else if j == 8 {
            lemma_names_differ(e[8].0@, e[0].0@);
        } else if j == 9 {
            lemma_names_differ(e[9].0@, e[0].0@);
        }
    }
    lemma_last_value_at(e, 0, "user_id"@);
    assert forall|j: int| 1 < j < e.len() implies (#[trigger] e[j]).0@ != "encrypted_private_key"@ by {
        if j == 2 {
            lemma_names_differ(e[2].0@, e[1].0@);
        } else if j == 3 {
            lemma_names_differ(e[3].0@, e[1].0@);
        } else if j == 4 {
            lemma_names_differ(e[4].0@, e[1].0@);
        } else if j == 5 {
            lemma_names_differ(e[5].0@, e[1].0@);
        } else if j == 6 {
            lemma_names_differ(e[6].0@, e[1].0@);
        } else if j == 7 {
            lemma_names_differ(e[7].0@, e[1].0@);
        } else if j == 8 {
            lemma_names_differ(e[8].0@, e[1].0@);
        } else if j == 9 {
            lemma_names_differ(e[9].0@, e[1].0@);
        }
    }
    lemma_last_value_at(e, 1, "encrypted_private_key"@);
    assert forall|j: int| 2 < j < e.len() implies (#[trigger] e[j]).0@ != "encrypted_dek"@ by {
        if j == 3 {
            lemma_names_differ(e[3].0@, e[2].0@);
        } else if j == 4 {
            lemma_names_differ(e[4].0@, e[2].0@);
        } else if j == 5 {
            lemma_names_differ(e[5].0@, e[2].0@);
        } else if j == 6 {
            lemma_names_differ(e[6].0@, e[2].0@);
        } else if j == 7 {
            lemma_names_differ(e[7].0@, e[2].0@);
        } else if j == 8 {
            lemma_names_differ(e[8].0@, e[2].0@);
        } else if j == 9 {
            lemma_names_differ(e[9].0@, e[2].0@);
        }
    }
    lemma_last_value_at(e, 2, "encrypted_dek"@);
    assert forall|j: int| 3 < j < e.len() implies (#[trigger] e[j]).0@ != "master_key_identifier"@ by {
        if j == 4 {
            lemma_names_differ(e[4].0@, e[3].0@);
        } else if j == 5 {
            lemma_names_differ(e[5].0@, e[3].0@);
        } else if j == 6 {
            lemma_names_differ(e[6].0@, e[3].0@);
        } else if j == 7 {
            lemma_names_differ(e[7].0@, e[3].0@);
        } else if j == 8 {
            lemma_names_differ(e[8].0@, e[3].0@);
        } else if j == 9 {
            lemma_names_differ(e[9].0@, e[3].0@);
        }
    }
    lemma_last_value_at(e, 3, "master_key_identifier"@);
    assert forall|j: int| 4 < j < e.len() implies (#[trigger] e[j]).0@ != "dek_id"@ by {
        if j == 5 {
            lemma_names_differ(e[5].0@, e[4].0@);
        } else if j == 6 {
            lemma_names_differ(e[6].0@, e[4].0@);
        } else if j == 7 {
            lemma_names_differ(e[7].0@, e[4].0@);
        } else if j == 8 {
            assert(e[8].0@[5] != e[4].0@[5]);
            lemma_names_differ(e[8].0@, e[4].0@);
        } else if j == 9 {
            lemma_names_differ(e[9].0@, e[4].0@);
        }
    }
    lemma_last_value_at(e, 4, "dek_id"@);
    assert forall|j: int| 5 < j < e.len() implies (#[trigger] e[j]).0@ != "algorithm"@ by {
        if j == 6 {
            lemma_names_differ(e[6].0@, e[5].0@);
        } else if j == 7 {
            lemma_names_differ(e[7].0@, e[5].0@);
        } else if j == 8 {
            lemma_names_differ(e[8].0@, e[5].0@);
        } else if j == 9 {
            lemma_names_differ(e[9].0@, e[5].0@);
        }
    }
    lemma_last_value_at(e, 5, "algorithm"@);
    assert forall|j: int| 6 < j < e.len() implies (#[trigger] e[j]).0@ != "pin_salt"@ by {
        if j == 7 {
            lemma_names_differ(e[7].0@, e[6].0@);
        } else if j == 8 {
            lemma_names_differ(e[8].0@, e[6].0@);
        } else if j == 9 {
            lemma_names_differ(e[9].0@, e[6].0@);
        }
    }
    lemma_last_value_at(e, 6, "pin_salt"@);
    assert forall|j: int| 7 < j < e.len() implies (#[trigger] e[j]).0@ != "pin_iv"@ by {
        if j == 8 {
            lemma_names_differ(e[8].0@, e[7].0@);
        } else if j == 9 {
            lemma_names_differ(e[9].0@, e[7].0@);
        }
    }
    lemma_last_value_at(e, 7, "pin_iv"@);
    assert forall|j: int| 8 < j < e.len() implies (#[trigger] e[j]).0@ != "dek_iv"@ by {
        if j == 9 {
            lemma_names_differ(e[9].0@, e[8].0@);
        }
    }
    lemma_last_value_at(e, 8, "dek_iv"@);
    lemma_last_value_at(e, 9, "master_iv"@);
}

impl WalletEncryptedData {
    /// The record as named string fields, in storage order (the storage form
    /// that `from_field_entries` reads back).
    pub fn to_field_entries(&self) -> (r: Vec<(String, String)>)
        ensures
            r@.len() == 10,
            record_from_entries(r@) == Some(self@),
    {
        let mut r: Vec<(String, String)> = Vec::new();
        r.push((owned("user_id"), owned(self.user_id.as_str())));
        r.push((owned("encrypted_private_key"), owned(self.encrypted_private_key.as_str())));
        r.push((owned("encrypted_dek"), owned(self.encrypted_dek.as_str())));
        r.push((owned("master_key_identifier"), owned(self.master_key_identifier.as_str())));
        r.push((owned("dek_id"), owned(self.dek_id.as_str())));
        r.push((owned("algorithm"), owned(self.algorithm.as_str())));
        r.push((owned("pin_salt"), owned(self.pin_salt.as_str())));
        r.push((owned("pin_iv"), owned(self.pin_iv.as_str())));
        r.push((owned("dek_iv"), owned(self.dek_iv.as_str())));
        r.push((owned("master_iv"), owned(self.master_iv.as_str())));
        proof {
            law_entries_round_trip(r@, self@);
        }
        r
    }
}

/// The name is one of the record's fields.
pub open spec fn is_record_field_name(name: Seq<char>) -> bool {
    name == "user_id"@
        || name == "encrypted_private_key"@
        || name == "encrypted_dek"@
        || name == "master_key_identifier"@
        || name == "dek_id"@
        || name == "algorithm"@
        || name == "pin_salt"@
        || name == "pin_iv"@
        || name == "dek_iv"@
        || name == "master_iv"@
}

/// Whether `name` is one of the record's fields.
pub fn is_record_field(name: &str) -> (b: bool)
    ensures
        b == is_record_field_name(name@),
{
    str_eq(name, "user_id")
        || str_eq(name, "encrypted_private_key")
        || str_eq(name, "encrypted_dek")
        || str_eq(name, "master_key_identifier")
        || str_eq(name, "dek_id")
        || str_eq(name, "algorithm")
        || str_eq(name, "pin_salt")
        || str_eq(name, "pin_iv")
        || str_eq(name, "dek_iv")
        || str_eq(name, "master_iv")
}

} // verus!
