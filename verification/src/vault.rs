//! Sealing of the saved state: key derivation, encryption, and the text form
//! in which an encrypted state is stored.

use crate::state::AppState;
use aes_gcm::aead::{Aead, KeyInit};
use base64::Engine;
use rand_core::{RngCore, SeedableRng};
use vstd::prelude::*;
use vstd::string::*;
use vstd::utf8::{decode_utf8, encode_utf8, valid_utf8};

verus! {

/// How many rounds the key derivation makes.
pub const PBKDF2_ITERATIONS: u32 = 100_000;

/// How many bytes a nonce has.
pub const NONCE_LEN: usize = 12;

/// How many bytes the application secret has.
pub const SECRET_LEN: usize = 32;

/// The longest text, in bytes, that the cipher takes.
pub const MAX_PLAINTEXT: u64 = 0x10_0000_0000;

/// How many bytes the cipher adds to a text.
pub const TAG_LEN: usize = 16;

/// An encrypted state in its stored form.
#[derive(Debug)]
pub struct EncryptedState {
    /// The encrypted bytes, in base64.
    pub data: String,
    /// The nonce, in base64.
    pub nonce: String,
}

/// What an [`EncryptedState`] holds.
pub struct EncryptedView {
    pub data: Seq<char>,
    pub nonce: Seq<char>,
}

impl View for EncryptedState {
    type V = EncryptedView;

    open spec fn view(&self) -> EncryptedView {
        EncryptedView { data: self.data@, nonce: self.nonce@ }
    }
}

impl Clone for EncryptedState {
    fn clone(&self) -> (copy: Self)
        ensures
            copy@ == self@,
    {
        EncryptedState { data: self.data.clone(), nonce: self.nonce.clone() }
    }
}

/// The error of `aes_gcm`, which carries nothing.
#[verifier::external_type_specification]
#[verifier::external_body]
pub struct ExCipherError(aes_gcm::Error);

/// The error of `base64` for a text that is not valid.
#[verifier::external_type_specification]
#[verifier::external_body]
pub struct ExDecodeError(base64::DecodeError);

/// The 32 bytes that PBKDF2 with HMAC-SHA256 derives from a password, a salt
/// and a number of rounds.
pub uninterp spec fn pbkdf2_sha256(password: Seq<u8>, salt: Seq<u8>, rounds: u32) -> Seq<u8>;

/// What AES-256-GCM makes of a text under a key and a nonce: the encrypted
/// bytes with the tag behind them.
pub uninterp spec fn aes_sealed(key: Seq<u8>, nonce: Seq<u8>, text: Seq<u8>) -> Seq<u8>;

/// The text that AES-256-GCM finds in `sealed` under a key and a nonce, if the
/// tag is right.
pub uninterp spec fn aes_opened(key: Seq<u8>, nonce: Seq<u8>, sealed: Seq<u8>) -> Option<Seq<u8>>;

/// The standard base64 form of some bytes, with padding.
pub uninterp spec fn base64_encoded(bytes: Seq<u8>) -> Seq<char>;

/// The bytes whose standard base64 form is `text`, if it is one.
pub uninterp spec fn base64_decoded(text: Seq<char>) -> Option<Seq<u8>>;

/// Calls `pbkdf2::pbkdf2_hmac` with SHA-256 and a result of 32 bytes. The bytes
/// depend on the password, the salt and the number of rounds alone.
#[verifier::external_body]
fn derive_key(password: &[u8], salt: &[u8], rounds: u32) -> (key: [u8; 32])
    ensures
        key@ == pbkdf2_sha256(password@, salt@, rounds),
{
    let mut key = [0u8; 32];
    pbkdf2::pbkdf2_hmac::<sha2::Sha256>(password, salt, rounds, &mut key);
    key
}

/// Calls `rand_core::RngCore::fill_bytes` on a `rand::rngs::StdRng` that
/// `SeedableRng::from_entropy` made. It fills the buffer, whose length stays;
/// which bytes it writes is chance. Where the system gives no random bytes it
/// does not return.
#[verifier::external_body]
fn fill_from_entropy(buffer: &mut Vec<u8>)
    ensures
        final(buffer)@.len() == old(buffer)@.len(),
{
    let mut rng = rand::rngs::StdRng::from_entropy();
    rng.fill_bytes(buffer);
}

/// Calls `rand_core::RngCore::fill_bytes` on `rand::thread_rng()`. It fills the
/// buffer, whose length stays; which bytes it writes is chance. Where the system
/// gives no random bytes it does not return.
#[verifier::external_body]
fn fill_from_thread_rng(buffer: &mut Vec<u8>)
    ensures
        final(buffer)@.len() == old(buffer)@.len(),
{
    rand::thread_rng().fill_bytes(buffer);
}

/// Calls `aes_gcm::aead::Aead::encrypt` of `aes_gcm::Aes256Gcm`. It fails
/// exactly on a text longer than 2^36 bytes. What it makes depends on the key,
/// the nonce and the text alone, is 16 bytes longer than the text, and is opened
/// again by the same key and nonce.
#[verifier::external_body]
fn aes_encrypt(key: &[u8; 32], nonce: &[u8], text: &[u8]) -> (sealed: Result<
    Vec<u8>,
    aes_gcm::Error,
>)
    requires
        nonce@.len() == 12,
        text@.len() + 16 <= isize::MAX,
    ensures
        sealed is Ok <==> text@.len() <= 0x10_0000_0000,
        sealed matches Ok(bytes) ==> {
            &&& bytes@ == aes_sealed(key@, nonce@, text@)
            &&& bytes@.len() == text@.len() + 16
            &&& aes_opened(key@, nonce@, bytes@) == Some(text@)
        },
{
    let cipher = aes_gcm::Aes256Gcm::new(aes_gcm::Key::<aes_gcm::Aes256Gcm>::from_slice(key));
    cipher.encrypt(aes_gcm::Nonce::from_slice(nonce), text)
}

/// Calls `aes_gcm::aead::Aead::decrypt` of `aes_gcm::Aes256Gcm`. Whether it
/// succeeds, and with which text, depends on the key, the nonce and the bytes
/// alone. A text that it finds is 16 bytes shorter, and encrypting it under the
/// same key and nonce, where it is not too long for that, gives the bytes back.
#[verifier::external_body]
fn aes_decrypt(key: &[u8; 32], nonce: &[u8], sealed: &[u8]) -> (text: Result<
    Vec<u8>,
    aes_gcm::Error,
>)
    requires
        nonce@.len() == 12,
    ensures
        match text {
            Ok(bytes) => {
                &&& aes_opened(key@, nonce@, sealed@) == Some(bytes@)
                &&& bytes@.len() + 16 == sealed@.len()
                &&& bytes@.len() <= 0x10_0000_0000 ==> aes_sealed(key@, nonce@, bytes@) == sealed@
            },
            Err(_) => aes_opened(key@, nonce@, sealed@) is None,
        },
{
    let cipher = aes_gcm::Aes256Gcm::new(aes_gcm::Key::<aes_gcm::Aes256Gcm>::from_slice(key));
    cipher.decrypt(aes_gcm::Nonce::from_slice(nonce), sealed)
}

/// Calls `base64::Engine::encode` of `general_purpose::STANDARD`. The text
/// depends on the bytes alone, and decoding it gives them back.
#[verifier::external_body]
fn base64_encode(bytes: &[u8]) -> (text: String)
    requires
        (bytes@.len() + 2) / 3 * 4 <= isize::MAX,
    ensures
        text@ == base64_encoded(bytes@),
        base64_decoded(text@) == Some(bytes@),
{
    base64::engine::general_purpose::STANDARD.encode(bytes)
}

/// Calls `base64::Engine::decode` of `general_purpose::STANDARD`. Whether it
/// succeeds, and with which bytes, depends on the text alone; it takes a text
/// only in the form that encoding the bytes gives.
#[verifier::external_body]
fn base64_decode(text: &str) -> (bytes: Result<Vec<u8>, base64::DecodeError>)
    ensures
        match bytes {
            Ok(b) => base64_decoded(text@) == Some(b@) && base64_encoded(b@) == text@,
            Err(_) => base64_decoded(text@) is None,
        },
{
    base64::engine::general_purpose::STANDARD.decode(text)
}

/// Calls `String::from_utf8`. It succeeds exactly on valid UTF-8, with the text
/// that the bytes encode.
#[verifier::external_body]
fn text_from_utf8(bytes: Vec<u8>) -> (text: Result<String, std::string::FromUtf8Error>)
    ensures
        match text {
            Ok(s) => valid_utf8(bytes@) && s@ == decode_utf8(bytes@),
            Err(_) => !valid_utf8(bytes@),
        },
{
    String::from_utf8(bytes)
}

/// The error of `String::from_utf8`.
#[verifier::external_type_specification]
#[verifier::external_body]
pub struct ExFromUtf8Error(std::string::FromUtf8Error);

/// The key that an application secret gives, with the text that names the
/// configuration directory as the salt.
pub open spec fn storage_key(app_secret: Seq<u8>, salt_source: Seq<char>) -> Seq<u8> {
    pbkdf2_sha256(app_secret, encode_utf8(salt_source), PBKDF2_ITERATIONS)
}

/// The key under which a state is stored: derived from the application secret,
/// with the text that names the configuration directory as the salt.
pub fn get_encryption_key(app_secret: &[u8], salt_source: &str) -> (key: [u8; 32])
    ensures
        key@ == storage_key(app_secret@, salt_source@),
{
    derive_key(app_secret, salt_source.as_bytes(), PBKDF2_ITERATIONS)
}

/// A new application secret.
pub fn new_app_secret() -> (secret: Vec<u8>)
    ensures
        secret@.len() == SECRET_LEN,
{
    let mut secret: Vec<u8> = vec![0u8; SECRET_LEN];
    fill_from_thread_rng(&mut secret);
    secret
}

/// Where the application secret comes from.
#[derive(Debug)]
pub enum SecretPlan {
    /// From the file, whose first [`SECRET_LEN`] bytes are the secret.
    Load,
    /// It is this new one, which is to be stored.
    Create(Vec<u8>),
}

/// Decides where the application secret comes from: it is made once.
pub fn plan_app_secret(stored: bool) -> (plan: SecretPlan)
    ensures
        match plan {
            SecretPlan::Load => stored,
            SecretPlan::Create(secret) => !stored && secret@.len() == SECRET_LEN,
        },
{
    if stored {
        SecretPlan::Load
    } else {
        SecretPlan::Create(new_app_secret())
    }
}

/// Encrypts `data` under `key` and `nonce`.
pub fn encrypt_with_nonce(data: &[u8], nonce: &[u8], key: &[u8; 32]) -> (out: Result<
    Vec<u8>,
    String,
>)
    requires
        nonce@.len() == NONCE_LEN,
        data@.len() + TAG_LEN <= isize::MAX,
    ensures
        match out {
            Ok(sealed) => {
                &&& data@.len() <= MAX_PLAINTEXT
                &&& sealed@ == aes_sealed(key@, nonce@, data@)
                &&& sealed@.len() == data@.len() + TAG_LEN
                &&& aes_opened(key@, nonce@, sealed@) == Some(data@)
            },
            Err(message) => data@.len() > MAX_PLAINTEXT && message@ == "Encryption error: Error"@,
        },
{
    match aes_encrypt(key, nonce, data) {
        Ok(sealed) => Ok(sealed),
        Err(_) => Err("Encryption error: Error".to_owned()),
    }
}

/// Encrypts `data` under `key` and a nonce of its own; gives the encrypted bytes
/// and the nonce.
pub fn encrypt_data(data: &[u8], key: &[u8; 32]) -> (out: Result<(Vec<u8>, Vec<u8>), String>)
    requires
        data@.len() + TAG_LEN <= isize::MAX,
    ensures
        match out {
            Ok((sealed, nonce)) => {
                &&& data@.len() <= MAX_PLAINTEXT
                &&& nonce@.len() == NONCE_LEN
                &&& sealed@ == aes_sealed(key@, nonce@, data@)
                &&& sealed@.len() == data@.len() + TAG_LEN
                &&& aes_opened(key@, nonce@, sealed@) == Some(data@)
            },
            Err(message) => data@.len() > MAX_PLAINTEXT && message@ == "Encryption error: Error"@,
        },
{
    let mut nonce: Vec<u8> = vec![0u8; NONCE_LEN];
    fill_from_entropy(&mut nonce);
    match encrypt_with_nonce(data, nonce.as_slice(), key) {
        Ok(sealed) => Ok((sealed, nonce)),
        Err(message) => Err(message),
    }
}

/// Decrypts what [`encrypt_data`] made, with the nonce that came with it. The
/// text is as much shorter as encrypting made it longer, so that too few bytes
/// are refused.
pub fn decrypt_data(encrypted_data: &[u8], nonce_bytes: &[u8], key: &[u8; 32]) -> (out: Result<
    Vec<u8>,
    String,
>)
    requires
        nonce_bytes@.len() == NONCE_LEN,
    ensures
        match out {
            Ok(data) => {
                &&& aes_opened(key@, nonce_bytes@, encrypted_data@) == Some(data@)
                &&& data@.len() + TAG_LEN == encrypted_data@.len()
                &&& data@.len() <= MAX_PLAINTEXT ==> aes_sealed(key@, nonce_bytes@, data@)
                    == encrypted_data@
            },
            Err(message) => {
                &&& aes_opened(key@, nonce_bytes@, encrypted_data@) is None
                &&& message@ == "Decryption error: Error"@
            },
        },
        encrypted_data@.len() < TAG_LEN ==> out is Err,
{
    match aes_decrypt(key, nonce_bytes, encrypted_data) {
        Ok(data) => Ok(data),
        Err(_) => Err("Decryption error: Error".to_owned()),
    }
}

/// What comes of opening a stored state.
#[derive(Debug)]
pub enum Unlocked {
    /// The encrypted bytes are not in base64.
    BadData,
    /// The nonce is not in base64.
    BadNonce,
    /// The nonce does not have the length of a nonce.
    NonceLength,
    /// The bytes were not encrypted under this key and nonce.
    Refused,
    /// What was encrypted is not text.
    NotText,
    /// The text that was encrypted.
    Text(String),
}

/// What an [`Unlocked`] holds.
pub enum UnlockedView {
    BadData,
    BadNonce,
    NonceLength,
    Refused,
    NotText,
    Text(Seq<char>),
}

impl View for Unlocked {
    type V = UnlockedView;

    open spec fn view(&self) -> UnlockedView {
        match self {
            Unlocked::BadData => UnlockedView::BadData,
            Unlocked::BadNonce => UnlockedView::BadNonce,
            Unlocked::NonceLength => UnlockedView::NonceLength,
            Unlocked::Refused => UnlockedView::Refused,
            Unlocked::NotText => UnlockedView::NotText,
            Unlocked::Text(text) => UnlockedView::Text(text@),
        }
    }
}

/// What opening `sealed` comes to, given the bytes that its two parts decode to
/// and the text found in them.
pub open spec fn opening(
    data: Option<Seq<u8>>,
    nonce: Option<Seq<u8>>,
    opened: Option<Seq<u8>>,
) -> UnlockedView {
    if data is None {
        UnlockedView::BadData
    } else if nonce is None {
        UnlockedView::BadNonce
    } else if nonce->0.len() != NONCE_LEN {
        UnlockedView::NonceLength
    } else if opened is None {
        UnlockedView::Refused
    } else if !valid_utf8(opened->0) {
        UnlockedView::NotText
    } else {
        UnlockedView::Text(decode_utf8(opened->0))
    }
}

/// What opening `sealed` under `key` comes to.
pub open spec fn unlocked(sealed: EncryptedView, key: Seq<u8>) -> UnlockedView {
    let data = base64_decoded(sealed.data);
    let nonce = base64_decoded(sealed.nonce);
    opening(data, nonce, aes_opened(key, nonce->0, data->0))
}

/// The stored form of `text` under a key and a nonce.
pub open spec fn sealed_form(text: Seq<char>, nonce: Seq<u8>, key: Seq<u8>) -> EncryptedView {
    EncryptedView {
        data: base64_encoded(aes_sealed(key, nonce, encode_utf8(text))),
        nonce: base64_encoded(nonce),
    }
}

/// The text in bytes that were decrypted, if they are text.
pub fn read_text(bytes: Vec<u8>) -> (out: Unlocked)
    ensures
        out@ == (if valid_utf8(bytes@) {
            UnlockedView::Text(decode_utf8(bytes@))
        } else {
            UnlockedView::NotText
        }),
{
    match text_from_utf8(bytes) {
        Ok(text) => Unlocked::Text(text),
        Err(_) => Unlocked::NotText,
    }
}

/// Encrypts `plaintext` under `key` into its stored form, from which the same
/// key opens it again.
pub fn seal_state(plaintext: &str, key: &[u8; 32]) -> (out: Result<EncryptedState, String>)
    requires
        (encode_utf8(plaintext@).len() + TAG_LEN + 2) / 3 * 4 <= isize::MAX,
    ensures
        match out {
            Ok(sealed) => {
                &&& encode_utf8(plaintext@).len() <= MAX_PLAINTEXT
                &&& exists|nonce: Seq<u8>|
                    nonce.len() == NONCE_LEN && sealed@ == #[trigger] sealed_form(
                        plaintext@,
                        nonce,
                        key@,
                    )
                &&& unlocked(sealed@, key@) == UnlockedView::Text(plaintext@)
            },
            Err(message) => {
                &&& encode_utf8(plaintext@).len() > MAX_PLAINTEXT
                &&& message@ == "Encryption error: Error"@
            },
        },
{
    proof {
        vstd::utf8::encode_utf8_valid_utf8(plaintext@);
        vstd::utf8::encode_utf8_decode_utf8(plaintext@);
    }
    match encrypt_data(plaintext.as_bytes(), key) {
        Ok((ciphertext, nonce)) => {
            let sealed = EncryptedState {
                data: base64_encode(ciphertext.as_slice()),
                nonce: base64_encode(nonce.as_slice()),
            };
            assert(sealed@ == sealed_form(plaintext@, nonce@, key@));
            Ok(sealed)
        },
        Err(message) => Err(message),
    }
}

/// Opens a stored state under `key`. What comes out as text is what, encrypted
/// under the same key and nonce, has this stored form.
pub fn unlock_state(sealed: &EncryptedState, key: &[u8; 32]) -> (out: Unlocked)
    ensures
        out@ == unlocked(sealed@, key@),
        out@ matches UnlockedView::Text(text) ==> encode_utf8(text).len() <= MAX_PLAINTEXT
            ==> exists|nonce: Seq<u8>|
            nonce.len() == NONCE_LEN && sealed@ == #[trigger] sealed_form(text, nonce, key@),
{
    let data = match base64_decode(sealed.data.as_str()) {
        Ok(data) => data,
        Err(_) => {
            return Unlocked::BadData;
        },
    };
    let nonce = match base64_decode(sealed.nonce.as_str()) {
        Ok(nonce) => nonce,
        Err(_) => {
            return Unlocked::BadNonce;
        },
    };
    if nonce.len() != NONCE_LEN {
        return Unlocked::NonceLength;
    }
    match decrypt_data(data.as_slice(), nonce.as_slice(), key) {
        Ok(bytes) => {
            let ghost found = bytes@;
            let out = read_text(bytes);
            proof {
                if out is Text {
                    vstd::utf8::decode_utf8_encode_utf8(found);
                    if found.len() <= MAX_PLAINTEXT {
                        assert(sealed@ == sealed_form(decode_utf8(found), nonce@, key@));
                    }
                }
            }
            out
        },
        Err(_) => Unlocked::Refused,
    }
}

/// Where a loaded state is to be looked for.
#[derive(Debug)]
pub enum LoadPlan {
    /// Nowhere: there is none.
    Reject,
    /// Nowhere: the stored nonce has a length that no cipher takes.
    NonceLength,
    /// In this decrypted text, and in the file as it stands if the text is not a
    /// state.
    Decrypted(String),
    /// In the file as it stands.
    Contents,
}

/// What a [`LoadPlan`] holds.
pub enum LoadPlanView {
    Reject,
    NonceLength,
    Decrypted(Seq<char>),
    Contents,
}

impl View for LoadPlan {
    type V = LoadPlanView;

    open spec fn view(&self) -> LoadPlanView {
        match self {
            LoadPlan::Reject => LoadPlanView::Reject,
            LoadPlan::NonceLength => LoadPlanView::NonceLength,
            LoadPlan::Decrypted(text) => LoadPlanView::Decrypted(text@),
            LoadPlan::Contents => LoadPlanView::Contents,
        }
    }
}

/// Where to look, given what opening came to: a file that is not a stored state
/// is read as it stands, and so is one that this key does not open.
pub open spec fn plan_of(unlocked: Option<UnlockedView>) -> LoadPlanView {
    match unlocked {
        None => LoadPlanView::Contents,
        Some(UnlockedView::BadData) => LoadPlanView::Reject,
        Some(UnlockedView::BadNonce) => LoadPlanView::Reject,
        Some(UnlockedView::NonceLength) => LoadPlanView::NonceLength,
        Some(UnlockedView::Refused) => LoadPlanView::Contents,
        Some(UnlockedView::NotText) => LoadPlanView::Contents,
        Some(UnlockedView::Text(text)) => LoadPlanView::Decrypted(text),
    }
}

/// Decides where to look for the state, given what opening came to.
pub fn plan_for(unlocked: Unlocked) -> (plan: LoadPlan)
    ensures
        plan@ == plan_of(Some(unlocked@)),
{
    match unlocked {
        Unlocked::BadData => LoadPlan::Reject,
        Unlocked::BadNonce => LoadPlan::Reject,
        Unlocked::NonceLength => LoadPlan::NonceLength,
        Unlocked::Refused => LoadPlan::Contents,
        Unlocked::NotText => LoadPlan::Contents,
        Unlocked::Text(text) => LoadPlan::Decrypted(text),
    }
}

/// What a file that may hold a stored state holds of one.
pub open spec fn sealed_view(sealed: Option<EncryptedState>) -> Option<EncryptedView> {
    match sealed {
        Some(s) => Some(s@),
        None => None,
    }
}

/// Where to look for the state in a file that holds `sealed`, under `key`.
pub open spec fn stored_plan(sealed: Option<EncryptedView>, key: Seq<u8>) -> LoadPlanView {
    plan_of(
        match sealed {
            Some(s) => Some(unlocked(s, key)),
            None => None,
        },
    )
}

/// Decides where to look for the state in a file that holds `sealed`, or that
/// holds no stored state at all.
pub fn plan_load(sealed: &Option<EncryptedState>, key: &[u8; 32]) -> (plan: LoadPlan)
    ensures
        plan@ == stored_plan(sealed_view(*sealed), key@),
{
    match sealed {
        Some(s) => plan_for(unlock_state(s, key)),
        None => LoadPlan::Contents,
    }
}

impl AppState {
    /// The form in which a state, written as `plaintext`, is saved to disk. What
    /// is saved is found again in that form under the same secret and salt.
    pub fn save_to_disk(plaintext: &str, app_secret: &[u8], salt_source: &str) -> (out: Result<
        EncryptedState,
        String,
    >)
        requires
            (encode_utf8(plaintext@).len() + TAG_LEN + 2) / 3 * 4 <= isize::MAX,
        ensures
            match out {
                Ok(sealed) => {
                    &&& encode_utf8(plaintext@).len() <= MAX_PLAINTEXT
                    &&& exists|nonce: Seq<u8>|
                        nonce.len() == NONCE_LEN && sealed@ == #[trigger] sealed_form(
                            plaintext@,
                            nonce,
                            storage_key(app_secret@, salt_source@),
                        )
                    &&& stored_plan(
                        Some(sealed@),
                        storage_key(app_secret@, salt_source@),
                    ) == LoadPlanView::Decrypted(plaintext@)
                },
                Err(message) => {
                    &&& encode_utf8(plaintext@).len() > MAX_PLAINTEXT
                    &&& message@ == "Encryption error: Error"@
                },
            },
    {
        let key = get_encryption_key(app_secret, salt_source);
        seal_state(plaintext, &key)
    }

    /// Where the state is to be looked for in a file from disk that holds
    /// `sealed`, or that holds no stored state at all.
    pub fn load_from_disk(
        sealed: &Option<EncryptedState>,
        app_secret: &[u8],
        salt_source: &str,
    ) -> (plan: LoadPlan)
        ensures
            plan@ == stored_plan(
                sealed_view(*sealed),
                storage_key(app_secret@, salt_source@),
            ),
    {
        let key = get_encryption_key(app_secret, salt_source);
        plan_load(sealed, &key)
    }
}

/// The state that is loaded, given what the places of the plan were read as.
pub fn settle_load(
    plan: &LoadPlan,
    decrypted: Option<AppState>,
    contents: Option<AppState>,
) -> (state: Option<AppState>)
    requires
        !(plan is NonceLength),
    ensures
        state == (match plan@ {
            LoadPlanView::Decrypted(_) => if decrypted is Some {
                decrypted
            } else {
                contents
            },
            LoadPlanView::Contents => contents,
            _ => None,
        }),
{
    match plan {
        LoadPlan::Decrypted(_) => match decrypted {
            Some(state) => Some(state),
            None => contents,
        },
        LoadPlan::Contents => contents,
        _ => None,
    }
}

} // verus!
