//! What comes of sealing and opening a state, said of the bytes and texts that
//! the parts of its stored form stand for.

use crate::vault::{
    aes_opened, aes_sealed, base64_decoded, base64_encoded, pbkdf2_sha256, plan_of, sealed_form,
    sealed_view, storage_key, stored_plan, unlocked, EncryptedState, EncryptedView, LoadPlan,
    LoadPlanView, Unlocked, UnlockedView,
};
use vstd::prelude::*;
use vstd::utf8::{decode_utf8, encode_utf8, valid_utf8};

verus! {

/// The key comes from the whole secret and the whole of the text that is the salt,
/// in a hundred thousand rounds.
pub proof fn law_key_comes_from_secret_and_salt(secret: Seq<u8>, salt: Seq<char>)
    ensures
        storage_key(secret, salt) == pbkdf2_sha256(secret, encode_utf8(salt), 100_000u32),
{
}

/// Where the parts of a stored state decode, the nonce has twelve bytes, and the
/// cipher finds in them what a text is encoded as, that text is what opening comes
/// to, whatever the text, and it is where the state is looked for.
pub proof fn law_what_was_sealed_is_found(
    sealed: EncryptedView,
    key: Seq<u8>,
    data: Seq<u8>,
    nonce: Seq<u8>,
    text: Seq<char>,
)
    requires
        base64_decoded(sealed.data) == Some(data),
        base64_decoded(sealed.nonce) == Some(nonce),
        nonce.len() == 12,
        aes_opened(key, nonce, data) == Some(encode_utf8(text)),
    ensures
        unlocked(sealed, key) == UnlockedView::Text(text),
        stored_plan(Some(sealed), key) == LoadPlanView::Decrypted(text),
{
    vstd::utf8::encode_utf8_valid_utf8(text);
    vstd::utf8::encode_utf8_decode_utf8(text);
}

/// Nothing else comes to a text: what is found as one is what the cipher finds in
/// the decoded parts.
pub proof fn law_only_what_was_sealed_is_found(
    sealed: EncryptedView,
    key: Seq<u8>,
    text: Seq<char>,
)
    requires
        unlocked(sealed, key) == UnlockedView::Text(text),
    ensures
        base64_decoded(sealed.data) is Some,
        base64_decoded(sealed.nonce) is Some,
        base64_decoded(sealed.nonce)->0.len() == 12,
        aes_opened(key, base64_decoded(sealed.nonce)->0, base64_decoded(sealed.data)->0) == Some(
            encode_utf8(text),
        ),
{
    let bytes = aes_opened(
        key,
        base64_decoded(sealed.nonce)->0,
        base64_decoded(sealed.data)->0,
    )->0;
    vstd::utf8::decode_utf8_encode_utf8(bytes);
}

/// The stored form of a text, under a nonce of twelve bytes, is opened to that
/// text, for every text, nonce and key for which the encoding and the cipher give
/// back what they were given.
pub proof fn law_the_stored_form_is_opened_again(
    text: Seq<char>,
    nonce: Seq<u8>,
    key: Seq<u8>,
)
    requires
        nonce.len() == 12,
        base64_decoded(base64_encoded(nonce)) == Some(nonce),
        base64_decoded(base64_encoded(aes_sealed(key, nonce, encode_utf8(text)))) == Some(
            aes_sealed(key, nonce, encode_utf8(text)),
        ),
        aes_opened(key, nonce, aes_sealed(key, nonce, encode_utf8(text))) == Some(
            encode_utf8(text),
        ),
    ensures
        unlocked(sealed_form(text, nonce, key), key) == UnlockedView::Text(text),
        base64_decoded(sealed_form(text, nonce, key).nonce) == Some(nonce),
{
    law_what_was_sealed_is_found(
        sealed_form(text, nonce, key),
        key,
        aes_sealed(key, nonce, encode_utf8(text)),
        nonce,
        text,
    );
}

/// What keeps a stored state from being opened is told by the first part that is
/// wrong: the data, then the nonce, then its length, then the cipher, then the
/// text.
pub proof fn law_the_first_fault_is_told(sealed: EncryptedView, key: Seq<u8>)
    ensures
        ({
            let data = base64_decoded(sealed.data);
            let nonce = base64_decoded(sealed.nonce);
            let found = aes_opened(key, nonce->0, data->0);
            let out = unlocked(sealed, key);
            &&& out is BadData <==> data is None
            &&& out is BadNonce <==> data is Some && nonce is None
            &&& out is NonceLength <==> data is Some && nonce is Some && nonce->0.len() != 12
            &&& out is Refused <==> data is Some && nonce is Some && nonce->0.len() == 12
                && found is None
            &&& out is NotText <==> data is Some && nonce is Some && nonce->0.len() == 12
                && found is Some && !valid_utf8(found->0)
            &&& out is Text <==> data is Some && nonce is Some && nonce->0.len() == 12
                && found is Some && valid_utf8(found->0)
            &&& out is Text ==> out->Text_0 == decode_utf8(found->0)
        }),
{
}

/// A state is looked for in the text that was found, where one was; nowhere, where
/// a part of the stored form does not decode; and otherwise in the file as it
/// stands, as it is where the file holds no stored form.
pub proof fn law_where_a_state_is_looked_for(sealed: EncryptedView, key: Seq<u8>)
    ensures
        stored_plan(None, key) is Contents,
        plan_of(None) is Contents,
        ({
            let out = unlocked(sealed, key);
            let plan = stored_plan(Some(sealed), key);
            &&& plan == plan_of(Some(out))
            &&& plan is Decrypted <==> out is Text
            &&& out is Text ==> plan->Decrypted_0 == out->Text_0
            &&& plan is Reject <==> out is BadData || out is BadNonce
            &&& plan is NonceLength <==> out is NonceLength
            &&& plan is Contents <==> out is Refused || out is NotText
        }),
{
}

/// What is said of the view of a stored state, of what opening came to or of a
/// plan is said of all that it holds.
pub proof fn law_vault_views_hold_every_part(
    a: (EncryptedState, Unlocked, LoadPlan),
    b: (EncryptedState, Unlocked, LoadPlan),
    o: Option<EncryptedState>,
)
    ensures
        a.0@ == b.0@ <==> a.0.data@ == b.0.data@ && a.0.nonce@ == b.0.nonce@,
        a.0@.data == a.0.data@,
        a.0@.nonce == a.0.nonce@,
        o matches Some(s) ==> sealed_view(o) == Some(s@),
        o is None ==> sealed_view(o) is None,
        a.1 is BadData <==> a.1@ is BadData,
        a.1 is BadNonce <==> a.1@ is BadNonce,
        a.1 is NonceLength <==> a.1@ is NonceLength,
        a.1 is Refused <==> a.1@ is Refused,
        a.1 is NotText <==> a.1@ is NotText,
        a.1 matches Unlocked::Text(text) ==> a.1@ == UnlockedView::Text(text@),
        a.2 is Reject <==> a.2@ is Reject,
        a.2 is NonceLength <==> a.2@ is NonceLength,
        a.2 is Contents <==> a.2@ is Contents,
        a.2 matches LoadPlan::Decrypted(text) ==> a.2@ == LoadPlanView::Decrypted(text@),
{
}

} // verus!
