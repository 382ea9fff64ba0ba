//! A verifier and a hasher that know three passwords. They stand in for a real
//! password hash where only the handling around it is exercised.

use vstd::prelude::*;
use vstd::string::StringSliceAdditionalSpecFns;

use crate::bytes::same_bytes;

verus! {

pub const OLD_PASSWORD: &'static str = "oldpass!";

pub const NEW_PASSWORD: &'static str = "newpass!";

pub const RESET_PASSWORD: &'static str = "resetpass!";

/// The hash of the old password.
pub const HASH: &'static str =
    "$argon2id$v=19$m=65536,t=3,p=1$c2FsdFNhbXBsZQ$ZGlnaWVzdFNhbXBsZQ";

/// The hash of the new password.
pub const NEW_HASH: &'static str =
    "$argon2id$v=19$m=65536,t=3,p=1$bmV3c2FsdFNhbXBsZQ$bmV3ZGlnaWVzdFNhbXBsZQ";

/// The hash of the password that a reset sets.
pub const RESET_HASH: &'static str =
    "$argon2id$v=19$m=65536,t=3,p=1$cmVzZXRzYW1wbGU$cmVzZXRkaWdlc3Q";

/// Whether a password is the one behind a hash.
pub open spec fn accepts(password: Seq<u8>, encoded_hash: Seq<u8>) -> bool {
    ||| encoded_hash == HASH.spec_bytes() && password == OLD_PASSWORD.spec_bytes()
    ||| encoded_hash == NEW_HASH.spec_bytes() && password == NEW_PASSWORD.spec_bytes()
    ||| encoded_hash == RESET_HASH.spec_bytes() && password == RESET_PASSWORD.spec_bytes()
}

/// The hash of a password. The old password is verified only, never set.
pub open spec fn hash_of(password: Seq<u8>) -> Option<Seq<char>> {
    if password == NEW_PASSWORD.spec_bytes() {
        Some(NEW_HASH@)
    } else if password == RESET_PASSWORD.spec_bytes() {
        Some(RESET_HASH@)
    } else {
        None
    }
}

pub struct FixtureVerifier;

impl FixtureVerifier {
    pub fn verify(&self, password: &[u8], encoded_hash: &[u8]) -> (accepted: bool)
        ensures
            accepted == accepts(password@, encoded_hash@),
    {
        (same_bytes(encoded_hash, HASH.as_bytes()) && same_bytes(password, OLD_PASSWORD.as_bytes()))
            || (same_bytes(encoded_hash, NEW_HASH.as_bytes()) && same_bytes(
            password,
            NEW_PASSWORD.as_bytes(),
        )) || (same_bytes(encoded_hash, RESET_HASH.as_bytes()) && same_bytes(
            password,
            RESET_PASSWORD.as_bytes(),
        ))
    }
}

pub struct FixtureHasher;

impl FixtureHasher {
    pub fn hash(&self, password: &[u8]) -> (encoded_hash: Option<String>)
        ensures
            encoded_hash is Some <==> hash_of(password@) is Some,
            encoded_hash matches Some(hash) ==> Some(hash@) == hash_of(password@),
    {
        if same_bytes(password, NEW_PASSWORD.as_bytes()) {
            Some(NEW_HASH.to_owned())
        } else if same_bytes(password, RESET_PASSWORD.as_bytes()) {
            Some(RESET_HASH.to_owned())
        } else {
            None
        }
    }
}

/// The verifier accepts every password under the hash that the hasher gives it.
pub proof fn law_hash_is_accepted(password: Seq<u8>)
    ensures
        hash_of(password) matches Some(hash) ==> accepts(
            password,
            vstd::utf8::encode_utf8(hash),
        ),
{
}

/// The verifier accepts at most one password under a hash.
pub proof fn law_one_password_per_hash(first: Seq<u8>, second: Seq<u8>, encoded_hash: Seq<u8>)
    requires
        accepts(first, encoded_hash),
        accepts(second, encoded_hash),
    ensures
        first == second,
{
    reveal_strlit("$argon2id$v=19$m=65536,t=3,p=1$c2FsdFNhbXBsZQ$ZGlnaWVzdFNhbXBsZQ");
    reveal_strlit("$argon2id$v=19$m=65536,t=3,p=1$bmV3c2FsdFNhbXBsZQ$bmV3ZGlnaWVzdFNhbXBsZQ");
    reveal_strlit("$argon2id$v=19$m=65536,t=3,p=1$cmVzZXRzYW1wbGU$cmVzZXRkaWdlc3Q");
    vstd::utf8::encode_utf8_decode_utf8(HASH@);
    vstd::utf8::encode_utf8_decode_utf8(NEW_HASH@);
    vstd::utf8::encode_utf8_decode_utf8(RESET_HASH@);
    assert(HASH@[31] == 'c' && NEW_HASH@[31] == 'b' && RESET_HASH@[31] == 'c');
    assert(HASH@[32] == '2' && RESET_HASH@[32] == 'm');
}

/// The verifier knows these three pairs of a hash and a password, and no other.
pub proof fn law_accepted_pairs(password: Seq<u8>, encoded_hash: Seq<u8>)
    ensures
        accepts(password, encoded_hash) && password == "oldpass!".spec_bytes() ==> encoded_hash
            == "$argon2id$v=19$m=65536,t=3,p=1$c2FsdFNhbXBsZQ$ZGlnaWVzdFNhbXBsZQ".spec_bytes(),
        accepts(password, encoded_hash) && password == "newpass!".spec_bytes() ==> encoded_hash
            == "$argon2id$v=19$m=65536,t=3,p=1$bmV3c2FsdFNhbXBsZQ$bmV3ZGlnaWVzdFNhbXBsZQ".spec_bytes(),
        accepts(password, encoded_hash) && password == "resetpass!".spec_bytes() ==> encoded_hash
            == "$argon2id$v=19$m=65536,t=3,p=1$cmVzZXRzYW1wbGU$cmVzZXRkaWdlc3Q".spec_bytes(),
        accepts(password, encoded_hash) ==> password == "oldpass!".spec_bytes() || password
            == "newpass!".spec_bytes() || password == "resetpass!".spec_bytes(),
        password == "oldpass!".spec_bytes() && encoded_hash
            == "$argon2id$v=19$m=65536,t=3,p=1$c2FsdFNhbXBsZQ$ZGlnaWVzdFNhbXBsZQ".spec_bytes()
            ==> accepts(password, encoded_hash),
        password == "newpass!".spec_bytes() && encoded_hash
            == "$argon2id$v=19$m=65536,t=3,p=1$bmV3c2FsdFNhbXBsZQ$bmV3ZGlnaWVzdFNhbXBsZQ".spec_bytes()
            ==> accepts(password, encoded_hash),
        password == "resetpass!".spec_bytes() && encoded_hash
            == "$argon2id$v=19$m=65536,t=3,p=1$cmVzZXRzYW1wbGU$cmVzZXRkaWdlc3Q".spec_bytes()
            ==> accepts(password, encoded_hash),
{
    lemma_passwords_differ();
}

proof fn lemma_passwords_differ()
    ensures
        "oldpass!".spec_bytes() != "newpass!".spec_bytes(),
        "oldpass!".spec_bytes() != "resetpass!".spec_bytes(),
        "newpass!".spec_bytes() != "resetpass!".spec_bytes(),
{
    reveal_strlit("oldpass!");
    reveal_strlit("newpass!");
    reveal_strlit("resetpass!");
    assert("oldpass!".is_ascii());
    assert("newpass!".is_ascii());
    assert("resetpass!".is_ascii());
    assert("oldpass!".spec_bytes()[0] == 111);
    assert("newpass!".spec_bytes()[0] == 110);
    assert("resetpass!".spec_bytes()[0] == 114);
}

/// The hasher gives a hash for the new password and for that of a reset, each its
/// own, and for nothing else.
pub proof fn law_hashed_passwords(password: Seq<u8>)
    ensures
        hash_of(password) is Some <==> password == "newpass!".spec_bytes() || password
            == "resetpass!".spec_bytes(),
        password == "newpass!".spec_bytes() ==> hash_of(password)
            == Some("$argon2id$v=19$m=65536,t=3,p=1$bmV3c2FsdFNhbXBsZQ$bmV3ZGlnaWVzdFNhbXBsZQ"@),
        password == "resetpass!".spec_bytes() ==> hash_of(password)
            == Some("$argon2id$v=19$m=65536,t=3,p=1$cmVzZXRzYW1wbGU$cmVzZXRkaWdlc3Q"@),
{
    lemma_passwords_differ();
}

/// `FixtureVerifier::verify` accepts what `FixtureHasher::hash` made of a password,
/// and of no other. Besides these it accepts the old password under its own hash,
/// which the hasher never gives.
pub proof fn law_verify_and_hash(
    verifier: &FixtureVerifier,
    hasher: &FixtureHasher,
    password: &[u8],
    encoded_hash: Option<String>,
    other: &[u8],
    bytes: &[u8],
    accepted: bool,
)
    requires
        call_ensures(FixtureHasher::hash, (hasher, password), encoded_hash),
        call_ensures(FixtureVerifier::verify, (verifier, other, bytes), accepted),
    ensures
        encoded_hash is Some <==> password@ == "newpass!".spec_bytes() || password@
            == "resetpass!".spec_bytes(),
        encoded_hash is Some && bytes@ == vstd::utf8::encode_utf8(encoded_hash->0@) ==> (accepted
            <==> other@ == password@),
        bytes@ == "$argon2id$v=19$m=65536,t=3,p=1$c2FsdFNhbXBsZQ$ZGlnaWVzdFNhbXBsZQ".spec_bytes()
            ==> (accepted <==> other@ == "oldpass!".spec_bytes()),
        accepted ==> other@ == "oldpass!".spec_bytes() || other@ == "newpass!".spec_bytes()
            || other@ == "resetpass!".spec_bytes(),
{
    law_hashed_passwords(password@);
    law_hash_is_accepted(password@);
    law_accepted_pairs(other@, bytes@);
    law_accepted_pairs("oldpass!".spec_bytes(), bytes@);
    if accepted && encoded_hash is Some && bytes@ == vstd::utf8::encode_utf8(encoded_hash->0@) {
        law_one_password_per_hash(password@, other@, bytes@);
    }
    if accepted && bytes@
        == "$argon2id$v=19$m=65536,t=3,p=1$c2FsdFNhbXBsZQ$ZGlnaWVzdFNhbXBsZQ".spec_bytes() {
        law_one_password_per_hash("oldpass!".spec_bytes(), other@, bytes@);
    }
}

} // verus!
