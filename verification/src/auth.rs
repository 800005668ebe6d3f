use vstd::prelude::*;
use crate::database::user::byte_len;
use rand::Rng;
use argon2::PasswordHasher;
use password_hash::PasswordVerifier;

verus! {

/// The shortest password accepted, in bytes.
pub const PASSWORD_MIN_LENGTH: usize = 8;

/// The longest password accepted, in bytes.
pub const PASSWORD_MAX_LENGTH: usize = 64;

/// Argon2 memory cost, in KiB.
pub const HASH_M_COST: u32 = 15000;

/// Argon2 number of passes.
pub const HASH_T_COST: u32 = 2;

/// Argon2 degree of parallelism.
pub const HASH_P_COST: u32 = 1;

/// Length of the Argon2 output, in bytes.
pub const HASH_OUTPUT_LEN: usize = 32;

/// The number of random bytes behind an authentication token.
pub const AUTH_TOKEN_BYTES: usize = 30;

// ---------------------------------------------------------------------------
// Base64 (RFC 4648, standard alphabet, with padding)
// ---------------------------------------------------------------------------

/// The character of the standard Base64 alphabet that stands for `v`
/// (0 <= v < 64).
pub open spec fn base64_char(v: int) -> char {
    if v < 26 {
        (('A' as int) + v) as char
    } else if v < 52 {
        (('a' as int) + (v - 26)) as char
    } else if v < 62 {
        (('0' as int) + (v - 52)) as char
    } else if v == 62 {
        '+'
    } else {
        '/'
    }
}

/// The standard Base64 encoding of `b`, padded with `'='` to a multiple of
/// four characters: every three bytes become four characters of six bits each.
pub open spec fn base64_standard(b: Seq<u8>) -> Seq<char>
    decreases b.len(),
{
    if b.len() == 0 {
        Seq::<char>::empty()
    } else if b.len() == 1 {
        seq![base64_char((b[0] as int) / 4), base64_char(((b[0] as int) % 4) * 16), '=', '=']
    } else if b.len() == 2 {
        seq![
            base64_char((b[0] as int) / 4),
            base64_char(((b[0] as int) % 4) * 16 + (b[1] as int) / 16),
            base64_char(((b[1] as int) % 16) * 4),
            '=',
        ]
    } else {
        seq![
            base64_char((b[0] as int) / 4),
            base64_char(((b[0] as int) % 4) * 16 + (b[1] as int) / 16),
            base64_char(((b[1] as int) % 16) * 4 + (b[2] as int) / 64),
            base64_char((b[2] as int) % 64),
        ] + base64_standard(b.skip(3))
    }
}

/// Whether `c` can appear in a padded standard Base64 text.
pub open spec fn is_base64_char(c: char) -> bool {
    ('A' <= c && c <= 'Z') || ('a' <= c && c <= 'z') || ('0' <= c && c <= '9') || c == '+' || c
        == '/' || c == '='
}

/// The Base64 text of `n` bytes is four characters for every started group
/// of three bytes, and holds only Base64 characters.
pub proof fn lemma_base64_shape(b: Seq<u8>)
    ensures
        base64_standard(b).len() == 4 * ((b.len() + 2) / 3),
        forall|i: int|
            0 <= i < base64_standard(b).len() ==> is_base64_char(#[trigger] base64_standard(b)[i]),
    decreases b.len(),
{
    assert forall|v: int| 0 <= v < 64 implies is_base64_char(#[trigger] base64_char(v)) by {}
    if b.len() >= 3 {
        lemma_base64_shape(b.skip(3));
        let head = seq![
            base64_char((b[0] as int) / 4),
            base64_char(((b[0] as int) % 4) * 16 + (b[1] as int) / 16),
            base64_char(((b[1] as int) % 16) * 4 + (b[2] as int) / 64),
            base64_char((b[2] as int) % 64),
        ];
        let rest = base64_standard(b.skip(3));
        assert(base64_standard(b) == head + rest);
        assert forall|i: int| 0 <= i < (head + rest).len() implies is_base64_char(
            #[trigger] (head + rest)[i],
        ) by {
            if i >= 4 {
                assert((head + rest)[i] == rest[i - 4]);
            }
        }
    }
}

/// Each six-bit value has its own Base64 character.
proof fn lemma_base64_char_injective(v: int, w: int)
    requires
        0 <= v < 64,
        0 <= w < 64,
        base64_char(v) == base64_char(w),
    ensures
        v == w,
{
    assert(base64_char(v) as int == base64_char(w) as int);
}

/// The four characters of a full group give back its three bytes.
proof fn lemma_base64_group_injective(a0: u8, a1: u8, a2: u8, b0: u8, b1: u8, b2: u8)
    requires
        base64_char((a0 as int) / 4) == base64_char((b0 as int) / 4),
        base64_char(((a0 as int) % 4) * 16 + (a1 as int) / 16) == base64_char(
            ((b0 as int) % 4) * 16 + (b1 as int) / 16,
        ),
        base64_char(((a1 as int) % 16) * 4 + (a2 as int) / 64) == base64_char(
            ((b1 as int) % 16) * 4 + (b2 as int) / 64,
        ),
        base64_char((a2 as int) % 64) == base64_char((b2 as int) % 64),
    ensures
        a0 == b0 && a1 == b1 && a2 == b2,
{
    lemma_base64_char_injective((a0 as int) / 4, (b0 as int) / 4);
    lemma_base64_char_injective(
        ((a0 as int) % 4) * 16 + (a1 as int) / 16,
        ((b0 as int) % 4) * 16 + (b1 as int) / 16,
    );
    lemma_base64_char_injective(
        ((a1 as int) % 16) * 4 + (a2 as int) / 64,
        ((b1 as int) % 16) * 4 + (b2 as int) / 64,
    );
    lemma_base64_char_injective((a2 as int) % 64, (b2 as int) % 64);
}

/// Base64 loses nothing: two byte strings of one length with the same
/// standard Base64 text are the same bytes.
pub proof fn lemma_base64_injective(a: Seq<u8>, b: Seq<u8>)
    requires
        a.len() == b.len(),
        base64_standard(a) == base64_standard(b),
    ensures
        a == b,
    decreases a.len(),
{
    let ea = base64_standard(a);
    let eb = base64_standard(b);
    if a.len() == 1 {
        assert(ea[0] == eb[0] && ea[1] == eb[1]);
        lemma_base64_char_injective((a[0] as int) / 4, (b[0] as int) / 4);
        lemma_base64_char_injective(((a[0] as int) % 4) * 16, ((b[0] as int) % 4) * 16);
        assert(a =~= b);
    } else if a.len() == 2 {
        assert(ea[0] == eb[0] && ea[1] == eb[1] && ea[2] == eb[2]);
        lemma_base64_char_injective((a[0] as int) / 4, (b[0] as int) / 4);
        lemma_base64_char_injective(
            ((a[0] as int) % 4) * 16 + (a[1] as int) / 16,
            ((b[0] as int) % 4) * 16 + (b[1] as int) / 16,
        );
        lemma_base64_char_injective(((a[1] as int) % 16) * 4, ((b[1] as int) % 16) * 4);
        assert(a =~= b);
    } else if a.len() >= 3 {
        let ha = seq![
            base64_char((a[0] as int) / 4),
            base64_char(((a[0] as int) % 4) * 16 + (a[1] as int) / 16),
            base64_char(((a[1] as int) % 16) * 4 + (a[2] as int) / 64),
            base64_char((a[2] as int) % 64),
        ];
        let hb = seq![
            base64_char((b[0] as int) / 4),
            base64_char(((b[0] as int) % 4) * 16 + (b[1] as int) / 16),
            base64_char(((b[1] as int) % 16) * 4 + (b[2] as int) / 64),
            base64_char((b[2] as int) % 64),
        ];
        assert(ea == ha + base64_standard(a.skip(3)));
        assert(eb == hb + base64_standard(b.skip(3)));
        assert(ea[0] == ha[0] && ea[1] == ha[1] && ea[2] == ha[2] && ea[3] == ha[3]);
        assert(eb[0] == hb[0] && eb[1] == hb[1] && eb[2] == hb[2] && eb[3] == hb[3]);
        lemma_base64_group_injective(a[0], a[1], a[2], b[0], b[1], b[2]);
        assert(ea.skip(4) =~= base64_standard(a.skip(3)));
        assert(eb.skip(4) =~= base64_standard(b.skip(3)));
        lemma_base64_injective(a.skip(3), b.skip(3));
        assert forall|i: int| 0 <= i < a.len() implies a[i] == b[i] by {
            if i >= 3 {
                assert(a[i] == a.skip(3)[i - 3]);
                assert(b[i] == b.skip(3)[i - 3]);
            }
        }
        assert(a =~= b);
    } else {
        assert(a =~= b);
    }
}

/// Two logins draw different bytes and so get different tokens: the token
/// text of thirty bytes determines the bytes.
pub proof fn lemma_distinct_bytes_give_distinct_tokens(b1: [u8; 30], b2: [u8; 30])
    requires
        b1@ != b2@,
    ensures
        base64_standard(b1@) != base64_standard(b2@),
{
    if base64_standard(b1@) == base64_standard(b2@) {
        lemma_base64_injective(b1@, b2@);
    }
}

/// The B64 text of `b` (as PHC strings write salts and outputs): its standard
/// Base64 encoding without the `'='` padding, so `ceil(4 * n / 3)` characters.
pub open spec fn base64_unpadded(b: Seq<u8>) -> Seq<char> {
    base64_standard(b).take(((4 * b.len() + 2) / 3) as int)
}

/// Whether `s` is the B64 text of some `n` bytes.
pub open spec fn is_b64_of_len(s: Seq<char>, n: nat) -> bool {
    exists|b: Seq<u8>| b.len() == n && s == #[trigger] base64_unpadded(b)
}

/// Whether `salt` is the B64 text of 8 to 48 bytes: a salt that the PHC
/// format and Argon2 both accept.
pub open spec fn is_b64_salt(salt: Seq<char>) -> bool {
    exists|b: Seq<u8>| 8 <= b.len() <= 48 && salt == #[trigger] base64_unpadded(b)
}

/// `base64::encode`: the standard Base64 encoding of the bytes, with padding.
/// Claimed: the result is exactly `base64_standard(bytes@)`.
#[verifier::external_body]
fn base64_encode(bytes: &[u8]) -> (res: String)
    requires
        4 * ((bytes@.len() + 2) / 3) <= usize::MAX,
    ensures
        res@ == base64_standard(bytes@),
{
    base64::encode(bytes)
}

/// `rand::thread_rng().gen::<[u8; 30]>()`: thirty bytes from the thread-local
/// cryptographically secure generator. Nothing is claimed of their values.
#[verifier::external_body]
fn random_token_bytes() -> (res: [u8; 30]) {
    rand::thread_rng().gen()
}

/// The token text for the given random bytes: their padded standard Base64
/// encoding.
pub fn auth_token_from_bytes(bytes: [u8; 30]) -> (token: String)
    ensures
        token@ == base64_standard(bytes@),
        token@.len() == 40,
{
    proof {
        lemma_base64_shape(bytes@);
    }
    base64_encode(&bytes)
}

/// A fresh authentication token: thirty random bytes in Base64, so forty
/// characters of the Base64 alphabet.
pub fn gen_auth_token() -> (token: String)
    ensures
        token@.len() == 40,
        exists|bytes: Seq<u8>| bytes.len() == 30 && token@ == base64_standard(bytes),
        forall|i: int| 0 <= i < token@.len() ==> is_base64_char(#[trigger] token@[i]),
{
    let bytes = random_token_bytes();
    proof {
        lemma_base64_shape(bytes@);
    }
    auth_token_from_bytes(bytes)
}

// ---------------------------------------------------------------------------
// Password hashing (Argon2)
// ---------------------------------------------------------------------------

#[verifier::external_type_specification]
#[verifier::external_body]
pub struct ExPasswordHashError(password_hash::Error);

/// The parameters `argon2::Params::new` accepts: memory cost between 8 and
/// 2^28 - 1 KiB and at least eight blocks per lane, at least one pass, between
/// 1 and 2^24 - 1 lanes, and an output of at least four bytes that fits in
/// 32 bits.
pub open spec fn argon2_params_valid(m_cost: u32, t_cost: u32, p_cost: u32, output_len: usize) -> bool {
    &&& 8 <= m_cost <= 0x0FFF_FFFF
    &&& t_cost >= 1
    &&& 1 <= p_cost <= 0xFF_FFFF
    &&& 4 <= output_len <= 0xFFFF_FFFF
    &&& m_cost >= p_cost * 8
}

/// The PHC string of the Argon2id (version 0x13) hash of `password` with the
/// B64 salt `salt` and the given parameters, or nothing when the salt is not
/// accepted.
pub uninterp spec fn argon2id_phc(
    password: Seq<char>,
    salt: Seq<char>,
    m_cost: u32,
    t_cost: u32,
    p_cost: u32,
    output_len: usize,
) -> Option<Seq<char>>;

/// Whether `phc` parses as a PHC password-hash string.
pub uninterp spec fn phc_is_well_formed(phc: Seq<char>) -> bool;

/// Whether hashing `password` again with the algorithm, version, parameters
/// and salt recorded in the PHC string `phc` gives the output it records.
pub uninterp spec fn argon2_verifies(password: Seq<char>, phc: Seq<char>) -> bool;

/// `SaltString::generate(&mut rand::thread_rng())`: sixteen bytes from the
/// generator, written in B64 (`Base64Unpadded` of `base64ct`). Claimed: the
/// result is the B64 text of some sixteen bytes; which bytes is not claimed.
#[verifier::external_body]
fn random_salt() -> (res: String)
    ensures
        is_b64_of_len(res@, 16),
{
    password_hash::SaltString::generate(&mut rand::thread_rng()).as_str().to_owned()
}

/// `Argon2::new(Algorithm::Argon2id, Version::V0x13, params).hash_password(..)`
/// followed by `to_string`, with `params` built by `Params::new` from the
/// given costs (which the `requires` makes succeed). Claimed: the result is
/// `Ok` exactly when `argon2id_phc` gives a string for these arguments, and
/// is that string; hashing is deterministic in its arguments. It succeeds when
/// the salt is the B64 text of 8 to 48 bytes (`Salt::new` takes 4 to 64
/// characters of the B64 alphabet, Argon2 wants at least 8 decoded bytes), the
/// output takes 10 to 64 bytes (`Output::init_with`) and the password at most
/// `0xFFFF_FFFF` bytes (`MAX_PWD_LEN`). The string it gives parses again as a
/// PHC string (`Display` of `PasswordHash` writes the fields `parse` reads).
#[verifier::external_body]
fn argon2id_hash(
    password: &str,
    salt: &str,
    m_cost: u32,
    t_cost: u32,
    p_cost: u32,
    output_len: usize,
) -> (res: Result<String, password_hash::Error>)
    requires
        argon2_params_valid(m_cost, t_cost, p_cost, output_len),
    ensures
        res is Ok <==> argon2id_phc(password@, salt@, m_cost, t_cost, p_cost, output_len) is Some,
        res matches Ok(s) ==> s@ == argon2id_phc(
            password@,
            salt@,
            m_cost,
            t_cost,
            p_cost,
            output_len,
        )->0,
        10 <= output_len <= 64 && byte_len(password@) <= 0xFFFF_FFFF && is_b64_salt(salt@)
            ==> res is Ok,
        res matches Ok(s) ==> phc_is_well_formed(s@),
{
    let params = argon2::Params::new(m_cost, t_cost, p_cost, Some(output_len)).unwrap();
    argon2::Argon2::new(argon2::Algorithm::Argon2id, argon2::Version::V0x13, params)
        .hash_password(password.as_bytes(), salt)
        .map(|hash| hash.to_string())
}

/// `PasswordHash::new(phc)` followed by
/// `Argon2::default().verify_password(password, &hash).is_ok()`.
/// Claimed: `Err` exactly when `phc` does not parse; otherwise whether the
/// password verifies. The verifier recomputes the hash with the algorithm,
/// version, parameters and salt that the PHC string records, so a string that
/// `argon2id_hash` produced for this very password verifies.
#[verifier::external_body]
fn argon2_verify(password: &str, phc: &str) -> (res: Result<bool, password_hash::Error>)
    ensures
        res is Ok <==> phc_is_well_formed(phc@),
        res matches Ok(b) ==> b == argon2_verifies(password@, phc@),
        res matches Ok(true) || !(exists|salt: Seq<char>, m: u32, t: u32, p: u32, len: usize|
            argon2_params_valid(m, t, p, len) && #[trigger] argon2id_phc(
                password@,
                salt,
                m,
                t,
                p,
                len,
            ) == Some(phc@)),
{
    let hash = password_hash::PasswordHash::new(phc)?;
    Ok(argon2::Argon2::default().verify_password(password.as_bytes(), &hash).is_ok())
}

/// The description of a hashing error, as its `Display` gives it. Nothing is
/// claimed of the text.
#[verifier::external_body]
fn describe_hash_error(e: &password_hash::Error) -> (res: String) {
    e.to_string()
}

/// Hashing a password failed.
pub struct HashError {
    pub message: String,
}

/// The reason a string was refused as a password.
#[derive(Debug, PartialEq, Eq, Structural)]
pub enum PasswordError {
    /// The password takes fewer than `PASSWORD_MIN_LENGTH` bytes.
    TooShort,
    /// The password takes more than `PASSWORD_MAX_LENGTH` bytes.
    TooLong,
}

impl PasswordError {
    /// The text of the refusal.
    pub fn message(&self) -> (res: &'static str)
        ensures
            *self == PasswordError::TooShort ==> res@ == "Password is too short"@,
            *self == PasswordError::TooLong ==> res@ == "Password is too long"@,
    {
        match self {
            PasswordError::TooShort => "Password is too short",
            PasswordError::TooLong => "Password is too long",
        }
    }
}

/// A password of `PASSWORD_MIN_LENGTH` to `PASSWORD_MAX_LENGTH` bytes.
pub struct Password(String);

impl View for Password {
    type V = Seq<char>;

    closed spec fn view(&self) -> Seq<char> {
        self.0@
    }
}

impl Password {
    #[verifier::type_invariant]
    spec fn wf(self) -> bool {
        PASSWORD_MIN_LENGTH <= byte_len(self.0@) <= PASSWORD_MAX_LENGTH
    }

    /// Accepts `password` exactly when its UTF-8 encoding takes between
    /// `PASSWORD_MIN_LENGTH` and `PASSWORD_MAX_LENGTH` bytes; a password that
    /// is too short is reported as such before any other check.
    pub fn try_from(password: String) -> (res: Result<Password, PasswordError>)
        ensures
            res is Ok <==> PASSWORD_MIN_LENGTH <= byte_len(password@) <= PASSWORD_MAX_LENGTH,
            res matches Ok(p) ==> p@ == password@,
            res == Err::<Password, PasswordError>(PasswordError::TooShort) <==> byte_len(password@)
                < PASSWORD_MIN_LENGTH,
            res == Err::<Password, PasswordError>(PasswordError::TooLong) <==> byte_len(password@)
                > PASSWORD_MAX_LENGTH,
    {
        let len = password.as_str().as_bytes().len();
        if len < PASSWORD_MIN_LENGTH {
            return Err(PasswordError::TooShort);
        }
        if len > PASSWORD_MAX_LENGTH {
            return Err(PasswordError::TooLong);
        }
        Ok(Password(password))
    }

    /// The password's text.
    pub fn inner(&self) -> (res: &str)
        ensures
            res@ == self@,
            PASSWORD_MIN_LENGTH <= byte_len(res@) <= PASSWORD_MAX_LENGTH,
    {
        proof {
            use_type_invariant(self);
        }
        self.0.as_str()
    }

    /// The PHC string of the Argon2id hash of this password with the given
    /// salt and this library's cost parameters; it is there for every salt
    /// that is the B64 text of 8 to 48 bytes.
    pub fn compute_hash_with_salt(&self, salt: &str) -> (res: Result<String, HashError>)
        ensures
            is_b64_salt(salt@) ==> res is Ok,
            res matches Ok(h) ==> phc_is_well_formed(h@),
            res is Ok <==> argon2id_phc(
                self@,
                salt@,
                HASH_M_COST,
                HASH_T_COST,
                HASH_P_COST,
                HASH_OUTPUT_LEN,
            ) is Some,
            res matches Ok(h) ==> h@ == argon2id_phc(
                self@,
                salt@,
                HASH_M_COST,
                HASH_T_COST,
                HASH_P_COST,
                HASH_OUTPUT_LEN,
            )->0,
    {
        proof {
            use_type_invariant(self);
        }
        match argon2id_hash(
            self.0.as_str(),
            salt,
            HASH_M_COST,
            HASH_T_COST,
            HASH_P_COST,
            HASH_OUTPUT_LEN,
        ) {
            Ok(hash) => Ok(hash),
            Err(e) => Err(HashError { message: describe_hash_error(&e) }),
        }
    }

    /// The PHC string of the Argon2id hash of this password with a fresh salt
    /// of sixteen random bytes in B64 and this library's cost parameters.
    /// Hashing a valid password always succeeds.
    pub fn compute_hash(&self) -> (res: Result<String, HashError>)
        ensures
            res is Ok,
            res matches Ok(h) ==> phc_is_well_formed(h@),
            res matches Ok(h) ==> exists|salt_bytes: Seq<u8>|
                salt_bytes.len() == 16 && #[trigger] argon2id_phc(
                    self@,
                    base64_unpadded(salt_bytes),
                    HASH_M_COST,
                    HASH_T_COST,
                    HASH_P_COST,
                    HASH_OUTPUT_LEN,
                ) == Some(h@),
    {
        let salt = random_salt();
        self.compute_hash_with_salt(salt.as_str())
    }

    /// Whether this password verifies against the PHC string `hash`; `Err`
    /// when `hash` is not a PHC string. A hash that `compute_hash` made from
    /// this same password always verifies.
    pub fn matches_hash(&self, hash: &str) -> (res: Result<bool, HashError>)
        ensures
            res is Ok <==> phc_is_well_formed(hash@),
            res matches Ok(b) ==> b == argon2_verifies(self@, hash@),
            (exists|salt: Seq<char>|
                #[trigger] argon2id_phc(
                    self@,
                    salt,
                    HASH_M_COST,
                    HASH_T_COST,
                    HASH_P_COST,
                    HASH_OUTPUT_LEN,
                ) == Some(hash@)) ==> res matches Ok(true),
    {
        match argon2_verify(self.0.as_str(), hash) {
            Ok(b) => Ok(b),
            Err(e) => Err(HashError { message: describe_hash_error(&e) }),
        }
    }
}

} // verus!
