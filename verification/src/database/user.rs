use vstd::prelude::*;
use vstd::utf8::encode_utf8;

verus! {

/// The number of bytes of the UTF-8 encoding of `s`.
pub open spec fn byte_len(s: Seq<char>) -> nat {
    encode_utf8(s).len()
}

/// The longest username accepted, in bytes.
pub const USERNAME_MAX_LENGTH: usize = 32;

/// A registered user.
pub struct User {
    pub id: u32,
    pub username: Username,
    pub password_hash: String,
}

/// A user about to be registered.
pub struct InsertableUser {
    pub username: Username,
    pub password_hash: String,
}

/// The reason a string was refused as a username.
#[derive(Debug, PartialEq, Eq, Structural)]
pub enum UsernameError {
    /// The username takes more than `USERNAME_MAX_LENGTH` bytes.
    TooLong,
}

impl UsernameError {
    /// The text of the refusal.
    pub fn message(&self) -> (res: &'static str)
        ensures
            res@ == "Username is too long"@,
    {
        "Username is too long"
    }
}

/// A username of at most `USERNAME_MAX_LENGTH` bytes.
pub struct Username(String);

impl View for Username {
    type V = Seq<char>;

    closed spec fn view(&self) -> Seq<char> {
        self.0@
    }
}

impl Username {
    #[verifier::type_invariant]
    spec fn wf(self) -> bool {
        byte_len(self.0@) <= USERNAME_MAX_LENGTH
    }

    /// The username's text.
    pub fn inner(&self) -> (res: &str)
        ensures
            res@ == self@,
            byte_len(res@) <= USERNAME_MAX_LENGTH,
    {
        proof {
            use_type_invariant(self);
        }
        self.0.as_str()
    }

    /// Accepts `username` exactly when its UTF-8 encoding takes at most
    /// `USERNAME_MAX_LENGTH` bytes.
    pub fn try_from(username: String) -> (res: Result<Username, UsernameError>)
        ensures
            res is Ok <==> byte_len(username@) <= USERNAME_MAX_LENGTH,
            res matches Ok(name) ==> name@ == username@,
            res matches Err(e) ==> e == UsernameError::TooLong,
    {
        if username.as_str().as_bytes().len() > USERNAME_MAX_LENGTH {
            return Err(UsernameError::TooLong);
        }
        Ok(Username(username))
    }
}

} // verus!
