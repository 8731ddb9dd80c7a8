//! Downstream and bus credentials, and the HTTP basic-auth header built from
//! them. Reading a file-referenced password is I/O and happens outside the
//! library; callers resolve such a credential into its raw form first.

use vstd::prelude::*;

use vstd::string::StringSliceAdditionalSpecFns;
use vstd::utf8::encode_utf8;

use crate::strings::push_char;

verus! {

/// A username with its password, either given directly or with the password
/// held in a file to be read outside the library.
#[derive(Clone, Debug)]
pub enum Credentials {
    Raw { username: String, password: String },
    File { username: String, password_file: String },
}

/// What the standard, padded base64 alphabet encodes a byte sequence to.
pub uninterp spec fn base64_of(bytes: Seq<u8>) -> Seq<char>;

/// Relies on base64's `Engine::encode` with the `STANDARD` engine: the
/// padded standard-alphabet encoding of the input bytes, four characters for
/// every started group of three bytes.
#[verifier::external_body]
fn base64_encode(data: &str) -> (r: String)
    ensures
        r@ == base64_of(data.spec_bytes()),
        r@.len() == 4 * ((data.spec_bytes().len() + 2) / 3),
{
    base64::Engine::encode(&base64::engine::general_purpose::STANDARD, data.as_bytes())
}

/// The basic-auth header value for a username and password:
/// `Basic ` followed by the base64 encoding of `username:password`.
pub open spec fn basic_header_of(username: Seq<char>, password: Seq<char>) -> Seq<char> {
    "Basic "@ + base64_of(encode_utf8(username + seq![':'] + password))
}

impl Credentials {
    /// The username, whichever form the credential takes.
    pub open spec fn spec_username(&self) -> Seq<char> {
        match self {
            Credentials::Raw { username, .. } => username@,
            Credentials::File { username, .. } => username@,
        }
    }

    /// The password of an already-resolved credential.
    pub open spec fn spec_password(&self) -> Seq<char>
        recommends
            self is Raw,
    {
        match self {
            Credentials::Raw { password, .. } => password@,
            Credentials::File { .. } => Seq::empty(),
        }
    }

    pub fn username(&self) -> (r: String)
        ensures
            r@ == self.spec_username(),
    {
        match self {
            Credentials::Raw { username, .. } => username.clone(),
            Credentials::File { username, .. } => username.clone(),
        }
    }

    /// The password. A file-referenced password must have been resolved into
    /// a raw credential by the caller before this is asked for.
    pub fn password(&self) -> (r: String)
        requires
            self is Raw,
        ensures
            r@ == self.spec_password(),
    {
        match self {
            Credentials::Raw { password, .. } => password.clone(),
            Credentials::File { .. } => String::new(),
        }
    }

    /// The `Authorization` header value these credentials ask for.
    pub fn auth_header(&self) -> (r: String)
        requires
            self is Raw,
        ensures
            r@ == basic_header_of(self.spec_username(), self.spec_password()),
    {
        let mut creds = self.username();
        push_char(&mut creds, ':');
        let pass = self.password();
        creds.append(pass.as_str());
        assert(creds@ =~= self.spec_username() + seq![':'] + self.spec_password());
        let encoded = base64_encode(creds.as_str());
        let mut header = String::from_str("Basic ");
        header.append(encoded.as_str());
        assert(header@ =~= basic_header_of(self.spec_username(), self.spec_password()));
        header
    }
}

} // verus!
