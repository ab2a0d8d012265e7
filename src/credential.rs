use vstd::prelude::*;
use vstd::utf8::{decode_utf8, valid_utf8};
use secstr::SecVec;
use crate::text::views;

verus! {

#[verifier::external_type_specification]
#[verifier::external_body]
#[verifier::reject_recursive_types(T)]
pub struct ExSecVec<T: Sized + Copy>(SecVec<T>);

/// The bytes that a secret holds.
pub uninterp spec fn secret_content(s: SecVec<u8>) -> Seq<u8>;

/// Relies on `secstr::SecVec::unsecure`: it lends out the bytes the secret
/// holds, which are copied here.
#[verifier::external_body]
fn secret_bytes(s: &SecVec<u8>) -> (r: Vec<u8>)
    ensures
        r@ == secret_content(*s),
{
    s.unsecure().to_vec()
}

/// Relies on `String::from_utf8`: the bytes as text when they are valid UTF-8,
/// an error otherwise.
#[verifier::external_body]
pub(crate) fn utf8_text(b: Vec<u8>) -> (r: Option<String>)
    ensures
        r is Some <==> valid_utf8(b@),
        r is Some ==> r->0@ == decode_utf8(b@),
{
    String::from_utf8(b).ok()
}

/// Why a secret could not be handed to a privileged command.
#[derive(Clone, Copy, Debug, PartialEq, Eq, Structural)]
pub enum CredentialError {
    /// No secret was given where one is needed.
    MissingSecret,
    /// The secret is not valid UTF-8.
    InvalidEncoding,
    /// The authentication probe refused the secret.
    Rejected,
}

impl CredentialError {
    /// A message for the user.
    pub fn message(&self) -> (r: String)
        ensures
            r@.len() > 0,
    {
        let r = match self {
            CredentialError::MissingSecret => String::from_str("Missing password"),
            CredentialError::InvalidEncoding => String::from_str("Password is not valid UTF-8"),
            CredentialError::Rejected => String::from_str("Password rejected"),
        };
        proof {
            reveal_strlit("Missing password");
            reveal_strlit("Password is not valid UTF-8");
            reveal_strlit("Password rejected");
        }
        r
    }
}

/// The lines that answer a `sudo -S` prompt with `secret`: exactly one line,
/// the secret's bytes read as UTF-8.
pub open spec fn stdin_lines_spec(secret: Seq<u8>) -> Result<Seq<Seq<char>>, CredentialError> {
    if valid_utf8(secret) {
        Ok(seq![decode_utf8(secret)])
    } else {
        Err(CredentialError::InvalidEncoding)
    }
}

/// The lines to write to the standard input of a command that asks for
/// `secret`.
pub fn to_stdin_lines(secret: &SecVec<u8>) -> (r: Result<Vec<String>, CredentialError>)
    ensures
        match (r, stdin_lines_spec(secret_content(*secret))) {
            (Ok(lines), Ok(expected)) => views(lines@) == expected,
            (Err(e), Err(expected)) => e == expected,
            _ => false,
        },
{
    match utf8_text(secret_bytes(secret)) {
        Some(line) => {
            let mut lines: Vec<String> = Vec::new();
            lines.push(line);
            assert(views(lines@) =~= seq![lines@[0]@]);
            Ok(lines)
        },
        None => Err(CredentialError::InvalidEncoding),
    }
}

/// `to_stdin_lines` of the secret, which must be there.
pub fn pass_2_stdin(password: Option<SecVec<u8>>) -> (r: Result<Vec<String>, CredentialError>)
    ensures
        match password {
            None => r == Err::<Vec<String>, CredentialError>(CredentialError::MissingSecret),
            Some(s) => match (r, stdin_lines_spec(secret_content(s))) {
                (Ok(lines), Ok(expected)) => views(lines@) == expected,
                (Err(e), Err(expected)) => e == expected,
                _ => false,
            },
        },
{
    match password {
        None => Err(CredentialError::MissingSecret),
        Some(s) => to_stdin_lines(&s),
    }
}

} // verus!
