//! What a fetch by address hands back, once the transfer itself is over.

use vstd::prelude::*;
use vstd::utf8::{decode_utf8, valid_utf8};

verus! {

/// Why a fetch gave no data.
#[derive(Clone, Copy, Debug, PartialEq, Eq, Structural)]
pub enum FetchError {
    /// The transfer did not accept the address.
    Url,
    /// The transfer could not be set up, or broke off.
    Transfer,
    /// The bytes behind a text could not be fetched.
    GetUrl,
    /// The bytes fetched are not UTF-8.
    FromUtf8,
}

/// The step at which a transfer gave up.
#[derive(Clone, Copy, Debug, PartialEq, Eq, Structural)]
pub enum TransferStep {
    /// Setting the address.
    Url,
    /// Installing the function that receives the data.
    WriteFunction,
    /// Performing the transfer.
    Perform,
}

impl FetchError {
    /// The words that go with this error.
    pub open spec fn message_text(self) -> Seq<char> {
        match self {
            FetchError::Url => "URL failed"@,
            FetchError::Transfer => "Transfer failed"@,
            FetchError::GetUrl => "Get URL failed"@,
            FetchError::FromUtf8 => "From UTF8"@,
        }
    }

    /// The words that go with this error, as a string.
    pub fn message(&self) -> (text: String)
        ensures
            text@ == self.message_text(),
    {
        match self {
            FetchError::Url => String::from_str("URL failed"),
            FetchError::Transfer => String::from_str("Transfer failed"),
            FetchError::GetUrl => String::from_str("Get URL failed"),
            FetchError::FromUtf8 => String::from_str("From UTF8"),
        }
    }
}

/// The error that a transfer ends in when it gives up at `step`.
pub open spec fn transfer_error(step: TransferStep) -> FetchError {
    match step {
        TransferStep::Url => FetchError::Url,
        TransferStep::WriteFunction => FetchError::Transfer,
        TransferStep::Perform => FetchError::Transfer,
    }
}

/// Takes one piece of arriving data behind what has arrived before, and
/// answers with the number of bytes taken: all of them.
pub fn receive(data: &mut Vec<u8>, new_data: &[u8]) -> (taken: usize)
    ensures
        final(data)@ == old(data)@ + new_data@,
        taken == new_data@.len(),
{
    data.extend_from_slice(new_data);
    new_data.len()
}

/// The outcome of a byte fetch: `data` as it arrived where the transfer ran
/// to its end, and else the error of the step at which it gave up.
pub fn get_vec(gave_up: Option<TransferStep>, data: Vec<u8>) -> (fetched: Result<
    Vec<u8>,
    FetchError,
>)
    ensures
        fetched == match gave_up {
            Some(step) => Err::<Vec<u8>, FetchError>(transfer_error(step)),
            None => Ok(data),
        },
{
    match gave_up {
        Some(TransferStep::Url) => Err(FetchError::Url),
        Some(TransferStep::WriteFunction) => Err(FetchError::Transfer),
        Some(TransferStep::Perform) => Err(FetchError::Transfer),
        None => Ok(data),
    }
}

/// `left` followed by `right`.
pub(crate) fn join(left: &str, right: &str) -> (joined: String)
    ensures
        joined@ == left@ + right@,
{
    let mut joined = String::from_str(left);
    joined.append(right);
    joined
}

/// `left`, a slash, `right`.
pub(crate) fn join_with_slash(left: &str, right: &str) -> (joined: String)
    ensures
        joined@ == left@ + "/"@ + right@,
{
    let mut joined = String::from_str(left);
    joined.append("/");
    joined.append(right);
    joined
}

/// The address of the module listing under the base location `url`.
pub fn modules_url(url: &str) -> (address: String)
    ensures
        address@ == url@ + "/"@ + "modules.json"@,
{
    join_with_slash(url, "modules.json")
}

/// std's `String::from_utf8`: the string that the bytes encode, where they
/// are well-formed UTF-8, and nothing where they are not.
#[verifier::external_body]
fn string_from_utf8(bytes: Vec<u8>) -> (decoded: Option<String>)
    ensures
        decoded is Some <==> valid_utf8(bytes@),
        decoded matches Some(text) ==> text@ == decode_utf8(bytes@),
{
    String::from_utf8(bytes).ok()
}

/// What a text fetch yields for the outcome `fetched` of the byte fetch
/// behind it.
pub open spec fn fetched_text(fetched: Result<Vec<u8>, FetchError>) -> Result<Seq<char>, FetchError> {
    match fetched {
        Err(_) => Err(FetchError::GetUrl),
        Ok(bytes) => if valid_utf8(bytes@) {
            Ok(decode_utf8(bytes@))
        } else {
            Err(FetchError::FromUtf8)
        },
    }
}

/// The outcome of a text fetch, from the outcome of the byte fetch behind
/// it: the text that the bytes encode in UTF-8. A failed byte fetch, whatever
/// its error, becomes `GetUrl`; bytes that are not UTF-8 give `FromUtf8`.
pub fn get_string(fetched: Result<Vec<u8>, FetchError>) -> (text: Result<String, FetchError>)
    ensures
        match fetched_text(fetched) {
            Ok(chars) => text is Ok && text->Ok_0@ == chars,
            Err(error) => text == Err::<String, FetchError>(error),
        },
{
    match fetched {
        Err(_) => Err(FetchError::GetUrl),
        Ok(bytes) => match string_from_utf8(bytes) {
            Some(text) => Ok(text),
            None => Err(FetchError::FromUtf8),
        },
    }
}

/// The module listing as the host gets it, from the outcome of the byte
/// fetch at the listing's address: its text, or nothing where the fetch
/// failed or the bytes are not UTF-8.
pub fn aa_get_modules(fetched: Result<Vec<u8>, FetchError>) -> (listing: Option<String>)
    ensures
        match fetched_text(fetched) {
            Ok(chars) => listing is Some && listing->Some_0@ == chars,
            Err(_) => listing is None,
        },
{
    match get_string(fetched) {
        Ok(text) => Some(text),
        Err(_) => None,
    }
}

} // verus!
