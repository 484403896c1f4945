//! The errors that the library's own checks raise.
use vstd::prelude::*;

verus! {

/// The error type of the JSON parser, carried through unchanged.
#[verifier::external_type_specification]
#[verifier::external_body]
pub struct ExJsonError(serde_json::Error);

/// The error type of the e-mail address parser, carried through unchanged.
#[verifier::external_type_specification]
#[verifier::external_body]
pub struct ExAddressError(lettre::address::AddressError);

/// A field that the processing needs is absent; the text names it.
#[derive(Debug)]
pub struct MissignFieldError(pub String);

impl MissignFieldError {
    /// An error naming the field `w`.
    pub fn new(w: &str) -> (r: MissignFieldError)
        ensures
            r.0@ == w@,
    {
        MissignFieldError(String::from_str(w))
    }

    /// The message of the error: `Missing field` and the field's name.
    pub fn mensagem(&self) -> (r: String)
        ensures
            r@ == "Missing field "@ + self.0@,
    {
        String::from_str("Missing field ").concat(self.0.as_str())
    }
}

/// Why the data of an occurrence could not be turned into an e-mail.
#[derive(Debug)]
pub enum TableProcessError {
    /// A required field is absent.
    MissingData(MissignFieldError),
    /// A JSON column does not hold the table it should.
    MalformedData(serde_json::Error),
    /// An e-mail address is not well formed.
    EmailParseError(lettre::address::AddressError),
}

/// The text that the JSON parser's `Display` writes for `e`. The contract
/// claims nothing of it: what the text says is the parser's own and is left
/// unstated.
#[verifier::external_body]
fn texto_erro_json(e: &serde_json::Error) -> (r: String) {
    e.to_string()
}

/// The text that the address parser's `Display` writes for `e`. The contract
/// claims nothing of it: what the text says is the parser's own and is left
/// unstated.
#[verifier::external_body]
fn texto_erro_endereco(e: &lettre::address::AddressError) -> (r: String) {
    e.to_string()
}

impl TableProcessError {
    /// The message of the error. A missing field gives `Missing field` and
    /// its name; a malformed JSON column and a malformed address give a line
    /// that says which, then, on the next line after a tab, the parser's own
    /// text.
    pub fn mensagem(&self) -> (r: String)
        ensures
            match self {
                TableProcessError::MissingData(e) => r@ == "Missing field "@ + e.0@,
                TableProcessError::MalformedData(_) => "Failed to parse data to Json:\n\t"@.is_prefix_of(
                    r@,
                ),
                TableProcessError::EmailParseError(_) => "Email Adress is malformed:\n\t"@.is_prefix_of(
                    r@,
                ),
            },
    {
        match self {
            TableProcessError::MissingData(e) => e.mensagem(),
            TableProcessError::MalformedData(j) => {
                let inicio = String::from_str("Failed to parse data to Json:\n\t");
                let r = inicio.concat(texto_erro_json(j).as_str());
                assert(r@.subrange(0, inicio@.len() as int) =~= inicio@);
                r
            },
            TableProcessError::EmailParseError(a) => {
                let inicio = String::from_str("Email Adress is malformed:\n\t");
                let r = inicio.concat(texto_erro_endereco(a).as_str());
                assert(r@.subrange(0, inicio@.len() as int) =~= inicio@);
                r
            },
        }
    }
}

} // verus!
