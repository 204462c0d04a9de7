//! The address of a game surface: an absolute address with an authority.

use crate::error::{ErrorKind, WindowError, WindowErrorView};
use vstd::prelude::*;
use vstd::string::StringExecFns;

verus! {

/// How the message of an invalid address begins, before the address itself.
pub const INVALID_ADDRESS_OPENING: &'static str = "Invalid game URL '";

/// What stands between the address and the diagnostic in that message.
pub const INVALID_ADDRESS_JOINT: &'static str = "': ";

/// The diagnostic for an address that parses but names no authority.
pub const NO_AUTHORITY: &'static str = "address without an authority";

/// What the parser of the `url` crate makes of `raw`: the serialization of the
/// address where it parses as an absolute address, else the parser's
/// diagnostic. The crate states nothing more of it.
pub uninterp spec fn parsed_url(raw: Seq<char>) -> Result<Seq<char>, Seq<char>>;

/// What a parser handed back, as plain texts.
pub open spec fn parse_view(parsed: Result<String, String>) -> Result<Seq<char>, Seq<char>> {
    match parsed {
        Ok(text) => Ok(text@),
        Err(diagnostic) => Err(diagnostic@),
    }
}

/// Parses `raw` as an absolute address.
///
/// Trusted: this is `url::Url::parse`. A parsed address is handed back as its
/// serialization (`String::from` on the `Url`), a failure as the text that the
/// `ParseError` displays. The contract only gives that outcome its name: the
/// parser is a function of its input alone.
#[verifier::external_body]
fn parse_url(raw: &str) -> (parsed: Result<String, String>)
    ensures
        parse_view(parsed) == parsed_url(raw@),
{
    match url::Url::parse(raw) {
        Ok(address) => Ok(String::from(address)),
        Err(fault) => Err(fault.to_string()),
    }
}

/// The first colon of `text` stands at `i`: there the scheme ends.
pub open spec fn scheme_ends_at(text: Seq<char>, i: int) -> bool {
    &&& 0 <= i < text.len()
    &&& text[i] == ':'
    &&& forall|j: int| 0 <= j < i ==> text[j] != ':'
}

/// The scheme of `text` is followed by `//`, which opens an authority.
pub open spec fn has_authority(text: Seq<char>) -> bool {
    exists|i: int|
        #[trigger] scheme_ends_at(text, i) && i + 2 < text.len() && text[i + 1] == '/' && text[i
            + 2] == '/'
}

/// The failure for the address `raw`, explained by `diagnostic`.
pub open spec fn invalid_address(raw: Seq<char>, diagnostic: Seq<char>) -> WindowErrorView {
    WindowErrorView {
        kind: ErrorKind::InvalidAddress,
        message: INVALID_ADDRESS_OPENING@ + raw + INVALID_ADDRESS_JOINT@ + diagnostic,
    }
}

/// What becomes of the address `raw` once the parser has said `parsed`: the
/// serialization where it parsed and names an authority, else the failure.
pub open spec fn validated(raw: Seq<char>, parsed: Result<Seq<char>, Seq<char>>) -> Result<
    Seq<char>,
    WindowErrorView,
> {
    match parsed {
        Ok(text) => if has_authority(text) {
            Ok(text)
        } else {
            Err(invalid_address(raw, NO_AUTHORITY@))
        },
        Err(diagnostic) => Err(invalid_address(raw, diagnostic)),
    }
}

/// An address that passed validation, held as its serialization.
#[derive(Debug, PartialEq, Eq)]
pub struct ValidatedAddress {
    text: String,
}

impl View for ValidatedAddress {
    type V = Seq<char>;

    closed spec fn view(&self) -> Seq<char> {
        self.text@
    }
}

impl ValidatedAddress {
    /// Every validated address names an authority.
    #[verifier::type_invariant]
    pub open spec fn wf(&self) -> bool {
        has_authority(self@)
    }

    /// The serialization of the address.
    pub fn as_str(&self) -> (text: &str)
        ensures
            text@ == self@,
            has_authority(text@),
    {
        proof {
            use_type_invariant(self);
        }
        self.text.as_str()
    }
}

/// The outcome of a validation, as contracts see it.
pub open spec fn validation_view(outcome: Result<ValidatedAddress, WindowError>) -> Result<
    Seq<char>,
    WindowErrorView,
> {
    match outcome {
        Ok(address) => Ok(address@),
        Err(error) => Err(error@),
    }
}

/// How far the search for `://` has come.
enum Scan {
    /// No colon so far.
    Scheme,
    /// The last character was the first colon.
    Colon,
    /// The first colon and one slash have gone by.
    Slash,
    /// The first colon was followed by two slashes.
    Found,
    /// The first colon was followed by something else.
    Absent,
}

/// Tells whether the scheme of `text` is followed by `//`.
pub fn names_authority(text: &str) -> (r: bool)
    ensures
        r == has_authority(text@),
{
    let mut scan = Scan::Scheme;
    for c in it: text.chars()
        invariant
            it.seq() == text@,
            scan is Scheme ==> forall|j: int| 0 <= j < it.index() ==> text@[j] != ':',
            scan is Colon ==> scheme_ends_at(text@, it.index() - 1),
            scan is Slash ==> scheme_ends_at(text@, it.index() - 2) && text@[it.index() - 1]
                == '/',
            scan is Found ==> has_authority(text@),
            scan is Absent ==> !has_authority(text@),
    {
        let ghost at = it.index();
        match scan {
            Scan::Scheme => {
                if c == ':' {
                    scan = Scan::Colon;
                }
            },
            Scan::Colon => {
                if c == '/' {
                    scan = Scan::Slash;
                } else {
                    scan = Scan::Absent;
                    assert(!has_authority(text@)) by {
                        lemma_scheme_end_is_unique(text@, at - 1);
                    }
                }
            },
            Scan::Slash => {
                if c == '/' {
                    scan = Scan::Found;
                    assert(scheme_ends_at(text@, at - 2) && at < text@.len());
                } else {
                    scan = Scan::Absent;
                    assert(!has_authority(text@)) by {
                        lemma_scheme_end_is_unique(text@, at - 2);
                    }
                }
            },
            Scan::Found => {},
            Scan::Absent => {},
        }
    }
    proof {
        let n = text@.len() as int;
        if scan is Colon {
            lemma_scheme_end_is_unique(text@, n - 1);
        }
        if scan is Slash {
            lemma_scheme_end_is_unique(text@, n - 2);
        }
    }
    match scan {
        Scan::Found => true,
        _ => false,
    }
}

/// A text has one first colon at most.
proof fn lemma_scheme_end_is_unique(text: Seq<char>, i: int)
    requires
        scheme_ends_at(text, i),
    ensures
        forall|k: int| #[trigger] scheme_ends_at(text, k) ==> k == i,
{
}

/// The failure for the address `raw`, explained by `diagnostic`.
fn invalid(raw: &str, diagnostic: &str) -> (error: WindowError)
    ensures
        error@ == invalid_address(raw@, diagnostic@),
{
    let mut message = INVALID_ADDRESS_OPENING.to_owned();
    message.append(raw);
    message.append(INVALID_ADDRESS_JOINT);
    message.append(diagnostic);
    WindowError { kind: ErrorKind::InvalidAddress, message }
}

/// Decides on the address `raw` once the parser has said `parsed`: a parsed
/// address is accepted where it names an authority; everything else is an
/// invalid address, with the parser's diagnostic where there is one.
pub fn address_from_parse(raw: &str, parsed: Result<String, String>) -> (outcome: Result<
    ValidatedAddress,
    WindowError,
>)
    ensures
        validation_view(outcome) == validated(raw@, parse_view(parsed)),
{
    match parsed {
        Ok(text) => {
            if names_authority(text.as_str()) {
                Ok(ValidatedAddress { text })
            } else {
                Err(invalid(raw, NO_AUTHORITY))
            }
        },
        Err(diagnostic) => Err(invalid(raw, diagnostic.as_str())),
    }
}

/// Validates the address of a game surface: it must parse as an absolute
/// address and name an authority.
pub fn validate(raw: &str) -> (outcome: Result<ValidatedAddress, WindowError>)
    ensures
        validation_view(outcome) == validated(raw@, parsed_url(raw@)),
{
    address_from_parse(raw, parse_url(raw))
}

} // verus!
