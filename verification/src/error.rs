//! What can go wrong while a page is served, and the rule that turns a failed
//! lookup into a page that is not there.

use crate::outside::{diesel_error_text, http_error_text, quote, quoted};
use crate::strmap::StringMap;
use crate::text::contains_text;
use diesel::result::Error as DieselError;
use http::Error as HttpError;
use vstd::prelude::*;

verus! {

/// The kinds of failure. `PageNotFound` and `FormError` are for the client to
/// see; the others are the server's own.
#[derive(Debug)]
#[allow(inconsistent_fields)]
pub enum Error {
    /// The page is not there.
    PageNotFound { message: String },
    /// What the request holds could not be read as the page's input.
    InputError { error: String },
    /// Fields of a form were refused: each field's name with the reason.
    FormError { errors: StringMap<String> },
    /// Something else failed inside the server.
    CustomError { message: String },
    /// The HTTP message to send could not be put together.
    HttpError { error: HttpError },
    /// A setting that the environment has to give is missing or unreadable.
    VarError { error: String },
    /// The storage failed.
    DieselError { error: DieselError },
}

/// What the text of an error begins with, by its kind.
pub open spec fn headline(e: Error) -> Seq<char> {
    match e {
        Error::PageNotFound { .. } => "404 Page Not Found: "@,
        Error::InputError { .. } => "Input Error: "@,
        Error::FormError { .. } => "Form Error: "@,
        Error::CustomError { .. } => "Internal Server Error: "@,
        Error::HttpError { .. } => "HTTP Error: "@,
        Error::VarError { .. } => "Env Var Error: "@,
        Error::DieselError { .. } => "Diesel Error: "@,
    }
}

/// The pairs as text: key and value joined by `": "`, the pairs by `", "`.
pub open spec fn joined(pairs: Seq<(Seq<char>, Seq<char>)>) -> Seq<char>
    decreases pairs.len(),
{
    if pairs.len() == 0 {
        Seq::empty()
    } else {
        let last = pairs.last().0 + ": "@ + pairs.last().1;
        if pairs.len() == 1 {
            last
        } else {
            joined(pairs.drop_last()) + ", "@ + last
        }
    }
}

/// The pairs with each key and each value between quotes.
pub open spec fn quoted_pairs(pairs: Seq<(Seq<char>, Seq<char>)>) -> Seq<(Seq<char>, Seq<char>)> {
    Seq::new(pairs.len(), |i: int| (quoted(pairs[i].0), quoted(pairs[i].1)))
}

/// Whether `text` is what `http` says of its error.
pub closed spec fn http_says(error: HttpError, text: Seq<char>) -> bool {
    exists|t: String| t@ == text && call_ensures(http_error_text, (&error,), t)
}

/// Whether `text` is what `diesel` says of its error.
pub closed spec fn diesel_says(error: DieselError, text: Seq<char>) -> bool {
    exists|t: String| t@ == text && call_ensures(diesel_error_text, (&error,), t)
}

/// Whether `detail` is what the error `e` says: its message as it is; the
/// fields of a form, quoted and joined, between braces; of an error of `http`
/// or `diesel`, what that crate says of it.
pub open spec fn tells(e: Error, detail: Seq<char>) -> bool {
    match e {
        Error::PageNotFound { message } => detail == message@,
        Error::InputError { error } => detail == error@,
        Error::FormError { errors } => detail == "{"@ + joined(quoted_pairs(errors.pairs())) + "}"@,
        Error::CustomError { message } => detail == message@,
        Error::HttpError { error } => http_says(error, detail),
        Error::VarError { error } => detail == error@,
        Error::DieselError { error } => diesel_says(error, detail),
    }
}

/// Whether `text` is the text of the error `e`: its headline, and behind it
/// what it says.
pub open spec fn shows(text: Seq<char>, e: Error) -> bool {
    exists|detail: Seq<char>| #[trigger] tells(e, detail) && text == headline(e) + detail
}

/// The pairs as text between braces: key and value joined by `": "`, the
/// pairs by `", "`.
pub fn in_braces(pairs: &Vec<(String, String)>) -> (text: String)
    ensures
        text@ == "{"@ + joined(pairs.deep_view()) + "}"@,
{
    let mut text = "{".to_owned();
    let n = pairs.len();
    let mut at: usize = 0;
    while at < n
        invariant
            n == pairs@.len(),
            at <= n,
            text@ == "{"@ + joined(pairs.deep_view().take(at as int)),
        decreases n - at,
    {
        let ghost before = pairs.deep_view().take(at as int);
        let ghost now = pairs.deep_view().take(at + 1);
        assert(now.drop_last() =~= before);
        assert(now.last() == pairs.deep_view()[at as int]);
        if at > 0 {
            text.append(", ");
        }
        text.append(pairs[at].0.as_str());
        text.append(": ");
        text.append(pairs[at].1.as_str());
        assert(text@ =~= "{"@ + joined(now));
        at = at + 1;
    }
    assert(pairs.deep_view().take(n as int) =~= pairs.deep_view());
    text.append("}");
    text
}

/// The fields of a form with their reasons, each between quotes.
fn quoted_fields(errors: &StringMap<String>) -> (pairs: Vec<(String, String)>)
    ensures
        pairs.deep_view() == quoted_pairs(errors.pairs()),
{
    let mut pairs: Vec<(String, String)> = Vec::new();
    let n = errors.len();
    let mut at: usize = 0;
    while at < n
        invariant
            n == errors.pairs().len(),
            at <= n,
            pairs@.len() == at,
            forall|i: int|
                0 <= i < at ==> (#[trigger] pairs.deep_view()[i]) == quoted_pairs(errors.pairs())[i],
        decreases n - at,
    {
        let (key, value) = match errors.entry(at) {
            Some((key, value)) => (quote(key), quote(value.as_str())),
            None => (String::new(), String::new()),
        };
        let ghost before = pairs.deep_view();
        pairs.push((key, value));
        assert forall|i: int| 0 <= i < at + 1 implies (#[trigger] pairs.deep_view()[i])
            == quoted_pairs(errors.pairs())[i] by {
            if i < at {
                assert(pairs.deep_view()[i] == before[i]);
            }
        }
        at = at + 1;
    }
    assert(pairs.deep_view() =~= quoted_pairs(errors.pairs()));
    pairs
}

impl Error {
    /// The text of an error of this kind that says `detail`: the headline,
    /// and `detail` behind it.
    pub fn text_with(&self, detail: &str) -> (text: String)
        ensures
            text@ == headline(*self) + detail@,
    {
        let mut text = match self {
            Error::PageNotFound { .. } => "404 Page Not Found: ".to_owned(),
            Error::InputError { .. } => "Input Error: ".to_owned(),
            Error::FormError { .. } => "Form Error: ".to_owned(),
            Error::CustomError { .. } => "Internal Server Error: ".to_owned(),
            Error::HttpError { .. } => "HTTP Error: ".to_owned(),
            Error::VarError { .. } => "Env Var Error: ".to_owned(),
            Error::DieselError { .. } => "Diesel Error: ".to_owned(),
        };
        text.append(detail);
        text
    }

    /// The text of the error: what kind it is, and what it says.
    pub fn to_string(&self) -> (text: String)
        ensures
            shows(text@, *self),
    {
        let detail = match self {
            Error::PageNotFound { message } => message.clone(),
            Error::InputError { error } => error.clone(),
            Error::FormError { errors } => in_braces(&quoted_fields(errors)),
            Error::CustomError { message } => message.clone(),
            Error::HttpError { error } => http_error_text(error),
            Error::VarError { error } => error.clone(),
            Error::DieselError { error } => diesel_error_text(error),
        };
        assert(tells(*self, detail@));
        self.text_with(detail.as_str())
    }
}

impl From<HttpError> for Error {
    fn from(error: HttpError) -> (e: Error) {
        Error::HttpError { error }
    }
}

impl vstd::std_specs::convert::FromSpecImpl<HttpError> for Error {
    open spec fn obeys_from_spec() -> bool {
        true
    }

    open spec fn from_spec(error: HttpError) -> Error {
        Error::HttpError { error }
    }
}

impl From<DieselError> for Error {
    fn from(error: DieselError) -> (e: Error) {
        Error::DieselError { error }
    }
}

impl vstd::std_specs::convert::FromSpecImpl<DieselError> for Error {
    open spec fn obeys_from_spec() -> bool {
        true
    }

    open spec fn from_spec(error: DieselError) -> Error {
        Error::DieselError { error }
    }
}

/// The refusal of one field of a form: `key` is the field's name, `message`
/// the reason.
pub fn error<T>(key: &str, message: &str) -> (r: Result<T, Error>)
    ensures
        r matches Err(Error::FormError { errors }) && errors.pairs() == seq![(key@, message@)],
{
    let mut errors: StringMap<String> = StringMap::new();
    errors.insert(key.to_owned(), message.to_owned());
    assert(errors.pairs() =~= seq![(key@, message@)]);
    Err(Error::FormError { errors })
}

/// For a lookup whose failure means that what was looked up is not there.
pub trait Or404<T> {
    /// The value that was found, or `PageNotFound` with the text of the
    /// error as its message.
    fn or_404(self) -> Result<T, Error>;
}

impl<T> Or404<T> for Result<T, Error> {
    fn or_404(self) -> (r: Result<T, Error>)
        ensures
            match self {
                Ok(found) => r == Ok::<T, Error>(found),
                Err(e) => r matches Err(Error::PageNotFound { message }) && shows(message@, e),
            },
    {
        match self {
            Ok(found) => Ok(found),
            Err(e) => Err(Error::PageNotFound { message: e.to_string() }),
        }
    }
}

/// Whether `message` is what the error `e` was made with: the message of a
/// page not found or of a failure inside the server, the cause of an input or
/// environment error.
pub open spec fn carries(e: Error, message: Seq<char>) -> bool {
    match e {
        Error::PageNotFound { message: m } => m@ == message,
        Error::InputError { error } => error@ == message,
        Error::CustomError { message: m } => m@ == message,
        Error::VarError { error } => error@ == message,
        _ => false,
    }
}

/// The message that an error was made with is still to be read in the page
/// not found that `or_404` turns it into: in its message, and so in its
/// text.
pub proof fn not_found_keeps_message(e: Error, message: Seq<char>, found: Error, text: Seq<char>)
    requires
        carries(e, message),
        found matches Error::PageNotFound { message: m } && shows(m@, e),
        shows(text, found),
    ensures
        found matches Error::PageNotFound { message: m } && m@ == headline(e) + message
            && contains_text(m@, message),
        text == headline(found) + headline(e) + message,
        contains_text(text, message),
{
    let m = found->PageNotFound_message;
    let head = headline(e);
    let at = head.len() as int;
    let said = choose|detail: Seq<char>| #[trigger] tells(e, detail) && m@ == head + detail;
    assert(said == message);
    assert(m@.subrange(at, at + message.len()) =~= message);
    let top = headline(found);
    let from = (top.len() + head.len()) as int;
    let shown = choose|detail: Seq<char>| #[trigger] tells(found, detail) && text == top + detail;
    assert(shown == m@);
    assert(text =~= top + head + message);
    assert(text.subrange(from, from + message.len()) =~= message);
}

} // verus!
