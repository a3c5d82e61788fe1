//! Conversions and format checks shared by the builders.
use vstd::prelude::*;
use vstd::string::StringExecFns;

verus! {

#[verifier::external_type_specification]
#[verifier::external_body]
pub struct ExUrl(url::Url);

#[verifier::external_type_specification]
#[verifier::external_body]
pub struct ExUrlParseError(url::ParseError);

#[verifier::external_type_specification]
#[verifier::external_body]
pub struct ExMime(mime::Mime);

#[verifier::external_type_specification]
#[verifier::external_body]
pub struct ExMimeFromStrError(mime::FromStrError);

#[verifier::external_type_specification]
#[verifier::external_body]
pub struct ExDateParseError(chrono::ParseError);

/// Whether the text is accepted by the URL parser as an absolute URL.
pub uninterp spec fn is_url(s: Seq<char>) -> bool;

/// Whether the text is accepted by the MIME type parser.
pub uninterp spec fn is_mime(s: Seq<char>) -> bool;

/// Whether the text is accepted as an RFC 2822 date and time.
pub uninterp spec fn is_rfc2822_date(s: Seq<char>) -> bool;

/// Relies on `url::Url::parse`: it succeeds exactly on the texts that are URLs.
#[verifier::external_body]
fn parse_url(s: &str) -> (r: Result<url::Url, url::ParseError>)
    ensures
        r is Ok <==> is_url(s@),
{
    url::Url::parse(s)
}

/// Relies on `<mime::Mime as FromStr>::from_str`: it succeeds exactly on the
/// texts that are MIME types.
#[verifier::external_body]
fn parse_mime(s: &str) -> (r: Result<mime::Mime, mime::FromStrError>)
    ensures
        r is Ok <==> is_mime(s@),
{
    s.parse::<mime::Mime>()
}

/// Relies on `chrono::DateTime::parse_from_rfc2822`: it succeeds exactly on
/// the texts that are RFC 2822 dates. Only whether it succeeds is kept.
#[verifier::external_body]
fn parse_rfc2822(s: &str) -> (r: Result<(), chrono::ParseError>)
    ensures
        r is Ok <==> is_rfc2822_date(s@),
{
    chrono::DateTime::parse_from_rfc2822(s).map(|_| ())
}

/// The character of a decimal digit.
pub open spec fn digit_char(d: int) -> char {
    if d == 0 {
        '0'
    } else if d == 1 {
        '1'
    } else if d == 2 {
        '2'
    } else if d == 3 {
        '3'
    } else if d == 4 {
        '4'
    } else if d == 5 {
        '5'
    } else if d == 6 {
        '6'
    } else if d == 7 {
        '7'
    } else if d == 8 {
        '8'
    } else {
        '9'
    }
}

/// The decimal digits of a natural number, most significant first, without
/// leading zeros.
pub open spec fn decimal(n: nat) -> Seq<char>
    decreases n,
{
    if n < 10 {
        seq![digit_char(n as int)]
    } else {
        decimal(n / 10).push(digit_char((n % 10) as int))
    }
}

/// The decimal form of an integer, with a leading `-` when it is negative.
pub open spec fn signed_decimal(n: int) -> Seq<char> {
    if n < 0 {
        seq!['-'] + decimal((-n) as nat)
    } else {
        decimal(n as nat)
    }
}

/// The message of a URL that does not parse.
pub open spec fn invalid_url_message(s: Seq<char>) -> Seq<char> {
    "Invalid URL: "@ + s
}

/// The message of a MIME type that does not parse.
pub open spec fn invalid_mime_message(s: Seq<char>) -> Seq<char> {
    "Invalid MIME type: "@ + s
}

/// The message of a date that does not parse.
pub open spec fn invalid_date_message(s: Seq<char>) -> Seq<char> {
    "Invalid RFC 2822 date: "@ + s
}

/// The message of a value that must not be negative.
pub open spec fn negative_value_message(n: int) -> Seq<char> {
    "Negative value: "@ + signed_decimal(n)
}

/// The message of a value above the largest that a field admits.
pub open spec fn too_large_message(n: int, max: nat) -> Seq<char> {
    "Value "@ + signed_decimal(n) + " exceeds the limit of "@ + decimal(max)
}

/// The message of a value above the largest that a field admits.
pub fn too_large_error(n: i64, max: u64) -> (r: String)
    ensures
        r@ == too_large_message(n as int, max as nat),
{
    let v = signed_to_string(n);
    let m = u64_to_string(max);
    "Value ".to_owned().concat(v.as_str()).concat(" exceeds the limit of ").concat(m.as_str())
}

/// The message of a required field that was left empty.
pub open spec fn empty_field_message() -> Seq<char> {
    "cannot be empty"@
}

/// The message of a required field that was left empty.
pub fn empty_field_error() -> (r: String)
    ensures
        r@ == empty_field_message(),
{
    "cannot be empty".to_owned()
}

/// A message prefixed by the name of the field that it is about.
pub open spec fn field_message(field: Seq<char>, message: Seq<char>) -> Seq<char> {
    field + ": "@ + message
}

/// Prefixes a message with the name of the field that it is about.
pub fn with_field(field: &str, message: String) -> (r: String)
    ensures
        r@ == field_message(field@, message@),
{
    field.to_owned().concat(": ").concat(message.as_str())
}

fn digit_str(d: u64) -> (r: &'static str)
    requires
        d < 10,
    ensures
        r@ == seq![digit_char(d as int)],
{
    proof {
        reveal_strlit("0");
        reveal_strlit("1");
        reveal_strlit("2");
        reveal_strlit("3");
        reveal_strlit("4");
        reveal_strlit("5");
        reveal_strlit("6");
        reveal_strlit("7");
        reveal_strlit("8");
        reveal_strlit("9");
    }
    if d == 0 {
        "0"
    } else if d == 1 {
        "1"
    } else if d == 2 {
        "2"
    } else if d == 3 {
        "3"
    } else if d == 4 {
        "4"
    } else if d == 5 {
        "5"
    } else if d == 6 {
        "6"
    } else if d == 7 {
        "7"
    } else if d == 8 {
        "8"
    } else {
        "9"
    }
}

/// Writes a natural number in decimal.
pub fn u64_to_string(n: u64) -> (r: String)
    ensures
        r@ == decimal(n as nat),
    decreases n,
{
    if n < 10 {
        digit_str(n).to_owned()
    } else {
        let mut s = u64_to_string(n / 10);
        s.append(digit_str(n % 10));
        s
    }
}

/// Writes an integer in decimal, with a leading `-` when it is negative.
pub fn signed_to_string(n: i64) -> (r: String)
    ensures
        r@ == signed_decimal(n as int),
{
    if n < 0 {
        let m: u64 = (0i128 - n as i128) as u64;
        let digits = u64_to_string(m);
        proof {
            reveal_strlit("-");
        }
        "-".to_owned().concat(digits.as_str())
    } else {
        u64_to_string(n as u64)
    }
}

/// Parses a URL; the error names the text that is not one.
pub fn str_to_url(s: &str) -> (r: Result<url::Url, String>)
    ensures
        r is Ok <==> is_url(s@),
        r matches Err(e) ==> e@ == invalid_url_message(s@),
{
    match parse_url(s) {
        Ok(u) => Ok(u),
        Err(_) => Err("Invalid URL: ".to_owned().concat(s)),
    }
}

/// Parses a MIME type; the error names the text that is not one.
pub fn str_to_mime(s: &str) -> (r: Result<mime::Mime, String>)
    ensures
        r is Ok <==> is_mime(s@),
        r matches Err(e) ==> e@ == invalid_mime_message(s@),
{
    match parse_mime(s) {
        Ok(m) => Ok(m),
        Err(_) => Err("Invalid MIME type: ".to_owned().concat(s)),
    }
}

/// Checks that a text is an RFC 2822 date; the error names the text that is
/// not one.
pub fn validate_date(s: &str) -> (r: Result<(), String>)
    ensures
        r is Ok <==> is_rfc2822_date(s@),
        r matches Err(e) ==> e@ == invalid_date_message(s@),
{
    match parse_rfc2822(s) {
        Ok(_) => Ok(()),
        Err(_) => Err("Invalid RFC 2822 date: ".to_owned().concat(s)),
    }
}

/// An optional value written in decimal, when there is one.
pub open spec fn opt_decimal_of(n: Option<i64>, s: Option<String>) -> bool {
    match (n, s) {
        (None, None) => true,
        (Some(n), Some(s)) => s@ == decimal(n as nat),
        _ => false,
    }
}

/// Whether two optional texts are both absent or hold the same characters.
pub open spec fn opt_text_eq(a: Option<String>, b: Option<String>) -> bool {
    match (a, b) {
        (None, None) => true,
        (Some(x), Some(y)) => x@ == y@,
        _ => false,
    }
}

/// Whether two lists of texts hold the same characters, position by position.
pub open spec fn texts_eq(a: Seq<String>, b: Seq<String>) -> bool {
    &&& a.len() == b.len()
    &&& forall|i: int| 0 <= i < a.len() ==> (#[trigger] a[i])@ == b[i]@
}

/// Whether an optional value is absent or not negative.
pub open spec fn opt_not_negative(n: Option<i64>) -> bool {
    n matches Some(v) ==> v >= 0
}

/// Writes an optional value that must not be negative in decimal; the error
/// names the field.
pub fn opt_i64_to_string(field: &str, n: Option<i64>) -> (r: Result<Option<String>, String>)
    ensures
        r is Ok <==> opt_not_negative(n),
        r matches Ok(s) ==> opt_decimal_of(n, s),
        r matches Err(e) ==> e@ == field_message(field@, negative_value_message(n->0 as int)),
{
    match n {
        Some(v) => match i64_to_string(v) {
            Ok(s) => Ok(Some(s)),
            Err(e) => Err(with_field(field, e)),
        },
        None => Ok(None),
    }
}

/// Writes a value that must not be negative in decimal.
pub fn i64_to_string(n: i64) -> (r: Result<String, String>)
    ensures
        r is Ok <==> n >= 0,
        r matches Ok(s) ==> s@ == decimal(n as nat),
        r matches Err(e) ==> e@ == negative_value_message(n as int),
{
    if n < 0 {
        let v = signed_to_string(n);
        Err("Negative value: ".to_owned().concat(v.as_str()))
    } else {
        Ok(u64_to_string(n as u64))
    }
}

} // verus!
