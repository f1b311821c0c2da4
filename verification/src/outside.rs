//! Calls into other crates and into parts of the standard library, each with the contract
//! that the rest of the library relies on.

use vstd::prelude::*;
use vstd::utf8::{decode_utf8, encode_utf8, valid_utf8};

use crate::text::split;

verus! {

/// What the standard library says of bytes that are not UTF-8: the text of
/// `std::string::FromUtf8Error`.
pub uninterp spec fn utf8_complaint(bytes: Seq<u8>) -> Seq<char>;

/// `String::from_utf8`: bytes that are valid UTF-8 are decoded, any others are refused
/// with a message that depends on the bytes alone.
#[verifier::external_body]
pub(crate) fn utf8_text(bytes: Vec<u8>) -> (text: Result<String, String>)
    ensures
        text is Ok <==> valid_utf8(bytes@),
        text matches Ok(decoded) ==> decoded@ == decode_utf8(bytes@),
        text matches Err(message) ==> message@ == utf8_complaint(bytes@),
{
    String::from_utf8(bytes).map_err(|error| error.to_string())
}

/// What `String::from_utf8_lossy` makes of bytes.
pub uninterp spec fn utf8_lossy(bytes: Seq<u8>) -> Seq<char>;

/// `String::from_utf8_lossy`: the text depends on the bytes alone, and bytes that are valid
/// UTF-8 are decoded as they are. How the rest is replaced is left to the name.
#[verifier::external_body]
pub(crate) fn utf8_text_lossy(bytes: &Vec<u8>) -> (text: String)
    ensures
        text@ == utf8_lossy(bytes@),
        valid_utf8(bytes@) ==> text@ == decode_utf8(bytes@),
{
    String::from_utf8_lossy(bytes).into_owned()
}

/// The parts of a URL that choose where a file is imported from and what it is called.
#[derive(Debug, PartialEq, Eq)]
pub struct UrlParts {
    /// The host, where it is a domain name.
    pub domain: Option<String>,
    /// The segments of the path, where the URL has one that starts with `/`.
    pub segments: Option<Vec<String>>,
}

impl DeepView for UrlParts {
    type V = (Option<Seq<char>>, Option<Seq<Seq<char>>>);

    open spec fn deep_view(&self) -> (Option<Seq<char>>, Option<Seq<Seq<char>>>) {
        (self.domain.deep_view(), self.segments.deep_view())
    }
}

/// What `url::Url::parse` makes of a text: nothing where it is no URL, and else the domain
/// and the path segments of the URL.
pub uninterp spec fn url_parts(text: Seq<char>) -> Option<
    (Option<Seq<char>>, Option<Seq<Seq<char>>>),
>;

/// `url::Url::parse`, with its result read by `Url::domain` and `Url::path_segments`: it
/// depends on the text alone. Path segments are the pieces of the path between slashes; there
/// is at least one where there are any.
#[verifier::external_body]
pub(crate) fn parse_url(text: &str) -> (parts: Option<UrlParts>)
    ensures
        parts.deep_view() == url_parts(text@),
        parts matches Some(UrlParts { segments: Some(segments), .. }) ==> {
            &&& segments.len() > 0
            &&& forall|i: int| 0 <= i < segments.len() ==> !(#[trigger] segments@[i])@.contains('/')
        },
{
    let url = url::Url::parse(text).ok()?;
    Some(
        UrlParts {
            domain: url.domain().map(|domain| domain.to_owned()),
            segments: url.path_segments().map(
                |segments| segments.map(|segment| segment.to_owned()).collect(),
            ),
        },
    )
}

/// A digit of a lower-case hexadecimal number.
pub open spec fn is_hex_digit(c: char) -> bool {
    '0' <= c <= '9' || 'a' <= c <= 'f'
}

/// The hyphenated form of a random UUID: five groups of hexadecimal digits, with the version
/// and the variant in their places.
pub open spec fn is_random_uuid(text: Seq<char>) -> bool {
    &&& text.len() == 36
    &&& forall|i: int|
        0 <= i < 36 ==> if i == 8 || i == 13 || i == 18 || i == 23 {
            #[trigger] text[i] == '-'
        } else {
            is_hex_digit(text[i])
        }
    &&& text[14] == '4'
    &&& (text[19] == '8' || text[19] == '9' || text[19] == 'a' || text[19] == 'b')
}

/// `uuid::Uuid::new_v4`, written out: some random UUID in its hyphenated form. Which one is
/// left to chance.
#[verifier::external_body]
pub(crate) fn random_uuid() -> (text: String)
    ensures
        is_random_uuid(text@),
{
    uuid::Uuid::new_v4().to_string()
}

/// The characters that a file name keeps: neither a separator or wildcard of some file
/// system, nor a control character.
pub open spec fn is_kept_in_filename(c: char) -> bool {
    &&& c != '/' && c != '\\' && c != '?' && c != '<' && c != '>'
    &&& c != ':' && c != '*' && c != '|' && c != '"'
    &&& !(c <= '\u{1f}')
    &&& !('\u{80}' <= c <= '\u{9f}')
}

/// A file name without the characters that it must not hold; one of which only dots are left
/// is emptied.
pub open spec fn cleaned_filename(name: Seq<char>) -> Seq<char> {
    let kept = name.filter(|c: char| is_kept_in_filename(c));
    if forall|i: int| 0 <= i < kept.len() ==> #[trigger] kept[i] == '.' {
        Seq::empty()
    } else {
        kept
    }
}

/// A letter of the ASCII alphabet, small.
pub open spec fn small_letter(c: char) -> char {
    if 'A' <= c <= 'Z' {
        (c as u32 + 32) as char
    } else {
        c
    }
}

/// Whether Windows takes a file name for that of a device: it does so by the part in front
/// of the first dot, whether its letters are small or not.
pub open spec fn names_device(name: Seq<char>) -> bool {
    let stem = split(name, '.')[0].map_values(|c: char| small_letter(c));
    ||| stem == "con"@ || stem == "prn"@ || stem == "aux"@ || stem == "nul"@
    ||| stem.len() == 4 && (stem.take(3) == "com"@ || stem.take(3) == "lpt"@) && '0' <= stem[3]
        <= '9'
}

/// A file name without the dots and spaces at its end.
pub open spec fn without_trailing_dots(name: Seq<char>) -> Seq<char>
    decreases name.len(),
{
    if name.len() > 0 && (name.last() == '.' || name.last() == ' ') {
        without_trailing_dots(name.drop_last())
    } else {
        name
    }
}

/// What Windows leaves of a file name: nothing of that of a device, and else all but the dots
/// and spaces at its end.
pub open spec fn windows_filename(name: Seq<char>) -> Seq<char> {
    if names_device(name) {
        Seq::empty()
    } else {
        without_trailing_dots(name)
    }
}

/// The longest beginning of a name that fits in 255 bytes of UTF-8.
pub open spec fn cut_filename(name: Seq<char>) -> Seq<char>
    decreases name.len(),
{
    if name.len() == 0 || encode_utf8(name).len() <= 255 {
        name
    } else {
        cut_filename(name.drop_last())
    }
}

/// The file name that `name` is sanitised to: the cleaned name, or what Windows leaves of it
/// where that is asked for, cut to what fits.
pub open spec fn sanitized_filename(name: Seq<char>, on_windows: bool) -> Seq<char> {
    let cleaned = cleaned_filename(name);
    cut_filename(
        if on_windows {
            windows_filename(cleaned)
        } else {
            cleaned
        },
    )
}

proof fn lemma_windows_filename_is_prefix(name: Seq<char>)
    ensures
        windows_filename(name).is_prefix_of(name),
        without_trailing_dots(name).is_prefix_of(name),
    decreases name.len(),
{
    if name.len() > 0 && (name.last() == '.' || name.last() == ' ') {
        lemma_windows_filename_is_prefix(name.drop_last());
        let kept = without_trailing_dots(name);
        assert(name.subrange(0, kept.len() as int) == name.drop_last().subrange(
            0,
            kept.len() as int,
        ));
    } else {
        assert(name.subrange(0, name.len() as int) == name);
    }
    assert(name.subrange(0, 0) == Seq::<char>::empty());
}

proof fn lemma_cut_filename_is_prefix(name: Seq<char>)
    ensures
        cut_filename(name).is_prefix_of(name),
    decreases name.len(),
{
    let kept = cut_filename(name);
    if name.len() == 0 || encode_utf8(name).len() <= 255 {
        assert(name.subrange(0, name.len() as int) == name);
    } else {
        lemma_cut_filename_is_prefix(name.drop_last());
        assert(name.subrange(0, kept.len() as int) == name.drop_last().subrange(
            0,
            kept.len() as int,
        ));
    }
}

/// Every character of a sanitised name is one that file names keep.
pub proof fn lemma_sanitized_filename_is_kept(name: Seq<char>, on_windows: bool, i: int)
    requires
        0 <= i < sanitized_filename(name, on_windows).len(),
    ensures
        is_kept_in_filename(sanitized_filename(name, on_windows)[i]),
{
    broadcast use Seq::lemma_filter_pred;

    let keep = |c: char| is_kept_in_filename(c);
    let cleaned = cleaned_filename(name);
    lemma_windows_filename_is_prefix(cleaned);
    lemma_cut_filename_is_prefix(cleaned);
    lemma_cut_filename_is_prefix(windows_filename(cleaned));
    assert(sanitized_filename(name, on_windows)[i] == cleaned[i]);
    assert(keep(name.filter(keep)[i]));
}

/// `sanitize_filename::sanitize_with_options`, with the crate's default options but for the
/// one that says whether names are for Windows: takes what is not fit for a file name out of
/// `name`. With that option set as the crate is built, this is `sanitize_filename::sanitize`.
#[verifier::external_body]
pub(crate) fn sanitize_filename(name: &str, on_windows: bool) -> (result: String)
    ensures
        result@ == sanitized_filename(name@, on_windows),
{
    let options = sanitize_filename::Options { windows: on_windows, ..Default::default() };
    sanitize_filename::sanitize_with_options(name, options)
}

} // verus!
