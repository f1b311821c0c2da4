//! Text: the small string operations that the request handlers are built from.

use vstd::prelude::*;
use vstd::string::StrSliceExecFns;
use vstd::string::StringExecFns;
use vstd::utf8::{
    decode_utf8, encode_utf8, encode_utf8_decode_utf8, encode_utf8_valid_utf8,
    is_ascii_chars_encode_utf8, valid_utf8,
};

use crate::outside::utf8_text;

verus! {

/// The characters of a string, in order.
pub fn characters(s: &str) -> (chars: Vec<char>)
    ensures
        chars@ == s@,
{
    let mut chars: Vec<char> = Vec::new();
    for c in it: s.chars()
        invariant
            it.seq() == s@,
            chars@ == s@.take(it.index() as int),
    {
        chars.push(c);
    }
    assert(s@.take(s@.len() as int) == s@);
    chars
}

/// Whether `s` begins with `prefix`.
pub fn starts_with(s: &str, prefix: &str) -> (yes: bool)
    ensures
        yes == prefix@.is_prefix_of(s@),
{
    let chars = characters(s);
    let wanted = characters(prefix);
    if wanted.len() > chars.len() {
        return false;
    }
    let mut i: usize = 0;
    while i < wanted.len()
        invariant
            chars@ == s@,
            wanted@ == prefix@,
            wanted.len() <= chars.len(),
            i <= wanted.len(),
            forall|j: int| 0 <= j < i ==> chars@[j] == wanted@[j],
        decreases wanted.len() - i,
    {
        if chars[i] != wanted[i] {
            assert(s@.subrange(0, prefix@.len() as int)[i as int] != prefix@[i as int]);
            return false;
        }
        i += 1;
    }
    true
}

/// Whether `s` ends with `suffix`.
pub fn ends_with(s: &str, suffix: &str) -> (yes: bool)
    ensures
        yes == suffix@.is_suffix_of(s@),
{
    let length: usize = s.unicode_len();
    let tail: usize = suffix.unicode_len();
    if tail > length {
        return false;
    }
    same_text(s.substring_char(length - tail, length), suffix)
}

/// Whether two strings hold the same characters.
pub fn same_text(a: &str, b: &str) -> (same: bool)
    ensures
        same == (a@ == b@),
{
    let same = starts_with(a, b) && a.unicode_len() == b.unicode_len();
    assert(a@.len() == b@.len() ==> a@.subrange(0, b@.len() as int) == a@);
    same
}

/// What is left of `s` behind `prefix`; `None` where `s` does not begin with it.
pub open spec fn stripped(s: Seq<char>, prefix: Seq<char>) -> Option<Seq<char>> {
    if prefix.is_prefix_of(s) {
        Some(s.skip(prefix.len() as int))
    } else {
        None
    }
}

/// Takes `prefix` off the front of `s`.
pub fn strip_prefix(s: &str, prefix: &str) -> (rest: Option<String>)
    ensures
        rest.deep_view() == stripped(s@, prefix@),
{
    if starts_with(s, prefix) {
        Some(s.substring_char(prefix.unicode_len(), s.unicode_len()).to_owned())
    } else {
        None
    }
}

/// The pieces of `s` between the separators, read from left to right: a separator opens a
/// new piece, any other character extends the last one.
pub open spec fn split(s: Seq<char>, separator: char) -> Seq<Seq<char>>
    decreases s.len(),
{
    if s.len() == 0 {
        seq![s]
    } else {
        let pieces = split(s.drop_last(), separator);
        if s.last() == separator {
            pieces.push(Seq::empty())
        } else {
            pieces.drop_last().push(pieces.last().push(s.last()))
        }
    }
}

/// Splits `s` at every `separator`; there is always at least one piece.
pub fn split_at_each(s: &str, separator: char) -> (pieces: Vec<String>)
    ensures
        pieces.deep_view() == split(s@, separator),
        pieces.len() > 0,
{
    let chars = characters(s);
    let mut pieces: Vec<String> = Vec::new();
    let mut start: usize = 0;
    let mut i: usize = 0;
    while i < chars.len()
        invariant
            chars@ == s@,
            start <= i <= chars.len(),
            split(s@.take(i as int), separator) == pieces.deep_view().push(
                s@.subrange(start as int, i as int),
            ),
        decreases chars.len() - i,
    {
        proof {
            let longer = s@.take(i + 1);
            assert(longer.drop_last() == s@.take(i as int));
            let before = pieces.deep_view().push(s@.subrange(start as int, i as int));
            assert(before.drop_last() == pieces.deep_view());
            assert(s@.subrange(start as int, i + 1) == s@.subrange(start as int, i as int).push(
                s@[i as int],
            ));
        }
        if chars[i] == separator {
            let ghost before = pieces.deep_view();
            pieces.push(s.substring_char(start, i).to_owned());
            assert(pieces.deep_view() == before.push(s@.subrange(start as int, i as int)));
            start = i + 1;
            assert(s@.subrange(start as int, i + 1) == Seq::<char>::empty());
        }
        i += 1;
    }
    let ghost before = pieces.deep_view();
    pieces.push(s.substring_char(start, chars.len()).to_owned());
    assert(pieces.deep_view() == before.push(s@.subrange(start as int, s@.len() as int)));
    assert(s@.take(s@.len() as int) == s@);
    pieces
}

/// The part of a `/`-separated path behind its last separator.
pub open spec fn last_segment(path: Seq<char>) -> Seq<char> {
    split(path, '/').last()
}

/// Whether piece `i` of a split path counts as a component: empty pieces do not, and `.`
/// does only in front.
pub open spec fn is_component(pieces: Seq<Seq<char>>, i: int) -> bool {
    pieces[i].len() > 0 && (i == 0 || pieces[i] != seq!['.'])
}

/// The first `n` pieces of a split path, without those that are no components.
pub open spec fn named_pieces(pieces: Seq<Seq<char>>, n: int) -> Seq<Seq<char>>
    decreases n,
{
    if n <= 0 {
        Seq::empty()
    } else if is_component(pieces, n - 1) {
        named_pieces(pieces, n - 1).push(pieces[n - 1])
    } else {
        named_pieces(pieces, n - 1)
    }
}

/// The components of a `/`-separated path: the root, where the path starts with one, and
/// the named pieces. Repeated and trailing separators add nothing, nor does a `.` that is
/// not in front.
pub open spec fn path_components(path: Seq<char>) -> Seq<Seq<char>> {
    let pieces = split(path, '/');
    let named = named_pieces(pieces, pieces.len() as int);
    if path.len() > 0 && path[0] == '/' {
        seq![seq!['/']] + named
    } else {
        named
    }
}

/// Lists the components of a `/`-separated path.
pub fn components(path: &str) -> (found: Vec<String>)
    ensures
        found.deep_view() == path_components(path@),
{
    let pieces = split_at_each(path, '/');
    let mut found: Vec<String> = Vec::new();
    proof {
        reveal_strlit("/");
    }
    let absolute = starts_with(path, "/");
    assert(absolute == (path@.len() > 0 && path@[0] == '/')) by {
        if path@.len() > 0 && path@[0] == '/' {
            assert(path@.subrange(0, 1) == "/"@);
        } else if absolute {
            assert(path@.subrange(0, 1)[0] == '/');
        }
    }
    if absolute {
        found.push("/".to_owned());
    }
    let ghost root: Seq<Seq<char>> = if absolute { seq![seq!['/']] } else { Seq::empty() };
    let ghost parts = split(path@, '/');
    assert("/"@ == seq!['/']);
    assert(found.deep_view() == root + named_pieces(parts, 0));
    let mut i: usize = 0;
    while i < pieces.len()
        invariant
            pieces.deep_view() == parts,
            i <= pieces.len(),
            found.deep_view() == root + named_pieces(parts, i as int),
        decreases pieces.len() - i,
    {
        let piece = &pieces[i];
        assert(piece@ == parts[i as int]);
        proof {
            reveal_strlit(".");
            assert("."@ == seq!['.']);
        }
        if !piece.as_str().is_empty() && (i == 0 || !same_text(piece.as_str(), ".")) {
            let ghost before = found.deep_view();
            found.push(piece.clone());
            assert(found.deep_view() == before.push(piece@));
        }
        i += 1;
    }
    assert(found.deep_view() == path_components(path@)) by {
        assert(Seq::<Seq<char>>::empty() + named_pieces(parts, parts.len() as int)
            == named_pieces(parts, parts.len() as int));
    }
    found
}

/// The texts in order, with `separator` between neighbours.
pub open spec fn joined(parts: Seq<Seq<char>>, separator: char) -> Seq<char>
    decreases parts.len(),
{
    if parts.len() == 0 {
        Seq::empty()
    } else if parts.len() == 1 {
        parts[0]
    } else {
        joined(parts.drop_last(), separator) + seq![separator] + parts.last()
    }
}

/// Puts a `/` between neighbours of `parts[from..]`.
pub fn join_components(parts: &Vec<String>, from: usize) -> (path: String)
    requires
        from <= parts.len(),
    ensures
        path@ == joined(parts.deep_view().skip(from as int), '/'),
{
    let ghost rest = parts.deep_view().skip(from as int);
    let mut path = String::new();
    let mut i: usize = from;
    while i < parts.len()
        invariant
            from <= i <= parts.len(),
            rest == parts.deep_view().skip(from as int),
            path@ == joined(rest.take(i - from), '/'),
        decreases parts.len() - i,
    {
        proof {
            reveal_strlit("/");
            assert("/"@ == seq!['/']);
            assert(rest.take(i - from + 1).drop_last() == rest.take(i - from));
            assert(rest[i - from] == parts[i as int]@);
        }
        if i > from {
            path.append("/");
        }
        path.append(parts[i].as_str());
        i += 1;
    }
    assert(rest.take(rest.len() as int) == rest);
    path
}

/// A name that can stand as one component of a path.
pub open spec fn is_plain_name(name: Seq<char>) -> bool {
    &&& name.len() > 0
    &&& !name.contains('/')
    &&& name != seq!['.']
}

/// A text without the separator is one piece.
pub proof fn lemma_split_whole(s: Seq<char>, separator: char)
    requires
        !s.contains(separator),
    ensures
        split(s, separator) == seq![s],
    decreases s.len(),
{
    if s.len() > 0 {
        assert(s.contains(s.last()));
        assert forall|c: char| s.drop_last().contains(c) implies s.contains(c) by {
            let i = choose|i: int| 0 <= i < s.drop_last().len() && s.drop_last()[i] == c;
            assert(s[i] == c);
        }
        lemma_split_whole(s.drop_last(), separator);
        assert(s.drop_last().push(s.last()) == s);
        assert(seq![s.drop_last()].drop_last().push(s) == seq![s]);
    }
}

/// What stands behind the last separator is the last piece.
pub proof fn lemma_split_appended(front: Seq<char>, back: Seq<char>, separator: char)
    requires
        !back.contains(separator),
    ensures
        split(front + seq![separator] + back, separator) == split(front, separator).push(back),
    decreases back.len(),
{
    let whole = front + seq![separator] + back;
    if back.len() == 0 {
        assert(whole.drop_last() == front);
        assert(back == Seq::<char>::empty());
    } else {
        assert(back.contains(back.last()));
        let shorter = back.drop_last();
        assert forall|c: char| shorter.contains(c) implies back.contains(c) by {
            let i = choose|i: int| 0 <= i < shorter.len() && shorter[i] == c;
            assert(back[i] == c);
        }
        lemma_split_appended(front, shorter, separator);
        assert(whole.drop_last() == front + seq![separator] + shorter);
        let pieces = split(front, separator).push(shorter);
        assert(pieces.drop_last() == split(front, separator));
        assert(shorter.push(back.last()) == back);
    }
}

proof fn lemma_split_joined(parts: Seq<Seq<char>>)
    requires
        parts.len() > 0,
        forall|i: int| 0 <= i < parts.len() ==> is_plain_name(#[trigger] parts[i]),
    ensures
        split(joined(parts, '/'), '/') == parts,
        joined(parts, '/').len() > 0,
        joined(parts, '/')[0] == parts[0][0],
    decreases parts.len(),
{
    if parts.len() == 1 {
        lemma_split_whole(parts[0], '/');
        assert(parts == seq![parts[0]]);
    } else {
        let shorter = parts.drop_last();
        assert forall|i: int| 0 <= i < shorter.len() implies is_plain_name(
            #[trigger] shorter[i],
        ) by {
            assert(shorter[i] == parts[i]);
        }
        lemma_split_joined(shorter);
        assert(is_plain_name(parts[parts.len() - 1]));
        lemma_split_appended(joined(shorter, '/'), parts.last(), '/');
        assert(shorter.push(parts.last()) == parts);
    }
}

/// Names joined to a path come back as its components.
pub proof fn lemma_components_of_joined(parts: Seq<Seq<char>>)
    requires
        parts.len() > 0,
        forall|i: int| 0 <= i < parts.len() ==> is_plain_name(#[trigger] parts[i]),
    ensures
        path_components(joined(parts, '/')) == parts,
{
    lemma_split_joined(parts);
    assert(is_plain_name(parts[0]));
    assert(parts[0].contains(parts[0][0]));
    lemma_all_named(parts, parts.len() as int);
    assert(parts.take(parts.len() as int) == parts);
}

proof fn lemma_all_named(parts: Seq<Seq<char>>, n: int)
    requires
        0 <= n <= parts.len(),
        forall|i: int| 0 <= i < parts.len() ==> is_plain_name(#[trigger] parts[i]),
    ensures
        named_pieces(parts, n) == parts.take(n),
    decreases n,
{
    if n > 0 {
        lemma_all_named(parts, n - 1);
        assert(is_plain_name(parts[n - 1]));
        assert(parts.take(n - 1).push(parts[n - 1]) == parts.take(n));
    }
}

/// The path of `name` seen from `base`.
pub open spec fn path_joined(base: Seq<char>, name: Seq<char>) -> Seq<char> {
    if name.len() > 0 && name[0] == '/' {
        name
    } else if base.len() == 0 || base.last() == '/' {
        base + name
    } else {
        base + seq!['/'] + name
    }
}

/// Appends `name` to the path `base`; an absolute `name` replaces it.
pub fn join_path(base: &str, name: &str) -> (path: String)
    ensures
        path@ == path_joined(base@, name@),
{
    proof {
        reveal_strlit("/");
        assert("/"@ == seq!['/']);
        if name@.len() > 0 && name@[0] == '/' {
            assert(name@.subrange(0, 1) == "/"@);
        } else if "/"@.is_prefix_of(name@) {
            assert(name@.subrange(0, 1)[0] == '/');
        }
        if base@.len() > 0 && base@.last() == '/' {
            assert(base@.subrange(base@.len() - 1, base@.len() as int) == "/"@);
        } else if "/"@.is_suffix_of(base@) {
            assert(base@.subrange(base@.len() - 1, base@.len() as int)[0] == '/');
        }
    }
    if starts_with(name, "/") {
        return name.to_owned();
    }
    let mut path = base.to_owned();
    if !base.is_empty() && !ends_with(base, "/") {
        path.append("/");
    }
    path.append(name);
    path
}

/// The characters with Unicode's `White_Space` property.
pub open spec fn is_white_space(c: char) -> bool {
    ||| '\u{9}' <= c <= '\u{d}'
    ||| c == ' '
    ||| c == '\u{85}'
    ||| c == '\u{a0}'
    ||| c == '\u{1680}'
    ||| '\u{2000}' <= c <= '\u{200a}'
    ||| c == '\u{2028}'
    ||| c == '\u{2029}'
    ||| c == '\u{202f}'
    ||| c == '\u{205f}'
    ||| c == '\u{3000}'
}

/// Whether nothing is left of a text once the white space is trimmed off.
pub open spec fn is_blank(s: Seq<char>) -> bool {
    forall|i: int| 0 <= i < s.len() ==> is_white_space(#[trigger] s[i])
}

/// Whether `s` is empty or holds white space only.
pub fn blank(s: &str) -> (yes: bool)
    ensures
        yes == is_blank(s@),
{
    let chars = characters(s);
    let mut i: usize = 0;
    while i < chars.len()
        invariant
            chars@ == s@,
            i <= chars.len(),
            forall|j: int| 0 <= j < i ==> is_white_space(#[trigger] s@[j]),
        decreases chars.len() - i,
    {
        let c = chars[i];
        let white = ('\u{9}' <= c && c <= '\u{d}') || c == ' ' || c == '\u{85}' || c == '\u{a0}'
            || c == '\u{1680}' || ('\u{2000}' <= c && c <= '\u{200a}') || c == '\u{2028}'
            || c == '\u{2029}' || c == '\u{202f}' || c == '\u{205f}' || c == '\u{3000}';
        assert(white == is_white_space(s@[i as int]));
        if !white {
            return false;
        }
        i += 1;
    }
    true
}

/// Whether a byte of a header value is visible ASCII or a tab.
pub open spec fn is_visible_ascii(byte: u8) -> bool {
    32 <= byte < 127 || byte == 9
}

/// The text of a header value: there is one only where every byte is visible ASCII or a tab.
pub open spec fn header_text(value: Seq<u8>) -> Option<Seq<char>> {
    if forall|i: int| 0 <= i < value.len() ==> is_visible_ascii(#[trigger] value[i]) {
        Some(value.map_values(|byte: u8| byte as char))
    } else {
        None
    }
}

/// The bytes of a header value, where the request has that header.
pub open spec fn header_bytes(value: Option<Vec<u8>>) -> Option<Seq<u8>> {
    match value {
        Some(bytes) => Some(bytes@),
        None => None,
    }
}

/// The text of a header that may be missing; an unreadable value counts as missing.
pub open spec fn optional_header_text(value: Option<Seq<u8>>) -> Option<Seq<char>> {
    match value {
        Some(bytes) => header_text(bytes),
        None => None,
    }
}

proof fn lemma_ascii_text(bytes: Seq<u8>)
    requires
        forall|i: int| 0 <= i < bytes.len() ==> is_visible_ascii(#[trigger] bytes[i]),
    ensures
        valid_utf8(bytes),
        decode_utf8(bytes) == bytes.map_values(|byte: u8| byte as char),
{
    let chars = bytes.map_values(|byte: u8| byte as char);
    assert forall|i: int| 0 <= i < chars.len() implies 0 <= #[trigger] chars[i] as nat <= 127 by {
        assert(is_visible_ascii(bytes[i]));
    }
    is_ascii_chars_encode_utf8(chars);
    assert forall|i: int| 0 <= i < bytes.len() implies #[trigger] chars[i] as u8 == bytes[i] by {
        assert(is_visible_ascii(bytes[i]));
    }
    assert(encode_utf8(chars) == bytes);
    encode_utf8_valid_utf8(chars);
    encode_utf8_decode_utf8(chars);
}

/// Reads a header value as text.
pub fn read_header(value: &Option<Vec<u8>>) -> (text: Option<String>)
    ensures
        text.deep_view() == optional_header_text(header_bytes(*value)),
{
    let bytes: &Vec<u8> = match value {
        Some(bytes) => bytes,
        None => {
            return None;
        },
    };
    let mut i: usize = 0;
    while i < bytes.len()
        invariant
            header_bytes(*value) == Some(bytes@),
            i <= bytes.len(),
            forall|j: int| 0 <= j < i ==> is_visible_ascii(#[trigger] bytes@[j]),
        decreases bytes.len() - i,
    {
        let byte: u8 = bytes[i];
        if !((32 <= byte && byte < 127) || byte == 9) {
            assert(!is_visible_ascii(bytes@[i as int]));
            return None;
        }
        i += 1;
    }
    proof {
        lemma_ascii_text(bytes@);
    }
    match utf8_text(bytes.clone()) {
        Ok(text) => Some(text),
        Err(_) => None,
    }
}

/// A name that is joined to a path is the last segment of the result.
pub proof fn lemma_last_segment_of_joined(base: Seq<char>, name: Seq<char>)
    requires
        !name.contains('/'),
    ensures
        last_segment(path_joined(base, name)) == name,
        base.is_prefix_of(path_joined(base, name)),
{
    if name.len() > 0 {
        assert(name.contains(name[0]));
    }
    if base.len() == 0 {
        lemma_split_whole(name, '/');
        assert(base + name == name);
    } else if base.last() == '/' {
        let front = base.drop_last();
        lemma_split_appended(front, name, '/');
        assert(base + name == front + seq!['/'] + name);
    } else {
        lemma_split_appended(base, name, '/');
    }
    assert(path_joined(base, name).subrange(0, base.len() as int) == base);
}

} // verus!
