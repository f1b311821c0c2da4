//! Texts, headers and paths.

use vstd::prelude::*;

use crate::json::{member, Json};
use crate::text::{
    header_bytes, header_text, is_blank, is_white_space, joined, last_segment,
    lemma_split_appended, lemma_split_whole, named_pieces, optional_header_text, path_components,
    path_joined, split, stripped,
};

verus! {

/// What is left behind a prefix is what the text is made of together with the prefix, and
/// only then is there anything left.
pub proof fn law_stripping_undoes_prefixing(text: Seq<char>, prefix: Seq<char>, rest: Seq<char>)
    ensures
        stripped(text, prefix) == Some(rest) <==> text == prefix + rest,
        stripped(prefix + rest, prefix) == Some(rest),
{
    assert((prefix + rest).skip(prefix.len() as int) == rest);
    assert((prefix + rest).subrange(0, prefix.len() as int) == prefix);
    if stripped(text, prefix) == Some(rest) {
        assert(text == prefix + rest);
    }
}

/// A text without the separator is one piece; a separator ends a piece, and what stands behind
/// the last one is the last piece.
pub proof fn law_splitting_ends_a_piece_at_each_separator(
    front: Seq<char>,
    back: Seq<char>,
    separator: char,
)
    requires
        !back.contains(separator),
    ensures
        split(back, separator) == seq![back],
        split(front + seq![separator] + back, separator) == split(front, separator).push(back),
{
    lemma_split_whole(back, separator);
    lemma_split_appended(front, back, separator);
}

/// The last segment of a path is what stands behind its last slash, or all of it.
pub proof fn law_last_segment_is_behind_the_last_slash(front: Seq<char>, back: Seq<char>)
    requires
        !back.contains('/'),
    ensures
        last_segment(back) == back,
        last_segment(front + seq!['/'] + back) == back,
{
    lemma_split_whole(back, '/');
    lemma_split_appended(front, back, '/');
}

proof fn lemma_named_pieces_of_more(pieces: Seq<Seq<char>>, more: Seq<char>, n: int)
    requires
        n <= pieces.len(),
    ensures
        named_pieces(pieces.push(more), n) == named_pieces(pieces, n),
    decreases n,
{
    if n > 0 {
        lemma_named_pieces_of_more(pieces, more, n - 1);
        assert(pieces.push(more)[n - 1] == pieces[n - 1]);
    }
}

proof fn lemma_split_is_never_empty(s: Seq<char>, separator: char)
    ensures
        split(s, separator).len() > 0,
    decreases s.len(),
{
    if s.len() > 0 {
        lemma_split_is_never_empty(s.drop_last(), separator);
    }
}

/// The components of a path, from its last slash on: a name behind it is one more component,
/// nothing or a dot behind it adds none, and a slash in front of everything is the root.
pub proof fn law_components_of_a_path(front: Seq<char>, back: Seq<char>)
    requires
        !back.contains('/'),
    ensures
        path_components(back) == if back.len() == 0 {
            Seq::<Seq<char>>::empty()
        } else {
            seq![back]
        },
        front.len() > 0 ==> path_components(front + seq!['/'] + back) == if back.len() == 0 || back
            == seq!['.'] {
            path_components(front)
        } else {
            path_components(front).push(back)
        },
        path_components(seq!['/'] + back) == if back.len() == 0 || back == seq!['.'] {
            seq![seq!['/']]
        } else {
            seq![seq!['/'], back]
        },
{
    lemma_split_whole(back, '/');
    lemma_split_appended(front, back, '/');
    let nothing = Seq::<char>::empty();
    lemma_split_appended(nothing, back, '/');
    lemma_split_whole(nothing, '/');
    reveal_with_fuel(named_pieces, 3);
    if back.len() > 0 {
        assert(back.contains(back[0]));
    }
    assert(nothing + seq!['/'] + back == seq!['/'] + back);
    assert(seq![nothing].push(back) == seq![nothing, back]);
    let pieces = split(front, '/');
    lemma_split_is_never_empty(front, '/');
    lemma_named_pieces_of_more(pieces, back, pieces.len() as int);
    let whole = front + seq!['/'] + back;
    if front.len() > 0 {
        assert(whole[0] == front[0]);
        let named = named_pieces(pieces, pieces.len() as int);
        assert(seq![seq!['/']] + named.push(back) == (seq![seq!['/']] + named).push(back));
    }
    assert(seq![seq!['/']] + Seq::<Seq<char>>::empty() == seq![seq!['/']]);
    assert(seq![seq!['/']] + seq![back] == seq![seq!['/'], back]);
}

/// Joining puts one separator between neighbours and none anywhere else.
pub proof fn law_joining_separates_neighbours(
    parts: Seq<Seq<char>>,
    last: Seq<char>,
    separator: char,
)
    ensures
        joined(Seq::<Seq<char>>::empty(), separator) == Seq::<char>::empty(),
        joined(seq![last], separator) == last,
        parts.len() > 0 ==> joined(parts.push(last), separator) == joined(parts, separator) + seq![
            separator,
        ] + last,
{
    assert(parts.push(last).drop_last() == parts);
}

/// A name is put behind a path with exactly one slash between them; a name that starts at the
/// root stays as it is.
pub proof fn law_path_joined_with_one_slash(base: Seq<char>, name: Seq<char>)
    ensures
        name.len() > 0 && name[0] == '/' ==> path_joined(base, name) == name,
        (name.len() == 0 || name[0] != '/') && base.len() == 0 ==> path_joined(base, name) == name,
        (name.len() == 0 || name[0] != '/') && base.len() > 0 && base.last() == '/'
            ==> path_joined(base, name) == base + name,
        (name.len() == 0 || name[0] != '/') && base.len() > 0 && base.last() != '/'
            ==> path_joined(base, name) == base + "/"@ + name,
{
    reveal_strlit("/");
    assert("/"@ == seq!['/']);
    assert(Seq::<char>::empty() + name == name);
}

/// The characters that count as white space, by their code points.
pub proof fn law_white_space_by_code_point(c: char)
    ensures
        is_white_space(c) <==> {
            let code = c as u32;
            ||| 0x9 <= code <= 0xd
            ||| code == 0x20 || code == 0x85 || code == 0xa0 || code == 0x1680
            ||| 0x2000 <= code <= 0x200a
            ||| code == 0x2028 || code == 0x2029 || code == 0x202f || code == 0x205f
                || code == 0x3000
        },
{
}

/// A text is blank where each of its parts is; no text is blank that holds a character which
/// is no white space.
pub proof fn law_blank_is_nothing_but_white_space(front: Seq<char>, c: char, back: Seq<char>)
    ensures
        is_blank(Seq::<char>::empty()),
        is_blank(front + seq![c] + back) <==> is_blank(front) && is_white_space(c) && is_blank(
            back,
        ),
{
    let whole = front + seq![c] + back;
    if is_blank(whole) {
        assert(whole[front.len() as int] == c);
        assert forall|i: int| 0 <= i < front.len() implies is_white_space(#[trigger] front[i]) by {
            assert(whole[i] == front[i]);
        }
        assert forall|i: int| 0 <= i < back.len() implies is_white_space(#[trigger] back[i]) by {
            assert(whole[i + front.len() + 1] == back[i]);
        }
    }
}

/// A header is read character by character: it can be read where every byte is printable
/// ASCII or a tab, and each character is then the one of its byte.
pub proof fn law_header_is_read_byte_by_byte(value: Seq<u8>)
    ensures
        header_text(value) is Some <==> forall|i: int|
            0 <= i < value.len() ==> (0x20 <= #[trigger] value[i] <= 0x7e || value[i] == 0x9),
        header_text(value) matches Some(text) ==> text.len() == value.len() && forall|i: int|
            0 <= i < value.len() ==> #[trigger] text[i] as u32 == value[i] as u32,
        optional_header_text(Some(value)) == header_text(value),
        optional_header_text(None) is None,
{
}

/// What a request has as the bytes of a header is what is read.
pub proof fn law_header_bytes_are_those_of_the_request(value: Vec<u8>)
    ensures
        header_bytes(Some(value)) == Some(value@),
        header_bytes(None) is None,
{
}

/// The value under a key of an object is that of the first member with the key; where no
/// member has the key there is none.
pub proof fn law_member_is_the_first_with_the_key(
    members: Seq<(String, Json)>,
    key: Seq<char>,
    i: int,
)
    requires
        0 <= i <= members.len(),
        forall|j: int| 0 <= j < i ==> (#[trigger] members[j]).0@ != key,
    ensures
        i == members.len() ==> member(members, key) is None,
        i < members.len() && members[i].0@ == key ==> member(members, key) == Some(members[i].1),
    decreases i,
{
    if i > 0 {
        assert(members[0].0@ != key);
        let rest = members.drop_first();
        assert forall|j: int| 0 <= j < i - 1 implies (#[trigger] rest[j]).0@ != key by {
            assert(members[j + 1].0@ != key);
        }
        law_member_is_the_first_with_the_key(rest, key, i - 1);
    }
}

/// Only objects have members and only strings are texts.
pub proof fn law_json_is_read_by_its_kind(members: Vec<(String, Json)>, text: String, key: Seq<char>)
    ensures
        Json::Object(members).at(key) == member(members@, key),
        Json::Object(members).text() is None,
        Json::Text(text).text() == Some(text@),
        Json::Text(text).at(key) is None,
        Json::Other.at(key) is None,
        Json::Other.text() is None,
{
}

} // verus!
