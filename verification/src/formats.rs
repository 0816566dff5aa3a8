//! Texts with a format of their own: reported directories, dropped paths and font features.
use crate::text::{
    chars_of, from_chars, has_prefix, matches_at, parse_unsigned, parsed, to_chars,
};
use vstd::prelude::*;
use vstd::string::*;
use vstd::utf8::{decode_utf8, encode_utf8, valid_utf8};

verus! {

/// `String::from_utf8` accepts exactly the bytes that are valid UTF-8, and decodes them.
#[verifier::external_body]
fn text_from_utf8(bytes: Vec<u8>) -> (text: Option<String>)
    ensures
        text is Some <==> valid_utf8(bytes@),
        text is Some ==> text->0@ == decode_utf8(bytes@),
{
    String::from_utf8(bytes).ok()
}

/// Where `c` first stands in the text, from `from` on; the end where it does not.
pub open spec fn find_char(text: Seq<char>, c: char, from: int) -> int
    decreases text.len() - from,
{
    if 0 <= from < text.len() && text[from] != c {
        find_char(text, c, from + 1)
    } else {
        from
    }
}

fn position_of(text: &Vec<char>, c: char, from: usize) -> (at: usize)
    requires
        from <= text@.len(),
    ensures
        at == find_char(text@, c, from as int),
        from <= at <= text@.len(),
        at < text@.len() ==> text@[at as int] == c,
{
    let mut at: usize = from;
    while at < text.len() && text[at] != c
        invariant
            from <= at <= text@.len(),
            find_char(text@, c, from as int) == find_char(text@, c, at as int),
        decreases text@.len() - at,
    {
        at += 1;
    }
    at
}

/// The value of a hexadecimal digit.
pub open spec fn hex_digit(byte: u8) -> Option<u8> {
    if 0x30 <= byte <= 0x39 {
        Some((byte - 0x30) as u8)
    } else if 0x61 <= byte <= 0x66 {
        Some((byte - 0x61 + 10) as u8)
    } else if 0x41 <= byte <= 0x46 {
        Some((byte - 0x41 + 10) as u8)
    } else {
        None
    }
}

fn hex_value(byte: u8) -> (value: Option<u8>)
    ensures
        value == hex_digit(byte),
        value is Some ==> value->0 < 16,
{
    if 0x30 <= byte && byte <= 0x39 {
        Some(byte - 0x30)
    } else if 0x61 <= byte && byte <= 0x66 {
        Some(byte - 0x61 + 10)
    } else if 0x41 <= byte && byte <= 0x46 {
        Some(byte - 0x41 + 10)
    } else {
        None
    }
}

/// The bytes that a percent-encoded text stands for, unless an escape is broken.
pub open spec fn percent_decoded(bytes: Seq<u8>) -> Option<Seq<u8>>
    decreases bytes.len(),
{
    if bytes.len() == 0 {
        Some(Seq::empty())
    } else if bytes[0] == 0x25 {
        if bytes.len() < 3 {
            None
        } else {
            match (hex_digit(bytes[1]), hex_digit(bytes[2]), percent_decoded(bytes.skip(3))) {
                (Some(a), Some(b), Some(rest)) => Some(seq![(a * 16 + b) as u8] + rest),
                _ => None,
            }
        }
    } else {
        match percent_decoded(bytes.skip(1)) {
            Some(rest) => Some(seq![bytes[0]] + rest),
            None => None,
        }
    }
}

/// Appends the bytes that a percent-encoded text stands for.
fn percent_decode(bytes: &[u8], decoded: &mut Vec<u8>) -> (valid: bool)
    ensures
        valid == (percent_decoded(bytes@) is Some),
        valid ==> final(decoded)@ == old(decoded)@ + percent_decoded(bytes@)->0,
{
    let ghost before = decoded@;
    let count: usize = bytes.len();
    let mut i: usize = 0;
    assert(bytes@.skip(0) =~= bytes@);
    while i < count
        invariant
            i <= bytes@.len() == count,
            percent_decoded(bytes@) is Some <==> percent_decoded(bytes@.skip(i as int)) is Some,
            percent_decoded(bytes@) is Some ==> before + percent_decoded(bytes@)->0 == decoded@
                + percent_decoded(bytes@.skip(i as int))->0,
        decreases bytes@.len() - i,
    {
        let byte: u8 = bytes[i];
        let ghost rest = bytes@.skip(i as int);
        let ghost done = decoded@;
        if byte == 0x25 {
            if count - i < 3 {
                return false;
            }
            assert(rest[1] == bytes@[i + 1] && rest[2] == bytes@[i + 2]);
            assert(rest.skip(3) =~= bytes@.skip(i + 3));
            match (hex_value(bytes[i + 1]), hex_value(bytes[i + 2])) {
                (Some(a), Some(b)) => {
                    decoded.push(a * 16 + b);
                    proof {
                        if percent_decoded(bytes@) is Some {
                            assert(done + (seq![(a * 16 + b) as u8] + percent_decoded(
                                rest.skip(3),
                            )->0) =~= decoded@ + percent_decoded(rest.skip(3))->0);
                        }
                    }
                    i += 3;
                },
                _ => {
                    return false;
                },
            }
        } else {
            decoded.push(byte);
            assert(rest.skip(1) =~= bytes@.skip(i + 1));
            proof {
                if percent_decoded(bytes@) is Some {
                    assert(done + (seq![byte] + percent_decoded(rest.skip(1))->0) =~= decoded@
                        + percent_decoded(rest.skip(1))->0);
                }
            }
            i += 1;
        }
    }
    assert(bytes@.skip(i as int) =~= Seq::<u8>::empty());
    assert(decoded@ + Seq::<u8>::empty() =~= decoded@);
    true
}

/// The path of a file URI, whatever its host.
pub open spec fn uri_path(uri: Seq<char>) -> Option<Seq<char>> {
    let slash = find_char(uri, '/', 0);
    if slash >= uri.len() {
        None
    } else {
        match percent_decoded(encode_utf8(uri.skip(slash + 1))) {
            Some(path) => if valid_utf8(seq![0x2fu8] + path) {
                Some(decode_utf8(seq![0x2fu8] + path))
            } else {
                None
            },
            None => None,
        }
    }
}

/// The directory that a program reports: an absolute path without NUL, plain or as a file URI.
pub open spec fn reported_directory(value: Seq<char>) -> Option<Seq<char>> {
    let path = if has_prefix(value, "file://"@) {
        uri_path(value.skip("file://"@.len() as int))
    } else {
        Some(value)
    };
    match path {
        Some(path) if path.len() > 0 && path[0] == '/' && !path.contains('\0') => Some(path),
        _ => None,
    }
}

fn decode_uri(chars: &Vec<char>, from: usize) -> (path: Option<String>)
    requires
        from <= chars@.len(),
    ensures
        chars_of(path) == uri_path(chars@.skip(from as int)),
{
    let ghost uri = chars@.skip(from as int);
    let slash: usize = position_of(chars, '/', from);
    proof {
        lemma_find_skip(chars@, '/', from as int, from as int);
    }
    if slash == chars.len() {
        return None;
    }
    let path = from_chars(chars.as_slice(), slash + 1, chars.len());
    assert(path@ =~= uri.skip(slash - from + 1));
    let mut bytes: Vec<u8> = Vec::new();
    bytes.push(0x2f);
    assert(bytes@ =~= seq![0x2fu8]);
    if percent_decode(path.as_str().as_bytes(), &mut bytes) {
        text_from_utf8(bytes)
    } else {
        None
    }
}

proof fn lemma_find_skip(text: Seq<char>, c: char, from: int, at: int)
    requires
        0 <= from <= at <= text.len(),
    ensures
        find_char(text, c, at) == find_char(text.skip(from), c, at - from) + from,
    decreases text.len() - at,
{
    if at < text.len() && text[at] != c {
        assert(text.skip(from)[at - from] == text[at]);
        lemma_find_skip(text, c, from, at + 1);
    } else if at < text.len() {
        assert(text.skip(from)[at - from] == text[at]);
    }
}

pub fn directory_from_osc(value: &str) -> (directory: Option<String>)
    ensures
        chars_of(directory) == reported_directory(value@),
{
    let chars = to_chars(value);
    assert(value@.skip(0) =~= value@);
    let path = if matches_at(chars.as_slice(), 0, "file://") {
        let length: usize = to_chars("file://").len();
        match decode_uri(&chars, length) {
            Some(path) => path,
            None => {
                return None;
            },
        }
    } else {
        value.to_owned()
    };
    let path_chars = to_chars(path.as_str());
    if path_chars.len() == 0 || path_chars[0] != '/' {
        return None;
    }
    let nul: usize = position_of(&path_chars, '\0', 0);
    if nul < path_chars.len() {
        assert(path@.contains('\0')) by {
            assert(path@[nul as int] == '\0');
        }
        return None;
    }
    proof {
        lemma_absent(path@, '\0', 0);
    }
    Some(path)
}

proof fn lemma_absent(text: Seq<char>, c: char, from: int)
    requires
        0 <= from <= text.len(),
        find_char(text, c, from) >= text.len(),
    ensures
        forall|i: int| from <= i < text.len() ==> text[i] != c,
    decreases text.len() - from,
{
    if from < text.len() {
        lemma_absent(text, c, from + 1);
    }
}

/// A reported directory is absolute and holds no NUL.
pub proof fn law_reported_directories_are_absolute(value: Seq<char>)
    requires
        reported_directory(value) is Some,
    ensures
        reported_directory(value)->0.len() > 0,
        reported_directory(value)->0[0] == '/',
        !reported_directory(value)->0.contains('\0'),
{
}

/// A plain absolute path is reported as it is.
pub proof fn law_plain_paths_are_kept(value: Seq<char>)
    requires
        value.len() > 0,
        value[0] == '/',
        !value.contains('\0'),
    ensures
        reported_directory(value) == Some(value),
{
    reveal_strlit("file://");
    assert("file://"@[0] == 'f');
    if has_prefix(value, "file://"@) {
        assert(value.subrange(0, "file://"@.len() as int)[0] == value[0]);
    }
}

/// A hexadecimal digit as URIs write it.
pub open spec fn hex_byte(value: int, upper: bool) -> u8 {
    if value < 10 {
        (0x30 + value) as u8
    } else if upper {
        (0x41 + value - 10) as u8
    } else {
        (0x61 + value - 10) as u8
    }
}

/// Which bytes of a path a URI escapes, by their positions, and which of the escapes' first and
/// second digits it writes in upper case.
pub struct Escapes {
    pub bytes: Set<int>,
    pub upper_first: Set<int>,
    pub upper_second: Set<int>,
}

/// Bytes as a URI writes them, from the position `at` on.
pub open spec fn percent_encoded(bytes: Seq<u8>, escapes: Escapes, at: int) -> Seq<u8>
    decreases bytes.len() - at,
{
    if at < 0 || at >= bytes.len() {
        Seq::empty()
    } else {
        (if escapes.bytes.contains(at) {
            seq![
                0x25u8,
                hex_byte(bytes[at] as int / 16, escapes.upper_first.contains(at)),
                hex_byte(bytes[at] as int % 16, escapes.upper_second.contains(at)),
            ]
        } else {
            seq![bytes[at]]
        }) + percent_encoded(bytes, escapes, at + 1)
    }
}

/// Every percent sign is escaped.
pub open spec fn escapes_percents(bytes: Seq<u8>, escapes: Escapes) -> bool {
    forall|i: int|
        0 <= i < bytes.len() && #[trigger] bytes[i] == 0x25 ==> escapes.bytes.contains(i)
}

/// `uri` is a file URI of an absolute path, on some host.
pub open spec fn is_file_uri(
    uri: Seq<char>,
    host: Seq<char>,
    path: Seq<char>,
    escapes: Escapes,
) -> bool {
    exists|tail: Seq<char>|
        uri == "file://"@ + host + seq!['/'] + tail && #[trigger] encode_utf8(tail)
            == percent_encoded(encode_utf8(path.drop_first()), escapes, 0)
}

proof fn lemma_encode_concat(a: Seq<char>, b: Seq<char>)
    ensures
        encode_utf8(a + b) == encode_utf8(a) + encode_utf8(b),
    decreases a.len(),
{
    if a.len() == 0 {
        assert(a + b =~= b);
        assert(encode_utf8(a) + encode_utf8(b) =~= encode_utf8(b));
    } else {
        lemma_encode_concat(a.drop_first(), b);
        assert((a + b).drop_first() =~= a.drop_first() + b);
        assert(encode_utf8(a + b) =~= encode_utf8(a) + encode_utf8(b));
    }
}

proof fn lemma_decode_encoded(bytes: Seq<u8>, escapes: Escapes, at: int)
    requires
        0 <= at <= bytes.len(),
        escapes_percents(bytes, escapes),
    ensures
        percent_decoded(percent_encoded(bytes, escapes, at)) == Some(bytes.skip(at)),
    decreases bytes.len() - at,
{
    let encoded = percent_encoded(bytes, escapes, at);
    if at < bytes.len() {
        let rest = percent_encoded(bytes, escapes, at + 1);
        lemma_decode_encoded(bytes, escapes, at + 1);
        assert(seq![bytes[at]] + bytes.skip(at + 1) =~= bytes.skip(at));
        if escapes.bytes.contains(at) {
            assert(encoded.skip(3) =~= rest);
            assert(((bytes[at] as int / 16) * 16 + bytes[at] as int % 16) as u8 == bytes[at]);
        } else {
            assert(encoded.skip(1) =~= rest);
        }
    } else {
        assert(bytes.skip(at) =~= Seq::<u8>::empty());
    }
}

proof fn lemma_find_behind(host: Seq<char>, rest: Seq<char>, from: int)
    requires
        0 <= from <= host.len(),
        !host.contains('/'),
    ensures
        find_char(host + seq!['/'] + rest, '/', from) == host.len(),
    decreases host.len() - from,
{
    let uri = host + seq!['/'] + rest;
    if from < host.len() {
        assert(uri[from] == host[from]);
        assert(host.contains(host[from]));
        lemma_find_behind(host, rest, from + 1);
    } else {
        assert(uri[from] == '/');
    }
}

/// Every absolute path without NUL comes back from its file URI, whatever the host, whichever of
/// its bytes are escaped beside the percent signs, and in whichever case each digit is written.
pub proof fn law_file_uris_give_their_path_back(
    uri: Seq<char>,
    host: Seq<char>,
    path: Seq<char>,
    escapes: Escapes,
)
    requires
        !host.contains('/'),
        path.len() > 0,
        path[0] == '/',
        !path.contains('\0'),
        escapes_percents(encode_utf8(path.drop_first()), escapes),
        is_file_uri(uri, host, path, escapes),
    ensures
        reported_directory(uri) == Some(path),
{
    let scheme = "file://"@;
    let bytes = encode_utf8(path.drop_first());
    let tail = choose|tail: Seq<char>|
        uri == scheme + host + seq!['/'] + tail && #[trigger] encode_utf8(tail) == percent_encoded(
            bytes,
            escapes,
            0,
        );
    let rest = host + seq!['/'] + tail;
    assert(uri =~= scheme + rest);
    assert(uri.subrange(0, scheme.len() as int) =~= scheme);
    assert(uri.skip(scheme.len() as int) =~= rest);
    lemma_find_behind(host, tail, 0);
    assert(rest.skip(host.len() as int + 1) =~= tail);
    lemma_decode_encoded(bytes, escapes, 0);
    assert(bytes.skip(0) =~= bytes);
    let slash = seq!['/'];
    assert(slash + path.drop_first() =~= path);
    lemma_encode_concat(slash, path.drop_first());
    vstd::utf8::is_ascii_chars_encode_utf8(slash);
    assert(slash[0] == '/');
    assert(encode_utf8(slash) =~= seq![0x2fu8]);
    vstd::utf8::encode_utf8_valid_utf8(path);
    vstd::utf8::encode_utf8_decode_utf8(path);
}

proof fn lemma_encoded_ascii(bytes: Seq<u8>, escapes: Escapes, at: int)
    requires
        0 <= at <= bytes.len(),
        forall|i: int|
            0 <= i < bytes.len() && #[trigger] bytes[i] >= 0x80 ==> escapes.bytes.contains(i),
    ensures
        forall|i: int|
            0 <= i < percent_encoded(bytes, escapes, at).len() ==> #[trigger] percent_encoded(
                bytes,
                escapes,
                at,
            )[i] < 0x80,
    decreases bytes.len() - at,
{
    if at < bytes.len() {
        lemma_encoded_ascii(bytes, escapes, at + 1);
        assert(bytes[at] >= 0x80 ==> escapes.bytes.contains(at));
        let rest = percent_encoded(bytes, escapes, at + 1);
        let own = percent_encoded(bytes, escapes, at);
        assert forall|i: int| 0 <= i < own.len() implies #[trigger] own[i] < 0x80 by {
            let width: int = if escapes.bytes.contains(at) {
                3
            } else {
                1
            };
            if i >= width {
                assert(own[i] == rest[i - width]);
            }
        }
    }
}

/// Every path has a file URI, for each choice of escapes that leaves no byte beyond ASCII as it is.
pub proof fn law_paths_have_file_uris(host: Seq<char>, path: Seq<char>, escapes: Escapes)
    requires
        path.len() > 0,
        forall|i: int|
            0 <= i < encode_utf8(path.drop_first()).len() && #[trigger] encode_utf8(
                path.drop_first(),
            )[i] >= 0x80 ==> escapes.bytes.contains(i),
    ensures
        exists|uri: Seq<char>| is_file_uri(uri, host, path, escapes),
{
    let encoded = percent_encoded(encode_utf8(path.drop_first()), escapes, 0);
    lemma_encoded_ascii(encode_utf8(path.drop_first()), escapes, 0);
    let tail = encoded.map_values(|byte: u8| byte as char);
    assert forall|i: int| 0 <= i < tail.len() implies '\0' <= #[trigger] tail[i] <= '\u{7f}' by {
        assert(encoded[i] < 0x80);
    }
    vstd::utf8::is_ascii_chars_encode_utf8(tail);
    assert forall|i: int| 0 <= i < tail.len() implies encode_utf8(tail)[i] == encoded[i] by {
        assert(tail[i] as u8 == encode_utf8(tail)[i]);
    }
    assert(encode_utf8(tail) =~= encoded);
    assert(is_file_uri("file://"@ + host + seq!['/'] + tail, host, path, escapes));
}

/// A character inside single quotes of a shell.
pub open spec fn quoted_char(c: char) -> Seq<char> {
    if c == '\'' {
        seq!['\'', '\\', '\'', '\'']
    } else {
        seq![c]
    }
}

pub open spec fn quoted_chars(text: Seq<char>) -> Seq<char>
    decreases text.len(),
{
    if text.len() == 0 {
        Seq::empty()
    } else {
        quoted_chars(text.drop_last()) + quoted_char(text.last())
    }
}

/// A path as one word of a shell command, and a space behind it.
pub open spec fn dropped_text(path: Seq<char>) -> Seq<char> {
    seq!['\''] + quoted_chars(path) + seq!['\'', ' ']
}

/// What dropping a file on a pane types.
pub fn dropped_path(path: &str) -> (text: String)
    ensures
        text@ == dropped_text(path@),
{
    let chars = to_chars(path);
    let mut text = String::new();
    text.push('\'');
    let mut i: usize = 0;
    assert(text@ =~= seq!['\''] + quoted_chars(path@.take(0)));
    while i < chars.len()
        invariant
            chars@ == path@,
            i <= chars@.len(),
            text@ == seq!['\''] + quoted_chars(path@.take(i as int)),
        decreases chars@.len() - i,
    {
        let c = chars[i];
        let ghost before = text@;
        if c == '\'' {
            text.push('\'');
            text.push('\\');
            text.push('\'');
            text.push('\'');
        } else {
            text.push(c);
        }
        assert(path@.take(i + 1).drop_last() =~= path@.take(i as int));
        i += 1;
        assert(text@ =~= seq!['\''] + quoted_chars(path@.take(i as int)));
    }
    assert(path@.take(i as int) =~= path@);
    text.push('\'');
    text.push(' ');
    assert(text@ =~= dropped_text(path@));
    text
}

/// An OpenType feature and its value.
#[derive(Clone, Copy, Debug, PartialEq, Eq)]
pub struct FontFeature {
    pub tag: [u8; 4],
    pub value: u32,
}

/// The tag and the value of a feature setting: `tag`, `+tag`, `-tag` or `tag=value`. A minus
/// switches off, whatever the value; without one, a value is a decimal number.
pub open spec fn feature_setting(feature: Seq<char>) -> Option<(Seq<u8>, int)> {
    let equals = find_char(feature, '=', 0);
    let name = if equals < feature.len() {
        feature.take(equals)
    } else {
        feature
    };
    let off = name.len() > 0 && name[0] == '-';
    let tag = encode_utf8(
        if name.len() > 0 && (name[0] == '-' || name[0] == '+') {
            name.skip(1)
        } else {
            name
        },
    );
    let value = if off {
        Some(0)
    } else if equals < feature.len() {
        parsed(feature.skip(equals + 1), u32::MAX as int)
    } else {
        Some(1)
    };
    if tag.len() == 4 && value is Some {
        Some((tag, value->0))
    } else {
        None
    }
}

/// Reads a feature setting; one that cannot be read is left out.
pub fn font_feature(feature: &str) -> (setting: Option<FontFeature>)
    ensures
        match setting {
            Some(setting) => feature_setting(feature@) == Some(
                (setting.tag@, setting.value as int),
            ),
            None => feature_setting(feature@) is None,
        },
{
    let chars = to_chars(feature);
    let equals: usize = position_of(&chars, '=', 0);
    let off = equals > 0 && chars[0] == '-';
    let signed = equals > 0 && (chars[0] == '-' || chars[0] == '+');
    let start: usize = if signed {
        1
    } else {
        0
    };
    let value: u32 = if off {
        0
    } else if equals < chars.len() {
        match parse_unsigned(chars.as_slice(), equals + 1, u32::MAX) {
            Some(value) => value,
            None => {
                return None;
            },
        }
    } else {
        1
    };
    let tag = from_chars(chars.as_slice(), start, equals);
    proof {
        let name = if equals < feature@.len() {
            feature@.take(equals as int)
        } else {
            feature@
        };
        assert(name =~= feature@.take(equals as int));
        assert(tag@ =~= if signed {
            name.skip(1)
        } else {
            name
        });
    }
    let bytes = tag.as_str().as_bytes();
    if bytes.len() != 4 {
        return None;
    }
    let tag_bytes: [u8; 4] = [bytes[0], bytes[1], bytes[2], bytes[3]];
    assert(tag_bytes@ =~= bytes@);
    Some(FontFeature { tag: tag_bytes, value })
}

} // verus!
