//! Text made fit to stand in a URL.

use vstd::prelude::*;
use vstd::utf8::*;

use crate::text::{chars_of, find_from, joined, occurs_at, string_of, trim_end_char, without_trailing};

verus! {

/// A hexadecimal digit, in upper case.
pub open spec fn hex_upper(d: int) -> char {
    if d < 10 {
        (48 + d) as char
    } else {
        (55 + d) as char
    }
}

/// An ASCII letter or digit.
pub open spec fn is_alphanumeric(b: u8) -> bool {
    0x30 <= b <= 0x39 || 0x41 <= b <= 0x5A || 0x61 <= b <= 0x7A
}

/// `%` and the byte in hexadecimal.
pub open spec fn percent(b: u8) -> Seq<char> {
    seq!['%', hex_upper(b as int / 16), hex_upper(b as int % 16)]
}

/// A byte as it stands in a path segment: letters, digits and `-._~` as they are.
pub open spec fn segment_byte(b: u8) -> Seq<char> {
    if is_alphanumeric(b) || b == 0x2D || b == 0x2E || b == 0x5F || b == 0x7E {
        seq![b as char]
    } else {
        percent(b)
    }
}

/// Bytes as they stand in a path segment.
pub open spec fn percent_encoded(bytes: Seq<u8>) -> Seq<char>
    decreases bytes.len(),
{
    if bytes.len() == 0 {
        seq![]
    } else {
        percent_encoded(bytes.drop_last()) + segment_byte(bytes.last())
    }
}

/// `urlencoding::encode`: every byte of the text but letters, digits and `-._~` becomes `%` and
/// its two hexadecimal digits in upper case.
#[verifier::external_body]
pub(crate) fn encode_segment(s: &str) -> (r: String)
    ensures
        r@ == percent_encoded(encode_utf8(s@)),
{
    urlencoding::encode(s).into_owned()
}

/// Bytes that a path segment holds as they are.
pub open spec fn plain(bytes: Seq<u8>) -> bool {
    forall|i: int| 0 <= i < bytes.len() ==> (#[trigger] segment_byte(bytes[i])).len() == 1
}

/// Letters, digits and `-._~` stand in a path segment as they are.
pub proof fn law_plain_text_is_its_own_encoding(s: Seq<char>)
    requires
        is_ascii_chars(s),
        plain(encode_utf8(s)),
    ensures
        percent_encoded(encode_utf8(s)) == s,
{
    is_ascii_chars_encode_utf8(s);
    lemma_plain_bytes(encode_utf8(s));
    assert forall|i: int| 0 <= i < s.len() implies percent_encoded(encode_utf8(s))[i] == s[i] by {
        assert(s[i] as u8 == encode_utf8(s)[i]);
    }
    assert(percent_encoded(encode_utf8(s)) =~= s);
}

proof fn lemma_plain_bytes(bytes: Seq<u8>)
    requires
        plain(bytes),
    ensures
        percent_encoded(bytes) == bytes.map_values(|b: u8| b as char),
    decreases bytes.len(),
{
    if bytes.len() > 0 {
        let init = bytes.drop_last();
        assert forall|i: int| 0 <= i < init.len() implies (#[trigger] segment_byte(init[i])).len() == 1 by {
            assert(segment_byte(bytes[i]).len() == 1);
        }
        lemma_plain_bytes(init);
        assert(segment_byte(bytes[bytes.len() - 1]).len() == 1);
        assert(percent_encoded(bytes) =~= bytes.map_values(|b: u8| b as char));
    } else {
        assert(percent_encoded(bytes) =~= bytes.map_values(|b: u8| b as char));
    }
}

/// A byte as it stands in a form: letters, digits and `*-._` as they are, a space as `+`.
pub open spec fn form_byte(b: u8) -> Seq<char> {
    if is_alphanumeric(b) || b == 0x2A || b == 0x2D || b == 0x2E || b == 0x5F {
        seq![b as char]
    } else if b == 0x20 {
        seq!['+']
    } else {
        percent(b)
    }
}

/// Bytes as they stand in a form.
pub open spec fn form_bytes(bytes: Seq<u8>) -> Seq<char>
    decreases bytes.len(),
{
    if bytes.len() == 0 {
        seq![]
    } else {
        form_bytes(bytes.drop_last()) + form_byte(bytes.last())
    }
}

/// A field of a form.
pub open spec fn form_field(name: Seq<char>, value: Seq<char>) -> Seq<char> {
    form_bytes(encode_utf8(name)) + seq!['='] + form_bytes(encode_utf8(value))
}

/// The names and values of a form's fields.
pub open spec fn fields(pairs: Seq<(String, String)>) -> Seq<(Seq<char>, Seq<char>)> {
    pairs.map_values(|p: (String, String)| (p.0@, p.1@))
}

/// A form: its fields, with `&` between each and the next.
pub open spec fn form(pairs: Seq<(Seq<char>, Seq<char>)>) -> Seq<char> {
    joined(pairs.map_values(|p: (Seq<char>, Seq<char>)| form_field(p.0, p.1)), seq!['&'])
}

/// `serde_urlencoded::to_string` on a list of pairs: the form with these fields. Every byte but
/// letters, digits and `*-._` becomes `%` and its two hexadecimal digits in upper case, a space
/// `+`.
#[verifier::external_body]
pub(crate) fn encode_form(pairs: &Vec<(String, String)>) -> (r: String)
    ensures
        r@ == form(fields(pairs@)),
{
    serde_urlencoded::to_string(pairs).expect("pairs of strings make a form")
}

/// Where `sub` stands first in `s`, from a position on.
pub open spec fn first_at(s: Seq<char>, sub: Seq<char>, from: int) -> Option<int>
    decreases s.len() - from + 1,
{
    if from < 0 || from + sub.len() > s.len() {
        None
    } else if occurs_at(s, sub, from) {
        Some(from)
    } else {
        first_at(s, sub, from + 1)
    }
}

proof fn lemma_first_at(s: Seq<char>, sub: Seq<char>, from: int, k: int)
    requires
        0 <= from <= k,
        occurs_at(s, sub, k),
        forall|j: int| from <= j < k ==> !occurs_at(s, sub, j),
    ensures
        first_at(s, sub, from) == Some(k),
    decreases k - from,
{
    if from < k {
        lemma_first_at(s, sub, from + 1, k);
    }
}

proof fn lemma_nowhere(s: Seq<char>, sub: Seq<char>, from: int)
    requires
        0 <= from,
        forall|j: int| from <= j ==> !occurs_at(s, sub, j),
    ensures
        first_at(s, sub, from) is None,
    decreases s.len() - from + 1,
{
    if from + sub.len() <= s.len() {
        lemma_nowhere(s, sub, from + 1);
    }
}

/// Where the path of an address begins: at the first slash behind `://`.
pub open spec fn path_start(url: Seq<char>) -> Option<int> {
    match first_at(url, "://"@, 0) {
        Some(k) => first_at(url, "/"@, k + 3),
        None => None,
    }
}

/// The scheme, host and port of an address, without its path.
pub open spec fn origin_of(url: Seq<char>) -> Seq<char> {
    match path_start(url) {
        Some(k) => url.take(k),
        None => url,
    }
}

/// The path of an address, without slashes at its end.
pub open spec fn path_of(url: Seq<char>) -> Seq<char> {
    match path_start(url) {
        Some(k) => without_trailing(url.skip(k), '/'),
        None => seq![],
    }
}

/// Where the path of an address begins.
fn find_path(chars: &Vec<char>) -> (r: Option<usize>)
    ensures
        match r {
            Some(k) => path_start(chars@) == Some(k as int) && k <= chars.len(),
            None => path_start(chars@) is None,
        },
{
    let scheme = chars_of("://");
    let slash = chars_of("/");
    proof {
        reveal_strlit("://");
        assert("://"@.len() == 3);
    }
    match find_from(chars, &scheme, 0) {
        Some(k) => {
            proof {
                lemma_first_at(chars@, "://"@, 0, k as int);
            }
            assert(k + scheme@.len() <= chars.len());
            let after: usize = k + 3;
            match find_from(chars, &slash, after) {
                Some(j) => {
                    proof {
                        lemma_first_at(chars@, "/"@, after as int, j as int);
                    }
                    Some(j)
                },
                None => {
                    proof {
                        lemma_nowhere(chars@, "/"@, after as int);
                    }
                    None
                },
            }
        },
        None => {
            proof {
                lemma_nowhere(chars@, "://"@, 0);
            }
            None
        },
    }
}

/// The scheme, host and port of an address, without its path.
pub fn derive_origin(base_url: &str) -> (r: String)
    ensures
        r@ == origin_of(base_url@),
{
    let chars = chars_of(base_url);
    match find_path(&chars) {
        Some(k) => {
            let r = string_of(&chars, 0, k);
            assert(r@ =~= origin_of(base_url@));
            r
        },
        None => base_url.to_owned(),
    }
}

/// The path of an address, without slashes at its end.
pub fn path_only(base_url: &str) -> (r: String)
    ensures
        r@ == path_of(base_url@),
{
    let chars = chars_of(base_url);
    match find_path(&chars) {
        Some(k) => {
            let rest = string_of(&chars, k, chars.len());
            assert(rest@ =~= base_url@.skip(k as int));
            trim_end_char(rest.as_str(), '/')
        },
        None => {
            let r = String::new();
            assert(r@ =~= path_of(base_url@));
            r
        },
    }
}

/// Whether an address names a host: something other than a slash stands behind `://`.
pub open spec fn has_host(url: Seq<char>) -> bool {
    match first_at(url, "://"@, 0) {
        Some(k) => k + 3 < url.len() && url[k + 3] != '/',
        None => false,
    }
}

/// An address is its origin and its path, one behind the other, but for slashes at its end, where it
/// names a host or ends in no slash.
pub proof fn law_an_address_is_origin_and_path(url: Seq<char>)
    requires
        has_host(url) || (url.len() > 0 && url.last() != '/'),
    ensures
        origin_of(url) + path_of(url) == without_trailing(url, '/'),
{
    reveal_strlit("://");
    reveal_strlit("/");
    assert("/"@.len() == 1 && "/"@[0] == '/');
    assert("://"@.len() == 3);
    if let Some(k) = path_start(url) {
        let from = first_at(url, "://"@, 0)->0 + 3;
        lemma_found(url, "/"@, from);
        lemma_found(url, "://"@, 0);
        assert(url.subrange(k, k + 1)[0] == url[k]);
        lemma_first_from(url, "/"@, from);
        if has_host(url) {
            assert(k > from);
            if url[k - 1] == '/' {
                assert(url.subrange(k - 1, k) =~= "/"@);
                assert(occurs_at(url, "/"@, k - 1));
            }
            lemma_trailing_behind(url.take(k), url.skip(k));
            assert(url.take(k) + url.skip(k) =~= url);
        } else {
            assert(url.skip(k).last() == url.last());
            assert(origin_of(url) + path_of(url) =~= url);
        }
    } else {
        if has_host(url) && url.last() == '/' {
            let from = first_at(url, "://"@, 0)->0 + 3;
            lemma_found(url, "://"@, 0);
            lemma_first_from(url, "/"@, from);
            assert(url.subrange(url.len() - 1, url.len() as int) =~= "/"@);
            assert(occurs_at(url, "/"@, url.len() - 1));
        }
        assert(origin_of(url) + path_of(url) =~= url);
    }
}

proof fn lemma_trailing_behind(front: Seq<char>, back: Seq<char>)
    requires
        front.len() > 0,
        front.last() != '/',
    ensures
        without_trailing(front + back, '/') == front + without_trailing(back, '/'),
    decreases back.len(),
{
    let all = front + back;
    if back.len() > 0 {
        assert(all.last() == back.last());
        assert(all.drop_last() =~= front + back.drop_last());
        lemma_trailing_behind(front, back.drop_last());
    } else {
        assert(all =~= front);
        assert(front + without_trailing(back, '/') =~= front);
    }
}

proof fn lemma_first_from(s: Seq<char>, sub: Seq<char>, from: int)
    requires
        0 <= from,
    ensures
        match first_at(s, sub, from) {
            Some(k) => from <= k && forall|j: int| from <= j < k ==> !occurs_at(s, sub, j),
            None => forall|j: int| from <= j ==> !occurs_at(s, sub, j),
        },
    decreases s.len() - from + 1,
{
    if from + sub.len() <= s.len() && !occurs_at(s, sub, from) {
        lemma_first_from(s, sub, from + 1);
    }
}

proof fn lemma_found(s: Seq<char>, sub: Seq<char>, from: int)
    ensures
        first_at(s, sub, from) matches Some(k) ==> occurs_at(s, sub, k),
    decreases s.len() - from + 1,
{
    if 0 <= from && from + sub.len() <= s.len() && !occurs_at(s, sub, from) {
        lemma_found(s, sub, from + 1);
    }
}

/// The path of an address begins at the first slash behind `://`.
pub proof fn law_a_path_begins_at_the_first_slash(url: Seq<char>)
    ensures
        path_start(url) matches Some(k) ==> {
            &&& 3 <= k < url.len()
            &&& url[k] == '/'
            &&& exists|a: int|
                {
                    &&& #[trigger] occurs_at(url, "://"@, a)
                    &&& a + 3 <= k
                    &&& forall|j: int| a + 3 <= j < k ==> #[trigger] url[j] != '/'
                    &&& forall|j: int| 0 <= j < a ==> !#[trigger] occurs_at(url, "://"@, j)
                }
        },
        path_start(url) matches Some(k) ==> origin_of(url) == url.take(k) && path_of(url) == without_trailing(
            url.skip(k),
            '/',
        ),
        path_start(url) is None ==> origin_of(url) == url && path_of(url).len() == 0,
{
    reveal_strlit("://");
    reveal_strlit("/");
    assert("/"@.len() == 1 && "/"@[0] == '/');
    assert("://"@.len() == 3);
    if let Some(k) = path_start(url) {
        let a = first_at(url, "://"@, 0)->0;
        lemma_found(url, "://"@, 0);
        lemma_first_from(url, "://"@, 0);
        lemma_found(url, "/"@, a + 3);
        lemma_first_from(url, "/"@, a + 3);
        assert(url.subrange(k, k + 1)[0] == url[k]);
        assert forall|j: int| a + 3 <= j < k implies #[trigger] url[j] != '/' by {
            if url[j] == '/' {
                assert(url.subrange(j, j + 1) =~= "/"@);
                assert(occurs_at(url, "/"@, j));
            }
        }
    }
}

/// A byte stands in a form or a segment as it is where it is a letter or a digit; a space is a plus in
/// a form; and what stands as `%` and two digits is the number of those in hexadecimal.
pub proof fn law_bytes_are_written_as_they_are_or_in_hexadecimal(b: u8)
    ensures
        ({
            let letter = 48 <= b <= 57 || 65 <= b <= 90 || 97 <= b <= 122;
            &&& letter ==> form_byte(b) == seq![b as char] && segment_byte(b) == seq![b as char]
            &&& b == 32 ==> form_byte(b) == seq!['+']
            &&& form_byte(b).len() == 1 || form_byte(b) == percent(b)
            &&& segment_byte(b).len() == 1 || segment_byte(b) == percent(b)
            &&& form_byte(b).len() == 1 && b != 32 ==> letter || b == 42 || b == 45 || b == 46 || b == 95
            &&& segment_byte(b).len() == 1 ==> letter || b == 45 || b == 46 || b == 95 || b == 126
            &&& percent(b)[0] == '%'
            &&& hex_value(percent(b)[1]) * 16 + hex_value(percent(b)[2]) == b
        }),
{
}

/// What a hexadecimal digit in upper case is worth.
pub open spec fn hex_value(c: char) -> int {
    if '0' <= c <= '9' {
        c as int - 48
    } else {
        c as int - 55
    }
}

/// A form's fields stand one behind the other with `&` between them, each a name and its value with
/// `=` between them.
pub proof fn law_a_form_has_each_field(pairs: Seq<(Seq<char>, Seq<char>)>, name: Seq<char>, value: Seq<char>)
    ensures
        form(seq![(name, value)]) == form_bytes(encode_utf8(name)) + seq!['='] + form_bytes(encode_utf8(value)),
        pairs.len() > 0 ==> form(pairs.push((name, value))) == form(pairs) + seq!['&'] + form(seq![(name, value)]),
{
    let write = |p: (Seq<char>, Seq<char>)| form_field(p.0, p.1);
    let last = seq![(name, value)];
    assert(last.map_values(write) =~= seq![form_field(name, value)]);
    let all = pairs.push((name, value));
    assert(all.map_values(write).drop_last() =~= pairs.map_values(write));
    assert(all.map_values(write).last() == form_field(name, value));
}

} // verus!
