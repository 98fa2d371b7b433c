//! Text as part of a URL or of a cookie.

use vstd::prelude::*;

verus! {

/// Does the byte stand for itself in a URL?
pub open spec fn stands_for_itself(b: u8) -> bool {
    ||| 0x30 <= b <= 0x39
    ||| 0x41 <= b <= 0x5a
    ||| 0x61 <= b <= 0x7a
    ||| b == 0x2d || b == 0x2e || b == 0x5f || b == 0x7e
}

/// The capital hexadecimal digit of a number below 16.
pub open spec fn capital_hex_digit(n: int) -> char {
    if n < 10 {
        (('0' as int) + n) as char
    } else {
        (('A' as int) + n - 10) as char
    }
}

/// A byte in a URL: itself, or a percent sign and two digits.
pub open spec fn url_byte(b: u8) -> Seq<char> {
    if stands_for_itself(b) {
        seq![b as char]
    } else {
        seq!['%', capital_hex_digit(b as int / 16), capital_hex_digit(b as int % 16)]
    }
}

/// Bytes in a URL.
pub open spec fn url_bytes(data: Seq<u8>) -> Seq<char>
    decreases data.len(),
{
    if data.len() == 0 {
        Seq::empty()
    } else {
        url_bytes(data.drop_last()) + url_byte(data.last())
    }
}

/// A text in a URL.
pub open spec fn url_text(t: Seq<char>) -> Seq<char> {
    url_bytes(vstd::utf8::encode_utf8(t))
}

/// `urlencoding::encode`: every byte of the text in UTF-8 is percent-encoded, in capital digits,
/// except ASCII letters and digits and `-`, `.`, `_`, `~`.
#[verifier::external_body]
pub(crate) fn encode(t: &str) -> (r: String)
    ensures
        r@ == url_text(t@),
{
    urlencoding::encode(t).into_owned()
}

/// In a URL, encoded bytes hold nothing that could end the value that they stand in.
pub proof fn law_encoded_text_stays_in_its_place(data: Seq<u8>)
    ensures
        forall|i: int|
            0 <= i < url_bytes(data).len() ==> {
                let c = #[trigger] url_bytes(data)[i];
                c != '&' && c != '=' && c != '?' && c != '#' && c != '/' && c != ' '
            },
    decreases data.len(),
{
    if data.len() > 0 {
        law_encoded_text_stays_in_its_place(data.drop_last());
        let before = url_bytes(data.drop_last());
        let b = data.last();
        assert(b as int / 16 < 16 && b as int % 16 < 16);
        assert forall|i: int| 0 <= i < url_bytes(data).len() implies ({
            let c = #[trigger] url_bytes(data)[i];
            c != '&' && c != '=' && c != '?' && c != '#' && c != '/' && c != ' '
        }) by {
            if i < before.len() {
                assert(url_bytes(data)[i] == before[i]);
            } else {
                assert(url_bytes(data)[i] == url_byte(b)[i - before.len()]);
            }
        }
    }
}

/// Does the byte stand for itself in a cookie? It does unless it is a control character, a space,
/// not ASCII, or one of `"#%(),/:;<=>?@[\]^`{|}`.
pub open spec fn stands_in_cookie(b: u8) -> bool {
    &&& 0x20 < b < 0x7f
    &&& b != 0x22 && b != 0x23 && b != 0x25 && b != 0x28 && b != 0x29 && b != 0x2c && b != 0x2f
    &&& !(0x3a <= b <= 0x40)
    &&& !(0x5b <= b <= 0x5e)
    &&& b != 0x60 && !(0x7b <= b <= 0x7d)
}

/// A byte in a cookie: itself, or a percent sign and two digits.
pub open spec fn cookie_byte(b: u8) -> Seq<char> {
    if stands_in_cookie(b) {
        seq![b as char]
    } else {
        seq!['%', capital_hex_digit(b as int / 16), capital_hex_digit(b as int % 16)]
    }
}

/// Bytes in a cookie.
pub open spec fn cookie_bytes(data: Seq<u8>) -> Seq<char>
    decreases data.len(),
{
    if data.len() == 0 {
        Seq::empty()
    } else {
        cookie_bytes(data.drop_last()) + cookie_byte(data.last())
    }
}

/// A text in a cookie.
pub open spec fn cookie_text(t: Seq<char>) -> Seq<char> {
    cookie_bytes(vstd::utf8::encode_utf8(t))
}

/// `Cookie::encoded` of axum-extra, for a cookie with a name and a value alone: the name, an equals
/// sign and the value, where every byte of either in UTF-8 that does not stand for itself is
/// percent-encoded, in capital digits.
#[verifier::external_body]
pub(crate) fn encode_cookie(name: &str, value: &str) -> (r: String)
    ensures
        r@ == cookie_text(name@) + "="@ + cookie_text(value@),
{
    axum_extra::extract::cookie::Cookie::build((name.to_string(), value.to_string())).build().encoded().to_string()
}

/// In a cookie, encoded bytes hold nothing that could end the value that they stand in.
pub proof fn law_cookie_value_stays_in_its_place(data: Seq<u8>)
    ensures
        forall|i: int|
            0 <= i < cookie_bytes(data).len() ==> {
                let c = #[trigger] cookie_bytes(data)[i];
                c != ';' && c != '=' && c != ',' && c != '"' && c != ' '
            },
    decreases data.len(),
{
    if data.len() > 0 {
        law_cookie_value_stays_in_its_place(data.drop_last());
        let before = cookie_bytes(data.drop_last());
        let b = data.last();
        assert(b as int / 16 < 16 && b as int % 16 < 16);
        assert forall|i: int| 0 <= i < cookie_bytes(data).len() implies ({
            let c = #[trigger] cookie_bytes(data)[i];
            c != ';' && c != '=' && c != ',' && c != '"' && c != ' '
        }) by {
            if i < before.len() {
                assert(cookie_bytes(data)[i] == before[i]);
            } else {
                assert(cookie_bytes(data)[i] == cookie_byte(b)[i - before.len()]);
            }
        }
    }
}

/// What a hexadecimal digit in capitals stands for.
pub open spec fn capital_hex_value(c: char) -> int {
    if '0' <= c <= '9' {
        c as int - '0' as int
    } else {
        c as int - 'A' as int + 10
    }
}

/// Letters, digits and the four marks stand for themselves; every other byte becomes a percent sign
/// and the two digits that say which byte it is.
pub proof fn law_each_byte_can_be_read_back(b: u8)
    ensures
        url_byte(b) == seq![b as char] <==> {
            let c = b as char;
            ||| 'a' <= c <= 'z' || 'A' <= c <= 'Z' || '0' <= c <= '9'
            ||| c == '-' || c == '.' || c == '_' || c == '~'
        },
        url_byte(b).len() == 1 || url_byte(b).len() == 3,
        url_byte(b).len() == 1 ==> url_byte(b)[0] == b as char,
        url_byte(b).len() == 3 ==> url_byte(b)[0] == '%' && 16 * capital_hex_value(url_byte(b)[1])
            + capital_hex_value(url_byte(b)[2]) == b,
        cookie_byte(b).len() == 1 || cookie_byte(b).len() == 3,
        cookie_byte(b).len() == 1 ==> cookie_byte(b)[0] == b as char,
        cookie_byte(b).len() == 3 ==> cookie_byte(b)[0] == '%' && 16 * capital_hex_value(
            cookie_byte(b)[1],
        ) + capital_hex_value(cookie_byte(b)[2]) == b,
        url_byte(b).len() == 1 ==> cookie_byte(b).len() == 1,
{
    assert(0 <= b as int / 16 < 16 && 0 <= b as int % 16 < 16);
    assert(b as int == 16 * (b as int / 16) + b as int % 16);
    assert(b < 128 ==> (b as char) as int == b as int);
    assert(url_byte(b) == seq![b as char] <==> url_byte(b).len() == 1);
}

/// Bytes are encoded one by one, in their order.
pub proof fn law_bytes_are_encoded_in_order(a: Seq<u8>, b: Seq<u8>)
    ensures
        url_bytes(a + b) == url_bytes(a) + url_bytes(b),
        cookie_bytes(a + b) == cookie_bytes(a) + cookie_bytes(b),
    decreases b.len(),
{
    if b.len() == 0 {
        assert(a + b =~= a);
        assert(url_bytes(a) + url_bytes(b) =~= url_bytes(a));
        assert(cookie_bytes(a) + cookie_bytes(b) =~= cookie_bytes(a));
    } else {
        law_bytes_are_encoded_in_order(a, b.drop_last());
        assert((a + b).drop_last() =~= a + b.drop_last());
        assert(url_bytes(a + b) =~= url_bytes(a) + url_bytes(b));
        assert(cookie_bytes(a + b) =~= cookie_bytes(a) + cookie_bytes(b));
    }
}

/// In a cookie a byte is encoded exactly where it is no visible ASCII character, or one that a
/// cookie or an address would read as its own.
pub proof fn law_cookies_keep_harmless_characters(b: u8)
    ensures
        cookie_byte(b).len() == 3 <==> {
            let c = b as char;
            ||| b <= 0x20 || b >= 0x7f
            ||| c == '"' || c == '#' || c == '%' || c == '('
            ||| c == ')' || c == ',' || c == '/' || c == ':'
            ||| c == ';' || c == '<' || c == '=' || c == '>'
            ||| c == '?' || c == '@' || c == '[' || c == '\\'
            ||| c == ']' || c == '^' || c == '`' || c == '{'
            ||| c == '|' || c == '}'
        },
{
    assert(b < 128 ==> (b as char) as int == b as int);
}

} // verus!
