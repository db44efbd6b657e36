use vstd::prelude::*;

use crate::json::push_char;

verus! {

/// Whether a byte is left as it is in a URL component: an ASCII letter or
/// digit, or one of `-`, `.`, `_` and `~`.
pub open spec fn is_unreserved(b: u8) -> bool {
    ||| 48 <= b <= 57
    ||| 65 <= b <= 90
    ||| 97 <= b <= 122
    ||| b == 45
    ||| b == 46
    ||| b == 95
    ||| b == 126
}

/// The upper-case hexadecimal digit of a value below 16.
pub open spec fn hex_upper(n: u8) -> char {
    if n < 10 {
        (48 + n) as char
    } else {
        (55 + n) as char
    }
}

/// How one byte is written in a URL component: an unreserved byte as its
/// character, any other as `%` and two upper-case hexadecimal digits.
pub open spec fn percent_byte(b: u8) -> Seq<char> {
    if is_unreserved(b) {
        seq![b as char]
    } else {
        seq!['%', hex_upper(b / 16), hex_upper(b % 16)]
    }
}

/// The percent-encoding of a sequence of bytes.
pub open spec fn percent_encode(bytes: Seq<u8>) -> Seq<char>
    decreases bytes.len(),
{
    if bytes.len() == 0 {
        Seq::empty()
    } else {
        percent_encode(bytes.drop_last()) + percent_byte(bytes.last())
    }
}

/// A text encoded as a URL component: its UTF-8 bytes, percent-encoded.
pub open spec fn url_component(s: Seq<char>) -> Seq<char> {
    percent_encode(vstd::utf8::encode_utf8(s))
}

/// A text without the slashes at its end.
pub open spec fn trim_trailing_slashes(s: Seq<char>) -> Seq<char>
    decreases s.len(),
{
    if s.len() > 0 && s.last() == '/' {
        trim_trailing_slashes(s.drop_last())
    } else {
        s
    }
}

/// Writes the hexadecimal digit of a value below 16.
fn hex_digit_upper(n: u8) -> (c: char)
    requires
        n < 16,
    ensures
        c == hex_upper(n),
{
    if n < 10 {
        (48 + n) as char
    } else {
        (55 + n) as char
    }
}

/// Encodes a text as a URL component.
pub fn encode_url_component(s: &str) -> (r: String)
    ensures
        r@ == url_component(s@),
{
    let bytes = s.as_bytes();
    let ghost all = bytes@;
    assert(all == vstd::utf8::encode_utf8(s@));
    let mut out = String::new();
    let mut i: usize = 0;
    while i < bytes.len()
        invariant
            i <= bytes@.len(),
            bytes@ == all,
            out@ == percent_encode(all.take(i as int)),
        decreases bytes.len() - i,
    {
        let b = bytes[i];
        proof {
            assert(all.take(i as int + 1).drop_last() =~= all.take(i as int));
        }
        let ghost before = out@;
        if (48 <= b && b <= 57) || (65 <= b && b <= 90) || (97 <= b && b <= 122) || b == 45 || b
            == 46 || b == 95 || b == 126 {
            push_char(&mut out, b as char);
        } else {
            push_char(&mut out, '%');
            push_char(&mut out, hex_digit_upper(b / 16));
            push_char(&mut out, hex_digit_upper(b % 16));
        }
        assert(out@ =~= before + percent_byte(b));
        i = i + 1;
    }
    assert(all.take(all.len() as int) =~= all);
    out
}

/// Drops the slashes at the end of a text.
pub fn trim_slashes(s: &str) -> (r: String)
    ensures
        r@ == trim_trailing_slashes(s@),
{
    let mut chars: Vec<char> = Vec::new();
    let ghost all = s@;
    for c in iter: s.chars()
        invariant
            iter.seq() == all,
            chars@ == all.take(iter.index() as int),
    {
        proof {
            assert(all.take(iter.index() as int + 1) =~= chars@.push(c));
        }
        chars.push(c);
    }
    assert(all.take(all.len() as int) =~= all);
    let mut end = chars.len();
    while end > 0 && chars[end - 1] == '/'
        invariant
            end <= chars@.len(),
            chars@ == all,
            trim_trailing_slashes(all) == trim_trailing_slashes(all.subrange(0, end as int)),
        decreases end,
    {
        assert(all.subrange(0, end as int).drop_last() =~= all.subrange(0, end as int - 1));
        end = end - 1;
    }
    let mut out = String::new();
    let mut i: usize = 0;
    while i < end
        invariant
            i <= end,
            end <= chars@.len(),
            chars@ == all,
            out@ == all.subrange(0, i as int),
        decreases end - i,
    {
        push_char(&mut out, chars[i]);
        assert(out@ =~= all.subrange(0, i as int + 1));
        i = i + 1;
    }
    out
}

/// A percent-encoded component holds none of `&`, `"`, `'`, `<` and `>`.
pub proof fn percent_encode_has_no_markup(bytes: Seq<u8>)
    ensures
        forall|i: int|
            0 <= i < percent_encode(bytes).len() ==> {
                let c = #[trigger] percent_encode(bytes)[i];
                c != '&' && c != '"' && c != '\'' && c != '<' && c != '>'
            },
    decreases bytes.len(),
{
    if bytes.len() > 0 {
        percent_encode_has_no_markup(bytes.drop_last());
        let pre = percent_encode(bytes.drop_last());
        let last = percent_byte(bytes.last());
        let b = bytes.last();
        assert forall|i: int| 0 <= i < percent_encode(bytes).len() implies {
            let c = #[trigger] percent_encode(bytes)[i];
            c != '&' && c != '"' && c != '\'' && c != '<' && c != '>'
        } by {
            if i < pre.len() {
                assert(percent_encode(bytes)[i] == pre[i]);
            } else {
                assert(percent_encode(bytes)[i] == last[i - pre.len()]);
                assert(b / 16 < 16 && b % 16 < 16);
            }
        }
    }
}

/// Whether every character of a text is an unreserved ASCII character.
pub open spec fn unreserved_text(s: Seq<char>) -> bool {
    forall|i: int| 0 <= i < s.len() ==> '\0' <= #[trigger] s[i] <= '\u{7f}' && is_unreserved(s[i] as u8)
}

/// A text made of unreserved ASCII characters (such as a UUID) is its own
/// encoding as a URL component.
pub proof fn url_component_keeps_unreserved(s: Seq<char>)
    requires
        unreserved_text(s),
    ensures
        url_component(s) == s,
{
    assert(vstd::utf8::is_ascii_chars(s));
    vstd::utf8::is_ascii_chars_encode_utf8(s);
    let bytes = vstd::utf8::encode_utf8(s);
    lemma_prefix(s, bytes, bytes.len() as int);
    assert(bytes.take(bytes.len() as int) =~= bytes);
    assert(s.take(s.len() as int) =~= s);
}

proof fn lemma_prefix(s: Seq<char>, bytes: Seq<u8>, k: int)
    requires
        0 <= k <= bytes.len(),
        bytes.len() == s.len(),
        unreserved_text(s),
        forall|i: int| 0 <= i < s.len() ==> #[trigger] bytes[i] == s[i] as u8,
    ensures
        percent_encode(bytes.take(k)) == s.take(k),
    decreases k,
{
    if k > 0 {
        lemma_prefix(s, bytes, k - 1);
        assert(bytes.take(k).drop_last() =~= bytes.take(k - 1));
        let c = s[k - 1];
        assert('\0' <= c <= '\u{7f}');
        assert(bytes[k - 1] == c as u8);
        assert((c as u8) as char == c);
        assert(s.take(k) =~= s.take(k - 1).push(c));
    } else {
        assert(s.take(0) =~= Seq::<char>::empty());
    }
}

} // verus!
