use vstd::prelude::*;

use crate::json::push_char;

verus! {

/// The HTML of the password-reset email up to the link target.
pub const RESET_EMAIL_HEAD: &'static str = r#"<!DOCTYPE html>
<html>
<body style="font-family: sans-serif; max-width: 600px; margin: 0 auto; padding: 20px;">
    <h1 style="color: #333;">Password Reset</h1>
    <p>You requested a password reset. Click the link below to set a new password:</p>
    <p><a href=""#;

/// The HTML of the password-reset email after the link target.
pub const RESET_EMAIL_TAIL: &'static str = r#"" style="display: inline-block; padding: 12px 24px;
        background-color: #4f46e5; color: white; text-decoration: none;
        border-radius: 6px;">Reset Password</a></p>
    <p style="color: #666; font-size: 14px;">This link expires in 1 hour.
        If you did not request this reset, you can safely ignore this email.</p>
</body>
</html>"#;

/// How one character of an HTML attribute value is written: `&`, `"`, `'`,
/// `<` and `>` as character references, every other character as itself.
pub open spec fn html_attr_escape_char(c: char) -> Seq<char> {
    if c == '&' {
        seq!['&', 'a', 'm', 'p', ';']
    } else if c == '"' {
        seq!['&', 'q', 'u', 'o', 't', ';']
    } else if c == '\'' {
        seq!['&', '#', 'x', '2', '7', ';']
    } else if c == '<' {
        seq!['&', 'l', 't', ';']
    } else if c == '>' {
        seq!['&', 'g', 't', ';']
    } else {
        seq![c]
    }
}

/// A text escaped for use as an HTML attribute value.
pub open spec fn html_attr_escape(s: Seq<char>) -> Seq<char>
    decreases s.len(),
{
    if s.len() == 0 {
        Seq::empty()
    } else {
        html_attr_escape(s.drop_last()) + html_attr_escape_char(s.last())
    }
}

/// The password-reset email for a reset link: the link, escaped as an HTML
/// attribute value, is the target of the "Reset Password" button.
pub open spec fn reset_email_html(reset_url: Seq<char>) -> Seq<char> {
    RESET_EMAIL_HEAD@ + html_attr_escape(reset_url) + RESET_EMAIL_TAIL@
}

/// Appends the HTML-attribute escape of one character.
fn push_attr_escaped_char(out: &mut String, c: char)
    ensures
        final(out)@ == old(out)@ + html_attr_escape_char(c),
{
    let ghost start = out@;
    if c == '&' {
        push_char(out, '&');
        push_char(out, 'a');
        push_char(out, 'm');
        push_char(out, 'p');
        push_char(out, ';');
    } else if c == '"' {
        push_char(out, '&');
        push_char(out, 'q');
        push_char(out, 'u');
        push_char(out, 'o');
        push_char(out, 't');
        push_char(out, ';');
    } else if c == '\'' {
        push_char(out, '&');
        push_char(out, '#');
        push_char(out, 'x');
        push_char(out, '2');
        push_char(out, '7');
        push_char(out, ';');
    } else if c == '<' {
        push_char(out, '&');
        push_char(out, 'l');
        push_char(out, 't');
        push_char(out, ';');
    } else if c == '>' {
        push_char(out, '&');
        push_char(out, 'g');
        push_char(out, 't');
        push_char(out, ';');
    } else {
        push_char(out, c);
    }
    assert(out@ =~= start + html_attr_escape_char(c));
}

/// Appends `s`, escaped as an HTML attribute value.
pub fn push_attr_escaped(out: &mut String, s: &str)
    ensures
        final(out)@ == old(out)@ + html_attr_escape(s@),
{
    let ghost start = out@;
    let ghost chars = s@;
    for c in iter: s.chars()
        invariant
            iter.seq() == chars,
            out@ == start + html_attr_escape(chars.take(iter.index() as int)),
    {
        proof {
            let next = chars.take(iter.index() as int + 1);
            assert(next.drop_last() =~= chars.take(iter.index() as int));
            assert(next.last() == c);
        }
        push_attr_escaped_char(out, c);
    }
    assert(chars.take(chars.len() as int) =~= chars);
}

/// Builds the HTML body of the password-reset email.
pub fn password_reset_email(reset_url: &str) -> (html: String)
    ensures
        html@ == reset_email_html(reset_url@),
{
    let mut html = RESET_EMAIL_HEAD.to_owned();
    push_attr_escaped(&mut html, reset_url);
    html.append(RESET_EMAIL_TAIL);
    html
}

/// An escaped attribute value holds no quote and no angle bracket: whatever
/// the link holds, it cannot end the attribute or open markup.
pub proof fn html_attr_escape_is_inert(s: Seq<char>)
    ensures
        forall|i: int|
            0 <= i < html_attr_escape(s).len() ==> {
                let c = #[trigger] html_attr_escape(s)[i];
                c != '"' && c != '\'' && c != '<' && c != '>'
            },
    decreases s.len(),
{
    if s.len() > 0 {
        html_attr_escape_is_inert(s.drop_last());
        let pre = html_attr_escape(s.drop_last());
        let last = html_attr_escape_char(s.last());
        assert forall|i: int| 0 <= i < html_attr_escape(s).len() implies {
            let c = #[trigger] html_attr_escape(s)[i];
            c != '"' && c != '\'' && c != '<' && c != '>'
        } by {
            if i < pre.len() {
                assert(html_attr_escape(s)[i] == pre[i]);
            } else {
                assert(html_attr_escape(s)[i] == last[i - pre.len()]);
            }
        }
    }
}

/// Whether a text holds none of the characters that attribute escaping
/// rewrites.
pub open spec fn attr_plain(s: Seq<char>) -> bool {
    forall|i: int|
        0 <= i < s.len() ==> {
            let c = #[trigger] s[i];
            c != '&' && c != '"' && c != '\'' && c != '<' && c != '>'
        }
}

/// Text without the escaped characters is left as it is.
pub proof fn html_attr_escape_plain(s: Seq<char>)
    requires
        attr_plain(s),
    ensures
        html_attr_escape(s) == s,
    decreases s.len(),
{
    if s.len() > 0 {
        assert forall|i: int| 0 <= i < s.drop_last().len() implies {
            let c = #[trigger] s.drop_last()[i];
            c != '&' && c != '"' && c != '\'' && c != '<' && c != '>'
        } by {
            assert(s.drop_last()[i] == s[i]);
        }
        html_attr_escape_plain(s.drop_last());
        let c = s[s.len() - 1];
        assert(html_attr_escape_char(c) == seq![c]);
        assert(s.drop_last().push(c) =~= s);
    }
}

/// Escaping a joined text escapes each part in turn.
pub proof fn html_attr_escape_concat(a: Seq<char>, b: Seq<char>)
    ensures
        html_attr_escape(a + b) == html_attr_escape(a) + html_attr_escape(b),
    decreases b.len(),
{
    if b.len() == 0 {
        assert(a + b =~= a);
        assert(html_attr_escape(b) =~= Seq::<char>::empty());
        assert(html_attr_escape(a) + html_attr_escape(b) =~= html_attr_escape(a));
    } else {
        html_attr_escape_concat(a, b.drop_last());
        assert((a + b).drop_last() =~= a + b.drop_last());
        assert((a + b).last() == b.last());
        assert(html_attr_escape(a) + html_attr_escape(b) =~= html_attr_escape(a)
            + html_attr_escape(b.drop_last()) + html_attr_escape_char(b.last()));
    }
}

} // verus!
