use vstd::prelude::*;

use validator::ValidateEmail;

use crate::errors::AppError;
use crate::json::decimal_text;

verus! {

/// Whether `validator` accepts the text as an email address (its HTML5
/// rules for the part before the last `@`, domain or address-literal rules,
/// with IDNA, for the part after it).
pub uninterp spec fn validator_email(s: Seq<char>) -> bool;

/// Calls `validator`'s `ValidateEmail::validate_email` on the text. Claimed:
/// the result is the one named by `validator_email`, and a text without `@`
/// is refused (the function's first test).
#[verifier::external_body]
pub(crate) fn is_valid_email(s: &str) -> (r: bool)
    ensures
        r == validator_email(s@),
        !s@.contains('@') ==> !r,
{
    s.validate_email()
}

/// Whether a text has between `min` and `max` characters, ends included.
pub open spec fn length_within(s: Seq<char>, min: int, max: int) -> bool {
    min <= s.len() <= max
}

/// Whether some character of the text has the property `p`.
pub open spec fn any_char(s: Seq<char>, p: spec_fn(char) -> bool) -> bool {
    exists|i: int| 0 <= i < s.len() && p(#[trigger] s[i])
}

/// Whether a character is an ASCII digit.
pub open spec fn is_ascii_digit(c: char) -> bool {
    48 <= (c as u32) <= 57
}

/// Whether `char::is_alphabetic` holds of the character: it has the Unicode
/// `Alphabetic` property.
pub uninterp spec fn unicode_alphabetic(c: char) -> bool;

/// Calls std's `char::is_alphabetic`. Claimed: the result is the one named
/// by `unicode_alphabetic`.
#[verifier::external_body]
fn is_alphabetic(c: char) -> (r: bool)
    ensures
        r == unicode_alphabetic(c),
{
    c.is_alphabetic()
}

/// Whether a character is an ASCII letter.
pub open spec fn is_ascii_letter(c: char) -> bool {
    65 <= (c as u32) <= 90 || 97 <= (c as u32) <= 122
}

/// Whether a character is alphabetic: an ASCII letter, or any character
/// with the Unicode `Alphabetic` property (which the ASCII letters have).
pub open spec fn is_letter(c: char) -> bool {
    is_ascii_letter(c) || unicode_alphabetic(c)
}

/// Whether a password mixes letters and digits: it holds an ASCII digit and
/// an alphabetic character.
pub open spec fn password_complex(p: Seq<char>) -> bool {
    any_char(p, |c: char| is_ascii_digit(c)) && any_char(p, |c: char| is_letter(c))
}

/// Whether some character of `s` followed by `c` has the property `p`.
proof fn lemma_any_char_push(s: Seq<char>, c: char, p: spec_fn(char) -> bool)
    ensures
        any_char(s.push(c), p) == (any_char(s, p) || p(c)),
{
    let t = s.push(c);
    if any_char(s, p) {
        let k = choose|i: int| 0 <= i < s.len() && p(#[trigger] s[i]);
        assert(t[k] == s[k]);
    }
    if p(c) {
        assert(t[s.len() as int] == c);
    }
    if any_char(t, p) {
        let k = choose|i: int| 0 <= i < t.len() && p(#[trigger] t[i]);
        if k < s.len() {
            assert(t[k] == s[k]);
        }
    }
}

/// Whether a password mixes letters and digits.
pub fn is_complex_password(password: &str) -> (r: bool)
    ensures
        r == password_complex(password@),
{
    let ghost chars = password@;
    let ghost digit_p = |c: char| is_ascii_digit(c);
    let ghost alpha_p = |c: char| is_letter(c);
    let mut digit = false;
    let mut alpha = false;
    for c in iter: password.chars()
        invariant
            iter.seq() == chars,
            digit_p == (|c: char| is_ascii_digit(c)),
            alpha_p == (|c: char| is_letter(c)),
            digit == any_char(chars.take(iter.index() as int), digit_p),
            alpha == any_char(chars.take(iter.index() as int), alpha_p),
    {
        proof {
            let before = chars.take(iter.index() as int);
            assert(chars.take(iter.index() as int + 1) =~= before.push(c));
            lemma_any_char_push(before, c, digit_p);
            lemma_any_char_push(before, c, alpha_p);
        }
        let code = c as u32;
        if 48 <= code && code <= 57 {
            digit = true;
        }
        if (65 <= code && code <= 90) || (97 <= code && code <= 122) || is_alphabetic(c) {
            alpha = true;
        }
    }
    assert(chars.take(chars.len() as int) =~= chars);
    digit && alpha
}

/// The text that Rust's `Debug` gives a string: the string in double
/// quotes, with quotes, backslashes and unprintable characters escaped.
pub uninterp spec fn rust_debug_str(s: Seq<char>) -> Seq<char>;

/// Formats a string with `{:?}` (std's `Debug` for `str`). Claimed: the
/// text is the one named by `rust_debug_str`.
#[verifier::external_body]
fn debug_str(s: &str) -> (r: String)
    ensures
        r@ == rust_debug_str(s@),
{
    format!("{:?}", s)
}

/// The parameter that `validator` records for every failed rule: the
/// field's value, as `serde_json` holds a string and `Debug` writes it.
pub open spec fn value_param(value: Seq<char>) -> Seq<char> {
    "\"value\": String("@ + rust_debug_str(value) + ")"@
}

/// A numeric bound of a length rule as a recorded parameter, followed by
/// the separator of the next one; nothing where the rule has no such bound.
pub open spec fn bound_param(name: Seq<char>, bound: Option<usize>) -> Seq<char> {
    match bound {
        Some(n) => "\""@ + name + "\": Number("@ + decimal_text(n as nat) + "), "@,
        None => Seq::empty(),
    }
}

/// How `validator` writes a failed rule without a message of its own: the
/// code, then its parameters as a map (written here in the order in which
/// `validator` records them).
pub open spec fn rule_error(code: Seq<char>, params: Seq<char>) -> Seq<char> {
    "Validation error: "@ + code + " [{"@ + params + "}]"@
}

/// A failed rule whose only parameter is the field's value (`email` and
/// custom rules).
pub open spec fn value_rule_error(code: Seq<char>, value: Seq<char>) -> Seq<char> {
    rule_error(code, value_param(value))
}

/// A failed `length` rule with the given bounds.
pub open spec fn length_rule_error(
    min: Option<usize>,
    max: Option<usize>,
    equal: Option<usize>,
    value: Seq<char>,
) -> Seq<char> {
    rule_error(
        "length"@,
        bound_param("min"@, min) + bound_param("max"@, max) + bound_param("equal"@, equal)
            + value_param(value),
    )
}

/// Writes the parameter of the field's value.
fn push_value_param(out: &mut String, value: &str)
    ensures
        final(out)@ == old(out)@ + value_param(value@),
{
    let ghost start = out@;
    out.append("\"value\": String(");
    let d = debug_str(value);
    out.append(d.as_str());
    out.append(")");
    assert(out@ =~= start + value_param(value@));
}

/// Writes a bound of a length rule.
fn push_bound_param(out: &mut String, name: &str, bound: Option<usize>)
    ensures
        final(out)@ == old(out)@ + bound_param(name@, bound),
{
    let ghost start = out@;
    if let Some(n) = bound {
        out.append("\"");
        out.append(name);
        out.append("\": Number(");
        crate::json::push_decimal(out, n);
        out.append("), ");
    }
    assert(out@ =~= start + bound_param(name@, bound));
}

/// The text of a failed rule whose only parameter is the field's value.
pub fn value_rule(code: &str, value: &str) -> (t: String)
    ensures
        t@ == value_rule_error(code@, value@),
{
    let mut t = "Validation error: ".to_owned();
    t.append(code);
    t.append(" [{");
    push_value_param(&mut t, value);
    t.append("}]");
    t
}

/// The text of a failed `length` rule with the given bounds.
pub fn length_rule(min: Option<usize>, max: Option<usize>, equal: Option<usize>, value: &str) -> (t:
    String)
    ensures
        t@ == length_rule_error(min, max, equal, value@),
{
    let mut t = "Validation error: length [{".to_owned();
    let ghost head = t@;
    push_bound_param(&mut t, "min", min);
    push_bound_param(&mut t, "max", max);
    push_bound_param(&mut t, "equal", equal);
    push_value_param(&mut t, value);
    t.append("}]");
    proof {
        reveal_strlit("Validation error: length [{");
        reveal_strlit("Validation error: ");
        reveal_strlit("length");
        reveal_strlit(" [{");
        assert(head =~= "Validation error: "@ + "length"@ + " [{"@);
    }
    assert(t@ =~= length_rule_error(min, max, equal, value@));
    t
}

/// The line that reports the failed rules of a field: its name, then each
/// rule.
pub open spec fn field_error(field: Seq<char>, rule: Seq<char>) -> Seq<char> {
    field + ": "@ + rule
}

/// A field's line that reports one more failed rule after those it lists.
pub open spec fn also_failed(line: Seq<char>, rule: Seq<char>) -> Seq<char> {
    line + ", "@ + rule
}

/// The lines that report the password rules that `password` breaks, under
/// the name `field`: it must have 8 to 128 characters, and mix letters and
/// digits. Both failures of one field share its line.
pub open spec fn password_failures(field: Seq<char>, password: Seq<char>) -> Seq<Seq<char>> {
    let too_long_or_short = !length_within(password, 8, 128);
    let weak = !password_complex(password);
    let length = length_rule_error(Some(8), Some(128), None, password);
    let complexity = value_rule_error("password_complexity"@, password);
    if too_long_or_short && weak {
        seq![also_failed(field_error(field, length), complexity)]
    } else if too_long_or_short {
        seq![field_error(field, length)]
    } else if weak {
        seq![field_error(field, complexity)]
    } else {
        Seq::empty()
    }
}

/// Lines joined by line breaks.
pub open spec fn join_lines(lines: Seq<Seq<char>>) -> Seq<char>
    decreases lines.len(),
{
    if lines.len() == 0 {
        Seq::empty()
    } else if lines.len() == 1 {
        lines[0]
    } else {
        join_lines(lines.drop_last()) + seq!['\n'] + lines.last()
    }
}

/// The outcome of validating a request whose failed rules are `failures`.
pub open spec fn validation_outcome(failures: Seq<Seq<char>>, r: Result<(), AppError>) -> bool {
    if failures.len() == 0 {
        r is Ok
    } else {
        r matches Err(AppError::Validation(m)) && m@ == join_lines(failures)
    }
}

/// The failed rules found so far while validating a request.
pub struct ValidationReport {
    lines: Vec<String>,
}

impl ValidationReport {
    /// The failed rules, one line each.
    pub closed spec fn failures(&self) -> Seq<Seq<char>> {
        self.lines@.map_values(|l: String| l@)
    }

    /// A report with no failed rule.
    pub fn new() -> (r: ValidationReport)
        ensures
            r.failures() == Seq::<Seq<char>>::empty(),
    {
        let r = ValidationReport { lines: Vec::new() };
        assert(r.failures() =~= Seq::<Seq<char>>::empty());
        r
    }

    /// Records that a rule of `field` failed, written as `rule`.
    pub fn fail(&mut self, field: &str, rule: &str)
        ensures
            final(self).failures() == old(self).failures().push(field_error(field@, rule@)),
    {
        let mut line = field.to_owned();
        line.append(": ");
        line.append(rule);
        self.lines.push(line);
        assert(self.failures() =~= old(self).failures().push(field_error(field@, rule@)));
    }

    /// Records that one more rule failed of the field whose line was recorded
    /// last.
    pub fn fail_again(&mut self, rule: &str)
        requires
            old(self).failures().len() > 0,
        ensures
            final(self).failures() == old(self).failures().drop_last().push(
                also_failed(old(self).failures().last(), rule@),
            ),
    {
        let ghost before = self.failures();
        let mut line = match self.lines.pop() {
            Some(l) => l,
            None => String::new(),
        };
        line.append(", ");
        line.append(rule);
        self.lines.push(line);
        assert(self.failures() =~= before.drop_last().push(also_failed(before.last(), rule@)));
    }

    /// Records the password rules that `password` breaks, under the name
    /// `field`.
    pub fn check_password(&mut self, field: &str, password: &str)
        ensures
            final(self).failures() == old(self).failures() + password_failures(field@, password@),
    {
        let ghost before = self.failures();
        let n = char_count(password);
        let bad_length = n < 8 || n > 128;
        let weak = !is_complex_password(password);
        if bad_length {
            let length = length_rule(Some(8), Some(128), None, password);
            self.fail(field, length.as_str());
            if weak {
                let complexity = value_rule("password_complexity", password);
                self.fail_again(complexity.as_str());
            }
        } else if weak {
            let complexity = value_rule("password_complexity", password);
            self.fail(field, complexity.as_str());
        }
        assert(self.failures() =~= before + password_failures(field@, password@));
    }

    /// `Ok` where no rule failed, else a validation error listing the failed
    /// rules one per line, in the order they were recorded.
    pub fn finish(&self) -> (r: Result<(), AppError>)
        ensures
            validation_outcome(self.failures(), r),
    {
        if self.lines.len() == 0 {
            return Ok(());
        }
        let mut text = self.lines[0].clone();
        let n = self.lines.len();
        let ghost all = self.failures();
        let mut i: usize = 1;
        while i < n
            invariant
                1 <= i <= n,
                n == self.lines@.len(),
                all == self.failures(),
                text@ == join_lines(all.take(i as int)),
            decreases n - i,
        {
            proof {
                assert(all.take(i as int + 1).drop_last() =~= all.take(i as int));
                assert(all[i as int] == self.lines@[i as int]@);
            }
            let mut nl = String::new();
            crate::json::push_char(&mut nl, '\n');
            text.append(nl.as_str());
            text.append(self.lines[i].as_str());
            i = i + 1;
        }
        proof {
            assert(all.take(1) =~= seq![all[0]]);
            assert(all.take(n as int) =~= all);
        }
        Err(AppError::Validation(text))
    }
}

/// Counts the characters of a text.
pub fn char_count(s: &str) -> (n: usize)
    ensures
        n == s@.len(),
{
    s.unicode_len()
}

} // verus!
