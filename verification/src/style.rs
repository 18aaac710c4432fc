//! Colour and weight of what the shell prints, applied by the `colored`
//! crate.

use colored::Colorize;
use vstd::prelude::*;

verus! {

/// Whether a text holds the escape character.
pub open spec fn has_escape(s: Seq<char>) -> bool {
    s.contains('\u{1b}')
}

/// The sequence that ends every style.
pub open spec fn style_reset() -> Seq<char> {
    seq!['\u{1b}', '[', '0', 'm']
}

/// The sequence that starts the style `code`.
pub open spec fn style_start(code: Seq<char>) -> Seq<char> {
    seq!['\u{1b}', '['] + code + seq!['m']
}

/// A text in which the style is started again after every reset that
/// the text itself holds, so that the style lasts to its end.
pub open spec fn restyled(s: Seq<char>, start: Seq<char>) -> Seq<char>
    decreases s.len(),
{
    if s.len() == 0 {
        s
    } else if s.len() >= 4 && s.take(4) == style_reset() {
        style_reset() + start + restyled(s.skip(4), start)
    } else {
        seq![s[0]] + restyled(s.skip(1), start)
    }
}

/// A text in the style `code`: the start of the style, the text with
/// the style kept up through its own resets, and the reset.
pub open spec fn styled(code: Seq<char>, s: Seq<char>) -> Seq<char> {
    style_start(code) + restyled(s, style_start(code)) + style_reset()
}

/// What a text may look like after `colored` has applied the style
/// `code` to it: the text as it is, where colours are off, or the styled
/// text, where they are on.
pub open spec fn painted(code: Seq<char>, s: Seq<char>, out: Seq<char>) -> bool {
    out == s || out == styled(code, s)
}

/// A text without an escape character is not changed inside its style:
/// it stands as it is between the start of the style and the reset.
pub proof fn lemma_styled_plain(code: Seq<char>, s: Seq<char>)
    requires
        !has_escape(s),
    ensures
        restyled(s, style_start(code)) == s,
        styled(code, s) == style_start(code) + s + style_reset(),
    decreases s.len(),
{
    if s.len() > 0 {
        assert(s[0] != '\u{1b}');
        if s.len() >= 4 {
            assert(s.take(4)[0] == s[0]);
        }
        assert forall|i: int| 0 <= i < s.skip(1).len() implies s.skip(1)[i] != '\u{1b}' by {
            assert(s.skip(1)[i] == s[i + 1]);
        }
        lemma_styled_plain(code, s.skip(1));
        assert(seq![s[0]] + s.skip(1) =~= s);
    }
}

/// The code of bold blue.
pub open spec fn bold_blue() -> Seq<char> {
    seq!['1', ';', '3', '4']
}

/// The code of bold cyan.
pub open spec fn bold_cyan() -> Seq<char> {
    seq!['1', ';', '3', '6']
}

/// The code of red.
pub open spec fn red() -> Seq<char> {
    seq!['3', '1']
}

/// Renders `s` in blue and bold, through `Colorize::blue`,
/// `Colorize::bold` and the `Display` of `ColoredString`. Whether colours
/// are written depends on the environment and on the terminal, so the
/// result is one of the two that `painted` admits: the text unchanged,
/// or the text after the codes of the style, with those codes repeated
/// after each reset inside it, and before the reset.
#[verifier::external_body]
pub(crate) fn paint_bold_blue(s: &str) -> (r: String)
    ensures
        painted(bold_blue(), s@, r@),
{
    s.blue().bold().to_string()
}

/// Renders `s` in cyan and bold, through `Colorize::cyan`,
/// `Colorize::bold` and the `Display` of `ColoredString`. Whether colours
/// are written depends on the environment and on the terminal, so the
/// result is one of the two that `painted` admits: the text unchanged,
/// or the text after the codes of the style, with those codes repeated
/// after each reset inside it, and before the reset.
#[verifier::external_body]
pub(crate) fn paint_bold_cyan(s: &str) -> (r: String)
    ensures
        painted(bold_cyan(), s@, r@),
{
    s.cyan().bold().to_string()
}

/// Renders `s` in red, through `Colorize::red` and the `Display` of
/// `ColoredString`. Whether colours are written depends on the
/// environment and on the terminal, so the result is one of the two that
/// `painted` admits: the text unchanged, or the text after the code of
/// the style, with that code repeated after each reset inside it, and
/// before the reset.
#[verifier::external_body]
pub(crate) fn paint_red(s: &str) -> (r: String)
    ensures
        painted(red(), s@, r@),
{
    s.red().to_string()
}

/// Renders `s` without any style, through `Colorize::normal` and the
/// `Display` of `ColoredString`, which writes a plain string as it is.
#[verifier::external_body]
pub(crate) fn paint_normal(s: &str) -> (r: String)
    ensures
        r@ == s@,
{
    s.normal().to_string()
}

/// What a name may look like in a listing: a name shown with emphasis is
/// painted bold blue, any other stays as it is.
pub open spec fn set_off(name: Seq<char>, emphasis: bool, out: Seq<char>) -> bool {
    if emphasis {
        painted(bold_blue(), name, out)
    } else {
        out == name
    }
}

} // verus!
