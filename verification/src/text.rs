//! Text handling: decoding received bytes, trimming typed lines, building the
//! lines that the room relays, and the terminal styling of room notices.

use vstd::prelude::*;
use owo_colors::OwoColorize;

verus! {

/// What `String::from_utf8_lossy` makes of `bytes`: the decoded text, with
/// each invalid sequence replaced by U+FFFD.
pub uninterp spec fn lossy_utf8(bytes: Seq<u8>) -> Seq<char>;

/// Decodes received bytes as `String::from_utf8_lossy` does. Trusted: the
/// result is that function's result on `bytes`, and for bytes that are valid
/// UTF-8 it is exactly the text they encode; how invalid sequences are
/// replaced is left to the name `lossy_utf8`.
#[verifier::external_body]
pub(crate) fn lossy_text(bytes: &[u8]) -> (text: String)
    ensures
        text@ == lossy_utf8(bytes@),
        vstd::utf8::valid_utf8(bytes@) ==> text@ == vstd::utf8::decode_utf8(bytes@),
{
    String::from_utf8_lossy(bytes).to_string()
}

/// Whether `c` has the Unicode `White_Space` property, the property that
/// `char::is_whitespace` and `str::trim` go by.
pub open spec fn is_white_space(c: char) -> bool {
    let u = c as u32;
    ||| 0x09 <= u <= 0x0d
    ||| u == 0x20
    ||| u == 0x85
    ||| u == 0xa0
    ||| u == 0x1680
    ||| 0x2000 <= u <= 0x200a
    ||| u == 0x2028
    ||| u == 0x2029
    ||| u == 0x202f
    ||| u == 0x205f
    ||| u == 0x3000
}

/// `s` without its leading white space.
pub open spec fn trim_start(s: Seq<char>) -> Seq<char>
    decreases s.len(),
{
    if s.len() > 0 && is_white_space(s[0]) {
        trim_start(s.drop_first())
    } else {
        s
    }
}

/// `s` without its trailing white space.
pub open spec fn trim_end(s: Seq<char>) -> Seq<char>
    decreases s.len(),
{
    if s.len() > 0 && is_white_space(s.last()) {
        trim_end(s.drop_last())
    } else {
        s
    }
}

/// `s` without its leading and trailing white space.
pub open spec fn trimmed(s: Seq<char>) -> Seq<char> {
    trim_end(trim_start(s))
}

/// Trims a line as `str::trim` does. Trusted: `str::trim` removes the leading
/// and trailing characters that have the `White_Space` property, which is what
/// `trimmed` states.
#[verifier::external_body]
pub(crate) fn trim_text(s: &str) -> (t: String)
    ensures
        t@ == trimmed(s@),
{
    s.trim().to_string()
}

/// The reply to a prompt, out of the line that was typed: the line trimmed.
pub fn prompt_answer(line: &str) -> (answer: String)
    ensures
        answer@ == trimmed(line@),
{
    trim_text(line)
}

/// `text` styled bright green and bold, as owo-colors writes it.
pub open spec fn bold_bright_green(text: Seq<char>) -> Seq<char> {
    "\x1b[1m"@ + "\x1b[92m"@ + text + "\x1b[39m"@ + "\x1b[0m"@
}

/// `text` styled bright red and bold, as owo-colors writes it.
pub open spec fn bold_bright_red(text: Seq<char>) -> Seq<char> {
    "\x1b[1m"@ + "\x1b[91m"@ + text + "\x1b[39m"@ + "\x1b[0m"@
}

/// `text.bright_green().bold().to_string()` with owo-colors. Trusted: its
/// `Display` writes the bold code, the bright green code, the text, the
/// foreground reset and the style reset, in that order.
#[verifier::external_body]
pub(crate) fn bright_green_bold(text: &str) -> (styled: String)
    ensures
        styled@ == bold_bright_green(text@),
{
    text.bright_green().bold().to_string()
}

/// `text.bright_red().bold().to_string()` with owo-colors. Trusted: its
/// `Display` writes the bold code, the bright red code, the text, the
/// foreground reset and the style reset, in that order.
#[verifier::external_body]
pub(crate) fn bright_red_bold(text: &str) -> (styled: String)
    ensures
        styled@ == bold_bright_red(text@),
{
    text.bright_red().bold().to_string()
}

/// The line that the room relays for `message` from `from`: `"{from}: {message}"`.
pub open spec fn spec_chat_line(from: Seq<char>, message: Seq<char>) -> Seq<char> {
    from + ": "@ + message
}

/// Builds the relayed line `"{from}: {message}"`.
pub fn chat_line(from: &str, message: &str) -> (line: String)
    ensures
        line@ == spec_chat_line(from@, message@),
{
    let mut line: String = String::from_str(from);
    line.append(": ");
    line.append(message);
    line
}

} // verus!
