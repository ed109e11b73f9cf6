//! Helper functions to format Discord messages with Markdown safely.

use crate::text::{decimal, push_decimal};
use serenity::utils::MessageBuilder;
use vstd::prelude::*;

verus! {

/// What `MessageBuilder::push_bold_safe` of serenity makes of a text.
pub uninterp spec fn bold_text(text: Seq<char>) -> Seq<char>;

/// What `MessageBuilder::push_italic_safe` of serenity makes of a text.
pub uninterp spec fn italic_text(text: Seq<char>) -> Seq<char>;

/// What `MessageBuilder::push_underline_safe` of serenity makes of a text.
pub uninterp spec fn underline_text(text: Seq<char>) -> Seq<char>;

/// What `MessageBuilder::push_strike_safe` of serenity makes of a text.
pub uninterp spec fn strikethrough_text(text: Seq<char>) -> Seq<char>;

/// What `MessageBuilder::push_spoiler_safe` of serenity makes of a text.
pub uninterp spec fn spoiler_text(text: Seq<char>) -> Seq<char>;

/// What `MessageBuilder::push_mono_safe` of serenity makes of a text.
pub uninterp spec fn inline_code_text(text: Seq<char>) -> Seq<char>;

/// What `MessageBuilder::push_codeblock_safe` of serenity makes of a text and
/// a language hint.
pub uninterp spec fn code_block_text(text: Seq<char>, language: Option<Seq<char>>) -> Seq<char>;

/// What `MessageBuilder::push_quote_safe` of serenity makes of a text.
pub uninterp spec fn quote_text(text: Seq<char>) -> Seq<char>;

/// What `MessageBuilder::push_safe` of serenity makes of a text.
pub uninterp spec fn escaped_text(text: Seq<char>) -> Seq<char>;

/// How a user is mentioned: the id between `<@` and `>`.
pub open spec fn mention_text(id: u64) -> Seq<char> {
    "<@"@ + decimal(id as nat) + ">"@
}

/// The language hint as a mathematical value.
pub open spec fn hint_of(language: Option<&str>) -> Option<Seq<char>> {
    match language {
        Some(name) => Some(name@),
        None => None,
    }
}

/// Formats a raw Discord user mention (`<@id>`).
pub fn mention(id: u64) -> (text: String)
    ensures
        text@ == mention_text(id),
{
    let mut text = String::from_str("<@");
    push_decimal(&mut text, id);
    text.append(">");
    text
}

/// Wraps text with Discord's inline bold formatting (`**text**`).
///
/// `MessageBuilder::push_bold_safe` of serenity on an empty builder: the text
/// is cleaned of invite links, direction marks and mass mentions, every `**`
/// in it becomes a blank, and the whole is set between two `**`. The result
/// depends on the text alone.
#[verifier::external_body]
pub fn bold(text: &str) -> (marked: String)
    ensures
        marked@ == bold_text(text@),
{
    MessageBuilder::new().push_bold_safe(text).build()
}

/// Wraps text with italics (`_text_`).
///
/// `MessageBuilder::push_italic_safe` of serenity on an empty builder: the
/// cleaned text, with every `_` replaced by a blank, between two `_`. The
/// result depends on the text alone.
#[verifier::external_body]
pub fn italic(text: &str) -> (marked: String)
    ensures
        marked@ == italic_text(text@),
{
    MessageBuilder::new().push_italic_safe(text).build()
}

/// Wraps text with underline markers (`__text__`).
///
/// `MessageBuilder::push_underline_safe` of serenity on an empty builder: the
/// cleaned text, with every `__` replaced by a blank, between two `__`. The
/// result depends on the text alone.
#[verifier::external_body]
pub fn underline(text: &str) -> (marked: String)
    ensures
        marked@ == underline_text(text@),
{
    MessageBuilder::new().push_underline_safe(text).build()
}

/// Wraps text with strikethrough markers (`~~text~~`).
///
/// `MessageBuilder::push_strike_safe` of serenity on an empty builder: the
/// cleaned text, with every `~~` replaced by a blank, between two `~~`. The
/// result depends on the text alone.
#[verifier::external_body]
pub fn strikethrough(text: &str) -> (marked: String)
    ensures
        marked@ == strikethrough_text(text@),
{
    MessageBuilder::new().push_strike_safe(text).build()
}

/// Wraps text with spoiler markers (`||text||`).
///
/// `MessageBuilder::push_spoiler_safe` of serenity on an empty builder: the
/// cleaned text, with every `||` replaced by a blank, between two `||`. The
/// result depends on the text alone.
#[verifier::external_body]
pub fn spoiler(text: &str) -> (marked: String)
    ensures
        marked@ == spoiler_text(text@),
{
    MessageBuilder::new().push_spoiler_safe(text).build()
}

/// Wraps text with inline code markers (`` `text` ``).
///
/// `MessageBuilder::push_mono_safe` of serenity on an empty builder: the
/// cleaned text, with every backtick replaced by an apostrophe, between two
/// backticks. The result depends on the text alone.
#[verifier::external_body]
pub fn inline_code(text: &str) -> (marked: String)
    ensures
        marked@ == inline_code_text(text@),
{
    MessageBuilder::new().push_mono_safe(text).build()
}

/// Formats text as a code block, optionally adding a language hint.
///
/// `MessageBuilder::push_codeblock_safe` of serenity on an empty builder:
/// three backticks and the hint, a line break, the cleaned text with every
/// run of three backticks replaced by a blank, a line break and three
/// backticks. The result depends on the text and the hint alone.
#[verifier::external_body]
pub fn code_block(text: &str, language: Option<&str>) -> (marked: String)
    ensures
        marked@ == code_block_text(text@, hint_of(language)),
{
    MessageBuilder::new().push_codeblock_safe(text, language).build()
}

/// Prefixes the text with `>` so it renders as a quote.
///
/// `MessageBuilder::push_quote_safe` of serenity on an empty builder: `> `,
/// then the cleaned text with every `> ` in it replaced by a blank. The
/// result depends on the text alone.
#[verifier::external_body]
pub fn quote(text: &str) -> (marked: String)
    ensures
        marked@ == quote_text(text@),
{
    MessageBuilder::new().push_quote_safe(text).build()
}

/// Returns a normalized version of the input without adding formatting.
///
/// `MessageBuilder::push_safe` of serenity on an empty builder: the cleaned
/// text with a backslash before every `*`, backtick and `_`. The result
/// depends on the text alone.
#[verifier::external_body]
pub fn escape(text: &str) -> (marked: String)
    ensures
        marked@ == escaped_text(text@),
{
    MessageBuilder::new().push_safe(text).build()
}

} // verus!
