//! The answer to a message that only mentions the bot: which prefixes it
//! listens to and where help is found.

use crate::format::discord::{inline_code, inline_code_text, mention, mention_text};
use crate::text::{decimal, join_range, joined, push_decimal, str_eq, texts};
use vstd::prelude::*;

verus! {

/// Seconds after which the answer is taken away again.
pub const REPLY_LIFETIME_SECS: u64 = 30;

/// The other way in which a client writes a mention of `id`.
pub open spec fn nickname_mention_text(id: u64) -> Seq<char> {
    "<@!"@ + decimal(id as nat) + ">"@
}

/// The prefixes, each set as code.
pub open spec fn quoted(prefixes: Seq<Seq<char>>) -> Seq<Seq<char>> {
    Seq::new(prefixes.len(), |i: int| inline_code_text(prefixes[i]))
}

/// The prefixes as a list in a sentence, each set as code.
pub open spec fn prefix_list_spec(prefixes: Seq<Seq<char>>) -> Seq<char> {
    listed(quoted(prefixes))
}

/// Items as a list in a sentence: one alone, two with "e" between them, more
/// with commas and "e" before the last.
pub open spec fn listed(items: Seq<Seq<char>>) -> Seq<char> {
    if items.len() == 0 {
        Seq::empty()
    } else if items.len() == 1 {
        items[0]
    } else if items.len() == 2 {
        items[0] + " e "@ + items[1]
    } else {
        joined(items.subrange(0, items.len() - 1), ", "@) + ", e "@ + items.last()
    }
}

/// The sentence that names the prefixes.
pub open spec fn prefix_sentence_spec(prefixes: Seq<Seq<char>>) -> Seq<char> {
    sentence_of(quoted(prefixes))
}

/// The sentence that names the prefixes, which are taken as they stand.
pub open spec fn sentence_of(items: Seq<Seq<char>>) -> Seq<char> {
    if items.len() == 0 {
        "ainda não tenho prefixos configurados."@
    } else if items.len() == 1 {
        "meu prefixo atual é "@ + items[0] + "."@
    } else {
        "meus prefixos atuais são "@ + listed(items) + "."@
    }
}

/// The hint at the help command, by the first prefix if there is one.
pub open spec fn help_hint_spec(prefixes: Seq<Seq<char>>) -> Seq<char> {
    hint_of(
        if prefixes.len() > 0 {
            Some(inline_code_text(prefixes[0] + "help"@))
        } else {
            None
        },
        inline_code_text("/help"@),
    )
}

/// The hint at the help command: the command as it is written with a prefix,
/// if there is one, and as a slash command.
pub open spec fn hint_of(prefixed: Option<Seq<char>>, slash: Seq<char>) -> Seq<char> {
    match prefixed {
        Some(command) => "Use "@ + command + " ou "@ + slash + " para ver os comandos."@,
        None => "Use "@ + slash + " para ver os comandos."@,
    }
}

/// Whether a message, cut of the blanks around it, is nothing but a mention
/// of the bot.
pub fn is_bare_mention(trimmed: &str, bot_id: u64) -> (bare: bool)
    ensures
        bare == (trimmed@ == mention_text(bot_id) || trimmed@ == nickname_mention_text(bot_id)),
{
    let plain = mention(bot_id);
    let mut nickname = String::from_str("<@!");
    push_decimal(&mut nickname, bot_id);
    nickname.append(">");
    str_eq(trimmed, plain.as_str()) || str_eq(trimmed, nickname.as_str())
}

/// Sets each prefix as code.
fn quote_all(prefixes: &Vec<String>) -> (items: Vec<String>)
    ensures
        texts(items@) == quoted(texts(prefixes@)),
{
    let mut items: Vec<String> = Vec::new();
    let mut i: usize = 0;
    while i < prefixes.len()
        invariant
            i <= prefixes.len(),
            items@.len() == i,
            forall|j: int| 0 <= j < i ==> (#[trigger] items@[j])@ == inline_code_text(prefixes@[j]@),
        decreases prefixes.len() - i,
    {
        items.push(inline_code(prefixes[i].as_str()));
        i += 1;
    }
    assert(texts(items@) =~= quoted(texts(prefixes@)));
    items
}

/// Writes items as a list in a sentence.
pub fn join_list(items: &Vec<String>) -> (list: String)
    ensures
        list@ == listed(texts(items@)),
{
    if items.len() == 0 {
        String::new()
    } else if items.len() == 1 {
        items[0].clone()
    } else if items.len() == 2 {
        let mut list = items[0].clone();
        list.append(" e ");
        list.append(items[1].as_str());
        list
    } else {
        let mut list = join_range(items, 0, items.len() - 1, ", ");
        list.append(", e ");
        list.append(items[items.len() - 1].as_str());
        list
    }
}

/// Writes the prefixes as a list in a sentence.
pub fn format_prefix_list(prefixes: &Vec<String>) -> (list: String)
    ensures
        list@ == prefix_list_spec(texts(prefixes@)),
{
    join_list(&quote_all(prefixes))
}

/// Writes the sentence that names the prefixes, which are taken as they
/// stand.
pub fn write_sentence(items: &Vec<String>) -> (sentence: String)
    ensures
        sentence@ == sentence_of(texts(items@)),
{
    if items.len() == 0 {
        String::from_str("ainda não tenho prefixos configurados.")
    } else if items.len() == 1 {
        let mut sentence = String::from_str("meu prefixo atual é ");
        sentence.append(items[0].as_str());
        sentence.append(".");
        sentence
    } else {
        let mut sentence = String::from_str("meus prefixos atuais são ");
        sentence.append(join_list(items).as_str());
        sentence.append(".");
        sentence
    }
}

/// Writes the sentence that names the prefixes.
pub fn format_prefix_sentence(prefixes: &Vec<String>) -> (sentence: String)
    ensures
        sentence@ == prefix_sentence_spec(texts(prefixes@)),
{
    write_sentence(&quote_all(prefixes))
}

/// Writes the hint at the help command, given the command as it is written
/// with a prefix, if there is one, and as a slash command.
pub fn write_hint(prefixed: Option<&str>, slash: &str) -> (hint: String)
    ensures
        hint@ == hint_of(
            match prefixed {
                Some(command) => Some(command@),
                None => None,
            },
            slash@,
        ),
{
    let mut hint = String::from_str("Use ");
    match prefixed {
        Some(command) => {
            hint.append(command);
            hint.append(" ou ");
        },
        None => {},
    }
    hint.append(slash);
    hint.append(" para ver os comandos.");
    hint
}

/// Writes the hint at the help command.
pub fn format_help_hint(prefixes: &Vec<String>) -> (hint: String)
    ensures
        hint@ == help_hint_spec(texts(prefixes@)),
{
    let slash = inline_code("/help");
    if prefixes.len() > 0 {
        let mut command = prefixes[0].clone();
        command.append("help");
        let prefixed = inline_code(command.as_str());
        write_hint(Some(prefixed.as_str()), slash.as_str())
    } else {
        write_hint(None, slash.as_str())
    }
}

} // verus!
