//! Finding a command by what the user typed.

use crate::text::{
    chars_eq, has_prefix, lowercase, starts_with, to_chars, to_lowercase, trim, trimmed,
};
use vstd::prelude::*;

verus! {

/// The most names that are suggested while the user types.
pub const MAX_SUGGESTIONS: usize = 25;

/// What the help needs to know of a subcommand.
#[derive(Clone, Debug, PartialEq)]
pub struct SubcommandEntry {
    pub name: String,
    pub aliases: Vec<String>,
    pub hide_in_help: bool,
}

/// What the help needs to know of a command.
#[derive(Clone, Debug, PartialEq)]
pub struct CommandEntry {
    pub name: String,
    pub aliases: Vec<String>,
    pub hide_in_help: bool,
    pub subcommands: Vec<SubcommandEntry>,
}

/// What a search found.
#[derive(Clone, Copy, PartialEq, Eq, Structural, Debug)]
pub enum CommandMatch {
    /// The command at this place.
    Command { command: usize },
    /// A subcommand of the command at this place.
    Subcommand { command: usize, subcommand: usize },
}

/// Whether `needle` is the name or one of the aliases, capitals aside.
pub open spec fn answers_to(name: Seq<char>, aliases: Seq<String>, needle: Seq<char>) -> bool {
    lowercase(name) == needle || exists|i: int|
        0 <= i < aliases.len() && lowercase((#[trigger] aliases[i])@) == needle
}

/// The full name of a subcommand: that of its command, a blank, and its own.
pub open spec fn full_name(command: Seq<char>, subcommand: Seq<char>) -> Seq<char> {
    command + " "@ + subcommand
}

/// Whether the subcommand at place `at` of `command` is shown and answers to
/// `needle`, by its full name, its own name or an alias.
pub open spec fn subcommand_matches(command: CommandEntry, at: int, needle: Seq<char>) -> bool {
    let subcommand = command.subcommands@[at];
    !subcommand.hide_in_help && (lowercase(full_name(command.name@, subcommand.name@)) == needle
        || answers_to(subcommand.name@, subcommand.aliases@, needle))
}

/// What the search finds in one command that is shown: the command itself if
/// it answers to `needle`, else its first subcommand that does.
pub open spec fn match_in(command: CommandEntry, needle: Seq<char>) -> Option<Option<int>> {
    if answers_to(command.name@, command.aliases@, needle) {
        Some(None)
    } else if exists|at: int|
        0 <= at < command.subcommands@.len() && #[trigger] subcommand_matches(command, at, needle) {
        Some(
            Some(
                choose|at: int|
                    0 <= at < command.subcommands@.len() && #[trigger] subcommand_matches(
                        command,
                        at,
                        needle,
                    ) && forall|before: int|
                        0 <= before < at ==> !#[trigger] subcommand_matches(command, before, needle),
            ),
        )
    } else {
        None
    }
}

/// Whether the command at place `at` is shown and holds a match.
pub open spec fn holds_match(commands: Seq<CommandEntry>, at: int, needle: Seq<char>) -> bool {
    !commands[at].hide_in_help && match_in(commands[at], needle) is Some
}

/// The names that the help lists for the first `count` commands: the name of
/// each command that is shown and has no subcommands, and the full names of
/// the shown subcommands of the others.
pub open spec fn listed_names(commands: Seq<CommandEntry>, count: nat) -> Seq<Seq<char>>
    decreases count,
{
    if count == 0 {
        Seq::empty()
    } else {
        let command = commands[count - 1];
        let before = listed_names(commands, (count - 1) as nat);
        if command.hide_in_help {
            before
        } else if command.subcommands@.len() == 0 {
            before.push(command.name@)
        } else {
            before + subcommand_names(command, command.subcommands@.len())
        }
    }
}

/// The full names of the shown subcommands among the first `count` of
/// `command`.
pub open spec fn subcommand_names(command: CommandEntry, count: nat) -> Seq<Seq<char>>
    decreases count,
{
    if count == 0 {
        Seq::empty()
    } else {
        let subcommand = command.subcommands@[count - 1];
        let before = subcommand_names(command, (count - 1) as nat);
        if subcommand.hide_in_help {
            before
        } else {
            before.push(full_name(command.name@, subcommand.name@))
        }
    }
}

/// Whether `name` fits what was typed: it begins with it, capitals aside.
pub open spec fn fits(name: Seq<char>, typed: Seq<char>) -> bool {
    has_prefix(lowercase(name), lowercase(typed))
}

/// The first [`MAX_SUGGESTIONS`] different names among `names` that fit
/// what was typed, in their order.
pub open spec fn suggestions(names: Seq<Seq<char>>, typed: Seq<char>) -> Seq<Seq<char>>
    decreases names.len(),
{
    if names.len() == 0 {
        Seq::empty()
    } else {
        let before = suggestions(names.drop_last(), typed);
        if before.len() < MAX_SUGGESTIONS && fits(names.last(), typed) && !before.contains(
            names.last(),
        ) {
            before.push(names.last())
        } else {
            before
        }
    }
}

/// The search settles on the first subcommand that matches.
pub proof fn lemma_first_subcommand(command: CommandEntry, at: int, needle: Seq<char>)
    requires
        !answers_to(command.name@, command.aliases@, needle),
        0 <= at < command.subcommands@.len(),
        subcommand_matches(command, at, needle),
        forall|before: int| 0 <= before < at ==> !#[trigger] subcommand_matches(command, before, needle),
    ensures
        match_in(command, needle) == Some(Some(at)),
{
    let chosen = choose|chosen: int|
        0 <= chosen < command.subcommands@.len() && #[trigger] subcommand_matches(
            command,
            chosen,
            needle,
        ) && forall|before: int|
            0 <= before < chosen ==> !#[trigger] subcommand_matches(command, before, needle);
    if chosen < at {
        assert(!subcommand_matches(command, chosen, needle));
    } else if at < chosen {
        assert(subcommand_matches(command, at, needle));
    }
}

/// Whether `needle` is the name or one of the aliases, capitals aside.
fn is_called(name: &str, aliases: &Vec<String>, needle: &Vec<char>) -> (called: bool)
    ensures
        called == answers_to(name@, aliases@, needle@),
{
    if chars_eq(&to_lowercase(&to_chars(name)), needle) {
        return true;
    }
    let mut i: usize = 0;
    while i < aliases.len()
        invariant
            i <= aliases.len(),
            lowercase(name@) != needle@,
            forall|j: int| 0 <= j < i ==> lowercase((#[trigger] aliases@[j])@) != needle@,
        decreases aliases.len() - i,
    {
        if chars_eq(&to_lowercase(&to_chars(aliases[i].as_str())), needle) {
            assert(lowercase(aliases@[i as int]@) == needle@);
            return true;
        }
        i += 1;
    }
    false
}

/// Searches the commands that are shown for the one that `search_name`
/// names, by its name, an alias or the full name of a subcommand; blanks
/// around the name and capitals do not matter.
pub fn find_command(commands: &Vec<CommandEntry>, search_name: &str) -> (found: Option<CommandMatch>)
    ensures
        is_found(commands@, lowercase(trimmed(search_name@)), found),
{
    let rest = trim(search_name);
    let needle = to_lowercase(&to_chars(rest.as_str()));
    find_by_needle(commands, &needle)
}

/// Whether `found` is what the search for `needle` comes to: the first
/// command that is shown and holds a match, and in it the command itself or
/// else its first subcommand that matches; nothing where no command holds a
/// match.
pub open spec fn is_found(
    commands: Seq<CommandEntry>,
    needle: Seq<char>,
    found: Option<CommandMatch>,
) -> bool {
    match found {
        Some(CommandMatch::Command { command }) => {
            &&& command < commands.len()
            &&& holds_match(commands, command as int, needle)
            &&& match_in(commands[command as int], needle) == Some(None::<int>)
            &&& forall|before: int|
                0 <= before < command ==> !#[trigger] holds_match(commands, before, needle)
        },
        Some(CommandMatch::Subcommand { command, subcommand }) => {
            &&& command < commands.len()
            &&& holds_match(commands, command as int, needle)
            &&& match_in(commands[command as int], needle) == Some(Some(subcommand as int))
            &&& forall|before: int|
                0 <= before < command ==> !#[trigger] holds_match(commands, before, needle)
        },
        None => forall|at: int|
            0 <= at < commands.len() ==> !#[trigger] holds_match(commands, at, needle),
    }
}

/// Searches the commands that are shown for the one that answers to
/// `needle`, which is taken as it stands. The first command that holds a
/// match decides.
pub fn find_by_needle(commands: &Vec<CommandEntry>, needle: &Vec<char>) -> (found: Option<
    CommandMatch,
>)
    ensures
        is_found(commands@, needle@, found),
{
    let mut i: usize = 0;
    while i < commands.len()
        invariant
            i <= commands.len(),
            forall|before: int| 0 <= before < i ==> !#[trigger] holds_match(commands@, before, needle@),
        decreases commands.len() - i,
    {
        let command = &commands[i];
        if !command.hide_in_help {
            if is_called(command.name.as_str(), &command.aliases, needle) {
                return Some(CommandMatch::Command { command: i });
            }
            let mut j: usize = 0;
            while j < command.subcommands.len()
                invariant
                    j <= command.subcommands.len(),
                    i < commands.len(),
                    forall|before: int|
                        0 <= before < i ==> !#[trigger] holds_match(commands@, before, needle@),
                    *command == commands@[i as int],
                    !command.hide_in_help,
                    !answers_to(command.name@, command.aliases@, needle@),
                    forall|before: int|
                        0 <= before < j ==> !#[trigger] subcommand_matches(*command, before, needle@),
                decreases command.subcommands.len() - j,
            {
                let subcommand = &command.subcommands[j];
                if !subcommand.hide_in_help {
                    let mut full = command.name.clone();
                    full.append(" ");
                    full.append(subcommand.name.as_str());
                    let by_full_name = chars_eq(&to_lowercase(&to_chars(full.as_str())), needle);
                    if by_full_name || is_called(
                        subcommand.name.as_str(),
                        &subcommand.aliases,
                        needle,
                    ) {
                        proof {
                            assert(subcommand_matches(*command, j as int, needle@));
                            lemma_first_subcommand(*command, j as int, needle@);
                            assert(holds_match(commands@, i as int, needle@));
                        }
                        return Some(CommandMatch::Subcommand { command: i, subcommand: j });
                    }
                }
                j += 1;
            }
        }
        i += 1;
    }
    None
}

/// The names that the help lists: the name of each command that is shown
/// and has no subcommands, and the full names of the shown subcommands of
/// the others.
pub fn get_all_command_names(commands: &Vec<CommandEntry>) -> (names: Vec<String>)
    ensures
        crate::text::texts(names@) == listed_names(commands@, commands@.len()),
{
    let mut names: Vec<String> = Vec::new();
    let mut i: usize = 0;
    assert(crate::text::texts(names@) =~= listed_names(commands@, 0));
    while i < commands.len()
        invariant
            i <= commands.len(),
            crate::text::texts(names@) == listed_names(commands@, i as nat),
        decreases commands.len() - i,
    {
        let command = &commands[i];
        let ghost before = crate::text::texts(names@);
        if !command.hide_in_help {
            if command.subcommands.len() == 0 {
                names.push(command.name.clone());
                assert(crate::text::texts(names@) =~= before.push(command.name@));
            } else {
                let mut j: usize = 0;
                assert(crate::text::texts(names@) =~= before + subcommand_names(*command, 0));
                while j < command.subcommands.len()
                    invariant
                        j <= command.subcommands.len(),
                        crate::text::texts(names@) == before + subcommand_names(*command, j as nat),
                    decreases command.subcommands.len() - j,
                {
                    let subcommand = &command.subcommands[j];
                    let ghost so_far = crate::text::texts(names@);
                    if !subcommand.hide_in_help {
                        let mut full = command.name.clone();
                        full.append(" ");
                        full.append(subcommand.name.as_str());
                        names.push(full);
                        assert(crate::text::texts(names@) =~= so_far.push(
                            full_name(command.name@, subcommand.name@),
                        ));
                    }
                    assert(crate::text::texts(names@) =~= before + subcommand_names(
                        *command,
                        (j + 1) as nat,
                    ));
                    j += 1;
                }
            }
        }
        i += 1;
    }
    names
}

/// Whether `names` holds the text `name`.
fn holds(names: &Vec<String>, name: &str) -> (held: bool)
    ensures
        held == crate::text::texts(names@).contains(name@),
{
    let mut i: usize = 0;
    while i < names.len()
        invariant
            i <= names.len(),
            forall|j: int| 0 <= j < i ==> crate::text::texts(names@)[j] != name@,
        decreases names.len() - i,
    {
        if crate::text::str_eq(names[i].as_str(), name) {
            assert(crate::text::texts(names@)[i as int] == name@);
            return true;
        }
        i += 1;
    }
    false
}

/// The names that are suggested for what was typed so far: the first
/// [`MAX_SUGGESTIONS`] different names that begin with it, capitals aside.
pub fn suggest(names: &Vec<String>, partial: &str) -> (matches: Vec<String>)
    ensures
        crate::text::texts(matches@) == suggestions(crate::text::texts(names@), partial@),
        matches@.len() <= MAX_SUGGESTIONS,
{
    let typed = to_lowercase(&to_chars(partial));
    let mut matches: Vec<String> = Vec::new();
    let ghost all = crate::text::texts(names@);
    let mut i: usize = 0;
    assert(all.take(0) =~= Seq::<Seq<char>>::empty());
    assert(crate::text::texts(matches@) =~= Seq::<Seq<char>>::empty());
    while i < names.len()
        invariant
            i <= names.len(),
            all == crate::text::texts(names@),
            typed@ == lowercase(partial@),
            matches@.len() <= MAX_SUGGESTIONS,
            crate::text::texts(matches@) == suggestions(all.take(i as int), partial@),
        decreases names.len() - i,
    {
        proof {
            assert(all.take(i + 1).drop_last() =~= all.take(i as int));
            assert(all.take(i + 1).last() == names@[i as int]@);
        }
        let ghost before = crate::text::texts(matches@);
        if matches.len() < MAX_SUGGESTIONS {
            let name = to_lowercase(&to_chars(names[i].as_str()));
            if starts_with(&name, &typed) && !holds(&matches, names[i].as_str()) {
                matches.push(names[i].clone());
                assert(crate::text::texts(matches@) =~= before.push(names@[i as int]@));
            }
        }
        i += 1;
    }
    assert(all.take(i as int) =~= all);
    matches
}

} // verus!
