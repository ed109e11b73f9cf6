//! The blacklist: who is barred from the commands, and how an entry is
//! written out.

use crate::clock::{describe_relative_from_str, relative_text, rfc3339_instant};
use crate::constants::{emoji_text, icon};
use crate::format::discord::{bold, bold_text, mention, mention_text};
use crate::format::{pretty, pretty_icon};
use crate::pagination::{build_pages, page_count_spec, page_lines};
use crate::text::{decimal, join_lines, joined, push_decimal, texts};
use vstd::prelude::*;

verus! {

/// Entries on one page of the listing.
pub const LIST_PAGE_SIZE: usize = 10;

/// Entries that the listing asks the store for.
pub const LIST_FETCH_LIMIT: i64 = 50;

/// Seconds without a click after which the listing stops turning pages.
pub const LIST_PAGINATION_TIMEOUT_SECS: u64 = 180;

/// One entry of the blacklist.
#[derive(Clone, Debug, PartialEq)]
pub struct BlacklistEntryModel {
    pub id: i32,
    pub discord_id: i64,
    pub moderator_id: i64,
    pub reason: Option<String>,
    pub created_at: String,
}

/// An entry as a mathematical value.
pub struct BlacklistEntryView {
    pub id: int,
    pub discord_id: i64,
    pub moderator_id: i64,
    pub reason: Option<Seq<char>>,
    pub created_at: Seq<char>,
}

impl View for BlacklistEntryModel {
    type V = BlacklistEntryView;

    open spec fn view(&self) -> BlacklistEntryView {
        BlacklistEntryView {
            id: self.id as int,
            discord_id: self.discord_id,
            moderator_id: self.moderator_id,
            reason: match self.reason {
                Some(text) => Some(text@),
                None => None,
            },
            created_at: self.created_at@,
        }
    }
}

/// Why someone is not put on the blacklist.
#[derive(Clone, Copy, PartialEq, Eq, Structural, Debug)]
pub enum AddError {
    /// Nobody bars oneself.
    IsSelf,
    /// The owners of the bot are never barred.
    IsOwner,
}

/// Whom a moderator can bar: anyone but oneself and the owners.
pub open spec fn add_check(author: u64, target: u64, target_is_owner: bool) -> Result<(), AddError> {
    if target == author {
        Err(AddError::IsSelf)
    } else if target_is_owner {
        Err(AddError::IsOwner)
    } else {
        Ok(())
    }
}

/// The reason of an entry as it is shown.
pub open spec fn reason_spec(entry: BlacklistEntryView) -> Seq<char> {
    match entry.reason {
        Some(text) => text,
        None => "Sem motivo informado"@,
    }
}

/// When an entry was made, as it is shown: relative to now, or the stored
/// text itself where it names no instant.
pub open spec fn registered_spec(created_at: Seq<char>) -> Seq<char> {
    match rfc3339_instant(created_at) {
        Some(instant) => relative_text(instant.secs as int),
        None => created_at,
    }
}

/// The four lines of an entry: who is barred, why, by whom and since when,
/// the last as it is handed in.
pub open spec fn entry_lines_with(entry: BlacklistEntryView, registered: Seq<char>) -> Seq<
    Seq<char>,
> {
    seq![
        pretty(emoji_text(icon::BELL), "Usuário: "@ + mention_text(entry.discord_id as u64)),
        pretty(emoji_text(icon::HASTAG), "Motivo: "@ + reason_spec(entry)),
        pretty(emoji_text(icon::PLUS), "Responsável: "@ + mention_text(entry.moderator_id as u64)),
        pretty(emoji_text(icon::TIMER), "Registrado "@ + registered),
    ]
}

/// The four lines of an entry: who is barred, why, by whom and since when.
pub open spec fn entry_lines_spec(entry: BlacklistEntryView) -> Seq<Seq<char>> {
    entry_lines_with(entry, registered_spec(entry.created_at))
}

/// An entry as it is shown.
pub open spec fn entry_description_spec(entry: BlacklistEntryView) -> Seq<char> {
    joined(entry_lines_spec(entry), "\n"@)
}

/// An entry of the listing: its place in bold, and the entry below it.
pub open spec fn listed_entry(place: int, entry: BlacklistEntryView) -> Seq<char> {
    bold_text(decimal((place + 1) as nat) + "º"@) + "\n"@ + entry_description_spec(entry)
}

/// The place of an entry in the listing as it is written before it is set in
/// bold: counted from one, with the sign of an ordinal.
pub open spec fn place_text(place: int) -> Seq<char> {
    decimal((place + 1) as nat) + "º"@
}

/// Decides whether `author` may bar `target`.
pub fn check_add(author: u64, target: u64, target_is_owner: bool) -> (checked: Result<(), AddError>)
    ensures
        checked == add_check(author, target, target_is_owner),
{
    if target == author {
        Err(AddError::IsSelf)
    } else if target_is_owner {
        Err(AddError::IsOwner)
    } else {
        Ok(())
    }
}

/// Decides whether a command of its author may run: bots are let through
/// unasked, and everyone else unless an entry bars them.
pub fn may_use_commands(author_is_bot: bool, entry: Option<&BlacklistEntryModel>) -> (allowed: bool)
    ensures
        allowed == (author_is_bot || entry is None),
{
    author_is_bot || entry.is_none()
}

/// The reason of an entry as it is shown.
pub fn reason_text(entry: &BlacklistEntryModel) -> (reason: &str)
    ensures
        reason@ == reason_spec(entry@),
{
    match &entry.reason {
        Some(text) => text.as_str(),
        None => "Sem motivo informado",
    }
}

/// The four lines of an entry, given how its date is to be shown.
pub fn build_entry_lines_with(entry: &BlacklistEntryModel, registered: &str) -> (lines: Vec<String>)
    ensures
        texts(lines@) == entry_lines_with(entry@, registered@),
{
    let mut user = String::from_str("Usuário: ");
    user.append(mention(entry.discord_id as u64).as_str());
    let mut reason = String::from_str("Motivo: ");
    reason.append(reason_text(entry));
    let mut moderator = String::from_str("Responsável: ");
    moderator.append(mention(entry.moderator_id as u64).as_str());
    let mut since = String::from_str("Registrado ");
    since.append(registered);
    let mut lines: Vec<String> = Vec::new();
    lines.push(pretty_icon(icon::BELL, user.as_str()));
    lines.push(pretty_icon(icon::HASTAG, reason.as_str()));
    lines.push(pretty_icon(icon::PLUS, moderator.as_str()));
    lines.push(pretty_icon(icon::TIMER, since.as_str()));
    assert(texts(lines@) =~= entry_lines_with(entry@, registered@));
    lines
}

/// The four lines of an entry.
pub fn build_entry_lines(entry: &BlacklistEntryModel) -> (lines: Vec<String>)
    ensures
        texts(lines@) == entry_lines_spec(entry@),
{
    match describe_relative_from_str(entry.created_at.as_str()) {
        Some(relative) => build_entry_lines_with(entry, relative.as_str()),
        None => build_entry_lines_with(entry, entry.created_at.as_str()),
    }
}

/// An entry as it is shown.
pub fn build_entry_description(entry: &BlacklistEntryModel) -> (description: String)
    ensures
        description@ == entry_description_spec(entry@),
{
    join_lines(&build_entry_lines(entry), "\n")
}

/// Writes the place of an entry in the listing, counted from one.
pub fn write_place(place: usize) -> (text: String)
    requires
        place < u64::MAX,
    ensures
        text@ == place_text(place as int),
{
    let mut text = String::new();
    push_decimal(&mut text, place as u64 + 1);
    text.append("º");
    assert(text@ =~= place_text(place as int));
    text
}

/// Writes an entry of the listing under its place, which is taken as it
/// stands.
pub fn list_entry(marked_place: &str, entry: &BlacklistEntryModel) -> (line: String)
    ensures
        line@ == marked_place@ + "\n"@ + entry_description_spec(entry@),
{
    let mut line = String::from_str(marked_place);
    line.append("\n");
    line.append(build_entry_description(entry).as_str());
    line
}

/// Lays the entries out on pages of [`LIST_PAGE_SIZE`], each entry under its
/// place in the listing, with an empty line between the entries of a page.
pub fn build_blacklist_pages(entries: &Vec<BlacklistEntryModel>) -> (pages: Vec<String>)
    requires
        entries@.len() < u64::MAX,
    ensures
        pages@.len() == page_count_spec(entries@.len(), LIST_PAGE_SIZE as nat),
        forall|page: int|
            0 <= page < pages@.len() ==> (#[trigger] pages@[page])@ == joined(
                page_lines(
                    Seq::new(entries@.len(), |i: int| listed_entry(i, entries@[i]@)),
                    LIST_PAGE_SIZE as nat,
                    page,
                ),
                "\n\n"@,
            ),
{
    let mut lines: Vec<String> = Vec::new();
    let mut i: usize = 0;
    while i < entries.len()
        invariant
            i <= entries.len(),
            entries@.len() < u64::MAX,
            lines@.len() == i,
            forall|j: int| 0 <= j < i ==> (#[trigger] lines@[j])@ == listed_entry(j, entries@[j]@),
        decreases entries.len() - i,
    {
        let place = write_place(i);
        let marked = bold(place.as_str());
        lines.push(list_entry(marked.as_str(), &entries[i]));
        i += 1;
    }
    proof {
        assert(texts(lines@) =~= Seq::new(
            entries@.len(),
            |i: int| listed_entry(i, entries@[i]@),
        ));
    }
    build_pages(&lines, LIST_PAGE_SIZE, "\n\n")
}

} // verus!
