//! Turning the pages of a long answer.

use crate::text::{decimal, join_range, joined, push_decimal, str_eq, texts};
use vstd::prelude::*;

verus! {

/// The ids of the five buttons that turn the pages.
#[derive(Clone, Debug, PartialEq)]
pub struct PaginationButtons {
    pub first: String,
    pub prev: String,
    pub home: String,
    pub next: String,
    pub last: String,
}

/// Where a button leads.
#[derive(Clone, Copy, PartialEq, Eq, Structural, Debug)]
pub enum PageTarget {
    First,
    Prev,
    Home,
    Next,
    Last,
}

/// Which buttons cannot be clicked.
#[derive(Clone, Copy, PartialEq, Eq, Structural, Debug)]
pub struct NavigationState {
    /// The two buttons that lead back.
    pub disable_back: bool,
    /// The button that leads to the first page.
    pub disable_home: bool,
    /// The two buttons that lead on.
    pub disable_forward: bool,
}

/// The id of a button: the id of the command's invocation and the button's
/// name.
pub open spec fn button_id(ctx_id: u64, name: Seq<char>) -> Seq<char> {
    decimal(ctx_id as nat) + name
}

/// The page that a button leads to from `current_page`.
pub open spec fn next_index_spec(target: PageTarget, current_page: nat, total_pages: nat) -> nat {
    let last = (total_pages - 1) as nat;
    match target {
        PageTarget::First | PageTarget::Home => 0,
        PageTarget::Prev => if current_page == 0 {
            0
        } else {
            (current_page - 1) as nat
        },
        PageTarget::Next => if current_page + 1 < last {
            current_page + 1
        } else {
            last
        },
        PageTarget::Last => last,
    }
}

/// How many pages `entries` lines fill.
pub open spec fn page_count_spec(entries: nat, page_size: nat) -> nat {
    if entries == 0 {
        0
    } else {
        ((entries - 1) / page_size as int + 1) as nat
    }
}

/// The lines of page `page`.
pub open spec fn page_lines(lines: Seq<Seq<char>>, page_size: nat, page: int) -> Seq<Seq<char>> {
    lines.subrange(
        page * page_size,
        if (page + 1) * page_size < lines.len() {
            (page + 1) * page_size
        } else {
            lines.len() as int
        },
    )
}

/// The page on which a listing opens when page `requested` was asked for,
/// counted from one: the first if none was asked for, and the last if the
/// listing is shorter.
pub open spec fn initial_page_spec(requested: Option<u32>, total_pages: nat) -> nat {
    let wanted: nat = match requested {
        Some(page) => if page >= 1 {
            (page - 1) as nat
        } else {
            0
        },
        None => 0,
    };
    if wanted < total_pages - 1 {
        wanted
    } else {
        (total_pages - 1) as nat
    }
}

impl PaginationButtons {
    /// The ids of the buttons for one invocation of a command.
    pub fn new(ctx_id: u64) -> (buttons: PaginationButtons)
        ensures
            buttons.first@ == button_id(ctx_id, "_pg_first"@),
            buttons.prev@ == button_id(ctx_id, "_pg_prev"@),
            buttons.home@ == button_id(ctx_id, "_pg_home"@),
            buttons.next@ == button_id(ctx_id, "_pg_next"@),
            buttons.last@ == button_id(ctx_id, "_pg_last"@),
    {
        let mut stem = String::new();
        push_decimal(&mut stem, ctx_id);
        assert(stem@ =~= decimal(ctx_id as nat));
        let mut first = stem.clone();
        first.append("_pg_first");
        let mut prev = stem.clone();
        prev.append("_pg_prev");
        let mut home = stem.clone();
        home.append("_pg_home");
        let mut next = stem.clone();
        next.append("_pg_next");
        let mut last = stem;
        last.append("_pg_last");
        PaginationButtons { first, prev, home, next, last }
    }

    /// Where the button `custom_id` leads, if it is one of the five. Should
    /// two buttons share an id, the one named first counts.
    pub fn target(&self, custom_id: &str) -> (target: Option<PageTarget>)
        ensures
            target == if custom_id@ == self.first@ {
                Some(PageTarget::First)
            } else if custom_id@ == self.prev@ {
                Some(PageTarget::Prev)
            } else if custom_id@ == self.home@ {
                Some(PageTarget::Home)
            } else if custom_id@ == self.next@ {
                Some(PageTarget::Next)
            } else if custom_id@ == self.last@ {
                Some(PageTarget::Last)
            } else {
                None
            },
    {
        if str_eq(custom_id, self.first.as_str()) {
            Some(PageTarget::First)
        } else if str_eq(custom_id, self.prev.as_str()) {
            Some(PageTarget::Prev)
        } else if str_eq(custom_id, self.home.as_str()) {
            Some(PageTarget::Home)
        } else if str_eq(custom_id, self.next.as_str()) {
            Some(PageTarget::Next)
        } else if str_eq(custom_id, self.last.as_str()) {
            Some(PageTarget::Last)
        } else {
            None
        }
    }
}

/// The page that a button leads to. From one of the pages it always leads to
/// one of the pages.
pub fn next_index(target: PageTarget, current_page: usize, total_pages: usize) -> (page: usize)
    requires
        total_pages > 0,
    ensures
        page == next_index_spec(target, current_page as nat, total_pages as nat),
        current_page < total_pages ==> page < total_pages,
{
    let last_index: usize = total_pages - 1;
    match target {
        PageTarget::First => 0,
        PageTarget::Home => 0,
        PageTarget::Prev => if current_page == 0 {
            0
        } else {
            current_page - 1
        },
        PageTarget::Next => if current_page < last_index {
            current_page + 1
        } else {
            last_index
        },
        PageTarget::Last => last_index,
    }
}

/// Which buttons cannot be clicked on page `current_page`.
pub fn navigation_state(current_page: usize, total_pages: usize) -> (state: NavigationState)
    ensures
        state.disable_back == (total_pages <= 1 || current_page == 0),
        state.disable_home == (current_page == 0),
        state.disable_forward == (total_pages <= 1 || current_page + 1 >= total_pages),
{
    NavigationState {
        disable_back: total_pages <= 1 || current_page == 0,
        disable_home: current_page == 0,
        disable_forward: total_pages <= 1 || current_page >= total_pages - 1,
    }
}

/// The page on which a listing opens.
pub fn initial_page(requested: Option<u32>, total_pages: usize) -> (page: usize)
    requires
        total_pages > 0,
    ensures
        page == initial_page_spec(requested, total_pages as nat),
        page < total_pages,
{
    let wanted: usize = match requested {
        Some(page) => if page >= 1 {
            (page - 1) as usize
        } else {
            0
        },
        None => 0,
    };
    if wanted < total_pages - 1 {
        wanted
    } else {
        total_pages - 1
    }
}

/// How many pages `entries` lines fill.
pub fn page_count(entries: usize, page_size: usize) -> (pages: usize)
    requires
        page_size > 0,
    ensures
        pages == page_count_spec(entries as nat, page_size as nat),
{
    if entries == 0 {
        0
    } else {
        (entries - 1) / page_size + 1
    }
}

/// Lays `lines` out on pages of `page_size` lines each, with `separator`
/// between the lines of a page.
pub fn build_pages(lines: &Vec<String>, page_size: usize, separator: &str) -> (pages: Vec<String>)
    requires
        page_size > 0,
    ensures
        pages@.len() == page_count_spec(lines@.len(), page_size as nat),
        forall|page: int|
            0 <= page < pages@.len() ==> (#[trigger] pages@[page])@ == joined(
                page_lines(texts(lines@), page_size as nat, page),
                separator@,
            ),
{
    let total: usize = page_count(lines.len(), page_size);
    let mut pages: Vec<String> = Vec::new();
    let mut page: usize = 0;
    while page < total
        invariant
            page <= total,
            page_size > 0,
            total == page_count_spec(lines@.len(), page_size as nat),
            pages@.len() == page,
            forall|done: int|
                0 <= done < page ==> (#[trigger] pages@[done])@ == joined(
                    page_lines(texts(lines@), page_size as nat, done),
                    separator@,
                ),
        decreases total - page,
    {
        assert(page * page_size <= lines.len() - 1) by (nonlinear_arith)
            requires
                page < total,
                lines.len() > 0,
                page_size > 0,
                total == (lines.len() - 1) / (page_size as int) + 1,
        ;
        let from: usize = page * page_size;
        let to: usize = if lines.len() - from > page_size {
            from + page_size
        } else {
            lines.len()
        };
        assert((page + 1) * page_size == from + page_size) by (nonlinear_arith)
            requires
                from == page * page_size,
        ;
        pages.push(join_range(lines, from, to, separator));
        page += 1;
    }
    pages
}

} // verus!
