//! The page controls of a listing: which page a button or a typed number
//! asks for.

use vstd::prelude::*;
use vstd::string::*;
use crate::text::{decimal, parse_spec, parse_usize, usize_to_string};
use crate::types::Pagination;

verus! {

/// The number that was typed into a page field; what is no number counts as
/// zero.
pub open spec fn typed_number(text: Seq<char>) -> usize {
    match parse_spec(text) {
        Some(n) => n,
        None => 0,
    }
}

/// The page that a typed text asks for: the number typed, but no more than
/// the last page. A text that is no number, and zero, ask for no page.
pub open spec fn typed_page_spec(text: Seq<char>, total_pages: usize) -> Option<usize> {
    let n = typed_number(text);
    if n == 0 {
        None
    } else if n <= total_pages {
        Some(n)
    } else {
        Some(total_pages)
    }
}

/// The page after the one that is shown, where there is one.
pub open spec fn next_page_spec(pagination: Pagination) -> Option<usize> {
    if pagination.page < pagination.total_pages {
        Some((pagination.page + 1) as usize)
    } else {
        None
    }
}

/// The page before the one that is shown, where there is one.
pub open spec fn previous_page_spec(pagination: Pagination) -> Option<usize> {
    if pagination.page > 1 {
        Some((pagination.page - 1) as usize)
    } else {
        None
    }
}

/// The page that a typed text asks for.
pub fn typed_page(text: &str, total_pages: usize) -> (r: Option<usize>)
    ensures
        r == typed_page_spec(text@, total_pages),
{
    let n = match parse_usize(text) {
        Some(n) => n,
        None => 0,
    };
    if n == 0 {
        None
    } else if n <= total_pages {
        Some(n)
    } else {
        Some(total_pages)
    }
}

/// The text that a page field shows after the user changed it: the page
/// that the text asks for, or nothing where it asks for none.
pub fn typed_page_text(text: &str, total_pages: usize) -> (r: String)
    ensures
        r@ == match typed_page_spec(text@, total_pages) {
            Some(page) => decimal(page as nat),
            None => Seq::<char>::empty(),
        },
{
    match typed_page(text, total_pages) {
        Some(page) => usize_to_string(page),
        None => String::new(),
    }
}

/// The page that the button for the next page asks for; the button is
/// enabled where there is one.
pub fn next_page(pagination: &Pagination) -> (r: Option<usize>)
    ensures
        r == next_page_spec(*pagination),
{
    if pagination.page < pagination.total_pages {
        Some(pagination.page + 1)
    } else {
        None
    }
}

/// The page that the button for the previous page asks for; the button is
/// enabled where there is one.
pub fn previous_page(pagination: &Pagination) -> (r: Option<usize>)
    ensures
        r == previous_page_spec(*pagination),
{
    if pagination.page > 1 {
        Some(pagination.page - 1)
    } else {
        None
    }
}

/// Whether a listing has page controls: one that is a single page has none.
pub fn has_page_controls(pagination: &Pagination) -> (r: bool)
    ensures
        r == (pagination.total_pages != 1),
{
    pagination.total_pages != 1
}

/// A page that a control asks for lies among the pages of the listing, or
/// is the page zero of a listing without pages.
pub proof fn lemma_asked_page_in_range(pagination: Pagination, text: Seq<char>)
    ensures
        next_page_spec(pagination).is_some() ==> 1 <= next_page_spec(pagination).unwrap()
            <= pagination.total_pages,
        previous_page_spec(pagination).is_some() ==> 1 <= previous_page_spec(
            pagination,
        ).unwrap() < pagination.page,
        typed_page_spec(text, pagination.total_pages).is_some() ==> typed_page_spec(
            text,
            pagination.total_pages,
        ).unwrap() <= pagination.total_pages,
        typed_page_spec(text, pagination.total_pages).is_some() && pagination.total_pages > 0
            ==> typed_page_spec(text, pagination.total_pages).unwrap() >= 1,
{
}

/// What the page control of a listing asks for in one tick: the pages to
/// fetch, in the order in which they were asked for, and the text that the
/// page field holds afterwards.
#[derive(Debug)]
pub struct PageEdit {
    pub pages: Vec<usize>,
    pub text: String,
}

/// The text of a page field after the user changed it, or as it was.
pub open spec fn edited_text(text: Seq<char>, changed: bool, total_pages: usize) -> Seq<char> {
    if changed {
        match typed_page_spec(text, total_pages) {
            Some(page) => decimal(page as nat),
            None => Seq::<char>::empty(),
        }
    } else {
        text
    }
}

/// One page, where there is one.
pub open spec fn one_page(page: Option<usize>) -> Seq<usize> {
    match page {
        Some(p) => seq![p],
        None => Seq::<usize>::empty(),
    }
}

/// The pages that a page control asks for in one tick: the next page if its
/// button was clicked, then the page typed if the field lost the focus, then
/// the previous page if its button was clicked.
pub open spec fn asked_pages(
    pagination: Pagination,
    text: Seq<char>,
    next: bool,
    changed: bool,
    lost_focus: bool,
    back: bool,
) -> Seq<usize> {
    let typed = typed_page_spec(
        edited_text(text, changed, pagination.total_pages),
        pagination.total_pages,
    );
    one_page(
        if next {
            next_page_spec(pagination)
        } else {
            None
        },
    ) + one_page(
        if lost_focus {
            typed
        } else {
            None
        },
    ) + one_page(
        if back {
            previous_page_spec(pagination)
        } else {
            None
        },
    )
}

/// The text of a page field after one tick of its control: the last page
/// that was asked for, or, where none was, the text as the user left it.
pub open spec fn shown_text(
    pagination: Pagination,
    text: Seq<char>,
    next: bool,
    changed: bool,
    lost_focus: bool,
    back: bool,
) -> Seq<char> {
    let pages = asked_pages(pagination, text, next, changed, lost_focus, back);
    if pages.len() > 0 {
        decimal(pages.last() as nat)
    } else {
        edited_text(text, changed, pagination.total_pages)
    }
}

/// One tick of the page control of a listing: what the buttons and the
/// page field ask for, from what happened to them.
pub fn page_control(
    pagination: &Pagination,
    text: &str,
    next: bool,
    changed: bool,
    lost_focus: bool,
    back: bool,
) -> (r: PageEdit)
    ensures
        r.pages@ == asked_pages(*pagination, text@, next, changed, lost_focus, back),
        r.text@ == shown_text(*pagination, text@, next, changed, lost_focus, back),
{
    let mut pages: Vec<usize> = Vec::new();
    let mut shown = if changed {
        typed_page_text(text, pagination.total_pages)
    } else {
        String::from_str(text)
    };
    if next {
        match next_page(pagination) {
            Some(page) => {
                pages.push(page);
            },
            None => {},
        }
    }
    if lost_focus {
        match typed_page(shown.as_str(), pagination.total_pages) {
            Some(page) => {
                pages.push(page);
            },
            None => {},
        }
    }
    if back {
        match previous_page(pagination) {
            Some(page) => {
                pages.push(page);
            },
            None => {},
        }
    }
    assert(pages@ =~= asked_pages(*pagination, text@, next, changed, lost_focus, back));
    if pages.len() > 0 {
        shown = usize_to_string(pages[pages.len() - 1]);
    }
    PageEdit { pages, text: shown }
}

} // verus!
