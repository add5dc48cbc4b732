use vstd::prelude::*;
use vstd::string::StringExecFns;

use crate::text::contains_run;

verus! {

/// The two renderings of one view.
#[derive(Clone, Copy, Debug, PartialEq, Eq, Structural)]
pub enum RenderMode {
    /// Only the view's markup, for an in-page partial update.
    Fragment,
    /// The view's markup inside the outer page.
    FullPage,
}

/// A request that carries the partial-render signal gets a fragment; any
/// other gets a full page.
pub fn render_mode(partial_signal: bool) -> (r: RenderMode)
    ensures
        r == (if partial_signal {
            RenderMode::Fragment
        } else {
            RenderMode::FullPage
        }),
{
    if partial_signal {
        RenderMode::Fragment
    } else {
        RenderMode::FullPage
    }
}

/// The outer page, split where a view's markup goes.
#[derive(Clone, Debug)]
pub struct PageChrome {
    pub head: String,
    pub tail: String,
}

pub open spec fn shaped(mode: RenderMode, fragment: Seq<char>, head: Seq<char>, tail: Seq<char>) -> Seq<char> {
    match mode {
        RenderMode::Fragment => fragment,
        RenderMode::FullPage => head + fragment + tail,
    }
}

/// The document sent for a view's markup in the chosen mode.
pub fn shape(mode: RenderMode, fragment: String, chrome: &PageChrome) -> (r: String)
    ensures
        r@ == shaped(mode, fragment@, chrome.head@, chrome.tail@),
{
    match mode {
        RenderMode::Fragment => fragment,
        RenderMode::FullPage => {
            let mut page = chrome.head.clone();
            page.append(fragment.as_str());
            page.append(chrome.tail.as_str());
            page
        },
    }
}

/// The same markup rendered as a full page holds the fragment rendering as one
/// contiguous run, right after the page head.
pub proof fn lemma_fragment_within_full_page(fragment: Seq<char>, head: Seq<char>, tail: Seq<char>)
    ensures
        shaped(RenderMode::Fragment, fragment, head, tail) == fragment,
        shaped(RenderMode::FullPage, fragment, head, tail).subrange(
            head.len() as int,
            (head.len() + fragment.len()) as int,
        ) == fragment,
        contains_run(
            shaped(RenderMode::FullPage, fragment, head, tail),
            shaped(RenderMode::Fragment, fragment, head, tail),
        ),
{
    let page = head + fragment + tail;
    assert(page.subrange(head.len() as int, (head.len() + fragment.len()) as int) =~= fragment);
}

} // verus!
