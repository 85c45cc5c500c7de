//! Gathering a result set that the server hands out page by page.
//!
//! The paginator fetches nothing itself. The caller fetches the first page
//! without a cursor and hands each page it gets to `Paginator::advance`,
//! which answers with the cursor of the next page or with the end.

use crate::error::{ApiClientError, Failure};
use vstd::prelude::*;
use vstd::string::*;

verus! {

/// What one fetch brought: the items of a page and the token of the next
/// page, or a failure.
pub type Fetched<T> = Result<(Seq<T>, Option<Seq<char>>), Failure>;

/// Where the gathering stands after a page.
pub enum Progress<T> {
    /// More pages follow: fetch the one at `cursor`.
    Fetch { gathered: Seq<T>, cursor: Seq<char> },
    /// The gathering has ended, with all items or with a failure.
    Finished(Result<Seq<T>, Failure>),
}

/// One step of the gathering.
///
/// A failed fetch ends it with that failure, and what was gathered is
/// dropped. Otherwise the page's items go behind what was gathered. A token
/// that is present and not empty is the cursor of the next page; a missing
/// or empty token ends the gathering.
pub open spec fn step<T>(gathered: Seq<T>, fetched: Fetched<T>) -> Progress<T> {
    match fetched {
        Err(failure) => Progress::Finished(Err(failure)),
        Ok((items, token)) => match token {
            Some(cursor) => if cursor.len() > 0 {
                Progress::Fetch { gathered: gathered + items, cursor }
            } else {
                Progress::Finished(Ok(gathered + items))
            },
            None => Progress::Finished(Ok(gathered + items)),
        },
    }
}

/// The items gathered so far.
pub struct Paginator<T> {
    items: Vec<T>,
}

/// What the caller does after a page.
pub enum PageStep<T> {
    /// Fetch the page at `cursor` and hand it to `paginator`.
    Fetch { paginator: Paginator<T>, cursor: String },
    /// Stop: here are all items, or the failure of the last fetch.
    Finished(Result<Vec<T>, ApiClientError>),
}

impl<T> View for Paginator<T> {
    type V = Seq<T>;

    closed spec fn view(&self) -> Seq<T> {
        self.items@
    }
}

impl<T> View for PageStep<T> {
    type V = Progress<T>;

    open spec fn view(&self) -> Progress<T> {
        match self {
            PageStep::Fetch { paginator, cursor } => Progress::Fetch {
                gathered: paginator@,
                cursor: cursor@,
            },
            PageStep::Finished(Ok(items)) => Progress::Finished(Ok(items@)),
            PageStep::Finished(Err(err)) => Progress::Finished(Err(err@)),
        }
    }
}

/// The view of what a fetch brought.
pub open spec fn fetched_view<T>(fetched: Result<(Vec<T>, Option<String>), ApiClientError>)
    -> Fetched<T> {
    match fetched {
        Ok((items, token)) => Ok(
            (
                items@,
                match token {
                    Some(cursor) => Some(cursor@),
                    None => None,
                },
            ),
        ),
        Err(err) => Err(err@),
    }
}

impl<T> Paginator<T> {
    /// A paginator that has gathered nothing. The first page is fetched
    /// without a cursor.
    pub fn new() -> (paginator: Self)
        ensures
            paginator@ == Seq::<T>::empty(),
    {
        Paginator { items: Vec::new() }
    }

    /// Takes what the last fetch brought and says how to go on.
    pub fn advance(self, fetched: Result<(Vec<T>, Option<String>), ApiClientError>) -> (next:
        PageStep<T>)
        ensures
            next@ == step(self@, fetched_view(fetched)),
    {
        match fetched {
            Err(err) => PageStep::Finished(Err(err)),
            Ok((page, token)) => {
                let mut items = self.items;
                let mut page = page;
                items.append(&mut page);
                match token {
                    Some(cursor) => {
                        if cursor.as_str().is_empty() {
                            PageStep::Finished(Ok(items))
                        } else {
                            PageStep::Fetch { paginator: Paginator { items }, cursor }
                        }
                    },
                    None => PageStep::Finished(Ok(items)),
                }
            },
        }
    }
}

/// A gathering as seen from outside: how it ended, if it did, and the
/// cursors of the fetches that were made, in order.
pub struct Run<T> {
    pub outcome: Option<Result<Seq<T>, Failure>>,
    pub cursors: Seq<Option<Seq<char>>>,
}

/// The gathering that stands at `gathered` and fetches next at `cursor`,
/// against a source that answers the fetches with `answers`, one after the
/// other. It makes a fetch for each answer it needs and no other.
pub open spec fn run_from<T>(
    gathered: Seq<T>,
    cursor: Option<Seq<char>>,
    answers: Seq<Fetched<T>>,
) -> Run<T>
    decreases answers.len(),
{
    if answers.len() == 0 {
        Run { outcome: None, cursors: Seq::empty() }
    } else {
        match step(gathered, answers[0]) {
            Progress::Finished(outcome) => Run { outcome: Some(outcome), cursors: seq![cursor] },
            Progress::Fetch { gathered: more, cursor: next } => {
                let rest = run_from(more, Some(next), answers.skip(1));
                Run { outcome: rest.outcome, cursors: seq![cursor] + rest.cursors }
            },
        }
    }
}

/// A whole gathering against a source that answers with `answers`.
pub open spec fn run<T>(answers: Seq<Fetched<T>>) -> Run<T> {
    run_from(Seq::empty(), None, answers)
}

/// A page that is followed by another: its items and the token of the next.
pub type Linked<T> = (Seq<T>, Seq<char>);

/// Whether each of `pages` names a next page.
pub open spec fn all_linked<T>(pages: Seq<Linked<T>>) -> bool {
    forall|i: int| 0 <= i < pages.len() ==> (#[trigger] pages[i]).1.len() > 0
}

/// The items of `pages`, page after page.
pub open spec fn all_items<T>(pages: Seq<Linked<T>>) -> Seq<T>
    decreases pages.len(),
{
    if pages.len() == 0 {
        Seq::empty()
    } else {
        pages[0].0 + all_items(pages.skip(1))
    }
}

/// The answers of a source that hands out `pages`.
pub open spec fn page_answers<T>(pages: Seq<Linked<T>>) -> Seq<Fetched<T>> {
    Seq::new(pages.len(), |i: int| Ok((pages[i].0, Some(pages[i].1))))
}

/// The cursors with which `pages` and the page after them are fetched, from
/// a start at `first`.
pub open spec fn page_cursors<T>(first: Option<Seq<char>>, pages: Seq<Linked<T>>) -> Seq<
    Option<Seq<char>>,
> {
    seq![first] + Seq::new(pages.len(), |i: int| Some(pages[i].1))
}

proof fn run_through_pages<T>(
    gathered: Seq<T>,
    cursor: Option<Seq<char>>,
    pages: Seq<Linked<T>>,
    last: Fetched<T>,
    later: Seq<Fetched<T>>,
)
    requires
        all_linked(pages),
        step(gathered + all_items(pages), last) is Finished,
    ensures
        run_from(gathered, cursor, page_answers(pages) + seq![last] + later) == (Run {
            outcome: Some(step(gathered + all_items(pages), last)->Finished_0),
            cursors: page_cursors(cursor, pages),
        }),
    decreases pages.len(),
{
    let answers = page_answers(pages) + seq![last] + later;
    if pages.len() > 0 {
        let rest = pages.skip(1);
        let more = gathered + pages[0].0;
        assert(answers[0] == Ok::<(Seq<T>, Option<Seq<char>>), Failure>(
            (pages[0].0, Some(pages[0].1)),
        ));
        assert(all_linked(rest)) by {
            assert forall|i: int| 0 <= i < rest.len() implies (#[trigger] rest[i]).1.len()
                > 0 by {}
        }
        assert(more + all_items(rest) =~= gathered + all_items(pages));
        run_through_pages(more, Some(pages[0].1), rest, last, later);
        assert(answers.skip(1) =~= page_answers(rest) + seq![last] + later);
        assert(seq![cursor] + page_cursors(Some(pages[0].1), rest) =~= page_cursors(
            cursor,
            pages,
        ));
    }
}

/// Against a source that hands out `pages`, each naming the next, and then
/// a last page without a token, the gathering ends with the items of all
/// pages in order. It makes one fetch per page: the first without a
/// cursor, each further one with the token of the page before. Whatever
/// the source would answer after that is never asked for.
pub proof fn gathers_all_pages<T>(
    pages: Seq<Linked<T>>,
    last_items: Seq<T>,
    later: Seq<Fetched<T>>,
)
    requires
        all_linked(pages),
    ensures
        run(page_answers(pages) + seq![Ok((last_items, None))] + later) == (Run {
            outcome: Some(Ok(all_items(pages) + last_items)),
            cursors: page_cursors(None, pages),
        }),
        page_cursors::<T>(None, pages).len() == pages.len() + 1,
{
    let last: Fetched<T> = Ok((last_items, None));
    run_through_pages(Seq::empty(), None, pages, last, later);
}

/// A page whose token is the empty text is the last page: the gathering
/// ends with it, and where it is the first page, after one fetch.
pub proof fn empty_token_ends_gathering<T>(
    pages: Seq<Linked<T>>,
    last_items: Seq<T>,
    later: Seq<Fetched<T>>,
)
    requires
        all_linked(pages),
    ensures
        run(page_answers(pages) + seq![Ok((last_items, Some(Seq::empty())))] + later) == (Run {
            outcome: Some(Ok(all_items(pages) + last_items)),
            cursors: page_cursors(None, pages),
        }),
        pages.len() == 0 ==> run(seq![Ok((last_items, Some(Seq::empty())))] + later) == (Run {
            outcome: Some(Ok(last_items)),
            cursors: seq![None],
        }),
{
    let last: Fetched<T> = Ok((last_items, Some(Seq::empty())));
    run_through_pages(Seq::empty(), None, pages, last, later);
}

/// Where a fetch fails, the gathering ends with that failure: the items of
/// the pages before it are not handed out, and no further fetch is made.
pub proof fn failure_ends_gathering<T>(
    pages: Seq<Linked<T>>,
    failure: Failure,
    later: Seq<Fetched<T>>,
)
    requires
        all_linked(pages),
    ensures
        run(page_answers(pages) + seq![Err(failure)] + later) == (Run::<T> {
            outcome: Some(Err(failure)),
            cursors: page_cursors(None, pages),
        }),
        page_cursors::<T>(None, pages).len() == pages.len() + 1,
{
    let last: Fetched<T> = Err(failure);
    run_through_pages(Seq::empty(), None, pages, last, later);
}

} // verus!
