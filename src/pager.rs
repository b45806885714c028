use vstd::prelude::*;

use crate::client::{auth_query, auth_query_of, is_success, Body, Method, Reply, Request, Simplenote, INDEX_URL};
use crate::error::{Error, Operation, Result};
use crate::note::{Note, Timestamp};
use crate::text::{decimal, decimal_of};

verus! {

/// How many notes one page of the index asks for.
pub const NOTE_LIST_LENGTH: u64 = 100;

/// A restriction on the listed notes, passed to the service as a query
/// parameter and not interpreted here.
#[derive(Debug, Clone)]
pub enum Filter {
    /// Notes modified after the given time, as the service writes it.
    Since(String),
    /// Notes carrying the given tag.
    Tag(String),
}

/// One page of the note index. A `mark` means that more pages follow.
#[derive(Debug, Clone)]
pub struct NotesPage {
    pub count: u64,
    pub notes: Vec<Note>,
    pub time: Timestamp,
    pub mark: Option<String>,
}

/// The query parameter of one filter.
pub open spec fn filter_query_of(f: Filter) -> Seq<char> {
    match f {
        Filter::Since(v) => "&since="@ + v@,
        Filter::Tag(v) => "&tag="@ + v@,
    }
}

/// The query parameters of the filters, in order.
pub open spec fn filters_query_of(fs: Seq<Filter>) -> Seq<char>
    decreases fs.len(),
{
    if fs.len() == 0 {
        seq![]
    } else {
        filters_query_of(fs.drop_last()) + filter_query_of(fs.last())
    }
}

/// The address of the index page that starts at `mark`.
pub open spec fn index_url_of(
    token: Seq<char>,
    user: Seq<char>,
    mark: Seq<char>,
    fs: Seq<Filter>,
) -> Seq<char> {
    INDEX_URL@ + auth_query_of(token, user) + "&length="@ + decimal_of(NOTE_LIST_LENGTH as nat)
        + "&mark="@ + mark + filters_query_of(fs)
}

/// The page that a reply to an index request stands for, or its failure.
pub open spec fn page_outcome(reply: Reply<Option<NotesPage>>) -> Result<NotesPage> {
    match reply {
        Reply::Received { status, content } => if !is_success(status) {
            Err(Error::Network { op: Operation::ListNotes })
        } else {
            match content {
                Some(p) => Ok(p),
                None => Err(Error::Decode { op: Operation::ListNotes }),
            }
        },
        Reply::Unreachable => Err(Error::Network { op: Operation::ListNotes }),
    }
}

/// The notes of the pages, one page after another.
pub open spec fn concat_notes(pages: Seq<NotesPage>) -> Seq<Note>
    decreases pages.len(),
{
    if pages.len() == 0 {
        seq![]
    } else {
        pages[0].notes@ + concat_notes(pages.drop_first())
    }
}

/// Listing that has gathered `acc` and then receives `pages` in turn: the
/// notes gathered when it stops, and how many pages it took in (one
/// request each). It stops at the first page without a mark.
pub open spec fn list_run(acc: Seq<Note>, pages: Seq<NotesPage>) -> (Seq<Note>, nat)
    decreases pages.len(),
{
    if pages.len() == 0 {
        (acc, 0)
    } else if pages[0].mark is None {
        (acc + pages[0].notes@, 1)
    } else {
        let (all, n) = list_run(acc + pages[0].notes@, pages.drop_first());
        (all, n + 1)
    }
}

/// When every page but the last carries a mark and the last carries none,
/// listing gathers the notes of all pages, in order, after what it already
/// had, with exactly one request per page.
pub proof fn lemma_list_gathers_all_pages(acc: Seq<Note>, pages: Seq<NotesPage>)
    requires
        pages.len() > 0,
        forall|i: int| 0 <= i < pages.len() - 1 ==> (#[trigger] pages[i]).mark is Some,
        pages.last().mark is None,
    ensures
        list_run(acc, pages) == (acc + concat_notes(pages), pages.len()),
    decreases pages.len(),
{
    if pages.len() == 1 {
        assert(pages.drop_first().len() == 0);
        assert(concat_notes(pages) =~= pages[0].notes@);
    } else {
        let rest = pages.drop_first();
        assert(pages[0].mark is Some);
        assert forall|i: int| 0 <= i < rest.len() - 1 implies (#[trigger] rest[i]).mark is Some by {
            assert(rest[i] == pages[i + 1]);
        }
        assert(rest.last() == pages.last());
        lemma_list_gathers_all_pages(acc + pages[0].notes@, rest);
        assert(acc + pages[0].notes@ + concat_notes(rest) =~= acc + concat_notes(pages));
    }
}

/// Builds the query parameters of the filters.
fn filters_query(fs: &Vec<Filter>) -> (r: String)
    ensures
        r@ == filters_query_of(fs@),
{
    let mut q = String::new();
    let mut i: usize = 0;
    while i < fs.len()
        invariant
            i <= fs@.len(),
            q@ == filters_query_of(fs@.take(i as int)),
        decreases fs@.len() - i,
    {
        match &fs[i] {
            Filter::Since(v) => {
                q.append("&since=");
                q.append(v.as_str());
            },
            Filter::Tag(v) => {
                q.append("&tag=");
                q.append(v.as_str());
            },
        }
        assert(fs@.take(i + 1).drop_last() =~= fs@.take(i as int));
        i = i + 1;
    }
    assert(fs@.take(i as int) =~= fs@);
    q
}

/// The enumeration of the note index: one request per page, each starting
/// at the mark that the previous page gave, until a page carries none.
#[derive(Debug, Clone)]
pub struct Pager {
    pub filters: Vec<Filter>,
    pub mark: String,
    pub notes: Vec<Note>,
    pub done: bool,
}

impl Pager {
    /// A listing that has not started; the first page is asked for with
    /// the mark `mark`, which the service reads as "from the start".
    pub fn new(filters: Vec<Filter>) -> (r: Pager)
        ensures
            r.filters@ == filters@,
            r.mark@ == "mark"@,
            r.notes@.len() == 0,
            !r.done,
    {
        Pager { filters, mark: "mark".to_string(), notes: Vec::new(), done: false }
    }

    /// The request for the next page.
    pub fn request(&self, client: &Simplenote, token: &str) -> (r: Request)
        ensures
            r.method == Method::Get,
            r.url@ == index_url_of(token@, client.username@, self.mark@, self.filters@),
            r.body is Empty,
    {
        let mut u = INDEX_URL.to_string();
        let q = auth_query(token, client.username.as_str());
        u.append(q.as_str());
        u.append("&length=");
        let n = decimal(NOTE_LIST_LENGTH);
        u.append(n.as_str());
        u.append("&mark=");
        u.append(self.mark.as_str());
        let f = filters_query(&self.filters);
        u.append(f.as_str());
        Request { method: Method::Get, url: u, body: Body::Empty }
    }

    /// Takes the reply for the page last asked for: its notes are added
    /// after those gathered so far, and its mark is where the next page
    /// starts; without a mark the listing is complete. A failed reply ends
    /// the listing with its error.
    pub fn on_page(&mut self, reply: Reply<Option<NotesPage>>) -> (r: Result<()>)
        requires
            !old(self).done,
        ensures
            final(self).filters == old(self).filters,
            match page_outcome(reply) {
                Err(e) => r == Result::<()>::Err(e) && final(self).done && final(self).notes
                    == old(self).notes,
                Ok(p) => {
                    &&& r is Ok
                    &&& final(self).notes@ == old(self).notes@ + p.notes@
                    &&& final(self).done == p.mark is None
                    &&& p.mark matches Some(m) ==> final(self).mark == m
                    &&& p.mark is None ==> final(self).mark == old(self).mark
                },
            },
    {
        match reply {
            Reply::Received { status, content } => {
                if status < 200 || status >= 300 {
                    self.done = true;
                    return Err(Error::Network { op: Operation::ListNotes });
                }
                match content {
                    Some(page) => {
                        let mut page = page;
                        self.notes.append(&mut page.notes);
                        match page.mark {
                            Some(m) => {
                                self.mark = m;
                            },
                            None => {
                                self.done = true;
                            },
                        }
                        Ok(())
                    },
                    None => {
                        self.done = true;
                        Err(Error::Decode { op: Operation::ListNotes })
                    },
                }
            },
            Reply::Unreachable => {
                self.done = true;
                Err(Error::Network { op: Operation::ListNotes })
            },
        }
    }

    /// The notes gathered, in the order the service returned them.
    pub fn into_notes(self) -> (r: Vec<Note>)
        ensures
            r@ == self.notes@,
    {
        self.notes
    }
}

} // verus!
