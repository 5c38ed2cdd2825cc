//! Following a paginated API: the items of each page are handed out before
//! the next page is asked for, and the next page is the one that the
//! response's `Link` header marks as `rel="next"`.
use std::collections::VecDeque;
use vstd::prelude::*;

verus! {

/// One value of a `Link` header: a target and its relation types.
#[derive(Debug, Clone, PartialEq)]
pub struct LinkValue {
    pub link: String,
    pub rel: Vec<String>,
}

/// The mathematical view of a [`LinkValue`].
pub struct LinkValueView {
    pub link: Seq<char>,
    pub rel: Seq<Seq<char>>,
}

impl View for LinkValue {
    type V = LinkValueView;

    open spec fn view(&self) -> LinkValueView {
        LinkValueView { link: self.link@, rel: self.rel@.map_values(|r: String| r@) }
    }
}

/// The values of a `Link` header in the order they appear (each relation
/// type written as its lower-case registered name), or `None` where the
/// header does not parse.
pub uninterp spec fn link_values_of(header: Seq<char>) -> Option<Seq<LinkValueView>>;

/// Relies on hyperx's `FromStr` for `hyperx::header::Link`: it parses a
/// `Link` header into its values, and `LinkValue::link` and
/// `LinkValue::rel` give each one's target and relation types.
#[verifier::external_body]
fn parse_link_header(header: &str) -> (r: Option<Vec<LinkValue>>)
    ensures
        match r {
            Some(v) => link_values_of(header@) == Some(v@.map_values(|x: LinkValue| x@)),
            None => link_values_of(header@) is None,
        },
{
    let parsed: hyperx::header::Link = header.parse().ok()?;
    Some(parsed.values().iter().map(|v| LinkValue {
        link: v.link().to_string(),
        rel: v.rel().unwrap_or(&[]).iter().map(|t| t.to_string()).collect(),
    }).collect())
}

/// The relation type of the next page.
pub open spec fn next_rel() -> Seq<char> {
    "next"@
}

/// Whether a link value points at the next page.
pub open spec fn is_next_spec(v: LinkValueView) -> bool {
    exists|i: int| 0 <= i < v.rel.len() && #[trigger] v.rel[i] == next_rel()
}

/// The target of the first value that points at the next page.
pub open spec fn next_link_of(values: Seq<LinkValueView>) -> Option<Seq<char>>
    decreases values.len(),
{
    if values.len() == 0 {
        None
    } else if is_next_spec(values[0]) {
        Some(values[0].link)
    } else {
        next_link_of(values.drop_first())
    }
}

/// The next page named by a `Link` header, if it parses and names one.
pub open spec fn next_page_of(header: Seq<char>) -> Option<Seq<char>> {
    match link_values_of(header) {
        Some(values) => next_link_of(values),
        None => None,
    }
}

/// Whether a link value points at the next page.
pub fn is_next(v: &LinkValue) -> (r: bool)
    ensures
        r == is_next_spec(v@),
{
    let next = "next";
    assert(next@ == next_rel());
    let mut i: usize = 0;
    while i < v.rel.len()
        invariant
            i <= v.rel@.len(),
            next@ == next_rel(),
            forall|j: int| 0 <= j < i ==> v@.rel[j] != next_rel(),
        decreases v.rel@.len() - i,
    {
        let found = text_eq(v.rel[i].as_str(), next);
        assert(v@.rel[i as int] == v.rel@[i as int]@);
        if found {
            assert(v@.rel[i as int] == next_rel());
            return true;
        }
        i = i + 1;
    }
    false
}

/// Whether two texts are equal, character by character.
pub fn text_eq(a: &str, b: &str) -> (r: bool)
    ensures
        r == (a@ == b@),
{
    let n = a.unicode_len();
    if n != b.unicode_len() {
        return false;
    }
    let mut i: usize = 0;
    while i < n
        invariant
            n == a@.len(),
            n == b@.len(),
            i <= n,
            forall|j: int| 0 <= j < i ==> a@[j] == b@[j],
        decreases n - i,
    {
        if a.get_char(i) != b.get_char(i) {
            return false;
        }
        i = i + 1;
    }
    assert(a@ =~= b@);
    true
}

/// The target of the first value that points at the next page.
pub fn next_link(values: &Vec<LinkValue>) -> (r: Option<String>)
    ensures
        match r {
            Some(s) => next_link_of(values@.map_values(|x: LinkValue| x@)) == Some(s@),
            None => next_link_of(values@.map_values(|x: LinkValue| x@)) is None,
        },
{
    let ghost all = values@.map_values(|x: LinkValue| x@);
    let mut i: usize = 0;
    assert(all.subrange(0, all.len() as int) =~= all);
    while i < values.len()
        invariant
            i <= values@.len(),
            all == values@.map_values(|x: LinkValue| x@),
            next_link_of(all) == next_link_of(all.subrange(i as int, all.len() as int)),
        decreases values@.len() - i,
    {
        let ghost rest = all.subrange(i as int, all.len() as int);
        assert(rest.drop_first() =~= all.subrange(i as int + 1, all.len() as int));
        if is_next(&values[i]) {
            return Some(values[i].link.clone());
        }
        i = i + 1;
    }
    assert(all.subrange(i as int, all.len() as int) =~= Seq::<LinkValueView>::empty());
    None
}

/// The next page named by a `Link` header, if it parses and names one.
pub fn next_page(header: &str) -> (r: Option<String>)
    ensures
        match r {
            Some(s) => next_page_of(header@) == Some(s@),
            None => next_page_of(header@) is None,
        },
{
    match parse_link_header(header) {
        Some(values) => next_link(&values),
        None => None,
    }
}

/// A request that was answered with an unsuccessful status.
#[derive(Debug, Clone, PartialEq)]
pub struct FailedRequest {
    pub status: u16,
    pub url: String,
}

/// Why a listing of repositories stopped early.
#[derive(Debug, Clone, PartialEq)]
pub enum FetchError {
    /// The request could not be sent, or no response came back.
    Network { url: String, message: String },
    /// The server answered with a status outside `200..=299`.
    Failed(FailedRequest),
    /// The body of a response was not a page of items.
    Malformed { url: String, message: String },
}

/// Whether an HTTP status means success.
pub open spec fn is_success(status: u16) -> bool {
    200 <= status && status <= 299
}

/// What a paginated listing does next.
#[derive(Debug, Clone, PartialEq)]
pub enum PageStep<I> {
    /// Hand out this item.
    Item(I),
    /// Ask for the page at this URL, then pass the response to
    /// [`Paginated::receive`].
    Fetch(String),
    /// The listing is complete (or stopped at an error).
    Done,
}

/// A listing that follows `rel="next"` links from page to page.
pub struct Paginated<I> {
    next_endpoint: Option<String>,
    items: VecDeque<I>,
}

/// The mathematical view of a [`Paginated`] listing.
pub struct PaginatedView<I> {
    /// The page to ask for once the items in hand are handed out.
    pub next: Option<Seq<char>>,
    /// Items received and not yet handed out, in page order.
    pub items: Seq<I>,
}

impl<I> View for Paginated<I> {
    type V = PaginatedView<I>;

    closed spec fn view(&self) -> PaginatedView<I> {
        PaginatedView {
            next: match self.next_endpoint {
                Some(s) => Some(s@),
                None => None,
            },
            items: self.items@,
        }
    }
}

impl<I> Paginated<I> {
    /// A listing that starts at `endpoint`.
    pub fn new(endpoint: String) -> (r: Self)
        ensures
            r@.next == Some(endpoint@),
            r@.items.len() == 0,
    {
        Paginated { next_endpoint: Some(endpoint), items: VecDeque::new() }
    }

    /// The next item, or else the next page to ask for, or the end.
    pub fn next(&mut self) -> (r: PageStep<I>)
        ensures
            old(self)@.items.len() > 0 ==> {
                &&& r == PageStep::Item(old(self)@.items[0])
                &&& final(self)@.items == old(self)@.items.drop_first()
                &&& final(self)@.next == old(self)@.next
            },
            old(self)@.items.len() == 0 && old(self)@.next is Some ==> {
                &&& r is Fetch
                &&& r->Fetch_0@ == old(self)@.next->0
                &&& final(self)@.next is None
                &&& final(self)@.items.len() == 0
            },
            old(self)@.items.len() == 0 && old(self)@.next is None ==> {
                &&& r is Done
                &&& final(self)@ == old(self)@
            },
    {
        let ghost before = self.items@;
        match self.items.pop_front() {
            Some(item) => {
                assert(self.items@ =~= before.drop_first());
                PageStep::Item(item)
            },
            None => match self.next_endpoint.take() {
                Some(url) => PageStep::Fetch(url),
                None => PageStep::Done,
            },
        }
    }

    /// Takes in the response to the request for `url`: its status, its
    /// `Link` header if it had one, and its body read as a page of items (or
    /// why it could not be).
    ///
    /// A successful page is queued behind the items in hand, and the next
    /// page is the one its `Link` header marks as `rel="next"`. An
    /// unsuccessful status, or a body that is not a page, ends the listing.
    pub fn receive(
        &mut self,
        url: String,
        status: u16,
        link: Option<String>,
        body: Result<Vec<I>, String>,
    ) -> (r: Result<(), FetchError>)
        ensures
            !is_success(status) ==> {
                &&& r == Err::<(), FetchError>(FetchError::Failed(FailedRequest { status, url }))
                &&& final(self)@.next is None
                &&& final(self)@.items == old(self)@.items
            },
            is_success(status) && body is Err ==> {
                &&& r == Err::<(), FetchError>(
                    FetchError::Malformed { url, message: body->Err_0 },
                )
                &&& final(self)@.next is None
                &&& final(self)@.items == old(self)@.items
            },
            is_success(status) && body is Ok ==> {
                &&& r is Ok
                &&& final(self)@.items == old(self)@.items + body->Ok_0@
                &&& final(self)@.next == match link {
                    Some(h) => next_page_of(h@),
                    None => None,
                }
            },
    {
        if status < 200 || status > 299 {
            self.next_endpoint = None;
            return Err(FetchError::Failed(FailedRequest { status, url }));
        }
        match body {
            Err(message) => {
                self.next_endpoint = None;
                Err(FetchError::Malformed { url, message })
            },
            Ok(page) => {
                let ghost before = self.items@;
                let ghost page_items = page@;
                let mut page = page;
                let mut k: usize = 0;
                let n = page.len();
                while page.len() > 0
                    invariant
                        n == page_items.len(),
                        k <= page_items.len(),
                        page@ == page_items.subrange(k as int, page_items.len() as int),
                        self.items@ == before + page_items.subrange(0, k as int),
                    decreases page@.len(),
                {
                    let item = page.remove(0);
                    self.items.push_back(item);
                    assert(page_items.subrange(0, k as int + 1) =~= page_items.subrange(
                        0,
                        k as int,
                    ).push(item));
                    k = k + 1;
                    assert(page@ =~= page_items.subrange(k as int, page_items.len() as int));
                }
                assert(page_items.subrange(0, k as int) =~= page_items);
                self.next_endpoint = match link {
                    Some(h) => next_page(h.as_str()),
                    None => None,
                };
                Ok(())
            },
        }
    }

    /// Records that the request for `url` got no response, which ends the
    /// listing.
    pub fn fail(&mut self, url: String, message: String) -> (r: FetchError)
        ensures
            r == (FetchError::Network { url, message }),
            final(self)@.next is None,
            final(self)@.items == old(self)@.items,
    {
        self.next_endpoint = None;
        FetchError::Network { url, message }
    }
}

} // verus!
