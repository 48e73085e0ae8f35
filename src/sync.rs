//! Syncing tickets from the help desk: the weekly date ranges of a full sync
//! and their search queries, paging through results, and the newest update
//! seen by an incremental sync.

use vstd::prelude::*;

use crate::models::copy_text;
use crate::text::decimal_text;

verus! {

/// The date of a day number (days from the first day of the common era,
/// that day being 1), as "YYYY-MM-DD".
pub uninterp spec fn date_text(day: int) -> Seq<char>;

/// Relies on `chrono::NaiveDate::from_num_days_from_ce_opt` and the
/// `Display` of `NaiveDate`: the date of a day number; the result depends on
/// the number alone.
#[verifier::external_body]
fn day_text(day: i32) -> (r: String)
    ensures
        r@ == date_text(day as int),
{
    match chrono::NaiveDate::from_num_days_from_ce_opt(day) {
        Some(d) => d.to_string(),
        None => String::new(),
    }
}

/// The statuses that a full sync queries, with their names.
pub fn full_sync_statuses() -> (r: Vec<(i32, &'static str)>)
    ensures
        r@.len() == 4,
        r@[0].0 == 2 && r@[0].1@ == "Open"@,
        r@[1].0 == 3 && r@[1].1@ == "Pending"@,
        r@[2].0 == 4 && r@[2].1@ == "Resolved"@,
        r@[3].0 == 5 && r@[3].1@ == "Closed"@,
{
    let mut r: Vec<(i32, &'static str)> = Vec::new();
    r.push((2, "Open"));
    r.push((3, "Pending"));
    r.push((4, "Resolved"));
    r.push((5, "Closed"));
    r
}

/// The weeks from day `start` up to day `today`: each range starts 7 days
/// after the one before, and ends 7 days after its start or at `today`,
/// whichever comes first. There are as many ranges as it takes to reach
/// `today`, and none when `start` is not before `today`.
pub fn weekly_ranges(start: i32, today: i32) -> (r: Vec<(i32, i32)>)
    requires
        today <= i32::MAX - 7,
    ensures
        forall|k: int|
            0 <= k < r@.len() ==> #[trigger] r@[k] == (
                (start + 7 * k) as i32,
                if start + 7 * k + 7 < today {
                    (start + 7 * k + 7) as i32
                } else {
                    today
                },
            ),
        start + 7 * r@.len() >= today,
        r@.len() == 0 || start + 7 * (r@.len() - 1) < today,
{
    let mut r: Vec<(i32, i32)> = Vec::new();
    let mut current = start;
    while current < today
        invariant
            today <= i32::MAX - 7,
            current == start + 7 * r@.len(),
            r@.len() == 0 || current - 7 < today,
            forall|k: int|
                0 <= k < r@.len() ==> #[trigger] r@[k] == (
                    (start + 7 * k) as i32,
                    if start + 7 * k + 7 < today {
                        (start + 7 * k + 7) as i32
                    } else {
                        today
                    },
                ),
        decreases today as int + 7 - current as int,
    {
        let end = current + 7;
        let upto = if end < today {
            end
        } else {
            today
        };
        r.push((current, upto));
        current = end;
    }
    r
}

/// The search query for tickets of a status created inside a range of days.
pub open spec fn week_query_of(status_code: i32, from: int, to: int) -> Seq<char> {
    "\"status:"@ + decimal_text(status_code as int) + " AND created_at:>'"@ + date_text(from)
        + "' AND created_at:<'"@ + date_text(to) + "'\""@
}

/// The search query for tickets of status `status_code` created after day
/// `from` and before day `to`.
pub fn week_query(status_code: i32, from: i32, to: i32) -> (r: String)
    ensures
        r@ == week_query_of(status_code, from as int, to as int),
{
    let mut q = String::from_str("\"status:");
    let code = crate::text::i64_text(status_code as i64);
    q.append(code.as_str());
    q.append(" AND created_at:>'");
    let a = day_text(from);
    q.append(a.as_str());
    q.append("' AND created_at:<'");
    let b = day_text(to);
    q.append(b.as_str());
    q.append("'\"");
    q
}

/// What fetching one page gave.
#[derive(Clone, Copy, Debug, PartialEq, Eq, Structural)]
pub enum PageOutcome {
    /// The server asked to slow down.
    RateLimited,
    /// The request or its answer failed.
    Failed,
    /// A page with this many items.
    Items(usize),
}

/// What to do after a page.
#[derive(Clone, Copy, Debug, PartialEq, Eq, Structural)]
pub enum PageAction {
    /// Wait, then fetch the same page again.
    Retry,
    /// Fetch the next page.
    Next,
    /// No more pages.
    Stop,
}

/// Paging through a listing: pages are numbered from 1, at most
/// `max_pages` are fetched, and a page with fewer than `full_page` items is
/// the last.
pub struct Pager {
    page: u32,
    max_pages: u32,
    full_page: usize,
}

impl Pager {
    /// The page to fetch next.
    pub closed spec fn page_number(&self) -> u32 {
        self.page
    }

    /// The most pages fetched.
    pub closed spec fn limit(&self) -> u32 {
        self.max_pages
    }

    /// The size of a full page.
    pub closed spec fn full(&self) -> usize {
        self.full_page
    }

    /// A pager at page 1.
    pub fn new(max_pages: u32, full_page: usize) -> (r: Pager)
        ensures
            r.page_number() == 1,
            r.limit() == max_pages,
            r.full() == full_page,
    {
        Pager { page: 1, max_pages, full_page }
    }

    /// The page to fetch next.
    pub fn page(&self) -> (r: u32)
        ensures
            r == self.page_number(),
    {
        self.page
    }

    /// Whether the next page is still within the limit.
    pub fn should_fetch(&self) -> (r: bool)
        ensures
            r == (self.page_number() <= self.limit()),
    {
        self.page <= self.max_pages
    }

    /// Decides what follows a page: a rate limit retries it; a failure, an
    /// empty page or a short one ends the listing; a full page moves on to
    /// the next, unless that would pass the limit.
    pub fn after(&mut self, outcome: PageOutcome) -> (r: PageAction)
        ensures
            final(self).limit() == old(self).limit(),
            final(self).full() == old(self).full(),
            r == match outcome {
                PageOutcome::RateLimited => PageAction::Retry,
                PageOutcome::Failed => PageAction::Stop,
                PageOutcome::Items(n) => if n == 0 || n < old(self).full() || old(self).page_number()
                    >= old(self).limit() {
                    PageAction::Stop
                } else {
                    PageAction::Next
                },
            },
            r == PageAction::Next ==> final(self).page_number() == old(self).page_number() + 1,
            r != PageAction::Next ==> final(self).page_number() == old(self).page_number(),
    {
        match outcome {
            PageOutcome::RateLimited => PageAction::Retry,
            PageOutcome::Failed => PageAction::Stop,
            PageOutcome::Items(n) => {
                if n == 0 || n < self.full_page || self.page >= self.max_pages {
                    PageAction::Stop
                } else {
                    self.page = self.page + 1;
                    PageAction::Next
                }
            },
        }
    }
}

/// Whether `a` comes after `b` in the order of their characters' code points
/// (the order of `String`'s `>`).
pub open spec fn text_after(a: Seq<char>, b: Seq<char>) -> bool {
    exists|k: int|
        0 <= k <= a.len() && k <= b.len() && a.take(k) == b.take(k) && ((k == b.len() && k
            < a.len()) || (k < a.len() && k < b.len() && (a[k] as u32) > (b[k] as u32)))
}

/// Decides `text_after`.
pub fn is_text_after(a: &str, b: &str) -> (r: bool)
    ensures
        r == text_after(a@, b@),
{
    let n = a.unicode_len();
    let m = b.unicode_len();
    let mut i: usize = 0;
    while i < n && i < m && a.get_char(i) == b.get_char(i)
        invariant
            n == a@.len(),
            m == b@.len(),
            i <= n,
            i <= m,
            a@.take(i as int) == b@.take(i as int),
        decreases n - i,
    {
        proof {
            assert(a@.take(i as int + 1) =~= a@.take(i as int).push(a@[i as int]));
            assert(b@.take(i as int + 1) =~= b@.take(i as int).push(b@[i as int]));
        }
        i = i + 1;
    }
    let r = if i < n && i < m {
        (a.get_char(i) as u32) > (b.get_char(i) as u32)
    } else {
        i == m && i < n
    };
    proof {
        let k0 = i as int;
        if r {
            assert(0 <= k0 <= a@.len() && k0 <= b@.len() && a@.take(k0) == b@.take(k0));
        } else {
            assert forall|k: int|
                0 <= k <= a@.len() && k <= b@.len() && a@.take(k) == b@.take(k) implies !((k
                == b@.len() && k < a@.len()) || (k < a@.len() && k < b@.len() && (a@[k] as u32)
                > (b@[k] as u32))) by {
                if k < k0 {
                    assert(a@.take(k0)[k] == a@[k]);
                    assert(b@.take(k0)[k] == b@[k]);
                } else if k > k0 {
                    assert(a@.take(k)[k0] == a@[k0]);
                    assert(b@.take(k)[k0] == b@[k0]);
                }
            }
        }
    }
    r
}

/// Whether the optional text `a` comes after `b` (the order of
/// `Option<&String>`: nothing comes before any text).
pub open spec fn opt_after(a: Option<String>, b: Option<String>) -> bool {
    match (a, b) {
        (Some(x), Some(y)) => text_after(x@, y@),
        (Some(_), None) => true,
        _ => false,
    }
}

/// The newest update seen after `candidate`: it replaces `current` if there
/// is none yet or if it comes after it.
pub fn newest_update(current: Option<String>, candidate: &Option<String>) -> (r: Option<String>)
    ensures
        r == if current is None || opt_after(*candidate, current) {
            *candidate
        } else {
            current
        },
{
    let replace = match (&current, candidate) {
        (None, _) => true,
        (Some(x), Some(y)) => is_text_after(y.as_str(), x.as_str()),
        (Some(_), None) => false,
    };
    if replace {
        copy_text(candidate)
    } else {
        current
    }
}

} // verus!
