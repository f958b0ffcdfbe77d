//! Quotes widget: shows a random configured quote each time it is shown.

use rand::RngExt;
use vstd::prelude::*;
use crate::config::{QuoteItem, QuotesConfig};
use crate::widget::{Widget, QUOTES_WIDGET_ID};

verus! {

/// Draws a position uniformly at random in `0..len` with the thread-local
/// generator of `rand` (`rand::rng().random_range(0..len)`).  Only the range
/// of the result is stated: it depends on chance.  The range is never empty
/// here, so the draw does not panic.
#[verifier::external_body]
fn random_index(len: usize) -> (i: usize)
    requires
        len > 0,
    ensures
        i < len,
{
    rand::rng().random_range(0..len)
}

/// The text and source line shown for a quote; a missing source shows as
/// an empty line.
pub open spec fn shown_quote(item: QuoteItem) -> (Seq<char>, Seq<char>) {
    (
        item.text@,
        match item.source {
            Some(s) => s@,
            None => Seq::<char>::empty(),
        },
    )
}

/// Displays a random user-configured quote.
pub struct QuotesWidget {
    items: Vec<QuoteItem>,
}

impl QuotesWidget {
    /// The configured quotes.
    pub closed spec fn items(self) -> Seq<QuoteItem> {
        self.items@
    }

    /// A quotes widget over the configured items.
    pub fn new(config: QuotesConfig) -> (w: QuotesWidget)
        ensures
            w.items() == config.items@,
    {
        QuotesWidget { items: config.items }
    }

    /// Number of configured quotes.
    pub fn count(&self) -> (n: usize)
        ensures
            n == self.items().len(),
    {
        self.items.len()
    }

    /// The text and source line of the quote at `idx`.
    pub fn quote_at(&self, idx: usize) -> (q: (String, String))
        requires
            idx < self.items().len(),
        ensures
            (q.0@, q.1@) == shown_quote(self.items()[idx as int]),
    {
        let item = &self.items[idx];
        let source = match &item.source {
            Some(s) => s.clone(),
            None => String::new(),
        };
        (item.text.clone(), source)
    }

    /// Pick a uniformly random quote to show; `None` (nothing to show) when
    /// no quote is configured.
    pub fn random_quote(&self) -> (r: Option<(String, String)>)
        ensures
            r is None <==> self.items().len() == 0,
            r matches Some(q) ==> exists|i: int|
                0 <= i < self.items().len() && (q.0@, q.1@) == #[trigger] shown_quote(
                    self.items()[i],
                ),
    {
        if self.items.len() == 0 {
            return None;
        }
        let idx = random_index(self.items.len());
        let q = self.quote_at(idx);
        assert((q.0@, q.1@) == shown_quote(self.items()[idx as int]));
        Some(q)
    }
}

impl Widget for QuotesWidget {
    fn id(&self) -> (r: i32)
        ensures
            r == QUOTES_WIDGET_ID,
    {
        QUOTES_WIDGET_ID
    }
}

} // verus!
