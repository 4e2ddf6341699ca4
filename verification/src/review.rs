//! User reviews of an application, and the filter that asks for them page
//! by page.

use vstd::prelude::*;

use crate::ids::{decimal, id_to_string};
use crate::request::params_text;
use crate::types::Language;

verus! {

/// The most reviews that the store returns in one page.
pub const MAX_REVIEW_NUM_PER_PAGE: u8 = 100;

/// The number of reviews in a page when the filter asks for none.
pub const DEFAULT_REVIEW_NUM_PER_PAGE: u8 = 20;

/// The longest range of days that the store looks back over.
pub const MAX_DAY_RANGE: u16 = 365;

/// How reviews are sorted.
#[derive(Clone, Copy, Debug, Hash, PartialEq, Eq, Structural)]
pub enum Filter {
    /// Sorted by helpfulness, with sliding windows based on the day range;
    /// always finds results to return.
    All,
    /// Sorted by creation time.
    Recent,
    /// Sorted by last updated time.
    Updated,
}

impl Filter {
    /// The token that names the sort order in a query.
    pub open spec fn token(self) -> Seq<char> {
        match self {
            Filter::Recent => "recent"@,
            Filter::Updated => "updated"@,
            Filter::All => "all"@,
        }
    }
}

impl AsRef<str> for Filter {
    fn as_ref(&self) -> (token: &str)
        ensures
            token@ == self.token(),
    {
        match self {
            Filter::Recent => "recent",
            Filter::Updated => "updated",
            Filter::All => "all",
        }
    }
}

impl Default for Filter {
    fn default() -> (filter: Self)
        ensures
            filter == Filter::All,
    {
        Filter::All
    }
}

/// Which reviews are wanted, by their verdict.
#[derive(Clone, Copy, Debug, Hash, PartialEq, Eq, Structural)]
pub enum ReviewType {
    /// All reviews.
    All,
    /// Only positive reviews.
    Positive,
    /// Only negative reviews.
    Negative,
}

impl ReviewType {
    /// The token that names the verdict in a query.
    pub open spec fn token(self) -> Seq<char> {
        match self {
            ReviewType::Positive => "positive"@,
            ReviewType::Negative => "negative"@,
            ReviewType::All => "all"@,
        }
    }
}

impl AsRef<str> for ReviewType {
    fn as_ref(&self) -> (token: &str)
        ensures
            token@ == self.token(),
    {
        match self {
            ReviewType::Positive => "positive",
            ReviewType::Negative => "negative",
            ReviewType::All => "all",
        }
    }
}

impl Default for ReviewType {
    fn default() -> (review_type: Self)
        ensures
            review_type == ReviewType::All,
    {
        ReviewType::All
    }
}

/// Which reviews are wanted, by how the author got the product.
#[derive(Clone, Copy, Debug, Hash, PartialEq, Eq, Structural)]
pub enum PurchaseType {
    /// All reviews.
    All,
    /// Reviews written by users who did not pay for the product on Steam.
    NonSteamPurchase,
    /// Reviews written by users who paid for the product on Steam.
    Steam,
}

impl PurchaseType {
    /// The token that names the kind of purchase in a query.
    pub open spec fn token(self) -> Seq<char> {
        match self {
            PurchaseType::NonSteamPurchase => "nonsteampurchase"@,
            PurchaseType::Steam => "steam"@,
            PurchaseType::All => "all"@,
        }
    }
}

impl AsRef<str> for PurchaseType {
    fn as_ref(&self) -> (token: &str)
        ensures
            token@ == self.token(),
    {
        match self {
            PurchaseType::NonSteamPurchase => "nonsteampurchase",
            PurchaseType::Steam => "steam",
            PurchaseType::All => "all",
        }
    }
}

impl Default for PurchaseType {
    fn default() -> (purchase_type: Self)
        ensures
            purchase_type == PurchaseType::All,
    {
        PurchaseType::All
    }
}

/// Whether off-topic reviews ("review bombs") are wanted.
#[derive(Clone, Copy, Debug, Hash, PartialEq, Eq, Structural)]
pub enum OfftopicActivity {
    /// Leave off-topic reviews out.
    Exclude,
    /// Return them with the others.
    Include,
}

impl Default for OfftopicActivity {
    fn default() -> (activity: Self)
        ensures
            activity == OfftopicActivity::Exclude,
    {
        OfftopicActivity::Exclude
    }
}

/// A user who wrote a review.
#[derive(Hash, Debug)]
pub struct Author {
    pub user_id: String,
    pub num_games_owned: u64,
    pub num_reviews: u64,
    pub playtime_forever: u64,
    pub playtime_last_two_weeks: u64,
    pub playtime_at_review: u64,
    pub last_played: u64,
}

/// One review of an application.
#[derive(Hash, Debug)]
pub struct Review {
    pub review_id: String,
    pub author: Author,
    pub language: String,
    pub review: String,
    pub timestamp_created: u64,
    pub timestamp_updated: u64,
    pub received_for_free: bool,
    pub steam_purchase: bool,
    pub voted_up: bool,
    pub votes_up: u64,
    pub votes_funny: u64,
    pub weighted_vote_score: String,
    pub written_during_early_access: bool,
    pub comment_count: Option<usize>,
}

/// What the store says of the reviews that match a query.
#[derive(Hash, Debug)]
pub struct QuerySummary {
    /// The number of reviews returned in this response.
    pub num_reviews: u32,
    /// The review score.
    pub review_score: Option<u32>,
    /// The description of the review score.
    pub review_score_desc: Option<String>,
    /// Total number of positive reviews.
    pub total_positive: Option<u32>,
    /// Total number of negative reviews.
    pub total_negative: Option<u32>,
    /// Total number of reviews matching the query parameters.
    pub total_reviews: Option<u32>,
}

/// One page of reviews.
#[derive(Hash, Debug)]
pub struct Reviews {
    /// 1 where the store answered the query.
    pub success: u8,
    /// Meant for the application that the reviews are of. The store does
    /// not send it and no operation of this crate sets it: it holds what
    /// the decoder left there, which is 0 for a page read from the store.
    pub app_id: u64,
    pub reviews: Vec<Review>,
    pub query_summary: QuerySummary,
    /// The value to pass into the next request as the cursor, to get the
    /// next page.
    pub cursor: String,
}

/// What a request for reviews asks for.
#[derive(Clone, Debug, Hash)]
pub struct ReviewsFilter {
    /// Helpfulness, creation time or last updated time.
    pub filter: Option<Filter>,
    /// All, positive or negative.
    pub review_type: Option<ReviewType>,
    /// All, Steam or non-Steam.
    pub purchase_type: Option<PurchaseType>,
    /// `Language::All` for reviews in every language.
    pub language: Option<Language>,
    /// Range from now to n days ago to look for helpful reviews. Only
    /// applicable for `Filter::All`. At most `MAX_DAY_RANGE` is sent.
    pub day_range: Option<u16>,
    /// Where the page starts: nothing for the first page, then the cursor
    /// that came with the page before.
    pub cursor: Option<String>,
    /// How many reviews a page holds; `DEFAULT_REVIEW_NUM_PER_PAGE` where
    /// nothing is set. At most `MAX_REVIEW_NUM_PER_PAGE` is sent.
    pub num_per_page: Option<u8>,
    /// Off-topic reviews are left out unless this asks for them.
    pub offtopic_activity: OfftopicActivity,
}

impl ReviewsFilter {
    /// The day range that is sent: the one set, capped at `MAX_DAY_RANGE`.
    pub open spec fn day_range_sent(self) -> Option<u16> {
        match self.day_range {
            Some(days) => Some(
                if days <= MAX_DAY_RANGE {
                    days
                } else {
                    MAX_DAY_RANGE
                },
            ),
            None => None,
        }
    }

    /// The page size that is sent: the one set, capped at
    /// `MAX_REVIEW_NUM_PER_PAGE`.
    pub open spec fn num_per_page_sent(self) -> Option<u8> {
        match self.num_per_page {
            Some(n) => Some(
                if n <= MAX_REVIEW_NUM_PER_PAGE {
                    n
                } else {
                    MAX_REVIEW_NUM_PER_PAGE
                },
            ),
            None => None,
        }
    }

    /// Where the page starts, as a parameter.
    pub open spec fn cursor_param(self) -> Seq<(Seq<char>, Seq<char>)> {
        match self.cursor {
            Some(cursor) => seq![("cursor"@, cursor@)],
            None => Seq::empty(),
        }
    }

    /// The sort order, as a parameter.
    pub open spec fn filter_param(self) -> Seq<(Seq<char>, Seq<char>)> {
        match self.filter {
            Some(filter) => seq![("filter"@, filter.token())],
            None => Seq::empty(),
        }
    }

    /// The language, as a parameter.
    pub open spec fn language_param(self) -> Seq<(Seq<char>, Seq<char>)> {
        match self.language {
            Some(language) => seq![("language"@, language.token())],
            None => Seq::empty(),
        }
    }

    /// The verdict wanted, as a parameter.
    pub open spec fn review_type_param(self) -> Seq<(Seq<char>, Seq<char>)> {
        match self.review_type {
            Some(review_type) => seq![("review_type"@, review_type.token())],
            None => Seq::empty(),
        }
    }

    /// The kind of purchase wanted, as a parameter.
    pub open spec fn purchase_type_param(self) -> Seq<(Seq<char>, Seq<char>)> {
        match self.purchase_type {
            Some(purchase_type) => seq![("purchase_type"@, purchase_type.token())],
            None => Seq::empty(),
        }
    }

    /// The day range that is sent, as a parameter.
    pub open spec fn day_range_param(self) -> Seq<(Seq<char>, Seq<char>)> {
        match self.day_range_sent() {
            Some(days) => seq![("day_range"@, decimal(days as nat))],
            None => Seq::empty(),
        }
    }

    /// The page size that is sent, as a parameter.
    pub open spec fn num_per_page_param(self) -> Seq<(Seq<char>, Seq<char>)> {
        match self.num_per_page_sent() {
            Some(n) => seq![("num_per_page"@, decimal(n as nat))],
            None => Seq::empty(),
        }
    }

    /// The parameter that switches the store's off-topic filter off, sent
    /// only where off-topic reviews are wanted.
    pub open spec fn offtopic_param(self) -> Seq<(Seq<char>, Seq<char>)> {
        if self.offtopic_activity == OfftopicActivity::Include {
            seq![("filter_offtopic_activity"@, "0"@)]
        } else {
            Seq::empty()
        }
    }

    /// The query parameters that stand for the filter, in the order in
    /// which they are sent.
    pub open spec fn url_params(self) -> Seq<(Seq<char>, Seq<char>)> {
        seq![("json"@, "1"@)] + self.cursor_param() + self.filter_param() + self.language_param()
            + self.review_type_param() + self.purchase_type_param() + self.day_range_param()
            + self.num_per_page_param() + self.offtopic_param()
    }

    /// The query parameters of a request for one page of reviews.
    ///
    /// A day range above `MAX_DAY_RANGE` is sent as `MAX_DAY_RANGE`, and a
    /// page size above `MAX_REVIEW_NUM_PER_PAGE` as
    /// `MAX_REVIEW_NUM_PER_PAGE`; smaller values are sent as they are.
    pub fn to_url_params(&self) -> (params: Vec<(&'static str, String)>)
        ensures
            params_text(params@) == self.url_params(),
    {
        let mut params: Vec<(&'static str, String)> = Vec::new();
        push_param(&mut params, "json", Some("1".to_owned()));
        push_param(
            &mut params,
            "cursor",
            match &self.cursor {
                Some(cursor) => Some(cursor.clone()),
                None => None,
            },
        );
        push_param(
            &mut params,
            "filter",
            match &self.filter {
                Some(filter) => Some(filter.as_ref().to_owned()),
                None => None,
            },
        );
        push_param(
            &mut params,
            "language",
            match &self.language {
                Some(language) => Some(language.as_ref().to_owned()),
                None => None,
            },
        );
        push_param(
            &mut params,
            "review_type",
            match &self.review_type {
                Some(review_type) => Some(review_type.as_ref().to_owned()),
                None => None,
            },
        );
        push_param(
            &mut params,
            "purchase_type",
            match &self.purchase_type {
                Some(purchase_type) => Some(purchase_type.as_ref().to_owned()),
                None => None,
            },
        );
        push_param(
            &mut params,
            "day_range",
            match self.day_range {
                Some(days) => Some(
                    id_to_string(
                        if days <= MAX_DAY_RANGE {
                            days as u64
                        } else {
                            MAX_DAY_RANGE as u64
                        },
                    ),
                ),
                None => None,
            },
        );
        push_param(
            &mut params,
            "num_per_page",
            match self.num_per_page {
                Some(n) => Some(
                    id_to_string(
                        if n <= MAX_REVIEW_NUM_PER_PAGE {
                            n as u64
                        } else {
                            MAX_REVIEW_NUM_PER_PAGE as u64
                        },
                    ),
                ),
                None => None,
            },
        );
        push_param(
            &mut params,
            "filter_offtopic_activity",
            if self.offtopic_activity == OfftopicActivity::Include {
                Some("0".to_owned())
            } else {
                None
            },
        );
        params
    }
}

impl Default for ReviewsFilter {
    /// The filter for the first page, with nothing set: the store's own
    /// defaults apply, and off-topic reviews are left out.
    fn default() -> (filter: Self)
        ensures
            filter == (ReviewsFilter {
                filter: None,
                review_type: None,
                purchase_type: None,
                language: None,
                day_range: None,
                cursor: None,
                num_per_page: None,
                offtopic_activity: OfftopicActivity::Exclude,
            }),
    {
        ReviewsFilter {
            filter: None,
            review_type: None,
            purchase_type: None,
            language: None,
            day_range: None,
            cursor: None,
            num_per_page: None,
            offtopic_activity: OfftopicActivity::Exclude,
        }
    }
}

impl ReviewsFilter {
    /// The number of reviews that a full page holds: the page size that is
    /// sent, or `DEFAULT_REVIEW_NUM_PER_PAGE` where none is set.
    pub open spec fn spec_page_size(&self) -> u8 {
        match self.num_per_page_sent() {
            Some(n) => n,
            None => DEFAULT_REVIEW_NUM_PER_PAGE,
        }
    }

    /// The number of reviews that a full page holds.
    #[verifier::when_used_as_spec(spec_page_size)]
    pub fn page_size(&self) -> (size: u8)
        ensures
            size == self.spec_page_size(),
    {
        match self.num_per_page {
            Some(n) => if n <= MAX_REVIEW_NUM_PER_PAGE {
                n
            } else {
                MAX_REVIEW_NUM_PER_PAGE
            },
            None => DEFAULT_REVIEW_NUM_PER_PAGE,
        }
    }

    /// Whether `page` ends the walk: it holds fewer reviews than a full page.
    pub open spec fn is_last_page(self, page: Reviews) -> bool {
        page.query_summary.num_reviews < self.page_size()
    }

    /// The filter for the page after `page`: the same filter, starting at
    /// the cursor that came with `page`.
    pub open spec fn following(self, page: Reviews) -> ReviewsFilter {
        ReviewsFilter { cursor: Some(page.cursor), ..self }
    }

    /// Moves the filter past `page`, which it was sent for.
    ///
    /// Where `page` is full, the filter takes the page's cursor, unchanged,
    /// and the result is `true`: there may be more to read. Where `page` is
    /// short, the walk is over: the filter stays as it is and the result is
    /// `false`.
    pub fn advance(&mut self, page: &Reviews) -> (more: bool)
        ensures
            more == !old(self).is_last_page(*page),
            more ==> *final(self) == old(self).following(*page),
            !more ==> *final(self) == *old(self),
    {
        if page.query_summary.num_reviews < self.page_size() as u32 {
            false
        } else {
            self.cursor = Some(page.cursor.clone());
            true
        }
    }
}

/// The number of pages that a walk reads from `pages`, the pages that the
/// store would answer with one after the other: every page up to the first
/// short one, or all of them where none is short.
pub open spec fn pages_read(filter: ReviewsFilter, pages: Seq<Reviews>) -> nat
    decreases pages.len(),
{
    if pages.len() == 0 {
        0
    } else if filter.is_last_page(pages[0]) {
        1
    } else {
        1 + pages_read(filter.following(pages[0]), pages.drop_first())
    }
}

/// The reviews that a walk over `pages` collects, in the order in which it
/// reads them.
pub open spec fn reviews_read(filter: ReviewsFilter, pages: Seq<Reviews>) -> Seq<Review>
    decreases pages.len(),
{
    if pages.len() == 0 {
        Seq::empty()
    } else if filter.is_last_page(pages[0]) {
        pages[0].reviews@
    } else {
        pages[0].reviews@ + reviews_read(filter.following(pages[0]), pages.drop_first())
    }
}

/// The cursor that a walk over `pages` sends with its request number `n`,
/// counted from 0.
pub open spec fn cursor_sent(filter: ReviewsFilter, pages: Seq<Reviews>, n: nat) -> Option<String>
    decreases n,
{
    if n == 0 {
        filter.cursor
    } else {
        cursor_sent(filter.following(pages[0]), pages.drop_first(), (n - 1) as nat)
    }
}

/// The reviews of `pages`, page after page.
pub open spec fn all_reviews(pages: Seq<Reviews>) -> Seq<Review>
    decreases pages.len(),
{
    if pages.len() == 0 {
        Seq::empty()
    } else {
        pages[0].reviews@ + all_reviews(pages.drop_first())
    }
}

/// A walk ends at the first short page and keeps what it read as it came.
///
/// Let the store answer with `pages`, of which the first `full` are full
/// pages and the next one is short. Then the walk reads `full + 1` pages and
/// no more. What it collects is those pages' reviews, page after page, each
/// page in its own order and each review once: where no review stands twice
/// in the pages, none stands twice in what was collected. Every request
/// after the first carries the cursor of the page before it.
pub proof fn lemma_walk_ends_at_short_page(filter: ReviewsFilter, pages: Seq<Reviews>, full: int)
    requires
        0 <= full < pages.len(),
        forall|i: int| 0 <= i < full ==> !filter.is_last_page(#[trigger] pages[i]),
        filter.is_last_page(pages[full]),
    ensures
        pages_read(filter, pages) == full + 1,
        reviews_read(filter, pages) == all_reviews(pages.take(full + 1)),
        all_reviews(pages.take(full + 1)).no_duplicates() ==> reviews_read(
            filter,
            pages,
        ).no_duplicates(),
        forall|n: nat|
            1 <= n <= full ==> cursor_sent(filter, pages, n) == Some(
                (#[trigger] pages[n - 1]).cursor,
            ),
    decreases full,
{
    let read = pages.take(full + 1);
    assert(read[0] == pages[0]);
    if full == 0 {
        assert(read.drop_first() =~= Seq::<Reviews>::empty());
        assert(all_reviews(read.drop_first()) =~= Seq::<Review>::empty());
        assert(all_reviews(read) =~= pages[0].reviews@);
    } else {
        let next = filter.following(pages[0]);
        let rest = pages.drop_first();
        assert(next.page_size() == filter.page_size());
        assert forall|i: int| 0 <= i < full - 1 implies !next.is_last_page(#[trigger] rest[i]) by {
            assert(rest[i] == pages[i + 1]);
        }
        assert(rest[full - 1] == pages[full]);
        lemma_walk_ends_at_short_page(next, rest, full - 1);
        assert(read.drop_first() =~= rest.take(full));
        assert forall|n: nat| 1 <= n <= full implies cursor_sent(filter, pages, n) == Some(
            (#[trigger] pages[n - 1]).cursor,
        ) by {
            if n == 1 {
                assert(cursor_sent(next, rest, 0) == next.cursor);
            } else {
                assert(rest[n - 2] == pages[n - 1]);
                assert(cursor_sent(next, rest, (n - 1) as nat) == Some(rest[n - 2].cursor));
            }
        }
    }
}

/// The cursor passes through unchanged.
///
/// The filter for the page after `page` holds exactly the cursor that came
/// with `page`, and sends exactly that cursor as its `cursor` parameter,
/// right after `json`.
pub proof fn lemma_cursor_passes_through(filter: ReviewsFilter, page: Reviews)
    ensures
        filter.following(page).cursor == Some(page.cursor),
        filter.following(page).url_params()[1] == ("cursor"@, page.cursor@),
{
}

/// Appends the parameter `name=value` where there is a value.
fn push_param(params: &mut Vec<(&'static str, String)>, name: &'static str, value: Option<String>)
    ensures
        params_text(final(params)@) == params_text(old(params)@) + (match value {
            Some(v) => seq![(name@, v@)],
            None => Seq::empty(),
        }),
{
    if let Some(v) = value {
        params.push((name, v));
    }
}

} // verus!
