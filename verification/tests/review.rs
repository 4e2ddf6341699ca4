use steam_store_api::review::{
    Author, Filter, OfftopicActivity, PurchaseType, QuerySummary, Review, ReviewType, Reviews,
    ReviewsFilter, DEFAULT_REVIEW_NUM_PER_PAGE, MAX_DAY_RANGE, MAX_REVIEW_NUM_PER_PAGE,
};
use steam_store_api::types::Language;

fn pairs(filter: &ReviewsFilter) -> Vec<(String, String)> {
    filter
        .to_url_params()
        .into_iter()
        .map(|(name, value)| (name.to_string(), value))
        .collect()
}

fn pair(name: &str, value: &str) -> (String, String) {
    (name.to_string(), value.to_string())
}

fn review(id: &str) -> Review {
    Review {
        review_id: id.to_string(),
        author: Author {
            user_id: format!("user-{}", id),
            num_games_owned: 1,
            num_reviews: 2,
            playtime_forever: 3,
            playtime_last_two_weeks: 4,
            playtime_at_review: 5,
            last_played: 6,
        },
        language: "english".to_string(),
        review: format!("text of {}", id),
        timestamp_created: 10,
        timestamp_updated: 11,
        received_for_free: false,
        steam_purchase: true,
        voted_up: true,
        votes_up: 0,
        votes_funny: 0,
        weighted_vote_score: "0.5".to_string(),
        written_during_early_access: false,
        comment_count: None,
    }
}

fn page(first: usize, count: usize, cursor: &str) -> Reviews {
    Reviews {
        success: 1,
        app_id: 0,
        reviews: (first..first + count).map(|n| review(&n.to_string())).collect(),
        query_summary: QuerySummary {
            num_reviews: count as u32,
            review_score: None,
            review_score_desc: None,
            total_positive: None,
            total_negative: None,
            total_reviews: None,
        },
        cursor: cursor.to_string(),
    }
}

#[test]
fn constants_are_the_stores_limits() {
    assert_eq!(MAX_REVIEW_NUM_PER_PAGE, 100);
    assert_eq!(DEFAULT_REVIEW_NUM_PER_PAGE, 20);
    assert_eq!(MAX_DAY_RANGE, 365);
}

#[test]
fn tokens_of_the_filter_enums() {
    assert_eq!(Filter::All.as_ref(), "all");
    assert_eq!(Filter::Recent.as_ref(), "recent");
    assert_eq!(Filter::Updated.as_ref(), "updated");
    assert_eq!(ReviewType::All.as_ref(), "all");
    assert_eq!(ReviewType::Positive.as_ref(), "positive");
    assert_eq!(ReviewType::Negative.as_ref(), "negative");
    assert_eq!(PurchaseType::All.as_ref(), "all");
    assert_eq!(PurchaseType::NonSteamPurchase.as_ref(), "nonsteampurchase");
    assert_eq!(PurchaseType::Steam.as_ref(), "steam");
}

#[test]
fn defaults_of_the_filter_enums() {
    assert_eq!(Filter::default(), Filter::All);
    assert_eq!(ReviewType::default(), ReviewType::All);
    assert_eq!(PurchaseType::default(), PurchaseType::All);
    assert_eq!(OfftopicActivity::default(), OfftopicActivity::Exclude);
}

#[test]
fn default_filter_sets_nothing() {
    let filter = ReviewsFilter::default();
    assert!(filter.filter.is_none());
    assert!(filter.review_type.is_none());
    assert!(filter.purchase_type.is_none());
    assert!(filter.language.is_none());
    assert!(filter.day_range.is_none());
    assert!(filter.cursor.is_none());
    assert!(filter.num_per_page.is_none());
    assert_eq!(filter.offtopic_activity, OfftopicActivity::Exclude);
}

#[test]
fn default_filter_sends_json_alone() {
    assert_eq!(pairs(&ReviewsFilter::default()), vec![pair("json", "1")]);
}

#[test]
fn full_filter_sends_every_parameter_in_order() {
    let filter = ReviewsFilter {
        filter: Some(Filter::Recent),
        review_type: Some(ReviewType::Positive),
        purchase_type: Some(PurchaseType::NonSteamPurchase),
        language: Some(Language::English),
        day_range: Some(30),
        cursor: Some("AoJ4/abc==".to_string()),
        num_per_page: Some(50),
        offtopic_activity: OfftopicActivity::Include,
    };
    assert_eq!(
        pairs(&filter),
        vec![
            pair("json", "1"),
            pair("cursor", "AoJ4/abc=="),
            pair("filter", "recent"),
            pair("language", "english"),
            pair("review_type", "positive"),
            pair("purchase_type", "nonsteampurchase"),
            pair("day_range", "30"),
            pair("num_per_page", "50"),
            pair("filter_offtopic_activity", "0"),
        ]
    );
}

#[test]
fn offtopic_parameter_is_sent_only_to_include() {
    let filter = ReviewsFilter { offtopic_activity: OfftopicActivity::Exclude, ..ReviewsFilter::default() };
    assert_eq!(pairs(&filter), vec![pair("json", "1")]);
    let filter = ReviewsFilter { offtopic_activity: OfftopicActivity::Include, ..ReviewsFilter::default() };
    assert_eq!(pairs(&filter), vec![pair("json", "1"), pair("filter_offtopic_activity", "0")]);
}

#[test]
fn day_range_is_capped_at_the_maximum() {
    for (set, sent) in [(0u16, "0"), (1, "1"), (10, "10"), (364, "364"), (365, "365"), (366, "365"), (1000, "365"), (u16::MAX, "365")] {
        let filter = ReviewsFilter { day_range: Some(set), ..ReviewsFilter::default() };
        assert_eq!(pairs(&filter), vec![pair("json", "1"), pair("day_range", sent)]);
    }
}

#[test]
fn num_per_page_is_capped_at_the_maximum() {
    for (set, sent) in [(0u8, "0"), (1, "1"), (20, "20"), (99, "99"), (100, "100"), (101, "100"), (255, "100")] {
        let filter = ReviewsFilter { num_per_page: Some(set), ..ReviewsFilter::default() };
        assert_eq!(pairs(&filter), vec![pair("json", "1"), pair("num_per_page", sent)]);
    }
}

#[test]
fn page_size_is_what_is_sent_or_the_default() {
    assert_eq!(ReviewsFilter::default().page_size(), 20);
    assert_eq!(ReviewsFilter { num_per_page: Some(5), ..ReviewsFilter::default() }.page_size(), 5);
    assert_eq!(ReviewsFilter { num_per_page: Some(100), ..ReviewsFilter::default() }.page_size(), 100);
    assert_eq!(ReviewsFilter { num_per_page: Some(200), ..ReviewsFilter::default() }.page_size(), 100);
}

#[test]
fn advance_takes_the_cursor_of_a_full_page() {
    let mut filter = ReviewsFilter { num_per_page: Some(3), ..ReviewsFilter::default() };
    let more = filter.advance(&page(0, 3, "AoJ4+x/y=="));
    assert!(more);
    assert_eq!(filter.cursor.as_deref(), Some("AoJ4+x/y=="));
    assert_eq!(filter.num_per_page, Some(3));
}

#[test]
fn advance_stops_at_a_short_page() {
    let mut filter = ReviewsFilter {
        num_per_page: Some(3),
        cursor: Some("before".to_string()),
        ..ReviewsFilter::default()
    };
    let more = filter.advance(&page(0, 2, "after"));
    assert!(!more);
    assert_eq!(filter.cursor.as_deref(), Some("before"));
}

#[test]
fn advance_goes_by_the_default_page_size() {
    let mut filter = ReviewsFilter::default();
    assert!(filter.advance(&page(0, 20, "c1")));
    assert!(!filter.advance(&page(20, 19, "c2")));
    assert_eq!(filter.cursor.as_deref(), Some("c1"));
}

#[test]
fn cursor_passes_through_unchanged() {
    let cursor = "AoJ4 +/=&?%41\u{00e9}*";
    let mut filter = ReviewsFilter { num_per_page: Some(1), ..ReviewsFilter::default() };
    assert!(filter.advance(&page(0, 1, cursor)));
    assert_eq!(filter.cursor.as_deref(), Some(cursor));
    let sent = pairs(&filter);
    assert_eq!(sent[1], pair("cursor", cursor));
}

#[test]
fn walk_ends_after_the_first_short_page() {
    let script = vec![page(0, 3, "c1"), page(3, 3, "c2"), page(6, 1, "c3"), page(7, 3, "c4")];
    let mut filter = ReviewsFilter { num_per_page: Some(3), ..ReviewsFilter::default() };
    let mut sent: Vec<Option<String>> = Vec::new();
    let mut collected: Vec<String> = Vec::new();
    let mut read = 0;
    for answer in &script {
        sent.push(filter.cursor.clone());
        read += 1;
        for review in &answer.reviews {
            collected.push(review.review_id.clone());
        }
        if !filter.advance(answer) {
            break;
        }
    }
    assert_eq!(read, 3);
    assert_eq!(sent, vec![None, Some("c1".to_string()), Some("c2".to_string())]);
    assert_eq!(collected, vec!["0", "1", "2", "3", "4", "5", "6"]);
    let mut unique = collected.clone();
    unique.sort();
    unique.dedup();
    assert_eq!(unique.len(), collected.len());
}
