//! The items that most callers need, in one place.

pub use crate::address::with_query;
pub use crate::app::{
    Achievement, Achievements, App, AppDetails, AppsIn, Categorie, ContentDescriptors, Genre,
    GenreData, Metacritic, Movie, MovieFormat, Recommendations, Requirements, Screenshot,
    SupportInfo, Tab, TabItem,
};
pub use crate::envelope::{take_answer, Envelope, IdMap};
pub use crate::error::SteamErr;
pub use crate::ids::{id_to_string, join_ids, parse_id};
pub use crate::package::{Controller, DlcData, DlcDetails, PackageApp, PackageDetails};
pub use crate::price::{
    AppPrice, Featured, FeaturedCategorie, FeaturedCategories, FeaturedItem, PackagePrice, Price,
    PriceOverview,
};
pub use crate::request::Request;
pub use crate::review::{
    Author, Filter, OfftopicActivity, PurchaseType, QuerySummary, Review, ReviewType, Reviews,
    ReviewsFilter,
};
pub use crate::steam::{Steam, SteamBuilder};
pub use crate::types::{Language, Platforms, ReleaseDate};
