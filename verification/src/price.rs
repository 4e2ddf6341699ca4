//! Prices, and the lists of featured products that come with them.

use std::collections::HashMap;
use vstd::prelude::*;

verus! {

/// The featured page of the store.
#[derive(Hash, Debug)]
pub struct Featured {
    pub featured_win: Vec<FeaturedItem>,
    pub featured_mac: Vec<FeaturedItem>,
    pub featured_linux: Vec<FeaturedItem>,
    /// 1 where the store answered the request.
    pub status: i32,
}

/// The featured categories of the store, as the store answers with them.
#[derive(Debug)]
pub struct FeaturedCategories {
    /// 1 where the store answered the request.
    pub status: i8,
    /// The categories, by the names that the store gives them, such as
    /// `specials` or `top_sellers`.
    pub featured_categories: HashMap<String, FeaturedCategorie>,
}

/// One featured category with its products.
#[derive(Hash, Debug)]
pub struct FeaturedCategorie {
    pub id: String,
    pub name: String,
    pub items: Option<Vec<FeaturedItem>>,
}

/// A product on a featured list.
#[derive(Hash, Debug)]
pub struct FeaturedItem {
    pub app_id: usize,
    /// Game, DLC, movie and so on, as the store numbers them.
    pub kind: u8,
    pub name: String,
    pub discounted: bool,
    pub discount_percent: u8,
    /// Pre-discount application price.
    pub original_price: Option<u32>,
    /// Post-discount application price.
    pub final_price: u32,
    /// What currency prices are denoted in.
    pub currency: String,
    pub large_capsule_image: String,
    pub small_capsule_image: String,
    pub windows_available: bool,
    pub mac_available: bool,
    pub linux_available: bool,
    pub streamingvideo_available: bool,
    /// Unix timestamp of when the discount noted above expires.
    /// Is not provided if the app is not discounted.
    pub discount_expiration: Option<usize>,
    pub header_image: String,
    pub controller_support: Option<String>,
}

/// A price in the smallest unit of its currency.
#[derive(Hash, Debug)]
pub struct Price {
    /// What currency prices are denoted in.
    pub currency: String,
    /// Pre-discount price.
    pub initial: u32,
    /// Post-discount price.
    pub final_price: u32,
    /// The discount, in percent of the pre-discount price.
    pub discount_percent: u8,
}

impl Price {
    /// Whether the discount is a percentage: at most 100. The amounts are
    /// unsigned, so none is negative.
    ///
    /// The store's answers are taken as they come: nothing in this crate
    /// makes a price or changes one, so a price that came well-formed stays
    /// so, and one that did not is handed on as it is. `is_well_formed`
    /// tests a price.
    pub open spec fn well_formed(self) -> bool {
        self.discount_percent <= 100
    }

    /// Tests whether the discount is a percentage.
    pub fn is_well_formed(&self) -> (ok: bool)
        ensures
            ok == self.well_formed(),
    {
        self.discount_percent <= 100
    }
}

/// The data of a price lookup for one application.
#[derive(Debug)]
pub struct PriceOverview {
    pub price_overview: AppPrice,
}

/// The price of an application.
#[derive(Hash, Debug)]
pub struct AppPrice {
    /// The application that the price is of. The store does not send it with
    /// the price: it is the key under which the price came.
    pub app_id: u64,
    pub final_formatted: String,
    pub initial_formatted: String,
    pub price: Price,
}

/// The price of a package.
#[derive(Hash, Debug)]
pub struct PackagePrice {
    pub individual: u32,
    pub price: Price,
}

} // verus!
