//! Applications, and the lists of applications by genre and category.

use std::collections::HashMap;
use vstd::prelude::*;

use crate::price::AppPrice;
use crate::types::{Platforms, ReleaseDate};

verus! {

/// What the store knows of an application.
#[derive(Hash, Debug)]
pub struct AppDetails {
    /// Observed values: "game", "dlc", "demo", "advertising", "mod", "video".
    pub kind: String,
    pub name: String,
    pub app_id: u64,
    pub required_age: Option<u8>,
    pub is_free: Option<bool>,
    pub controller_support: Option<String>,
    /// The identifiers of the application's downloadable content.
    pub dlc: Option<Vec<i64>>,
    pub detailed_description: Option<String>,
    pub about_the_game: Option<String>,
    pub short_description: Option<String>,
    pub supported_languages: Option<String>,
    pub header_image: Option<String>,
    pub capsule_image: Option<String>,
    pub capsule_imagev5: Option<String>,
    pub website: Option<String>,
    pub pc_requirements: Option<Requirements>,
    pub mac_requirements: Option<Requirements>,
    pub linux_requirements: Option<Requirements>,
    pub legal_notice: Option<String>,
    pub developers: Option<Vec<String>>,
    pub publishers: Option<Vec<String>>,
    pub price_overview: Option<AppPrice>,
    /// The identifiers of the packages that hold the application.
    pub packages: Option<Vec<u64>>,
    pub platforms: Option<Platforms>,
    pub metacritic: Option<Metacritic>,
    pub categories: Option<Vec<Categorie>>,
    pub genres: Option<Vec<Genre>>,
    pub screenshots: Option<Vec<Screenshot>>,
    pub movies: Option<Vec<Movie>>,
    pub recommendations: Option<Recommendations>,
    pub achievements: Option<Achievements>,
    pub release_date: Option<ReleaseDate>,
    pub support_info: Option<SupportInfo>,
    pub background: Option<String>,
    pub background_raw: Option<String>,
    pub content_descriptors: Option<ContentDescriptors>,
}

#[derive(Hash, Debug)]
pub struct ContentDescriptors {
    pub ids: Vec<u64>,
    pub notes: Option<String>,
}

#[derive(Hash, Debug)]
pub struct SupportInfo {
    pub url: String,
    pub email: String,
}

#[derive(Hash, Debug)]
pub struct Achievement {
    pub name: String,
    pub path: String,
}

#[derive(Hash, Debug)]
pub struct Achievements {
    pub total: u32,
    pub highlighted: Option<Vec<Achievement>>,
}

/// The addresses of a movie in one format.
#[derive(Hash, Debug)]
pub struct MovieFormat {
    /// The movie at a height of 480 pixels.
    pub x480: String,
    /// The movie at its full size.
    pub max: String,
}

#[derive(Hash, Debug)]
pub struct Movie {
    pub id: u64,
    pub name: String,
    pub thumbnail: String,
    pub highlight: bool,
    pub webm: MovieFormat,
    pub mp4: MovieFormat,
}

#[derive(Hash, Debug)]
pub struct Screenshot {
    pub id: u64,
    pub path_thumbnail: String,
    pub path_full: String,
}

#[derive(Hash, Debug)]
pub struct Metacritic {
    pub score: u8,
    pub url: String,
}

#[derive(Hash, Debug)]
pub struct Requirements {
    pub minimum: Option<String>,
    pub recommended: Option<String>,
}

#[derive(Hash, Debug)]
pub struct Recommendations {
    pub total: u64,
}

#[derive(Hash, Debug)]
pub struct Categorie {
    /// The store's identifier of the category.
    pub id: u8,
    pub description: String,
}

#[derive(Hash, Debug)]
pub struct Genre {
    /// The store's identifier of the genre.
    pub id: String,
    pub name: Option<String>,
    pub description: Option<String>,
}

/// The list of genres, as the store answers with it.
#[derive(Debug)]
pub struct GenreData {
    /// 1 where the store answered the request.
    pub status: i8,
    pub genres: Vec<Genre>,
}

#[derive(Hash, Debug)]
pub struct App {
    /// The application's identifier.
    pub app_id: u64,
    /// The application's name.
    pub name: String,
}

/// The applications of a genre or a category.
#[derive(Debug)]
pub struct AppsIn {
    /// 1 where the store answered the request.
    pub status: i8,
    /// The identifier of the genre or category.
    pub id: String,
    /// The name of the genre or category.
    pub name: String,
    /// The tabs with their items, such as Top Sellers or Specials.
    pub tabs: Option<HashMap<String, Tab>>,
}

#[derive(Hash, Debug)]
pub struct Tab {
    pub name: String,
    pub total_item_count: u64,
    pub items: Vec<TabItem>,
}

#[derive(Hash, Debug)]
pub struct TabItem {
    /// Game, DLC, movie and so on, as the store numbers them.
    pub kind: u8,
    /// The application's identifier.
    pub app_id: u64,
}

} // verus!
