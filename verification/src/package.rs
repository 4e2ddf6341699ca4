//! Packages of applications, and the downloadable content of an application.

use vstd::prelude::*;

use crate::price::{PackagePrice, Price};
use crate::types::{Platforms, ReleaseDate};

verus! {

/// A package: applications that the store sells together.
#[derive(Hash, Debug)]
pub struct PackageDetails {
    /// The package's identifier. The store does not send it with the
    /// details: it is the key under which the details came.
    pub pkg_id: u64,
    pub name: String,
    pub page_image: String,
    pub small_logo: String,
    /// The applications that the package contains.
    pub apps: Vec<PackageApp>,
    pub price: PackagePrice,
    pub platforms: Platforms,
    pub controller: Controller,
    pub release_date: ReleaseDate,
}

/// An application of a package.
#[derive(Hash, Debug)]
pub struct PackageApp {
    pub app_id: u64,
    pub name: String,
}

/// What a package supports of game controllers.
#[derive(Hash, Debug)]
pub struct Controller {
    pub full_gamepad: bool,
}

/// The downloadable content of an application.
#[derive(Hash, Debug)]
pub struct DlcData {
    /// 1 where the store answered the request.
    pub status: i8,
    pub app_id: String,
    pub name: String,
    /// The list of content. The store leaves it out where there is none.
    pub dlc: Option<Vec<DlcDetails>>,
}

/// One piece of downloadable content.
#[derive(Hash, Debug)]
pub struct DlcDetails {
    pub dlc_id: u64,
    pub name: String,
    pub header_image: String,
    pub price_overview: Price,
    pub platforms: Platforms,
    pub release_date: ReleaseDate,
    pub controller_support: Option<String>,
}

} // verus!
