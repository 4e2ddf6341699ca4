//! What is asked of the store: the path of an endpoint and the parameters
//! of the query, before the client's language and country are added.

use vstd::prelude::*;
use vstd::string::StringExecFns;

use crate::ids::{comma_joined, decimal, id_to_string, join_ids};
use crate::review::ReviewsFilter;

verus! {

/// One parameter of a query as plain text: its name and its value.
pub open spec fn param_text(param: (&'static str, String)) -> (Seq<char>, Seq<char>) {
    (param.0@, param.1@)
}

/// The parameters of a query as plain text, in their order.
pub open spec fn params_text(params: Seq<(&'static str, String)>) -> Seq<(Seq<char>, Seq<char>)> {
    params.map_values(|param: (&'static str, String)| param_text(param))
}

/// A request to the store: the path of its endpoint, relative to the
/// store's address, and the parameters of its query in the order in which
/// they are sent. The values are plain text; they are encoded when the
/// address is made, and only then.
#[derive(Debug)]
pub struct Request {
    pub path: String,
    pub params: Vec<(&'static str, String)>,
}

impl Request {
    /// The parameters as plain text, in their order.
    pub open spec fn query(self) -> Seq<(Seq<char>, Seq<char>)> {
        params_text(self.params@)
    }

    /// A request to `path` with no parameter.
    fn plain(path: &str) -> (request: Self)
        ensures
            request.path@ == path@,
            request.query() == Seq::<(Seq<char>, Seq<char>)>::empty(),
    {
        let request = Request { path: path.to_owned(), params: Vec::new() };
        assert(request.query() =~= Seq::<(Seq<char>, Seq<char>)>::empty());
        request
    }

    /// A request to `path` with the one parameter `name=value`.
    fn single(path: &str, name: &'static str, value: String) -> (request: Self)
        ensures
            request.path@ == path@,
            request.query() == seq![(name@, value@)],
    {
        let mut params: Vec<(&'static str, String)> = Vec::new();
        params.push((name, value));
        let request = Request { path: path.to_owned(), params };
        assert(request.query() =~= seq![(name@, value@)]);
        request
    }

    /// Asks for the featured page of the store.
    pub fn featured() -> (request: Self)
        ensures
            request.path@ == "api/featured/"@,
            request.query() == Seq::<(Seq<char>, Seq<char>)>::empty(),
    {
        Request::plain("api/featured/")
    }

    /// Asks for the list of genres.
    pub fn genres() -> (request: Self)
        ensures
            request.path@ == "api/getgenrelist/"@,
            request.query() == Seq::<(Seq<char>, Seq<char>)>::empty(),
    {
        Request::plain("api/getgenrelist/")
    }

    /// Asks for the applications of a genre, such as `action` or `rpg`.
    pub fn apps_in_genre(genre: &str) -> (request: Self)
        ensures
            request.path@ == "api/getappsingenre/"@,
            request.query() == seq![("genre"@, genre@)],
    {
        Request::single("api/getappsingenre/", "genre", genre.to_owned())
    }

    /// Asks for the applications of a category, such as `cat_comingsoon` or
    /// `cat_newreleases`.
    pub fn apps_in_category(category: &str) -> (request: Self)
        ensures
            request.path@ == "api/getappsincategory/"@,
            request.query() == seq![("category"@, category@)],
    {
        Request::single("api/getappsincategory/", "category", category.to_owned())
    }

    /// Asks for the featured categories with their prices.
    pub fn featured_categories() -> (request: Self)
        ensures
            request.path@ == "api/featuredcategories/"@,
            request.query() == Seq::<(Seq<char>, Seq<char>)>::empty(),
    {
        Request::plain("api/featuredcategories/")
    }

    /// Asks for the details of a package.
    pub fn package(pkg_id: &u64) -> (request: Self)
        ensures
            request.path@ == "api/packagedetails/"@,
            request.query() == seq![("packageids"@, decimal(*pkg_id as nat))],
    {
        Request::single("api/packagedetails/", "packageids", id_to_string(*pkg_id))
    }

    /// Asks for one page of the reviews of an application.
    pub fn reviews(app_id: &u64, filter: &ReviewsFilter) -> (request: Self)
        ensures
            request.path@ == "appreviews/"@ + decimal(*app_id as nat),
            request.query() == filter.url_params(),
    {
        let mut path = "appreviews/".to_owned();
        let id = id_to_string(*app_id);
        path.append(id.as_str());
        Request { path, params: filter.to_url_params() }
    }

    /// Asks for the downloadable content of an application.
    pub fn dlc(app_id: &u64) -> (request: Self)
        ensures
            request.path@ == "api/dlcforapp/"@,
            request.query() == seq![("appid"@, decimal(*app_id as nat))],
    {
        Request::single("api/dlcforapp/", "appid", id_to_string(*app_id))
    }

    /// Asks for the details of an application.
    pub fn app(app_id: &u64) -> (request: Self)
        ensures
            request.path@ == "api/appdetails/"@,
            request.query() == seq![("appids"@, decimal(*app_id as nat))],
    {
        Request::single("api/appdetails/", "appids", id_to_string(*app_id))
    }

    /// Asks for the prices of several applications at once: their
    /// identifiers go into one parameter, joined by commas.
    pub fn price(app_ids: &Vec<u64>) -> (request: Self)
        ensures
            request.path@ == "api/appdetails/"@,
            request.query() == seq![
                ("appids"@, comma_joined(app_ids@)),
                ("filters"@, "price_overview"@),
            ],
    {
        let mut params: Vec<(&'static str, String)> = Vec::new();
        params.push(("appids", join_ids(app_ids)));
        params.push(("filters", "price_overview".to_owned()));
        let request = Request { path: "api/appdetails/".to_owned(), params };
        assert(request.query() =~= seq![
            ("appids"@, comma_joined(app_ids@)),
            ("filters"@, "price_overview"@),
        ]);
        request
    }
}

} // verus!
