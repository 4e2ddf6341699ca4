//! The client: what it asks of the store, and what it makes of the answers.
//!
//! Each operation of the store comes in two steps with the transport in
//! between. `Request` says what to ask for, and `Steam::url` gives the
//! address to send it to. Once the body that came back is decoded, the
//! method of `Steam` that is named after the operation says what it
//! amounts to.

use std::collections::HashMap;
use url::Url;
use vstd::prelude::*;

use crate::address::{fits, url_join, url_parse, url_text, with_pairs, with_query};
use crate::app::{AppDetails, AppsIn, Genre, GenreData};
use crate::country::{alpha2_known, is_alpha2, to_uppercase, uppercase};
use crate::envelope::{
    entries_text, has_key, index_of, is_answer_for, status_outcome, take_answer, Envelope, IdMap,
};
use crate::error::SteamErr;
use crate::ids::{decimal, id_value, lemma_id_text_round_trip, parse_id};
use crate::package::{DlcData, PackageDetails};
use crate::price::{AppPrice, Featured, FeaturedCategorie, FeaturedCategories, PriceOverview};
use crate::request::{params_text, Request};
use crate::review::Reviews;
use crate::types::Language;

verus! {

/// The address of the store, which every endpoint is relative to.
pub const STORE_URL: &'static str = "https://store.steampowered.com";

/// Builder for `Steam`.
#[derive(Debug)]
pub struct SteamBuilder {
    language: Option<Language>,
    country_code: Option<String>,
    store_url: String,
}

impl Default for SteamBuilder {
    fn default() -> (builder: Self)
        ensures
            builder.language() is None,
            builder.country_code() is None,
            builder.store_url() == STORE_URL@,
    {
        Self::new()
    }
}

impl SteamBuilder {
    /// The language chosen so far.
    pub closed spec fn language(self) -> Option<Language> {
        self.language
    }

    /// The country code chosen so far, as it is kept: in upper case.
    pub closed spec fn country_code(self) -> Option<Seq<char>> {
        match self.country_code {
            Some(code) => Some(code@),
            None => None,
        }
    }

    /// The address of the store.
    pub closed spec fn store_url(self) -> Seq<char> {
        self.store_url@
    }

    /// Whether `build` accepts the builder: it has no country code, or one
    /// that ISO 3166-1 knows.
    pub open spec fn accepted(self) -> bool {
        self.country_code() matches Some(code) ==> alpha2_known(code)
    }

    /// A builder with no language and no country chosen.
    pub fn new() -> (builder: Self)
        ensures
            builder.language() is None,
            builder.country_code() is None,
            builder.store_url() == STORE_URL@,
    {
        SteamBuilder { language: None, country_code: None, store_url: STORE_URL.to_owned() }
    }

    /// Builds the client, or fails with `IncorrectCountryCode` where a
    /// country code was chosen that ISO 3166-1 does not know. Nothing is
    /// sent.
    pub fn build(self) -> (result: Result<Steam, SteamErr>)
        ensures
            self.accepted() ==> (result matches Ok(steam) && steam.language() == self.language()
                && steam.country_code() == self.country_code() && steam.store_url()
                == self.store_url()),
            !self.accepted() ==> result == Err::<Steam, SteamErr>(SteamErr::IncorrectCountryCode),
    {
        let known = match &self.country_code {
            Some(code) => is_alpha2(code.as_str()),
            None => true,
        };
        self.build_checked(known)
    }

    /// Builds the client from a builder whose country code has been looked
    /// up: `known` says whether it was found. It is taken as found where
    /// there is none.
    pub fn build_checked(self, known: bool) -> (result: Result<Steam, SteamErr>)
        ensures
            (known || self.country_code() is None) ==> (result matches Ok(steam)
                && steam.language() == self.language() && steam.country_code()
                == self.country_code() && steam.store_url() == self.store_url()),
            !(known || self.country_code() is None) ==> result == Err::<Steam, SteamErr>(
                SteamErr::IncorrectCountryCode,
            ),
    {
        if self.country_code.is_some() && !known {
            return Err(SteamErr::IncorrectCountryCode);
        }
        Ok(
            Steam {
                language: self.language,
                country_code: self.country_code,
                store_url: self.store_url,
            },
        )
    }

    /// Chooses the country by its ISO 3166-1 alpha-2 code, in either case:
    /// the code is kept in upper case.
    pub fn with_country_code(self, country_code: &str) -> (builder: Self)
        ensures
            builder.country_code() == Some(uppercase(country_code@)),
            builder.language() == self.language(),
            builder.store_url() == self.store_url(),
    {
        let mut builder = self;
        builder.country_code = Some(to_uppercase(country_code));
        builder
    }

    /// Chooses the language of the texts that the store sends.
    pub fn with_language(self, language: &Language) -> (builder: Self)
        ensures
            builder.language() == Some(*language),
            builder.country_code() == self.country_code(),
            builder.store_url() == self.store_url(),
    {
        let mut builder = self;
        builder.language = Some(*language);
        builder
    }
}

/// The client for the Steam store. It is fixed once built: no operation
/// changes it.
#[derive(Debug)]
pub struct Steam {
    language: Option<Language>,
    country_code: Option<String>,
    store_url: String,
}

/// What `Steam::url` gives for a store at `base`, a path and the pairs of
/// the query: the address that the `url` crate makes of them, or the error
/// with which it fails.
pub open spec fn is_address_of(
    result: Result<Url, SteamErr>,
    base: Seq<char>,
    path: Seq<char>,
    pairs: Seq<(Seq<char>, Seq<char>)>,
) -> bool {
    match url_parse(base) {
        Err(error) => result == Err::<Url, SteamErr>(SteamErr::UrlError(error)),
        Ok(store) => match url_join(store, path) {
            Err(error) => result == Err::<Url, SteamErr>(SteamErr::UrlError(error)),
            Ok(endpoint) => if fits(endpoint, pairs) {
                result matches Ok(url) && url_text(url) == with_pairs(endpoint, pairs)
            } else {
                result matches Err(SteamErr::UrlError(_))
            },
        },
    }
}

impl Steam {
    /// The language that the client asks for.
    pub closed spec fn language(self) -> Option<Language> {
        self.language
    }

    /// The country that the client asks for, by its code.
    pub closed spec fn country_code(self) -> Option<Seq<char>> {
        match self.country_code {
            Some(code) => Some(code@),
            None => None,
        }
    }

    /// The address of the store.
    pub closed spec fn store_url(self) -> Seq<char> {
        self.store_url@
    }

    /// The parameters that the client adds to every query: `l` with the
    /// language's token where a language was chosen, then `cc` with the
    /// country code where a country was chosen.
    pub open spec fn locale_pairs(self) -> Seq<(Seq<char>, Seq<char>)> {
        (match self.language() {
            Some(language) => seq![("l"@, language.token())],
            None => Seq::empty(),
        }) + (match self.country_code() {
            Some(code) => seq![("cc"@, code)],
            None => Seq::empty(),
        })
    }

    /// A builder for the client.
    pub fn builder() -> (builder: SteamBuilder)
        ensures
            builder.language() is None,
            builder.country_code() is None,
            builder.store_url() == STORE_URL@,
    {
        SteamBuilder::new()
    }

    /// The parameters of the query that is sent for `request`: the
    /// request's own, in their order, then the client's language and
    /// country.
    pub fn query(&self, request: Request) -> (params: Vec<(&'static str, String)>)
        ensures
            params_text(params@) == request.query() + self.locale_pairs(),
    {
        let mut params = request.params;
        let ghost own = params_text(params@);
        if let Some(language) = &self.language {
            params.push(("l", language.as_ref().to_owned()));
        }
        let ghost with_language = params_text(params@);
        if let Some(code) = &self.country_code {
            params.push(("cc", code.clone()));
        }
        proof {
            let language_pair: Seq<(Seq<char>, Seq<char>)> = match self.language() {
                Some(language) => seq![("l"@, language.token())],
                None => Seq::empty(),
            };
            let country_pair: Seq<(Seq<char>, Seq<char>)> = match self.country_code() {
                Some(code) => seq![("cc"@, code)],
                None => Seq::empty(),
            };
            assert(with_language =~= own + language_pair);
            assert(params_text(params@) =~= with_language + country_pair);
            assert(params_text(params@) =~= own + (language_pair + country_pair));
        }
        params
    }

    /// The address that `request` is sent to: the request's path, resolved
    /// against the store's address, with the parameters of `query`.
    ///
    /// Fails with `UrlError` where the store's address or the path does not
    /// resolve, or where the address would grow past what the `url` crate
    /// supports.
    pub fn url(&self, request: Request) -> (result: Result<Url, SteamErr>)
        ensures
            is_address_of(
                result,
                self.store_url(),
                request.path@,
                request.query() + self.locale_pairs(),
            ),
    {
        let store = match Url::parse(self.store_url.as_str()) {
            Ok(store) => store,
            Err(error) => {
                return Err(SteamErr::UrlError(error));
            },
        };
        let endpoint = match store.join(request.path.as_str()) {
            Ok(endpoint) => endpoint,
            Err(error) => {
                return Err(SteamErr::UrlError(error));
            },
        };
        let params = self.query(request);
        match with_query(endpoint, &params) {
            Ok(url) => Ok(url),
            Err(error) => Err(SteamErr::UrlError(error)),
        }
    }

    /// The featured page of the store, from the store's answer.
    pub fn featured(&self, data: Featured) -> (result: Result<Featured, SteamErr>)
        ensures
            result == status_outcome(data.status as int, data),
    {
        if data.status != 1 {
            return Err(SteamErr::ResponseWithNoSuccess);
        }
        Ok(data)
    }

    /// The list of genres, from the store's answer.
    pub fn genres(&self, data: GenreData) -> (result: Result<Vec<Genre>, SteamErr>)
        ensures
            result == status_outcome(data.status as int, data.genres),
    {
        if data.status != 1 {
            return Err(SteamErr::ResponseWithNoSuccess);
        }
        Ok(data.genres)
    }

    /// The applications of a genre, from the store's answer. They are
    /// divided by tabs, such as `topsellers` or `specials`.
    pub fn apps_in_genre(&self, data: AppsIn) -> (result: Result<AppsIn, SteamErr>)
        ensures
            result == status_outcome(data.status as int, data),
    {
        if data.status != 1 {
            return Err(SteamErr::ResponseWithNoSuccess);
        }
        Ok(data)
    }

    /// The applications of a category, from the store's answer. They are
    /// divided by tabs, such as `topsellers` or `specials`.
    pub fn apps_in_category(&self, data: AppsIn) -> (result: Result<AppsIn, SteamErr>)
        ensures
            result == status_outcome(data.status as int, data),
    {
        if data.status != 1 {
            return Err(SteamErr::ResponseWithNoSuccess);
        }
        Ok(data)
    }

    /// The featured categories with their prices, such as Specials or Top
    /// Sellers, from the store's answer.
    pub fn featured_categories(&self, data: FeaturedCategories) -> (result: Result<
        HashMap<String, FeaturedCategorie>,
        SteamErr,
    >)
        ensures
            result == status_outcome(data.status as int, data.featured_categories),
    {
        if data.status != 1 {
            return Err(SteamErr::ResponseWithNoSuccess);
        }
        Ok(data.featured_categories)
    }

    /// The details of the package `pkg_id`, from the store's answer to the
    /// request for it. The details are given the identifier that they were
    /// asked under, which the store does not send with them.
    pub fn package(&self, pkg_id: &u64, data: IdMap<Envelope<PackageDetails>>) -> (result: Result<
        PackageDetails,
        SteamErr,
    >)
        ensures
            has_key(data@, decimal(*pkg_id as nat)) ==> result == (match data@[index_of(
                data@,
                decimal(*pkg_id as nat),
            )].1.outcome() {
                Ok(details) => Ok(PackageDetails { pkg_id: *pkg_id, ..details }),
                Err(error) => Err(error),
            }),
            !has_key(data@, decimal(*pkg_id as nat)) ==> (result matches Err(
                SteamErr::IdNotFound(text),
            ) && text@ == decimal(*pkg_id as nat)),
    {
        match take_answer(data, *pkg_id) {
            Ok(details) => {
                let mut details = details;
                details.pkg_id = *pkg_id;
                Ok(details)
            },
            Err(error) => Err(error),
        }
    }

    /// One page of reviews, from the store's answer.
    pub fn reviews(&self, data: Reviews) -> (result: Result<Reviews, SteamErr>)
        ensures
            result == status_outcome(data.success as int, data),
    {
        if data.success != 1 {
            return Err(SteamErr::ResponseWithNoSuccess);
        }
        Ok(data)
    }

    /// The details of the application `app_id`, from the store's answer to
    /// the request for it.
    pub fn app(&self, app_id: &u64, data: IdMap<Envelope<AppDetails>>) -> (result: Result<
        AppDetails,
        SteamErr,
    >)
        ensures
            is_answer_for(result, data@, *app_id),
    {
        take_answer(data, *app_id)
    }

    /// The downloadable content of an application, from the store's answer.
    ///
    /// Fails with `ResponseWithNoSuccess` where the status is not 1, and
    /// with `ResponseWithNoData` where the store sent no list of content:
    /// an application without any is not told apart from an answer without
    /// data.
    pub fn dlc(&self, data: DlcData) -> (result: Result<DlcData, SteamErr>)
        ensures
            result == (if data.status != 1 {
                Err(SteamErr::ResponseWithNoSuccess)
            } else if data.dlc is None {
                Err(SteamErr::ResponseWithNoData)
            } else {
                Ok(data)
            }),
    {
        if data.status != 1 {
            return Err(SteamErr::ResponseWithNoSuccess);
        }
        if data.dlc.is_none() {
            return Err(SteamErr::ResponseWithNoData);
        }
        Ok(data)
    }

    /// The prices of several applications, from the store's answer to the
    /// request for them.
    ///
    /// Where any entry reports success and carries no data, the lookup
    /// fails with `ResponseWithNoData`, whatever else the response holds
    /// and in whatever order. Otherwise there is one price for each entry
    /// whose envelope reports success, in the order of the entries,
    /// attributed to the application that its key denotes; a key of such an
    /// entry that denotes no identifier fails the lookup with
    /// `ParseIdError`. An entry whose envelope reports failure is left out
    /// without an error: to find the applications that got no price,
    /// compare the result with what was asked for.
    pub fn price(&self, data: IdMap<Envelope<PriceOverview>>) -> (result: Result<
        Vec<AppPrice>,
        SteamErr,
    >)
        ensures
            match price_outcome(data@) {
                Ok(records) => result matches Ok(prices) && prices@ == records,
                Err(None) => result matches Err(SteamErr::ResponseWithNoData),
                Err(Some(key)) => result matches Err(SteamErr::ParseIdError(text)) && text@ == key,
            },
    {
        let entries = data.into_entries();
        let ghost all = entries_text(entries@);
        let mut i: usize = 0;
        while i < entries.len()
            invariant
                i <= entries.len(),
                all == data@,
                all == entries_text(entries@),
                forall|j: int|
                    0 <= j < i ==> !((#[trigger] all[j]).1.success && all[j].1.data is None),
            decreases entries.len() - i,
        {
            if entries[i].1.success && entries[i].1.data.is_none() {
                proof {
                    assert(all[i as int].1 == entries[i as int].1);
                    assert(lacks_data(all));
                }
                return Err(SteamErr::ResponseWithNoData);
            }
            proof {
                assert(all[i as int].1 == entries[i as int].1);
            }
            i = i + 1;
        }
        assert(!lacks_data(all));
        let mut prices: Vec<AppPrice> = Vec::new();
        for entry in iter: entries
            invariant
                all == data@,
                all == entries_text(iter.seq()),
                !lacks_data(all),
                price_records(all.take(iter.index())) == Ok::<Seq<AppPrice>, Option<Seq<char>>>(
                    prices@,
                ),
        {
            let ghost at = iter.index();
            proof {
                assert(all.take(at + 1).drop_last() =~= all.take(at));
                assert(all.take(at + 1).last() == (entry.0@, entry.1));
                assert(all[at] == (entry.0@, entry.1));
            }
            let (key, envelope) = entry;
            if envelope.success {
                let overview = match envelope.data {
                    Some(overview) => overview,
                    None => {
                        return Err(SteamErr::ResponseWithNoData);
                    },
                };
                match parse_id(key.as_str()) {
                    Some(app_id) => {
                        let mut price = overview.price_overview;
                        price.app_id = app_id;
                        prices.push(price);
                    },
                    None => {
                        proof {
                            assert(price_records(all.take(at + 1)) == Err::<
                                Seq<AppPrice>,
                                Option<Seq<char>>,
                            >(Some(key@)));
                            lemma_price_records_fail(all, at);
                        }
                        return Err(SteamErr::ParseIdError(key));
                    },
                }
            }
        }
        proof {
            assert(all.take(all.len() as int) =~= all);
        }
        Ok(prices)
    }
}

/// The price of an entry, attributed to the application `app_id`.
pub open spec fn attributed(overview: PriceOverview, app_id: u64) -> AppPrice {
    AppPrice { app_id, ..overview.price_overview }
}

/// Whether some envelope of a response reports success and carries no data.
pub open spec fn lacks_data(entries: Seq<(Seq<char>, Envelope<PriceOverview>)>) -> bool {
    exists|i: int|
        0 <= i < entries.len() && (#[trigger] entries[i]).1.success && entries[i].1.data is None
}

/// What a response to a price lookup amounts to.
///
/// `Err(None)`, which stands for `ResponseWithNoData`, where any envelope
/// reports success and carries no data: neither the keys nor the order of
/// the entries matter to that. Otherwise the prices of the entries that
/// report success, or `Err(Some(key))`, which stands for `ParseIdError`,
/// with the first key of such an entry that denotes no identifier.
pub open spec fn price_outcome(entries: Seq<(Seq<char>, Envelope<PriceOverview>)>) -> Result<
    Seq<AppPrice>,
    Option<Seq<char>>,
> {
    if lacks_data(entries) {
        Err(None)
    } else {
        price_records(entries)
    }
}

/// The prices that the entries of a response give, one after the other.
///
/// Entries whose envelopes report failure are passed over. Each of the
/// others gives its price, in the order of the entries, attributed to the
/// identifier that its key denotes. The first entry that reports success
/// and cannot do so ends the run: `Err(None)` where it carries no data,
/// `Err(Some(key))` where it carries data under a key that denotes no
/// identifier.
pub open spec fn price_records(entries: Seq<(Seq<char>, Envelope<PriceOverview>)>) -> Result<
    Seq<AppPrice>,
    Option<Seq<char>>,
>
    decreases entries.len(),
{
    if entries.len() == 0 {
        Ok(Seq::empty())
    } else {
        match price_records(entries.drop_last()) {
            Err(failure) => Err(failure),
            Ok(records) => {
                let (key, envelope) = entries.last();
                if !envelope.success {
                    Ok(records)
                } else {
                    match envelope.data {
                        None => Err(None),
                        Some(overview) => match id_value(key) {
                            Some(app_id) => Ok(records.push(attributed(overview, app_id))),
                            None => Err(Some(key)),
                        },
                    }
                }
            },
        }
    }
}

/// A run that fails on its first entries fails on all of them, in the same
/// way.
proof fn lemma_price_records_fail(entries: Seq<(Seq<char>, Envelope<PriceOverview>)>, at: int)
    requires
        0 <= at < entries.len(),
        price_records(entries.take(at + 1)) is Err,
    ensures
        price_records(entries) == price_records(entries.take(at + 1)),
    decreases entries.len(),
{
    if at + 1 == entries.len() {
        assert(entries.take(at + 1) =~= entries);
    } else {
        assert(entries.drop_last().take(at + 1) =~= entries.take(at + 1));
        lemma_price_records_fail(entries.drop_last(), at);
    }
}

/// The number of entries whose envelopes report failure.
pub open spec fn count_failed(entries: Seq<(Seq<char>, Envelope<PriceOverview>)>) -> nat
    decreases entries.len(),
{
    if entries.len() == 0 {
        0
    } else {
        count_failed(entries.drop_last()) + (if entries.last().1.success {
            0nat
        } else {
            1nat
        })
    }
}

/// The prices of the entries whose envelopes report success, in the order
/// of the entries, the price of entry `i` attributed to `ids[i]`.
pub open spec fn prices_of(ids: Seq<u64>, entries: Seq<(Seq<char>, Envelope<PriceOverview>)>) -> Seq<
    AppPrice,
>
    decreases entries.len(),
{
    if entries.len() == 0 || ids.len() != entries.len() {
        Seq::empty()
    } else if entries.last().1.success {
        prices_of(ids.drop_last(), entries.drop_last()).push(
            attributed(entries.last().1.data->0, ids.last()),
        )
    } else {
        prices_of(ids.drop_last(), entries.drop_last())
    }
}

/// A price lookup gives one price for each identifier that the store
/// answered with success, and fails for none that it answered with
/// failure.
///
/// Let the response hold one entry for each of the identifiers `ids`, entry
/// `i` under the decimal text of `ids[i]`, and let every envelope that
/// reports success carry data. Then the lookup succeeds, however many
/// envelopes report failure. Its prices are those of the entries that
/// report success, in the order of the entries, each attributed to the
/// identifier that it was asked under, and their number is the number of
/// identifiers less the number of envelopes that report failure.
pub proof fn lemma_price_for_each_answered_id(
    ids: Seq<u64>,
    entries: Seq<(Seq<char>, Envelope<PriceOverview>)>,
)
    requires
        ids.len() == entries.len(),
        forall|i: int| 0 <= i < ids.len() ==> (#[trigger] entries[i]).0 == decimal(ids[i] as nat),
        forall|i: int|
            0 <= i < entries.len() && (#[trigger] entries[i]).1.success ==> entries[i].1.data
                is Some,
    ensures
        price_outcome(entries) == Ok::<Seq<AppPrice>, Option<Seq<char>>>(prices_of(ids, entries)),
        prices_of(ids, entries).len() == ids.len() - count_failed(entries),
        count_failed(entries) <= ids.len(),
{
    lemma_prices_of_answered_ids(ids, entries);
}

/// The run of `price_records` under the premises of
/// `lemma_price_for_each_answered_id`.
proof fn lemma_prices_of_answered_ids(
    ids: Seq<u64>,
    entries: Seq<(Seq<char>, Envelope<PriceOverview>)>,
)
    requires
        ids.len() == entries.len(),
        forall|i: int| 0 <= i < ids.len() ==> (#[trigger] entries[i]).0 == decimal(ids[i] as nat),
        forall|i: int|
            0 <= i < entries.len() && (#[trigger] entries[i]).1.success ==> entries[i].1.data
                is Some,
    ensures
        !lacks_data(entries),
        price_records(entries) == Ok::<Seq<AppPrice>, Option<Seq<char>>>(prices_of(ids, entries)),
        prices_of(ids, entries).len() == ids.len() - count_failed(entries),
        count_failed(entries) <= ids.len(),
    decreases entries.len(),
{
    if entries.len() > 0 {
        let last = entries.len() - 1;
        assert(entries[last].0 == decimal(ids[last] as nat));
        assert(entries[last].1.success ==> entries[last].1.data is Some);
        assert forall|i: int| 0 <= i < ids.drop_last().len() implies (
        #[trigger] entries.drop_last()[i]).0 == decimal(ids.drop_last()[i] as nat) by {
            assert(entries.drop_last()[i] == entries[i]);
        }
        assert forall|i: int|
            0 <= i < entries.drop_last().len() && (
            #[trigger] entries.drop_last()[i]).1.success implies entries.drop_last()[i].1.data
            is Some by {
            assert(entries.drop_last()[i] == entries[i]);
        }
        lemma_prices_of_answered_ids(ids.drop_last(), entries.drop_last());
        lemma_id_text_round_trip(ids.last());
    }
}

/// Success without data is never passed over, and never reported as
/// anything else.
///
/// Let some envelope of the response report success and carry no data.
/// Then the lookup fails with `ResponseWithNoData`, which `Err(None)`
/// stands for, whatever the keys are, whatever the other envelopes say, and
/// wherever in the response the envelope stands.
pub proof fn lemma_price_without_data(
    entries: Seq<(Seq<char>, Envelope<PriceOverview>)>,
    at: int,
)
    requires
        0 <= at < entries.len(),
        entries[at].1.success,
        entries[at].1.data is None,
    ensures
        price_outcome(entries) == Err::<Seq<AppPrice>, Option<Seq<char>>>(None),
{
}

/// A lookup fails over a key only where every envelope that reports
/// success carries data, and then over a key that stands in the response,
/// under an envelope that reports success, and denotes no identifier.
pub proof fn lemma_price_key_failure(
    entries: Seq<(Seq<char>, Envelope<PriceOverview>)>,
    key: Seq<char>,
)
    requires
        price_outcome(entries) == Err::<Seq<AppPrice>, Option<Seq<char>>>(Some(key)),
    ensures
        !lacks_data(entries),
        id_value(key) is None,
        exists|i: int|
            0 <= i < entries.len() && (#[trigger] entries[i]).0 == key && entries[i].1.success,
{
    lemma_price_records_key(entries, key);
}

/// The same of a run of `price_records`.
proof fn lemma_price_records_key(
    entries: Seq<(Seq<char>, Envelope<PriceOverview>)>,
    key: Seq<char>,
)
    requires
        price_records(entries) == Err::<Seq<AppPrice>, Option<Seq<char>>>(Some(key)),
    ensures
        id_value(key) is None,
        exists|i: int|
            0 <= i < entries.len() && (#[trigger] entries[i]).0 == key && entries[i].1.success,
    decreases entries.len(),
{
    if entries.len() > 0 {
        let last = entries.len() - 1;
        if price_records(entries.drop_last()) is Err {
            lemma_price_records_key(entries.drop_last(), key);
            let i = choose|i: int|
                0 <= i < entries.drop_last().len() && (#[trigger] entries.drop_last()[i]).0 == key
                    && entries.drop_last()[i].1.success;
            assert(entries[i] == entries.drop_last()[i]);
        } else {
            assert(entries[last].0 == key && entries[last].1.success);
        }
    }
}

} // verus!
