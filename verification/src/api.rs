//! Records, requests and replies of the EUVD API.
//!
//! Base URL: <https://euvdservices.enisa.europa.eu/api>
//! Docs: <https://euvd.enisa.europa.eu/apidoc>

use vstd::prelude::*;
use vstd::string::*;

use crate::number::{decimal, decimal_text};
use crate::pieces::{join, join_strings, nonblank_lines, trimmed_lines};
use crate::score::{copy_score, opt_score, Score, ScoreView};
use crate::text::{
    begins_with, blank, copy_opt, from_chars, is_blank, opt_view, slice_views, starts_with,
    to_chars, trim, trimmed, views,
};

verus! {

pub const BASE_URL: &'static str = "https://euvdservices.enisa.europa.eu/api";

/// Maximum page size accepted by the `/search` endpoint.
pub const MAX_PAGE_SIZE: u32 = 100;

// --- records -------------------------------------------------------------------------

#[derive(Debug)]
pub struct Vulnerability {
    pub id: String,
    pub description: String,
    pub date_published: String,
    pub date_updated: String,
    pub base_score: Option<Score>,
    pub base_score_version: Option<String>,
    pub base_score_vector: Option<String>,
    /// Newline-separated list of URLs.
    pub references: String,
    /// Newline-separated list of aliases (CVE, GHSA, ...).
    pub aliases: String,
    pub assigner: String,
    /// EPSS score as a percentage (0-100).
    pub epss: Option<Score>,
    pub products: Vec<ProductRef>,
    pub vendors: Vec<VendorRef>,
}

#[derive(Debug)]
pub struct ProductRef {
    pub product: Product,
    pub product_version: Option<String>,
}

#[derive(Debug)]
pub struct Product {
    pub name: String,
    pub vendor: Option<Vendor>,
}

#[derive(Debug)]
pub struct VendorRef {
    pub vendor: Vendor,
}

#[derive(Debug)]
pub struct Vendor {
    pub name: String,
}

#[derive(Debug)]
pub struct SearchResponse {
    pub items: Vec<Vulnerability>,
    pub total: u64,
}

/// Advisory record returned by `/advisory`. Shares most fields with
/// [`Vulnerability`] plus a source and its own product list.
#[derive(Debug)]
pub struct Advisory {
    pub id: String,
    pub description: String,
    pub summary: String,
    pub date_published: String,
    pub date_updated: String,
    pub base_score: Option<Score>,
    pub references: String,
    pub aliases: String,
    pub source: Option<AdvisorySource>,
    pub products: Vec<ProductRef>,
}

#[derive(Debug)]
pub struct AdvisorySource {
    pub name: String,
}

// --- models of the records -------------------------------------------------------------

#[verifier::ext_equal]
pub struct VulnerabilityView {
    pub id: Seq<char>,
    pub description: Seq<char>,
    pub date_published: Seq<char>,
    pub date_updated: Seq<char>,
    pub base_score: Option<ScoreView>,
    pub base_score_version: Option<Seq<char>>,
    pub base_score_vector: Option<Seq<char>>,
    pub references: Seq<char>,
    pub aliases: Seq<char>,
    pub assigner: Seq<char>,
    pub epss: Option<ScoreView>,
    pub products: Seq<ProductRefView>,
    pub vendors: Seq<VendorRefView>,
}

#[verifier::ext_equal]
pub struct ProductRefView {
    pub product: ProductView,
    pub product_version: Option<Seq<char>>,
}

#[verifier::ext_equal]
pub struct ProductView {
    pub name: Seq<char>,
    pub vendor: Option<VendorView>,
}

#[verifier::ext_equal]
pub struct VendorRefView {
    pub vendor: VendorView,
}

#[verifier::ext_equal]
pub struct VendorView {
    pub name: Seq<char>,
}

#[verifier::ext_equal]
pub struct AdvisoryView {
    pub id: Seq<char>,
    pub description: Seq<char>,
    pub summary: Seq<char>,
    pub date_published: Seq<char>,
    pub date_updated: Seq<char>,
    pub base_score: Option<ScoreView>,
    pub references: Seq<char>,
    pub aliases: Seq<char>,
    pub source: Option<AdvisorySourceView>,
    pub products: Seq<ProductRefView>,
}

#[verifier::ext_equal]
pub struct AdvisorySourceView {
    pub name: Seq<char>,
}

impl View for Vendor {
    type V = VendorView;

    open spec fn view(&self) -> VendorView {
        VendorView { name: self.name@ }
    }
}

impl View for VendorRef {
    type V = VendorRefView;

    open spec fn view(&self) -> VendorRefView {
        VendorRefView { vendor: self.vendor@ }
    }
}

impl View for Product {
    type V = ProductView;

    open spec fn view(&self) -> ProductView {
        ProductView {
            name: self.name@,
            vendor: match self.vendor {
                Some(v) => Some(v@),
                None => None,
            },
        }
    }
}

impl View for ProductRef {
    type V = ProductRefView;

    open spec fn view(&self) -> ProductRefView {
        ProductRefView {
            product: self.product@,
            product_version: opt_view(self.product_version),
        }
    }
}

impl View for AdvisorySource {
    type V = AdvisorySourceView;

    open spec fn view(&self) -> AdvisorySourceView {
        AdvisorySourceView { name: self.name@ }
    }
}

/// The models of a list of products.
pub open spec fn product_views(v: Seq<ProductRef>) -> Seq<ProductRefView> {
    v.map_values(|p: ProductRef| p@)
}

/// The models of a list of vendors.
pub open spec fn vendor_views(v: Seq<VendorRef>) -> Seq<VendorRefView> {
    v.map_values(|p: VendorRef| p@)
}

impl View for Vulnerability {
    type V = VulnerabilityView;

    open spec fn view(&self) -> VulnerabilityView {
        VulnerabilityView {
            id: self.id@,
            description: self.description@,
            date_published: self.date_published@,
            date_updated: self.date_updated@,
            base_score: opt_score(self.base_score),
            base_score_version: opt_view(self.base_score_version),
            base_score_vector: opt_view(self.base_score_vector),
            references: self.references@,
            aliases: self.aliases@,
            assigner: self.assigner@,
            epss: opt_score(self.epss),
            products: product_views(self.products@),
            vendors: vendor_views(self.vendors@),
        }
    }
}

impl View for Advisory {
    type V = AdvisoryView;

    open spec fn view(&self) -> AdvisoryView {
        AdvisoryView {
            id: self.id@,
            description: self.description@,
            summary: self.summary@,
            date_published: self.date_published@,
            date_updated: self.date_updated@,
            base_score: opt_score(self.base_score),
            references: self.references@,
            aliases: self.aliases@,
            source: match self.source {
                Some(s) => Some(s@),
                None => None,
            },
            products: product_views(self.products@),
        }
    }
}

// --- copies ----------------------------------------------------------------------------

impl Clone for Vendor {
    fn clone(&self) -> (r: Vendor)
        ensures
            r@ == self@,
    {
        Vendor { name: self.name.clone() }
    }
}

impl Clone for VendorRef {
    fn clone(&self) -> (r: VendorRef)
        ensures
            r@ == self@,
    {
        VendorRef { vendor: self.vendor.clone() }
    }
}

impl Clone for Product {
    fn clone(&self) -> (r: Product)
        ensures
            r@ == self@,
    {
        Product {
            name: self.name.clone(),
            vendor: match &self.vendor {
                Some(v) => Some(v.clone()),
                None => None,
            },
        }
    }
}

impl Clone for ProductRef {
    fn clone(&self) -> (r: ProductRef)
        ensures
            r@ == self@,
    {
        ProductRef {
            product: self.product.clone(),
            product_version: copy_opt(&self.product_version),
        }
    }
}

fn copy_products(v: &Vec<ProductRef>) -> (r: Vec<ProductRef>)
    ensures
        product_views(r@) == product_views(v@),
{
    let mut r: Vec<ProductRef> = Vec::new();
    let mut i: usize = 0;
    while i < v.len()
        invariant
            i <= v@.len(),
            product_views(r@) == product_views(v@).take(i as int),
        decreases v@.len() - i,
    {
        let ghost before = product_views(r@);
        let x = v[i].clone();
        r.push(x);
        assert(product_views(r@) == before.push(x@));
        assert(product_views(v@).take(i + 1) == product_views(v@).take(i as int).push(x@));
        i = i + 1;
    }
    assert(product_views(v@).take(v@.len() as int) == product_views(v@));
    r
}

fn copy_vendors(v: &Vec<VendorRef>) -> (r: Vec<VendorRef>)
    ensures
        vendor_views(r@) == vendor_views(v@),
{
    let mut r: Vec<VendorRef> = Vec::new();
    let mut i: usize = 0;
    while i < v.len()
        invariant
            i <= v@.len(),
            vendor_views(r@) == vendor_views(v@).take(i as int),
        decreases v@.len() - i,
    {
        let ghost before = vendor_views(r@);
        let x = v[i].clone();
        r.push(x);
        assert(vendor_views(r@) == before.push(x@));
        assert(vendor_views(v@).take(i + 1) == vendor_views(v@).take(i as int).push(x@));
        i = i + 1;
    }
    assert(vendor_views(v@).take(v@.len() as int) == vendor_views(v@));
    r
}

impl Clone for Vulnerability {
    fn clone(&self) -> (r: Vulnerability)
        ensures
            r@ == self@,
    {
        Vulnerability {
            id: self.id.clone(),
            description: self.description.clone(),
            date_published: self.date_published.clone(),
            date_updated: self.date_updated.clone(),
            base_score: copy_score(&self.base_score),
            base_score_version: copy_opt(&self.base_score_version),
            base_score_vector: copy_opt(&self.base_score_vector),
            references: self.references.clone(),
            aliases: self.aliases.clone(),
            assigner: self.assigner.clone(),
            epss: copy_score(&self.epss),
            products: copy_products(&self.products),
            vendors: copy_vendors(&self.vendors),
        }
    }
}

// --- empty records -----------------------------------------------------------------------

impl Default for Vendor {
    fn default() -> (r: Vendor)
        ensures
            r@ == (VendorView { name: seq![] }),
    {
        Vendor { name: String::new() }
    }
}

impl Default for VendorRef {
    fn default() -> (r: VendorRef)
        ensures
            r@ == (VendorRefView { vendor: VendorView { name: seq![] } }),
    {
        VendorRef { vendor: Vendor::default() }
    }
}

impl Default for Product {
    fn default() -> (r: Product)
        ensures
            r@ == (ProductView { name: seq![], vendor: None }),
    {
        Product { name: String::new(), vendor: None }
    }
}

impl Default for ProductRef {
    fn default() -> (r: ProductRef)
        ensures
            r@ == (ProductRefView {
                product: ProductView { name: seq![], vendor: None },
                product_version: None,
            }),
    {
        ProductRef { product: Product::default(), product_version: None }
    }
}

impl Default for AdvisorySource {
    fn default() -> (r: AdvisorySource)
        ensures
            r@ == (AdvisorySourceView { name: seq![] }),
    {
        AdvisorySource { name: String::new() }
    }
}

impl Default for SearchResponse {
    fn default() -> (r: SearchResponse)
        ensures
            r.items@.len() == 0,
            r.total == 0,
    {
        SearchResponse { items: Vec::new(), total: 0 }
    }
}

impl Default for Vulnerability {
    fn default() -> (r: Vulnerability)
        ensures
            r@ == (VulnerabilityView {
                id: seq![],
                description: seq![],
                date_published: seq![],
                date_updated: seq![],
                base_score: None,
                base_score_version: None,
                base_score_vector: None,
                references: seq![],
                aliases: seq![],
                assigner: seq![],
                epss: None,
                products: seq![],
                vendors: seq![],
            }),
    {
        Vulnerability {
            id: String::new(),
            description: String::new(),
            date_published: String::new(),
            date_updated: String::new(),
            base_score: None,
            base_score_version: None,
            base_score_vector: None,
            references: String::new(),
            aliases: String::new(),
            assigner: String::new(),
            epss: None,
            products: Vec::new(),
            vendors: Vec::new(),
        }
    }
}

impl Default for Advisory {
    fn default() -> (r: Advisory)
        ensures
            r@ == (AdvisoryView {
                id: seq![],
                description: seq![],
                summary: seq![],
                date_published: seq![],
                date_updated: seq![],
                base_score: None,
                references: seq![],
                aliases: seq![],
                source: None,
                products: seq![],
            }),
    {
        Advisory {
            id: String::new(),
            description: String::new(),
            summary: String::new(),
            date_published: String::new(),
            date_updated: String::new(),
            base_score: None,
            references: String::new(),
            aliases: String::new(),
            source: None,
            products: Vec::new(),
        }
    }
}

// --- aliases and references ------------------------------------------------------------

/// The first of the aliases that is a CVE number.
pub open spec fn first_cve(aliases: Seq<Seq<char>>) -> Option<Seq<char>>
    decreases aliases.len(),
{
    if aliases.len() == 0 {
        None
    } else if begins_with(aliases[0], "CVE-"@) {
        Some(aliases[0])
    } else {
        first_cve(aliases.drop_first())
    }
}

/// The view of an optional slice.
pub open spec fn opt_slice(s: Option<&str>) -> Option<Seq<char>> {
    match s {
        Some(t) => Some(t@),
        None => None,
    }
}

impl Vulnerability {
    /// The aliases, trimmed, without blank lines.
    pub fn alias_lines(&self) -> (r: Vec<&str>)
        ensures
            slice_views(r@) == nonblank_lines(self.aliases@),
    {
        trimmed_lines(self.aliases.as_str())
    }

    /// The references, trimmed, without blank lines.
    pub fn reference_lines(&self) -> (r: Vec<&str>)
        ensures
            slice_views(r@) == nonblank_lines(self.references@),
    {
        trimmed_lines(self.references.as_str())
    }

    /// First CVE alias, if any.
    pub fn cve(&self) -> (r: Option<&str>)
        ensures
            opt_slice(r) == first_cve(nonblank_lines(self.aliases@)),
    {
        let lines = self.alias_lines();
        let ghost all = slice_views(lines@);
        let mut i: usize = 0;
        assert(all.skip(0) == all);
        while i < lines.len()
            invariant
                i <= lines@.len(),
                all == slice_views(lines@),
                all == nonblank_lines(self.aliases@),
                first_cve(all) == first_cve(all.skip(i as int)),
            decreases lines@.len() - i,
        {
            proof {
                assert(all.skip(i as int)[0] == lines@[i as int]@);
                assert(all.skip(i as int).drop_first() == all.skip(i + 1));
            }
            if starts_with(lines[i], "CVE-") {
                return Some(lines[i]);
            }
            i = i + 1;
        }
        None
    }
}

// --- the search query ------------------------------------------------------------------

/// Filters for the `/search` endpoint. Empty/`None` fields are omitted.
#[derive(Debug)]
pub struct SearchQuery {
    pub text: String,
    pub vendor: String,
    pub product: String,
    /// Assigner (CNA) names, sent comma-separated in a single `assigner`
    /// param (the API returns the union of the results).
    pub assigners: Vec<String>,
    /// YYYY-MM-DD
    pub from_date: String,
    /// YYYY-MM-DD
    pub to_date: String,
    /// CVSS range, 0-10.
    pub from_score: Option<Score>,
    pub to_score: Option<Score>,
    /// EPSS percentage range, 0-100.
    pub from_epss: Option<u32>,
    pub to_epss: Option<u32>,
    pub exploited: Option<bool>,
    pub page: u32,
    pub size: u32,
}

/// The model of a [`SearchQuery`].
#[verifier::ext_equal]
pub struct SearchQueryView {
    pub text: Seq<char>,
    pub vendor: Seq<char>,
    pub product: Seq<char>,
    pub assigners: Seq<Seq<char>>,
    pub from_date: Seq<char>,
    pub to_date: Seq<char>,
    pub from_score: Option<ScoreView>,
    pub to_score: Option<ScoreView>,
    pub from_epss: Option<u32>,
    pub to_epss: Option<u32>,
    pub exploited: Option<bool>,
    pub page: u32,
    pub size: u32,
}

impl View for SearchQuery {
    type V = SearchQueryView;

    open spec fn view(&self) -> SearchQueryView {
        SearchQueryView {
            text: self.text@,
            vendor: self.vendor@,
            product: self.product@,
            assigners: views(self.assigners@),
            from_date: self.from_date@,
            to_date: self.to_date@,
            from_score: opt_score(self.from_score),
            to_score: opt_score(self.to_score),
            from_epss: self.from_epss,
            to_epss: self.to_epss,
            exploited: self.exploited,
            page: self.page,
            size: self.size,
        }
    }
}

impl Default for SearchQuery {
    fn default() -> (r: SearchQuery)
        ensures
            r@ == (SearchQueryView {
                text: seq![],
                vendor: seq![],
                product: seq![],
                assigners: seq![],
                from_date: seq![],
                to_date: seq![],
                from_score: None,
                to_score: None,
                from_epss: None,
                to_epss: None,
                exploited: None,
                page: 0,
                size: 0,
            }),
    {
        SearchQuery {
            text: String::new(),
            vendor: String::new(),
            product: String::new(),
            assigners: Vec::new(),
            from_date: String::new(),
            to_date: String::new(),
            from_score: None,
            to_score: None,
            from_epss: None,
            to_epss: None,
            exploited: None,
            page: 0,
            size: 0,
        }
    }
}

/// A parameter of a request: its name and its value.
pub type Param = (Seq<char>, Seq<char>);

/// The views of a list of parameters.
pub open spec fn param_views(v: Seq<(&'static str, String)>) -> Seq<Param> {
    v.map_values(|p: (&'static str, String)| (p.0@, p.1@))
}

/// A text parameter: trimmed, and left out where nothing remains.
pub open spec fn text_param(name: Seq<char>, value: Seq<char>) -> Seq<Param> {
    if is_blank(value) {
        seq![]
    } else {
        seq![(name, trimmed(value))]
    }
}

/// A score parameter, left out where there is none.
pub open spec fn score_param(name: Seq<char>, value: Option<ScoreView>) -> Seq<Param> {
    match value {
        Some(s) => seq![(name, s.text)],
        None => seq![],
    }
}

/// A number parameter, left out where there is none.
pub open spec fn number_param(name: Seq<char>, value: Option<u32>) -> Seq<Param> {
    match value {
        Some(n) => seq![(name, decimal(n as nat))],
        None => seq![],
    }
}

/// The text of a truth value.
pub open spec fn bool_text(b: bool) -> Seq<char> {
    if b {
        "true"@
    } else {
        "false"@
    }
}

/// A yes/no parameter, left out where there is none.
pub open spec fn bool_param(name: Seq<char>, value: Option<bool>) -> Seq<Param> {
    match value {
        Some(b) => seq![(name, bool_text(b))],
        None => seq![],
    }
}

/// The page size that is sent: the wanted one, but at least 1 and at most
/// [`MAX_PAGE_SIZE`].
pub open spec fn sent_size(size: u32) -> nat {
    if size < 1 {
        1
    } else if size > MAX_PAGE_SIZE {
        MAX_PAGE_SIZE as nat
    } else {
        size as nat
    }
}

/// The parameters of a search, in the order in which they are sent.
pub open spec fn params_of(q: SearchQueryView) -> Seq<Param> {
    text_param("text"@, q.text) + text_param("vendor"@, q.vendor) + text_param(
        "product"@,
        q.product,
    ) + text_param("assigner"@, join(q.assigners, ","@)) + text_param("fromDate"@, q.from_date)
        + text_param("toDate"@, q.to_date) + score_param("fromScore"@, q.from_score) + score_param(
        "toScore"@,
        q.to_score,
    ) + number_param("fromEpss"@, q.from_epss) + number_param("toEpss"@, q.to_epss) + bool_param(
        "exploited"@,
        q.exploited,
    ) + seq![("page"@, decimal(q.page as nat))] + seq![("size"@, decimal(sent_size(q.size)))]
}

fn push_param(p: &mut Vec<(&'static str, String)>, name: &'static str, value: String)
    ensures
        param_views(final(p)@) == param_views(old(p)@) + seq![(name@, value@)],
{
    p.push((name, value));
    assert(param_views(p@) =~= param_views(old(p)@) + seq![(name@, value@)]);
}

fn push_text(p: &mut Vec<(&'static str, String)>, name: &'static str, value: &str)
    ensures
        param_views(final(p)@) == param_views(old(p)@) + text_param(name@, value@),
{
    let t = trim(value);
    if !t.is_empty() {
        push_param(p, name, t.to_owned());
    } else {
        assert(param_views(old(p)@) + text_param(name@, value@) =~= param_views(old(p)@));
    }
}

fn push_score(p: &mut Vec<(&'static str, String)>, name: &'static str, value: &Option<Score>)
    ensures
        param_views(final(p)@) == param_views(old(p)@) + score_param(name@, opt_score(*value)),
{
    match value {
        Some(s) => push_param(p, name, s.text.clone()),
        None => {
            assert(param_views(old(p)@) + Seq::<Param>::empty() =~= param_views(old(p)@));
        },
    }
}

fn push_number(p: &mut Vec<(&'static str, String)>, name: &'static str, value: Option<u32>)
    ensures
        param_views(final(p)@) == param_views(old(p)@) + number_param(name@, value),
{
    match value {
        Some(n) => push_param(p, name, decimal_text(n as u64)),
        None => {
            assert(param_views(old(p)@) + Seq::<Param>::empty() =~= param_views(old(p)@));
        },
    }
}

fn push_bool(p: &mut Vec<(&'static str, String)>, name: &'static str, value: Option<bool>)
    ensures
        param_views(final(p)@) == param_views(old(p)@) + bool_param(name@, value),
{
    match value {
        Some(b) => push_param(
            p,
            name,
            if b {
                "true".to_owned()
            } else {
                "false".to_owned()
            },
        ),
        None => {
            assert(param_views(old(p)@) + Seq::<Param>::empty() =~= param_views(old(p)@));
        },
    }
}

impl SearchQuery {
    /// The parameters of the search, in the order in which they are sent.
    pub fn params(&self) -> (p: Vec<(&'static str, String)>)
        ensures
            param_views(p@) == params_of(self@),
    {
        let mut p: Vec<(&'static str, String)> = Vec::new();
        push_text(&mut p, "text", self.text.as_str());
        assert(param_views(p@) =~= text_param("text"@, self.text@));
        push_text(&mut p, "vendor", self.vendor.as_str());
        push_text(&mut p, "product", self.product.as_str());
        push_text(&mut p, "assigner", join_strings(&self.assigners, ",").as_str());
        push_text(&mut p, "fromDate", self.from_date.as_str());
        push_text(&mut p, "toDate", self.to_date.as_str());
        push_score(&mut p, "fromScore", &self.from_score);
        push_score(&mut p, "toScore", &self.to_score);
        push_number(&mut p, "fromEpss", self.from_epss);
        push_number(&mut p, "toEpss", self.to_epss);
        push_bool(&mut p, "exploited", self.exploited);
        push_param(&mut p, "page", decimal_text(self.page as u64));
        let size: u32 = if self.size < 1 {
            1
        } else if self.size > MAX_PAGE_SIZE {
            MAX_PAGE_SIZE
        } else {
            self.size
        };
        push_param(&mut p, "size", decimal_text(size as u64));
        p
    }
}

// --- requests ----------------------------------------------------------------------------

/// A request to the API: the path below [`BASE_URL`] and the parameters.
#[derive(Debug)]
pub struct Get {
    pub path: &'static str,
    pub params: Vec<(&'static str, String)>,
}

/// The model of a [`Get`].
#[verifier::ext_equal]
pub struct GetView {
    pub path: Seq<char>,
    pub params: Seq<Param>,
}

impl View for Get {
    type V = GetView;

    open spec fn view(&self) -> GetView {
        GetView { path: self.path@, params: param_views(self.params@) }
    }
}

impl Get {
    /// A search.
    pub fn search(query: &SearchQuery) -> (r: Get)
        ensures
            r@ == (GetView { path: "/search"@, params: params_of(query@) }),
    {
        Get { path: "/search", params: query.params() }
    }

    /// One of the feeds: `/lastvulnerabilities`, `/exploitedvulnerabilities`,
    /// `/criticalvulnerabilities`. Each returns at most 8 records.
    pub fn feed(path: &'static str) -> (r: Get)
        ensures
            r@ == (GetView { path: path@, params: seq![] }),
    {
        Get { path, params: Vec::new() }
    }

    /// A vulnerability by EUVD id (`EUVD-YYYY-NNNNN`).
    pub fn by_enisa_id(id: &str) -> (r: Get)
        ensures
            r@ == (GetView { path: "/enisaid"@, params: seq![("id"@, trimmed(id@))] }),
    {
        let mut params: Vec<(&'static str, String)> = Vec::new();
        push_param(&mut params, "id", trim(id).to_owned());
        Get { path: "/enisaid", params }
    }

    /// An advisory by its id (e.g. `oxas-adv-2024-0002`).
    pub fn advisory(id: &str) -> (r: Get)
        ensures
            r@ == (GetView { path: "/advisory"@, params: seq![("id"@, trimmed(id@))] }),
    {
        let mut params: Vec<(&'static str, String)> = Vec::new();
        push_param(&mut params, "id", trim(id).to_owned());
        Get { path: "/advisory", params }
    }

    /// The names of all assigners (CNAs), for the search filter.
    pub fn assigner_names() -> (r: Get)
        ensures
            r@ == (GetView { path: "/assigners/names"@, params: seq![] }),
    {
        Get { path: "/assigners/names", params: Vec::new() }
    }

    /// The address of the request, without its parameters.
    pub fn url(&self) -> (r: String)
        ensures
            r@ == BASE_URL@ + self.path@,
    {
        let mut r = BASE_URL.to_owned();
        r.append(self.path);
        r
    }
}

// --- replies -----------------------------------------------------------------------------

#[derive(Debug)]
pub enum ApiError {
    /// HTTP transport failure or non-2xx status.
    Http(String),
    /// 204 / empty body: no record for the requested id.
    NotFound,
    /// Body was not the expected JSON.
    Parse(String),
}

/// The model of an [`ApiError`].
#[verifier::ext_equal]
pub enum ApiErrorView {
    Http(Seq<char>),
    NotFound,
    Parse(Seq<char>),
}

impl View for ApiError {
    type V = ApiErrorView;

    open spec fn view(&self) -> ApiErrorView {
        match self {
            ApiError::Http(e) => ApiErrorView::Http(e@),
            ApiError::NotFound => ApiErrorView::NotFound,
            ApiError::Parse(e) => ApiErrorView::Parse(e@),
        }
    }
}

pub type ApiResult<T> = Result<T, ApiError>;

/// The message that stands for an error.
pub open spec fn error_text(e: ApiErrorView) -> Seq<char> {
    match e {
        ApiErrorView::Http(t) => "request failed: "@ + t,
        ApiErrorView::NotFound => "no record found"@,
        ApiErrorView::Parse(t) => "unexpected response: "@ + t,
    }
}

impl ApiError {
    /// The message that stands for the error.
    pub fn message(&self) -> (r: String)
        ensures
            r@ == error_text(self@),
    {
        match self {
            ApiError::Http(e) => {
                let mut r = "request failed: ".to_owned();
                r.append(e.as_str());
                r
            },
            ApiError::NotFound => "no record found".to_owned(),
            ApiError::Parse(e) => {
                let mut r = "unexpected response: ".to_owned();
                r.append(e.as_str());
                r
            },
        }
    }
}

/// The reason phrase that `ureq::http::StatusCode` prints after the number of a
/// status.
pub uninterp spec fn reason_phrase(status: u16) -> Seq<char>;

/// A status as it is shown: the number, a space, the reason phrase.
pub open spec fn status_text(status: u16) -> Seq<char> {
    decimal(status as nat) + " "@ + reason_phrase(status)
}

/// `Display` of `ureq::http::StatusCode`: the number in decimal, a space, and a
/// phrase that depends on the number alone. What the phrase of a given number is
/// stays open here. Numbers that are no status code are left out.
#[verifier::external_body]
fn status_line(status: u16) -> (r: String)
    requires
        100 <= status <= 999,
    ensures
        r@ == decimal(status as nat) + " "@ + reason_phrase(status),
{
    ureq::http::StatusCode::from_u16(status).unwrap().to_string()
}

/// The first 200 characters.
pub open spec fn snippet(body: Seq<char>) -> Seq<char> {
    if body.len() <= 200 {
        body
    } else {
        body.take(200)
    }
}

/// What a reply means, from its status and from what reading its body gave: the
/// body that is to be parsed, or an error. No content and a blank body mean that
/// there is no record; a status outside of 200 to 299 is a failure, reported with
/// the beginning of the body.
pub open spec fn meaning(status: u16, body: Result<Seq<char>, Seq<char>>) -> Result<
    Seq<char>,
    ApiErrorView,
> {
    if status == 204 {
        Err(ApiErrorView::NotFound)
    } else {
        match body {
            Err(e) => Err(ApiErrorView::Http(e)),
            Ok(b) => if !(200 <= status <= 299) {
                Err(ApiErrorView::Http("HTTP "@ + status_text(status) + " "@ + snippet(b)))
            } else if is_blank(b) {
                Err(ApiErrorView::NotFound)
            } else {
                Ok(b)
            },
        }
    }
}

/// The view of what reading a body gave.
pub open spec fn body_view(body: Result<String, String>) -> Result<Seq<char>, Seq<char>> {
    match body {
        Ok(b) => Ok(b@),
        Err(e) => Err(e@),
    }
}

/// The view of a body or an error.
pub open spec fn result_view(r: ApiResult<String>) -> Result<Seq<char>, ApiErrorView> {
    match r {
        Ok(b) => Ok(b@),
        Err(e) => Err(e@),
    }
}

/// What a failing status is reported as.
pub fn failure(status: &str, body: &str) -> (r: ApiError)
    ensures
        r@ == ApiErrorView::Http("HTTP "@ + status@ + " "@ + snippet(body@)),
{
    let v = to_chars(body);
    let n: usize = if v.len() <= 200 {
        v.len()
    } else {
        200
    };
    let mut t = "HTTP ".to_owned();
    t.append(status);
    t.append(" ");
    t.append(from_chars(&v, 0, n).as_str());
    proof {
        assert(v@.subrange(0, n as int) =~= snippet(body@));
    }
    ApiError::Http(t)
}

/// What a reply means. See [`meaning`].
pub fn read_reply(status: u16, body: Result<String, String>) -> (r: ApiResult<String>)
    requires
        100 <= status <= 999,
    ensures
        result_view(r) == meaning(status, body_view(body)),
{
    if status == 204 {
        return Err(ApiError::NotFound);
    }
    match body {
        Err(e) => Err(ApiError::Http(e)),
        Ok(b) => {
            if status < 200 || status > 299 {
                Err(failure(status_line(status).as_str(), b.as_str()))
            } else if blank(b.as_str()) {
                Err(ApiError::NotFound)
            } else {
                Ok(b)
            }
        },
    }
}

} // verus!
