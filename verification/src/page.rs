//! The pages of the site and the navigation bar that links them.

use vstd::prelude::*;
use vstd::std_specs::cmp::PartialEqSpecImpl;

verus! {

/// A page of the site, as the navigation bar and the document title know it.
#[derive(Clone, Debug)]
pub enum Page {
    Home,
    About,
    Stats,
    Faq,
    Orphanage,
    Cemetery,
    /// 404
    NotFound,
    /// 500
    Error,
    Other(String),
}

/// Two pages are the same when they are the same variant, and for `Other`
/// when their names hold the same text.
pub open spec fn same_page(a: Page, b: Page) -> bool {
    match (a, b) {
        (Page::Home, Page::Home) => true,
        (Page::About, Page::About) => true,
        (Page::Stats, Page::Stats) => true,
        (Page::Faq, Page::Faq) => true,
        (Page::Orphanage, Page::Orphanage) => true,
        (Page::Cemetery, Page::Cemetery) => true,
        (Page::NotFound, Page::NotFound) => true,
        (Page::Error, Page::Error) => true,
        (Page::Other(x), Page::Other(y)) => x@ == y@,
        _ => false,
    }
}

impl PartialEq for Page {
    fn eq(&self, other: &Page) -> (r: bool) {
        match (self, other) {
            (Page::Home, Page::Home) => true,
            (Page::About, Page::About) => true,
            (Page::Stats, Page::Stats) => true,
            (Page::Faq, Page::Faq) => true,
            (Page::Orphanage, Page::Orphanage) => true,
            (Page::Cemetery, Page::Cemetery) => true,
            (Page::NotFound, Page::NotFound) => true,
            (Page::Error, Page::Error) => true,
            (Page::Other(x), Page::Other(y)) => x.eq(y),
            _ => false,
        }
    }
}

impl PartialEqSpecImpl for Page {
    open spec fn obeys_eq_spec() -> bool {
        true
    }

    open spec fn eq_spec(&self, other: &Page) -> bool {
        same_page(*self, *other)
    }
}

impl Eq for Page {
}

/// Page equality is an equivalence: reflexive, symmetric and transitive.
pub proof fn lemma_same_page_is_equivalence(a: Page, b: Page, c: Page)
    ensures
        same_page(a, a),
        same_page(a, b) ==> same_page(b, a),
        same_page(a, b) && same_page(b, c) ==> same_page(a, c),
{
}

/// The title of a page, shown in the navigation bar and in the document title.
pub open spec fn page_title(p: Page) -> Seq<char> {
    match p {
        Page::Home => "packages"@,
        Page::About => "about"@,
        Page::Stats => "statistics"@,
        Page::Faq => "faq"@,
        Page::Orphanage => "orphanage"@,
        Page::Cemetery => "cemetery"@,
        Page::NotFound => "404"@,
        Page::Error => "500"@,
        Page::Other(s) => s@,
    }
}

/// The pages that the navigation bar links to.
pub open spec fn is_nav_page(p: Page) -> bool {
    match p {
        Page::Home | Page::About | Page::Stats | Page::Faq | Page::Orphanage | Page::Cemetery => true,
        _ => false,
    }
}

/// Where a page of the navigation bar lives.
pub open spec fn page_href(p: Page) -> Seq<char> {
    match p {
        Page::Home => "/"@,
        Page::About => "/about"@,
        Page::Stats => "/ps"@,
        Page::Faq => "/faq"@,
        Page::Orphanage => "/m/orphanage"@,
        _ => "/m/cemetery"@,
    }
}

impl Page {
    /// The page's title.
    pub fn title(&self) -> (r: &str)
        ensures
            r@ == page_title(*self),
    {
        match self {
            Page::Home => "packages",
            Page::About => "about",
            Page::Stats => "statistics",
            Page::Faq => "faq",
            Page::Orphanage => "orphanage",
            Page::Cemetery => "cemetery",
            Page::NotFound => "404",
            Page::Error => "500",
            Page::Other(s) => s.as_str(),
        }
    }

    /// The path of a page of the navigation bar; other pages have none.
    pub fn href(&self) -> (r: &'static str)
        requires
            is_nav_page(*self),
        ensures
            r@ == page_href(*self),
    {
        match self {
            Page::Home => "/",
            Page::About => "/about",
            Page::Stats => "/ps",
            Page::Faq => "/faq",
            Page::Orphanage => "/m/orphanage",
            _ => "/m/cemetery",
        }
    }
}

} // verus!

verus! {

/// The navigation bar's pages, in the order they are shown.
pub open spec fn nav_page_at(i: int) -> Page {
    if i == 0 {
        Page::Home
    } else if i == 1 {
        Page::About
    } else if i == 2 {
        Page::Stats
    } else if i == 3 {
        Page::Faq
    } else if i == 4 {
        Page::Orphanage
    } else {
        Page::Cemetery
    }
}

/// The number of links in the navigation bar.
pub open spec fn nav_len() -> int {
    6
}

/// One link of the navigation bar, marked when it leads to the page being shown.
pub struct NavEntry {
    pub page: Page,
    pub selected: bool,
}

fn nav_entry(page: Page, current: &Page) -> (e: NavEntry)
    ensures
        e.page == page,
        e.selected == same_page(page, *current),
{
    let selected = page.eq(current);
    NavEntry { page, selected }
}

/// The links of the navigation bar when `current` is shown: Home, About, Stats,
/// Faq, Orphanage and Cemetery, each marked when it is `current`.
pub fn nav_bar(current: &Page) -> (v: Vec<NavEntry>)
    ensures
        v@.len() == nav_len(),
        forall|i: int|
            0 <= i < nav_len() ==> #[trigger] v@[i].page == nav_page_at(i) && v@[i].selected
                == same_page(nav_page_at(i), *current),
{
    let mut v: Vec<NavEntry> = Vec::new();
    v.push(nav_entry(Page::Home, current));
    v.push(nav_entry(Page::About, current));
    v.push(nav_entry(Page::Stats, current));
    v.push(nav_entry(Page::Faq, current));
    v.push(nav_entry(Page::Orphanage, current));
    v.push(nav_entry(Page::Cemetery, current));
    v
}

/// Every link of the navigation bar leads to a page that has a path, and the
/// link to a page is marked exactly when that page is shown: no two links are
/// marked, and one is marked exactly when the shown page is in the bar.
pub proof fn lemma_nav_bar_marks_current(current: Page)
    ensures
        forall|i: int| 0 <= i < nav_len() ==> is_nav_page(#[trigger] nav_page_at(i)),
        forall|i: int, j: int|
            0 <= i < nav_len() && 0 <= j < nav_len() && i != j ==> !(same_page(
                #[trigger] nav_page_at(i),
                current,
            ) && same_page(#[trigger] nav_page_at(j), current)),
        is_nav_page(current) <==> exists|i: int|
            0 <= i < nav_len() && same_page(#[trigger] nav_page_at(i), current),
{
    if is_nav_page(current) {
        let i: int = match current {
            Page::Home => 0,
            Page::About => 1,
            Page::Stats => 2,
            Page::Faq => 3,
            Page::Orphanage => 4,
            _ => 5,
        };
        assert(same_page(nav_page_at(i), current));
    }
}

} // verus!

verus! {

/// The document title of a page: `LOAP — {title}`.
pub fn document_title(page: &Page) -> (s: String)
    ensures
        s@ == "LOAP \u{2014} "@ + page_title(*page),
{
    let mut s = String::from_str("LOAP \u{2014} ");
    s.append(page.title());
    s
}

} // verus!
