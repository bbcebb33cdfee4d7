use loap::content::{static_page_html, Frontmatter, StaticPage};
use loap::page::{document_title, nav_bar, Page};
use loap::site::{
    download_href, find_static_page, home_listing, maintainer_href, maintainer_page_kind,
    package_href, packages_query_text, size_totals, version_label, USER_CEMT, USER_ORPH,
};
use loap::stats::{stats_summary, StatItem};

#[test]
fn page_titles() {
    assert_eq!(Page::Home.title(), "packages");
    assert_eq!(Page::Stats.title(), "statistics");
    assert_eq!(Page::NotFound.title(), "404");
    assert_eq!(Page::Error.title(), "500");
    assert_eq!(Page::Other("firefox".to_string()).title(), "firefox");
}

#[test]
fn page_hrefs() {
    assert_eq!(Page::Home.href(), "/");
    assert_eq!(Page::About.href(), "/about");
    assert_eq!(Page::Stats.href(), "/ps");
    assert_eq!(Page::Faq.href(), "/faq");
    assert_eq!(Page::Orphanage.href(), "/m/orphanage");
    assert_eq!(Page::Cemetery.href(), "/m/cemetery");
}

#[test]
fn page_equality() {
    assert!(Page::Home == Page::Home);
    assert!(Page::Home != Page::About);
    assert!(Page::Other("a".to_string()) == Page::Other("a".to_string()));
    assert!(Page::Other("a".to_string()) != Page::Other("b".to_string()));
}

#[test]
fn document_titles() {
    assert_eq!(document_title(&Page::Faq), "LOAP \u{2014} faq");
    assert_eq!(document_title(&Page::Other("mesa".to_string())), "LOAP \u{2014} mesa");
}

#[test]
fn nav_bar_marks_current_page() {
    let bar = nav_bar(&Page::Faq);
    let titles: Vec<&str> = bar.iter().map(|e| e.page.title()).collect();
    assert_eq!(titles, vec!["packages", "about", "statistics", "faq", "orphanage", "cemetery"]);
    let marked: Vec<bool> = bar.iter().map(|e| e.selected).collect();
    assert_eq!(marked, vec![false, false, false, true, false, false]);
}

#[test]
fn nav_bar_marks_nothing_for_other_pages() {
    let bar = nav_bar(&Page::Other("about".to_string()));
    assert!(bar.iter().all(|e| !e.selected));
    let bar = nav_bar(&Page::NotFound);
    assert!(bar.iter().all(|e| !e.selected));
}

#[test]
fn links() {
    assert_eq!(package_href("zlib"), "/p/zlib");
    assert_eq!(maintainer_href("kiedtl"), "/m/kiedtl");
    assert_eq!(download_href(0), "/api/b/dl?id=0");
    assert_eq!(download_href(4097), "/api/b/dl?id=4097");
}

#[test]
fn version_labels() {
    assert_eq!(version_label(&Some("6.8.2-1".to_string())), "6.8.2-1");
    assert_eq!(version_label(&None), "(none)");
}

#[test]
fn maintainer_pages() {
    assert!(maintainer_page_kind(USER_ORPH, "orphanage") == Page::Orphanage);
    assert!(maintainer_page_kind(USER_CEMT, "cemetery") == Page::Cemetery);
    assert!(maintainer_page_kind(7, "kiedtl") == Page::Other("kiedtl".to_string()));
}

#[test]
fn size_totals_of_builds() {
    assert_eq!(size_totals(&vec![]), (0, 0));
    assert_eq!(size_totals(&vec![10, 20, 31]), (61, 20));
    assert_eq!(size_totals(&vec![u32::MAX]), (u32::MAX, u32::MAX));
}

#[test]
fn home_hides_cemetery() {
    assert_eq!(home_listing(&vec![1, 2, 0, 2, 5]), vec![0, 2, 4]);
    assert_eq!(home_listing(&vec![2, 2]), Vec::<usize>::new());
    assert_eq!(home_listing(&vec![]), Vec::<usize>::new());
}

fn static_page(name: &str, body: &str) -> StaticPage {
    StaticPage::from_markdown(Frontmatter { page: Page::About }, name.to_string(), body)
}

#[test]
fn static_page_lookup() {
    let pages = vec![static_page("about", "a"), static_page("faq", "b"), static_page("about", "c")];
    assert_eq!(find_static_page(&pages, "about"), Some(0));
    assert_eq!(find_static_page(&pages, "faq"), Some(1));
    assert_eq!(find_static_page(&pages, "rationales"), None);
    assert_eq!(find_static_page(&vec![], "faq"), None);
}

#[test]
fn static_pages_render_markdown() {
    assert_eq!(static_page_html("# Hi Mercury!"), "<h1>Hi Mercury!</h1>");
    let p = static_page("faq", "Some *text*.");
    assert_eq!(p.name, "faq");
    assert!(p.meta.page == Page::About);
    assert_eq!(p.html, "<p>Some <em>text</em>.</p>");
}

#[test]
fn packages_query_filter() {
    let all = packages_query_text(false);
    let by = packages_query_text(true);
    assert!(all.starts_with("SELECT"));
    assert!(all.contains("WHERE 1 \n        ORDER BY p.name ASC;"));
    assert!(by.contains("WHERE 1 AND m.id = ?\n        ORDER BY p.name ASC;"));
    assert_eq!(by.len(), all.len() + "AND m.id = ?".len());
}

fn item(downloads: u32, total_size: u32, size_rank: usize, time_rank: usize) -> StatItem {
    StatItem { downloads, total_size, avg_size_rank: size_rank, avg_time_rank: time_rank }
}

#[test]
fn stats_pick_outstanding_packages() {
    let items = vec![
        item(50, 1000, 300, 60),
        item(20, 2000, 700, 900),
        item(20, 500, 700, 10),
        item(1, 100, 5, 10),
    ];
    let s = stats_summary(&items);
    assert_eq!(s.total_space_used, 3600);
    assert_eq!(s.total_downloads, 91);
    assert_eq!(s.most_downloaded, 0);
    assert_eq!(s.least_downloaded, 3);
    assert_eq!(s.most_time, 1);
    assert_eq!(s.least_time, 2);
    assert_eq!(s.heaviest, 2);
}

#[test]
fn stats_single_package() {
    let s = stats_summary(&vec![item(3, 42, 42, 7)]);
    assert_eq!((s.total_space_used, s.total_downloads), (42, 3));
    assert_eq!((s.most_downloaded, s.least_downloaded), (0, 0));
    assert_eq!((s.most_time, s.least_time, s.heaviest), (0, 0, 0));
}
