//! What the site's pages decide before they are rendered: links, labels,
//! which packages are listed, which page a maintainer gets, and totals.

use vstd::prelude::*;
use crate::text::{nat_digits, u64_to_decimal};
use crate::page::Page;
use crate::content::StaticPage;

verus! {

/// The id of the orphanage, the maintainer that holds packages nobody maintains.
pub const USER_ORPH: u32 = 0;

/// The id of the cemetery, the maintainer that holds packages that are dropped.
pub const USER_CEMT: u32 = 2;

/// The link to a package's page: `/p/{name}`.
pub fn package_href(name: &str) -> (s: String)
    ensures
        s@ == "/p/"@ + name@,
{
    let mut s = String::from_str("/p/");
    s.append(name);
    s
}

/// The link to a maintainer's page: `/m/{name}`.
pub fn maintainer_href(name: &str) -> (s: String)
    ensures
        s@ == "/m/"@ + name@,
{
    let mut s = String::from_str("/m/");
    s.append(name);
    s
}

/// The link that downloads build `id`: `/api/b/dl?id={id}`.
pub fn download_href(id: u32) -> (s: String)
    ensures
        s@ == "/api/b/dl?id="@ + nat_digits(id as nat),
{
    let mut s = String::from_str("/api/b/dl?id=");
    let digits = u64_to_decimal(id as u64);
    s.append(digits.as_str());
    s
}

/// The version shown for a package: its latest build's version, or `(none)`.
pub fn version_label(build_version: &Option<String>) -> (s: String)
    ensures
        build_version matches Some(v) ==> s@ == v@,
        build_version is None ==> s@ == "(none)"@,
{
    match build_version {
        Some(v) => String::from_str(v.as_str()),
        None => String::from_str("(none)"),
    }
}

/// The page a maintainer's page is: the orphanage and the cemetery have their
/// own entries in the navigation bar; anyone else's page is titled by name.
pub fn maintainer_page_kind(id: u32, name: &str) -> (p: Page)
    ensures
        id == USER_ORPH ==> p == Page::Orphanage,
        id == USER_CEMT ==> p == Page::Cemetery,
        id != USER_ORPH && id != USER_CEMT ==> (p matches Page::Other(n) && n@ == name@),
{
    if id == USER_ORPH {
        Page::Orphanage
    } else if id == USER_CEMT {
        Page::Cemetery
    } else {
        Page::Other(String::from_str(name))
    }
}

/// The sum of a sequence of sizes.
pub open spec fn sum_u32(s: Seq<u32>) -> int
    decreases s.len(),
{
    if s.len() == 0 {
        0
    } else {
        sum_u32(s.drop_last()) + s.last()
    }
}

/// A prefix of a sequence of sizes sums to no more than the whole.
pub(crate) proof fn lemma_sum_u32_prefix(s: Seq<u32>, i: int)
    requires
        0 <= i <= s.len(),
    ensures
        0 <= sum_u32(s.take(i)) <= sum_u32(s),
    decreases s.len() - i,
{
    if i < s.len() {
        lemma_sum_u32_prefix(s, i + 1);
        assert(s.take(i + 1).drop_last() =~= s.take(i));
    } else {
        assert(s.take(i) =~= s);
    }
    lemma_sum_u32_nonneg(s.take(i));
}

proof fn lemma_sum_u32_nonneg(s: Seq<u32>)
    ensures
        sum_u32(s) >= 0,
    decreases s.len(),
{
    if s.len() > 0 {
        lemma_sum_u32_nonneg(s.drop_last());
    }
}

/// The total and the average of a package's build sizes; the average of no
/// builds is 0, and otherwise rounds down.
pub fn size_totals(sizes: &Vec<u32>) -> (r: (u32, u32))
    requires
        sum_u32(sizes@) <= u32::MAX,
        sizes@.len() <= u32::MAX,
    ensures
        r.0 == sum_u32(sizes@),
        sizes@.len() == 0 ==> r.1 == 0,
        sizes@.len() > 0 ==> r.1 == r.0 / (sizes@.len() as u32),
{
    let mut total: u32 = 0;
    let mut i: usize = 0;
    while i < sizes.len()
        invariant
            i <= sizes@.len(),
            sum_u32(sizes@) <= u32::MAX,
            total == sum_u32(sizes@.take(i as int)),
        decreases sizes@.len() - i,
    {
        proof {
            lemma_sum_u32_prefix(sizes@, i + 1);
            assert(sizes@.take(i + 1).drop_last() =~= sizes@.take(i as int));
        }
        total = total + sizes[i];
        i = i + 1;
    }
    assert(sizes@.take(i as int) =~= sizes@);
    let count = sizes.len();
    let average = if count == 0 {
        0
    } else {
        total / (count as u32)
    };
    (total, average)
}

/// The positions of the packages listed on the home page, in order: all but
/// those held by the cemetery.
pub open spec fn home_listed(maintainer_ids: Seq<u32>) -> Seq<int>
    decreases maintainer_ids.len(),
{
    if maintainer_ids.len() == 0 {
        Seq::empty()
    } else {
        let rest = home_listed(maintainer_ids.drop_last());
        if maintainer_ids.last() != USER_CEMT {
            rest.push(maintainer_ids.len() - 1)
        } else {
            rest
        }
    }
}

/// Which packages the home page lists, given their maintainers' ids in the
/// order they are shown: the positions of those not in the cemetery.
pub fn home_listing(maintainer_ids: &Vec<u32>) -> (v: Vec<usize>)
    ensures
        v@.len() == home_listed(maintainer_ids@).len(),
        forall|k: int| 0 <= k < v@.len() ==> #[trigger] v@[k] as int == home_listed(maintainer_ids@)[k],
{
    let mut v: Vec<usize> = Vec::new();
    let mut i: usize = 0;
    while i < maintainer_ids.len()
        invariant
            i <= maintainer_ids@.len(),
            v@.len() == home_listed(maintainer_ids@.take(i as int)).len(),
            forall|k: int|
                0 <= k < v@.len() ==> #[trigger] v@[k] as int == home_listed(
                    maintainer_ids@.take(i as int),
                )[k],
        decreases maintainer_ids@.len() - i,
    {
        assert(maintainer_ids@.take(i + 1).drop_last() =~= maintainer_ids@.take(i as int));
        if maintainer_ids[i] != USER_CEMT {
            v.push(i);
        }
        i = i + 1;
    }
    assert(maintainer_ids@.take(i as int) =~= maintainer_ids@);
    v
}

/// A package is on the home page exactly when it is not in the cemetery, and
/// the home page keeps the order of the list.
pub proof fn lemma_home_listing_hides_cemetery(maintainer_ids: Seq<u32>)
    ensures
        forall|k: int|
            0 <= k < home_listed(maintainer_ids).len() ==> 0 <= #[trigger] home_listed(
                maintainer_ids,
            )[k] < maintainer_ids.len() && maintainer_ids[home_listed(maintainer_ids)[k]]
                != USER_CEMT,
        forall|j: int|
            0 <= j < maintainer_ids.len() && maintainer_ids[j] != USER_CEMT ==> home_listed(
                maintainer_ids,
            ).contains(j),
        forall|k1: int, k2: int|
            0 <= k1 < k2 < home_listed(maintainer_ids).len() ==> #[trigger] home_listed(
                maintainer_ids,
            )[k1] < #[trigger] home_listed(maintainer_ids)[k2],
    decreases maintainer_ids.len(),
{
    if maintainer_ids.len() > 0 {
        let t = maintainer_ids.drop_last();
        lemma_home_listing_hides_cemetery(t);
        let rest = home_listed(t);
        let n = maintainer_ids.len() - 1;
        assert forall|k: int| 0 <= k < rest.len() implies #[trigger] rest[k] < n by {}
        if maintainer_ids.last() != USER_CEMT {
            assert(home_listed(maintainer_ids) == rest.push(n));
            assert(home_listed(maintainer_ids)[rest.len() as int] == n);
            assert forall|j: int|
                0 <= j < maintainer_ids.len() && maintainer_ids[j]
                    != USER_CEMT implies home_listed(maintainer_ids).contains(j) by {
                if j < n {
                    assert(t[j] == maintainer_ids[j]);
                    let k = choose|k: int| 0 <= k < rest.len() && rest[k] == j;
                    assert(home_listed(maintainer_ids)[k] == j);
                } else {
                    assert(home_listed(maintainer_ids)[rest.len() as int] == j);
                }
            }
        } else {
            assert forall|j: int|
                0 <= j < maintainer_ids.len() && maintainer_ids[j]
                    != USER_CEMT implies home_listed(maintainer_ids).contains(j) by {
                assert(t[j] == maintainer_ids[j]);
            }
        }
    }
}

/// Finds the static page named `path` (its file name without extension):
/// the first page of that name, or `None`.
pub fn find_static_page(pages: &Vec<StaticPage>, path: &str) -> (r: Option<usize>)
    ensures
        r matches Some(i) ==> i < pages@.len() && pages@[i as int].name@ == path@ && forall|j: int|
            0 <= j < i ==> pages@[j].name@ != path@,
        r is None ==> forall|j: int| 0 <= j < pages@.len() ==> pages@[j].name@ != path@,
{
    let target = String::from_str(path);
    let mut i: usize = 0;
    while i < pages.len()
        invariant
            i <= pages@.len(),
            target@ == path@,
            forall|j: int| 0 <= j < i ==> pages@[j].name@ != path@,
        decreases pages@.len() - i,
    {
        if pages[i].name.eq(&target) {
            return Some(i);
        }
        i = i + 1;
    }
    None
}

} // verus!

verus! {

/// The start of the query that lists packages with their maintainer, their
/// repository and the version of their latest build, up to its filter.
pub open spec fn packages_query_head() -> Seq<char> {
    "SELECT
            p.id, p.name,
            m.id        AS maintainer_id,
            m.name      AS maintainer_name,
            r.name      AS repo_name,
            r.forge_url AS repo_forge_url,
            r.org       AS repo_org,
            r.dir       AS repo_dir,
            b.version   AS build_version
        FROM Packages p
        JOIN Maintainers  m ON m.id = p.maintainer
        JOIN Repositories r ON r.id = p.repository
        LEFT JOIN Builds  b ON b.id = (
            SELECT id FROM Builds
            WHERE package = p.id
            ORDER BY completed_at DESC LIMIT 1
        )
        WHERE 1 "@
}

/// The end of the query that lists packages: sorted by name.
pub open spec fn packages_query_tail() -> Seq<char> {
    "
        ORDER BY p.name ASC;"@
}

/// `t` occurs in `s`.
pub open spec fn contains_text(s: Seq<char>, t: Seq<char>) -> bool {
    exists|i: int| 0 <= i && i + t.len() <= s.len() && #[trigger] s.subrange(i, i + t.len()) == t
}

proof fn lemma_contains_prefix(a: Seq<char>, b: Seq<char>, t: Seq<char>)
    requires
        contains_text(a, t),
    ensures
        contains_text(a + b, t),
{
    let i = choose|i: int| 0 <= i && i + t.len() <= a.len() && #[trigger] a.subrange(i, i + t.len()) == t;
    assert((a + b).subrange(i, i + t.len()) =~= a.subrange(i, i + t.len()));
}

/// The package list, filtered or not, joins each package to its latest build
/// with a left join: a package without builds is listed all the same, and
/// the version shown is that of the build with the greatest `completed_at`
/// (sorted descending, the first one taken).
pub proof fn lemma_packages_query_lists_latest_build()
    ensures
        contains_text(packages_query_head(), "LEFT JOIN Builds  b ON b.id = (
            SELECT id FROM Builds
            WHERE package = p.id
            ORDER BY completed_at DESC LIMIT 1
        )"@),
        contains_text(
            packages_query_head() + "AND m.id = ?"@ + packages_query_tail(),
            "LEFT JOIN Builds  b ON b.id = (
            SELECT id FROM Builds
            WHERE package = p.id
            ORDER BY completed_at DESC LIMIT 1
        )"@,
        ),
        contains_text(packages_query_head() + packages_query_tail(), "LEFT JOIN Builds  b ON b.id = (
            SELECT id FROM Builds
            WHERE package = p.id
            ORDER BY completed_at DESC LIMIT 1
        )"@),
{
    reveal_strlit("SELECT
            p.id, p.name,
            m.id        AS maintainer_id,
            m.name      AS maintainer_name,
            r.name      AS repo_name,
            r.forge_url AS repo_forge_url,
            r.org       AS repo_org,
            r.dir       AS repo_dir,
            b.version   AS build_version
        FROM Packages p
        JOIN Maintainers  m ON m.id = p.maintainer
        JOIN Repositories r ON r.id = p.repository
        LEFT JOIN Builds  b ON b.id = (
            SELECT id FROM Builds
            WHERE package = p.id
            ORDER BY completed_at DESC LIMIT 1
        )
        WHERE 1 ");
    reveal_strlit("LEFT JOIN Builds  b ON b.id = (
            SELECT id FROM Builds
            WHERE package = p.id
            ORDER BY completed_at DESC LIMIT 1
        )");
    let h = packages_query_head();
    let t = "LEFT JOIN Builds  b ON b.id = (
            SELECT id FROM Builds
            WHERE package = p.id
            ORDER BY completed_at DESC LIMIT 1
        )"@;
    assert(h.subrange(449, 449 + t.len() as int) =~= t);
    lemma_contains_prefix(h, "AND m.id = ?"@, t);
    lemma_contains_prefix(h + "AND m.id = ?"@, packages_query_tail(), t);
    lemma_contains_prefix(h, packages_query_tail(), t);
}

/// The query that lists packages, all of them or, with `by_maintainer`, only
/// those of the maintainer bound to its one parameter.
pub fn packages_query_text(by_maintainer: bool) -> (s: String)
    ensures
        by_maintainer ==> s@ == packages_query_head() + "AND m.id = ?"@ + packages_query_tail(),
        !by_maintainer ==> s@ == packages_query_head() + packages_query_tail(),
        contains_text(s@, "LEFT JOIN Builds  b ON b.id = (
            SELECT id FROM Builds
            WHERE package = p.id
            ORDER BY completed_at DESC LIMIT 1
        )"@),
{
    let mut s = String::from_str("SELECT
            p.id, p.name,
            m.id        AS maintainer_id,
            m.name      AS maintainer_name,
            r.name      AS repo_name,
            r.forge_url AS repo_forge_url,
            r.org       AS repo_org,
            r.dir       AS repo_dir,
            b.version   AS build_version
        FROM Packages p
        JOIN Maintainers  m ON m.id = p.maintainer
        JOIN Repositories r ON r.id = p.repository
        LEFT JOIN Builds  b ON b.id = (
            SELECT id FROM Builds
            WHERE package = p.id
            ORDER BY completed_at DESC LIMIT 1
        )
        WHERE 1 ");
    if by_maintainer {
        s.append("AND m.id = ?");
    }
    s.append("
        ORDER BY p.name ASC;");
    proof {
        lemma_packages_query_lists_latest_build();
    }
    s
}

} // verus!
