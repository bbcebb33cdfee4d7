//! The statistics page: totals over the packages, and which packages stand out.

use vstd::prelude::*;
use crate::site::{sum_u32, lemma_sum_u32_prefix};

verus! {

/// What the statistics page reads of one package. Packages come ordered by
/// downloads, most first. The two ranks order packages by average size and by
/// average build time, as whole numbers.
pub struct StatItem {
    pub downloads: u32,
    pub total_size: u32,
    pub avg_size_rank: usize,
    pub avg_time_rank: usize,
}

/// The totals and the positions of the packages that the statistics page names.
pub struct StatsSummary {
    pub total_space_used: u32,
    pub total_downloads: u32,
    pub most_downloaded: usize,
    pub least_downloaded: usize,
    pub most_time: usize,
    pub least_time: usize,
    pub heaviest: usize,
}

/// The packages' total sizes.
pub open spec fn sizes_of(items: Seq<StatItem>) -> Seq<u32> {
    items.map_values(|it: StatItem| it.total_size)
}

/// The packages' download counts.
pub open spec fn downloads_of(items: Seq<StatItem>) -> Seq<u32> {
    items.map_values(|it: StatItem| it.downloads)
}

/// `i` holds the largest key, and no later position holds as large a key:
/// the last of the largest, as `Iterator::max_by` picks.
pub open spec fn is_last_max(keys: Seq<usize>, i: int) -> bool {
    &&& 0 <= i < keys.len()
    &&& forall|j: int| 0 <= j < keys.len() ==> #[trigger] keys[j] <= keys[i]
    &&& forall|j: int| i < j < keys.len() ==> #[trigger] keys[j] < keys[i]
}

/// `i` holds the smallest key, and no earlier position holds as small a key:
/// the first of the smallest, as `Iterator::min_by` picks.
pub open spec fn is_first_min(keys: Seq<usize>, i: int) -> bool {
    &&& 0 <= i < keys.len()
    &&& forall|j: int| 0 <= j < keys.len() ==> keys[i] <= #[trigger] keys[j]
    &&& forall|j: int| 0 <= j < i ==> keys[i] < #[trigger] keys[j]
}

/// The ranks by average build time.
pub open spec fn time_ranks(items: Seq<StatItem>) -> Seq<usize> {
    items.map_values(|it: StatItem| it.avg_time_rank)
}

/// The ranks by average size.
pub open spec fn size_ranks(items: Seq<StatItem>) -> Seq<usize> {
    items.map_values(|it: StatItem| it.avg_size_rank)
}

proof fn lemma_sum_step(s: Seq<u32>, i: int)
    requires
        0 <= i < s.len(),
    ensures
        sum_u32(s.take(i + 1)) == sum_u32(s.take(i)) + s[i],
{
    assert(s.take(i + 1).drop_last() =~= s.take(i));
}

/// Sums the sizes and downloads of the packages and picks the packages that
/// the statistics page names: the first and the last (most and least
/// downloaded, by the order of the list), the last of those with the longest
/// build time and of those with the largest size, and the first of those with
/// the shortest build time.
pub fn stats_summary(items: &Vec<StatItem>) -> (r: StatsSummary)
    requires
        items@.len() > 0,
        sum_u32(sizes_of(items@)) <= u32::MAX,
        sum_u32(downloads_of(items@)) <= u32::MAX,
    ensures
        r.total_space_used == sum_u32(sizes_of(items@)),
        r.total_downloads == sum_u32(downloads_of(items@)),
        r.most_downloaded == 0,
        r.least_downloaded == items@.len() - 1,
        is_last_max(time_ranks(items@), r.most_time as int),
        is_first_min(time_ranks(items@), r.least_time as int),
        is_last_max(size_ranks(items@), r.heaviest as int),
{
    let ghost sizes = sizes_of(items@);
    let ghost downloads = downloads_of(items@);
    let ghost times = time_ranks(items@);
    let ghost weights = size_ranks(items@);
    let mut total_space_used: u32 = items[0].total_size;
    let mut total_downloads: u32 = items[0].downloads;
    let mut most_time: usize = 0;
    let mut least_time: usize = 0;
    let mut heaviest: usize = 0;
    proof {
        lemma_sum_step(sizes, 0);
        lemma_sum_step(downloads, 0);
        assert(sizes.take(0) =~= Seq::<u32>::empty());
        assert(downloads.take(0) =~= Seq::<u32>::empty());
    }
    let mut i: usize = 1;
    while i < items.len()
        invariant
            1 <= i <= items@.len(),
            sizes == sizes_of(items@),
            downloads == downloads_of(items@),
            times == time_ranks(items@),
            weights == size_ranks(items@),
            sum_u32(sizes) <= u32::MAX,
            sum_u32(downloads) <= u32::MAX,
            total_space_used == sum_u32(sizes.take(i as int)),
            total_downloads == sum_u32(downloads.take(i as int)),
            is_last_max(times.take(i as int), most_time as int),
            is_first_min(times.take(i as int), least_time as int),
            is_last_max(weights.take(i as int), heaviest as int),
        decreases items@.len() - i,
    {
        proof {
            lemma_sum_step(sizes, i as int);
            lemma_sum_step(downloads, i as int);
            lemma_sum_u32_prefix(sizes, i + 1);
            lemma_sum_u32_prefix(downloads, i + 1);
        }
        let item = &items[i];
        total_space_used = total_space_used + item.total_size;
        total_downloads = total_downloads + item.downloads;
        let ghost prev_most = most_time;
        let ghost prev_least = least_time;
        let ghost prev_heavy = heaviest;
        if item.avg_time_rank >= items[most_time].avg_time_rank {
            most_time = i;
        }
        if item.avg_time_rank < items[least_time].avg_time_rank {
            least_time = i;
        }
        if item.avg_size_rank >= items[heaviest].avg_size_rank {
            heaviest = i;
        }
        proof {
            let t1 = times.take(i + 1);
            let t0 = times.take(i as int);
            let w1 = weights.take(i + 1);
            let w0 = weights.take(i as int);
            assert(forall|j: int| 0 <= j < i ==> t1[j] == t0[j]);
            assert(forall|j: int| 0 <= j < i ==> w1[j] == w0[j]);
            assert(t1[i as int] == item.avg_time_rank);
            assert(w1[i as int] == item.avg_size_rank);
            assert(times[prev_most as int] == items@[prev_most as int].avg_time_rank);
            assert(times[prev_least as int] == items@[prev_least as int].avg_time_rank);
            assert(weights[prev_heavy as int] == items@[prev_heavy as int].avg_size_rank);
            assert(is_last_max(t1, most_time as int));
            assert(is_first_min(t1, least_time as int));
            assert(is_last_max(w1, heaviest as int));
        }
        i = i + 1;
    }
    proof {
        assert(sizes.take(i as int) =~= sizes);
        assert(downloads.take(i as int) =~= downloads);
        assert(times.take(i as int) =~= times);
        assert(weights.take(i as int) =~= weights);
    }
    StatsSummary {
        total_space_used,
        total_downloads,
        most_downloaded: 0,
        least_downloaded: items.len() - 1,
        most_time,
        least_time,
        heaviest,
    }
}

} // verus!
