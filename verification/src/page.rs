//! Pagination plumbing and API identification.
//!
//! A page query carries a page number and a page size; the datastore is
//! asked for a window of `per_page` records starting after the pages
//! before. A page may select at most one field besides its own page
//! information.

use vstd::prelude::*;
use vstd::string::StringExecFns;

verus! {

/// Version and endpoint information the API reports about itself.
#[derive(Debug)]
pub struct ApiInfo {
    pub major: u16,
    pub minor: u16,
    pub bugfix: u16,
    pub rte: String,
    pub vc: String,
}

/// Running total of records counted while a page is resolved.
#[derive(Debug)]
pub struct TotalCount(pub u32);

/// Whether a further page would be non-empty.
#[derive(Debug)]
pub struct HasNextPage(pub bool);

/// The accounting a resolved page carries beside its records.
#[derive(Debug)]
pub struct PageInfo {
    pub page: u32,
    pub per_page: u32,
    pub needs_page_info: bool,
    pub total: TotalCount,
    pub has_next_page: HasNextPage,
}

/// One page of a paginated query.
#[derive(Debug)]
pub struct Page {
    pub page_info: PageInfo,
}

/// How many of the selected field names are not the page-information
/// field.
pub open spec fn non_info_count(names: Seq<Seq<char>>) -> int
    decreases names.len(),
{
    if names.len() == 0 {
        0int
    } else {
        non_info_count(names.drop_last()) + if names.last() == "pageInfo"@ {
            0int
        } else {
            1int
        }
    }
}

/// The window of records a page stands for: the offset of its first
/// record and its size.
pub fn page_bounds(page: u32, per_page: u32) -> (r: (u64, u64))
    requires
        page >= 1,
    ensures
        r.0 == (page - 1) * per_page,
        r.1 == per_page,
{
    proof {
        assert((page - 1) * per_page <= 0xFFFF_FFFFu64 * 0xFFFF_FFFFu64) by (nonlinear_arith)
            requires
                page <= 0xFFFF_FFFFu64 && per_page <= 0xFFFF_FFFFu64 && page >= 1,
        ;
    }
    let start = (page as u64 - 1) * (per_page as u64);
    (start, per_page as u64)
}

/// Build a page for the selected field names: refused when more than one
/// selection besides the page-information field is asked for; the page
/// remembers whether page information itself was selected.
pub fn build_page(page: u32, per_page: u32, selection_names: &Vec<String>) -> (r: Option<Page>)
    ensures
        r is Some <==> non_info_count(selection_names.deep_view()) <= 1,
        r matches Some(p) ==> p.page_info.page == page && p.page_info.per_page == per_page
            && p.page_info.needs_page_info == selection_names.deep_view().contains("pageInfo"@)
            && p.page_info.total.0 == 0 && !p.page_info.has_next_page.0,
{
    let info_key = String::from_str("pageInfo");
    let n = selection_names.len();
    let mut others: u64 = 0;
    let mut needs_page_info = false;
    let mut i: usize = 0;
    let ghost dv: Seq<Seq<char>> = selection_names.deep_view();
    proof {
        assert(dv.take(0) =~= Seq::<Seq<char>>::empty());
    }
    while i < n
        invariant
            n == selection_names@.len(),
            i <= n,
            dv == selection_names.deep_view(),
            others == non_info_count(dv.take(i as int)),
            others <= i,
            needs_page_info == dv.take(i as int).contains("pageInfo"@),
            info_key@ == "pageInfo"@,
        decreases n - i,
    {
        proof {
            assert(dv.take(i + 1).drop_last() =~= dv.take(i as int));
            assert(dv.take(i + 1).last() == dv[i as int]);
        }
        if selection_names[i] == info_key {
            needs_page_info = true;
            proof {
                assert(dv.take(i + 1)[i as int] == "pageInfo"@);
            }
        } else {
            others = others + 1;
            proof {
                let next = dv.take(i + 1);
                let cur = dv.take(i as int);
                if next.contains("pageInfo"@) {
                    let j = choose|j: int| 0 <= j < next.len() && next[j] == "pageInfo"@;
                    if j < i {
                        assert(cur[j] == "pageInfo"@);
                    }
                }
                if cur.contains("pageInfo"@) {
                    let j = choose|j: int| 0 <= j < cur.len() && cur[j] == "pageInfo"@;
                    assert(next[j] == "pageInfo"@);
                }
            }
        }
        proof {
            let next = dv.take(i + 1);
            let cur = dv.take(i as int);
            if needs_page_info && cur.contains("pageInfo"@) {
                let j = choose|j: int| 0 <= j < cur.len() && cur[j] == "pageInfo"@;
                assert(next[j] == "pageInfo"@);
            }
        }
        i = i + 1;
    }
    proof {
        assert(dv.take(n as int) =~= dv);
    }
    if others > 1 {
        return None;
    }
    Some(
        Page {
            page_info: PageInfo {
                page,
                per_page,
                needs_page_info,
                total: TotalCount(0),
                has_next_page: HasNextPage(false),
            },
        },
    )
}

} // verus!
