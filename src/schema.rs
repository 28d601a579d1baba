//! Root objects of the graph and the page-numbered search page info.
use crate::codec::{QUERY_NODE_ID, VIEWER_NODE_ID};
use vstd::prelude::*;

verus! {

/// The viewer singleton: what an authenticated caller sees.
pub struct Viewer;

/// The dictionary of the singleton node identifiers.
pub struct StaticNodeIds;

/// The query root.
pub struct Query;

/// The mutation root.
pub struct Mutation;

impl StaticNodeIds {
    pub fn viewer_id(&self) -> (r: &'static str)
        ensures
            r@ == VIEWER_NODE_ID@,
    {
        VIEWER_NODE_ID
    }

    pub fn query_id(&self) -> (r: &'static str)
        ensures
            r@ == QUERY_NODE_ID@,
    {
        QUERY_NODE_ID
    }
}

impl Query {
    pub fn api_version(&self) -> (r: &'static str)
        ensures
            r@ == "1.0"@,
    {
        "1.0"
    }
}

/// Page info of a page-numbered search. The echoed search options are carried, never
/// read, so their representation is the caller's.
#[derive(Clone, Debug, PartialEq)]
pub struct PageInfoWarehouseProductSearch<Filters> {
    pub total_pages: i32,
    pub current_page: i32,
    pub page_items_count: i32,
    pub search_term_options: Option<Filters>,
}

/// Pages needed for `total` items, `per_page` to a page; none when a page holds nothing.
pub open spec fn pages_for(total: int, per_page: int) -> int {
    if per_page <= 0 || total <= 0 {
        0
    } else {
        (total + per_page - 1) / per_page
    }
}

impl<Filters> PageInfoWarehouseProductSearch<Filters> {
    pub fn new(
        total_items: i32,
        current_page: i32,
        items_count: i32,
        search_term_options: Option<Filters>,
    ) -> (r: Self)
        ensures
            r.total_pages == pages_for(total_items as int, items_count as int),
            r.current_page == current_page,
            r.page_items_count == items_count,
            r.search_term_options == search_term_options,
    {
        let total_pages: i32 = if items_count <= 0 || total_items <= 0 {
            0
        } else {
            let t = total_items as i64;
            let p = items_count as i64;
            let s = t + p - 1;
            let q = s / p;
            assert(0 <= (s as int) / (p as int) <= t) by (nonlinear_arith)
                requires
                    s == t + p - 1,
                    t >= 1,
                    p >= 1,
            ;
            q as i32
        };
        PageInfoWarehouseProductSearch {
            total_pages,
            current_page,
            page_items_count: items_count,
            search_term_options,
        }
    }
}

} // verus!
