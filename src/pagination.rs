//! Cursor pagination over offset-paginated backends. A page asks the backend for one item
//! more than it shows: that item, when it comes, tells that a next page exists.
use crate::codec::{decode_spec, encode_spec, GlobalId, Model, Service};
use crate::error::{malformed_id_error, malformed_reason, GatewayError};
use crate::text::{chars_of, nat_digits, parse_nat, render_nat};
use vstd::prelude::*;

verus! {

/// The largest position a positional cursor may name.
pub const MAX_POSITION: u64 = 0x0fff_ffff_ffff_ffff;

/// What to ask a backend for.
#[derive(Clone, Copy, Debug, PartialEq, Eq, Structural)]
pub struct PageWindow {
    /// Backend offset of the first item of the page.
    pub offset: u64,
    /// The page size, after clamping.
    pub count: u32,
    /// Whether the page continues from a cursor.
    pub after_given: bool,
}

#[derive(Clone, Debug)]
pub struct PageInfo {
    pub has_next_page: bool,
    pub has_previous_page: bool,
    pub start_cursor: Option<String>,
    pub end_cursor: Option<String>,
}

pub struct Edge<T> {
    pub cursor: String,
    pub node: T,
}

pub struct Connection<T> {
    pub edges: Vec<Edge<T>>,
    pub page_info: PageInfo,
}

/// What a page does with an `after` cursor it cannot read: each field says whether it
/// starts again from the first page or refuses the request.
#[derive(Clone, Copy, Debug, PartialEq, Eq, Structural)]
pub enum CursorPolicy {
    Restart,
    Refuse,
}

/// The window of a first page.
pub open spec fn first_window(first: Option<i32>, limit: u32) -> PageWindow {
    PageWindow { offset: 0, count: clamp_count(first, limit), after_given: false }
}

/// The page size: the requested count, or the limit when none is given, never more than
/// the limit and never below zero.
pub open spec fn clamp_count(first: Option<i32>, limit: u32) -> u32 {
    match first {
        None => limit,
        Some(f) => if f < 0 {
            0
        } else if f as int > limit as int {
            limit
        } else {
            f as u32
        },
    }
}

/// The backend reported a further page: it returned the one extra item asked for.
pub open spec fn has_next(count: u32, n: nat) -> bool {
    n == count as nat + 1
}

/// How many fetched items become edges.
pub open spec fn kept(count: u32, n: nat) -> nat {
    if has_next(count, n) {
        count as nat
    } else {
        n
    }
}

pub open spec fn entity_cursor(service: Service, model: Model, raw_id: i32) -> Seq<char> {
    encode_spec(GlobalId { service, model, raw_id })
}

pub open spec fn position_cursor(offset: u64, i: int) -> Seq<char> {
    nat_digits((offset + i) as nat)
}

pub open spec fn malformed_cursor_reason(c: Seq<char>) -> Seq<char> {
    "Malformed cursor: "@ + c
}

/// The page info of a page of `n` fetched items whose edge cursors are `cursors`.
pub open spec fn page_info_matches(
    w: PageWindow,
    n: nat,
    cursors: Seq<Seq<char>>,
    p: PageInfo,
) -> bool {
    &&& p.has_next_page == has_next(w.count, n)
    &&& p.has_previous_page == w.after_given
    &&& (cursors.len() == 0 ==> p.start_cursor is None && p.end_cursor is None)
    &&& (cursors.len() > 0 ==> (p.start_cursor matches Some(s) && s@ == cursors[0]))
    &&& (cursors.len() > 0 ==> (p.end_cursor matches Some(e) && e@ == cursors.last()))
}

/// What a page of entities is: the edges keep the first `kept` fetched items in order, each
/// under the encoded identifier of its entity.
pub open spec fn entity_page<T>(
    w: PageWindow,
    service: Service,
    model: Model,
    fetched: Seq<(i32, T)>,
    r: Connection<T>,
) -> bool {
    &&& r.edges@.len() == kept(w.count, fetched.len())
    &&& forall|i: int|
        0 <= i < r.edges@.len() ==> (#[trigger] r.edges@[i]).node == fetched[i].1
            && r.edges@[i].cursor@ == entity_cursor(service, model, fetched[i].0)
    &&& page_info_matches(w, fetched.len(), edge_cursors(r.edges@), r.page_info)
}

/// What a page of positional items is: the edges keep the first `kept` fetched items in
/// order, each under its backend position.
pub open spec fn position_page<T>(w: PageWindow, fetched: Seq<T>, r: Connection<T>) -> bool {
    &&& r.edges@.len() == kept(w.count, fetched.len())
    &&& forall|i: int|
        0 <= i < r.edges@.len() ==> (#[trigger] r.edges@[i]).node == fetched[i]
            && r.edges@[i].cursor@ == position_cursor(w.offset, i)
    &&& page_info_matches(w, fetched.len(), edge_cursors(r.edges@), r.page_info)
}

pub open spec fn edge_cursors<T>(edges: Seq<Edge<T>>) -> Seq<Seq<char>> {
    edges.map_values(|e: Edge<T>| e.cursor@)
}

/// The count of a page.
pub fn page_count(first: Option<i32>, records_limit: u32) -> (r: u32)
    ensures
        r == clamp_count(first, records_limit),
{
    match first {
        None => records_limit,
        Some(f) => if f < 0 {
            0
        } else if f as u32 > records_limit {
            records_limit
        } else {
            f as u32
        },
    }
}

impl PageWindow {
    /// How many items to ask the backend for: one more than the page shows.
    pub fn fetch_count(&self) -> (r: u64)
        ensures
            r == self.count as u64 + 1,
    {
        self.count as u64 + 1
    }

    /// The window of a page of entities that continues from the entity `after` identifies:
    /// its id is the backend offset to continue from. A cursor that is no identifier, or
    /// names a negative id, starts a first page or is refused, as `policy` says.
    pub fn for_entities(
        first: Option<i32>,
        after: Option<&str>,
        records_limit: u32,
        policy: CursorPolicy,
    ) -> (r: Result<PageWindow, GatewayError>)
        ensures
            match after {
                None => r == Ok::<PageWindow, GatewayError>(first_window(first, records_limit)),
                Some(a) => match decode_spec(a@) {
                    Ok(g) => if g.raw_id >= 0 {
                        r == Ok::<PageWindow, GatewayError>(
                            PageWindow {
                                offset: g.raw_id as u64,
                                count: clamp_count(first, records_limit),
                                after_given: true,
                            },
                        )
                    } else {
                        match policy {
                            CursorPolicy::Restart => r == Ok::<PageWindow, GatewayError>(
                                first_window(first, records_limit),
                            ),
                            CursorPolicy::Refuse => r matches Err(GatewayError::DecodeFailure { reason })
                                && reason@ == malformed_cursor_reason(a@),
                        }
                    },
                    Err(_) => match policy {
                        CursorPolicy::Restart => r == Ok::<PageWindow, GatewayError>(
                            first_window(first, records_limit),
                        ),
                        CursorPolicy::Refuse => r matches Err(GatewayError::DecodeFailure { reason })
                            && reason@ == malformed_reason(a@),
                    },
                },
            },
    {
        let count = page_count(first, records_limit);
        let restart = PageWindow { offset: 0, count, after_given: false };
        match after {
            None => Ok(restart),
            Some(a) => match GlobalId::decode(a) {
                Ok(g) => {
                    if g.raw_id >= 0 {
                        Ok(PageWindow { offset: g.raw_id as u64, count, after_given: true })
                    } else {
                        match policy {
                            CursorPolicy::Restart => Ok(restart),
                            CursorPolicy::Refuse => {
                                let mut reason = String::from_str("Malformed cursor: ");
                                reason.append(a);
                                Err(GatewayError::DecodeFailure { reason })
                            },
                        }
                    }
                },
                Err(e) => match policy {
                    CursorPolicy::Restart => Ok(restart),
                    CursorPolicy::Refuse => Err(malformed_id_error(a, e)),
                },
            },
        }
    }

    /// The window of a page of positional items, continuing after the position that
    /// `after` names in decimal. A cursor that is no such position starts a first page or
    /// is refused, as `policy` says.
    pub fn for_positions(
        first: Option<i32>,
        after: Option<&str>,
        records_limit: u32,
        policy: CursorPolicy,
    ) -> (r: Result<PageWindow, GatewayError>)
        ensures
            match after {
                None => r == Ok::<PageWindow, GatewayError>(first_window(first, records_limit)),
                Some(a) => if exists|p: nat| p <= MAX_POSITION && nat_digits(p) == a@ {
                    r == Ok::<PageWindow, GatewayError>(
                        PageWindow {
                            offset: ((choose|p: nat| p <= MAX_POSITION && nat_digits(p) == a@) + 1) as u64,
                            count: clamp_count(first, records_limit),
                            after_given: true,
                        },
                    )
                } else {
                    match policy {
                        CursorPolicy::Restart => r == Ok::<PageWindow, GatewayError>(
                            first_window(first, records_limit),
                        ),
                        CursorPolicy::Refuse => r matches Err(GatewayError::DecodeFailure { reason })
                            && reason@ == malformed_cursor_reason(a@),
                    }
                },
            },
    {
        let count = page_count(first, records_limit);
        match after {
            None => Ok(PageWindow { offset: 0, count, after_given: false }),
            Some(a) => {
                let cs = chars_of(a);
                match parse_nat(&cs, 0, cs.len(), MAX_POSITION) {
                    Some(p) => {
                        proof {
                            assert(cs@.subrange(0, cs@.len() as int) =~= a@);
                            let q = choose|q: nat| q <= MAX_POSITION && nat_digits(q) == a@;
                            crate::text::lemma_nat_digits(q);
                            crate::text::lemma_nat_digits(p as nat);
                        }
                        Ok(PageWindow { offset: p + 1, count, after_given: true })
                    },
                    None => {
                        assert(cs@.subrange(0, cs@.len() as int) =~= a@);
                        match policy {
                            CursorPolicy::Restart => Ok(PageWindow { offset: 0, count, after_given: false }),
                            CursorPolicy::Refuse => {
                                let mut reason = String::from_str("Malformed cursor: ");
                                reason.append(a);
                                Err(GatewayError::DecodeFailure { reason })
                            },
                        }
                    },
                }
            },
        }
    }
}

fn page_info_for<T>(w: &PageWindow, n: usize, edges: &Vec<Edge<T>>) -> (r: PageInfo)
    ensures
        page_info_matches(*w, n as nat, edge_cursors(edges@), r),
{
    let len = edges.len();
    let (start_cursor, end_cursor) = if len == 0 {
        (None, None)
    } else {
        (Some(edges[0].cursor.clone()), Some(edges[len - 1].cursor.clone()))
    };
    PageInfo {
        has_next_page: n as u64 == w.count as u64 + 1,
        has_previous_page: w.after_given,
        start_cursor,
        end_cursor,
    }
}

/// A page of entities, each fetched with its raw id. The cursor of each edge is the
/// encoded identifier of its entity; edges keep the backend's order; the look-ahead
/// item, when it came, is dropped.
pub fn paginate_entities<T>(
    window: &PageWindow,
    service: Service,
    model: Model,
    fetched: Vec<(i32, T)>,
) -> (r: Connection<T>)
    ensures
        entity_page(*window, service, model, fetched@, r),
{
    let n = fetched.len();
    let ghost orig = fetched@;
    let mut items = fetched;
    if n as u64 == window.count as u64 + 1 {
        items.truncate(window.count as usize);
    }
    let keep = items.len();
    assert(keep == kept(window.count, n as nat));
    let mut edges: Vec<Edge<T>> = Vec::new();
    let mut k: usize = 0;
    while k < keep
        invariant
            keep <= orig.len(),
            k <= keep,
            items@ == orig.subrange(k as int, keep as int),
            edges@.len() == k,
            forall|i: int|
                0 <= i < k ==> (#[trigger] edges@[i]).node == orig[i].1 && edges@[i].cursor@
                    == entity_cursor(service, model, orig[i].0),
        decreases keep - k,
    {
        let (raw_id, node) = items.remove(0);
        let cursor = GlobalId { service, model, raw_id }.encode();
        edges.push(Edge { cursor, node });
        k = k + 1;
        assert(items@ =~= orig.subrange(k as int, keep as int));
    }
    let page_info = page_info_for(window, n, &edges);
    Connection { edges, page_info }
}

/// A page of items without identity, such as name suggestions. The cursor of each edge is
/// its backend position in decimal; edges keep the backend's order; the look-ahead item,
/// when it came, is dropped.
pub fn paginate_positions<T>(window: &PageWindow, fetched: Vec<T>) -> (r: Connection<T>)
    ensures
        position_page(*window, fetched@, r),
{
    let n = fetched.len();
    let ghost orig = fetched@;
    let mut items = fetched;
    if n as u64 == window.count as u64 + 1 {
        items.truncate(window.count as usize);
    }
    let keep = items.len();
    let mut edges: Vec<Edge<T>> = Vec::new();
    let mut k: usize = 0;
    while k < keep
        invariant
            keep <= orig.len(),
            k <= keep,
            items@ == orig.subrange(k as int, keep as int),
            edges@.len() == k,
            forall|i: int|
                0 <= i < k ==> (#[trigger] edges@[i]).node == orig[i] && edges@[i].cursor@
                    == position_cursor(window.offset, i),
        decreases keep - k,
    {
        let node = items.remove(0);
        let cursor = render_nat(window.offset as u128 + k as u128);
        edges.push(Edge { cursor, node });
        k = k + 1;
        assert(items@ =~= orig.subrange(k as int, keep as int));
    }
    let page_info = page_info_for(window, n, &edges);
    Connection { edges, page_info }
}

/// The look-ahead decides the next page: a backend that returns exactly the page size
/// leaves no next page and every item becomes an edge; one that returns one item more
/// makes a next page, and that item is not shown.
pub proof fn lemma_look_ahead<T>(
    w: PageWindow,
    service: Service,
    model: Model,
    fetched: Seq<(i32, T)>,
    r: Connection<T>,
)
    requires
        entity_page(w, service, model, fetched, r),
    ensures
        fetched.len() == w.count ==> !r.page_info.has_next_page && r.edges@.len() == w.count,
        fetched.len() == w.count + 1 ==> r.page_info.has_next_page && r.edges@.len() == w.count,
{
}

/// The same look-ahead rule for pages of positional items.
pub proof fn lemma_look_ahead_positions<T>(w: PageWindow, fetched: Seq<T>, r: Connection<T>)
    requires
        position_page(w, fetched, r),
    ensures
        fetched.len() == w.count ==> !r.page_info.has_next_page && r.edges@.len() == w.count,
        fetched.len() == w.count + 1 ==> r.page_info.has_next_page && r.edges@.len() == w.count,
{
}

/// Cursors are stable: two pages of the same window over the same backend answer carry
/// the same cursors in the same order, and the cursor of an entity's edge is the same in
/// every page that shows it.
pub proof fn lemma_entity_cursors_stable<T>(
    w1: PageWindow,
    w2: PageWindow,
    service: Service,
    model: Model,
    fetched1: Seq<(i32, T)>,
    fetched2: Seq<(i32, T)>,
    r1: Connection<T>,
    r2: Connection<T>,
)
    requires
        entity_page(w1, service, model, fetched1, r1),
        entity_page(w2, service, model, fetched2, r2),
    ensures
        w1 == w2 && fetched1 == fetched2 ==> edge_cursors(r1.edges@) == edge_cursors(r2.edges@),
        forall|i: int, j: int|
            0 <= i < r1.edges@.len() && 0 <= j < r2.edges@.len() && fetched1[i].0 == fetched2[j].0
                ==> r1.edges@[i].cursor@ == r2.edges@[j].cursor@,
{
    if w1 == w2 && fetched1 == fetched2 {
        assert(edge_cursors(r1.edges@) =~= edge_cursors(r2.edges@));
    }
}

/// Positional cursors are stable too: the same window over the same backend answer gives
/// the same cursors in the same order.
pub proof fn lemma_position_cursors_stable<T>(
    w: PageWindow,
    fetched1: Seq<T>,
    fetched2: Seq<T>,
    r1: Connection<T>,
    r2: Connection<T>,
)
    requires
        position_page(w, fetched1, r1),
        position_page(w, fetched2, r2),
        fetched1.len() == fetched2.len(),
    ensures
        edge_cursors(r1.edges@) == edge_cursors(r2.edges@),
{
    assert(edge_cursors(r1.edges@) =~= edge_cursors(r2.edges@));
}

/// The cursor of an entity's edge decodes to that entity, so a page that continues from
/// it starts at that entity's id.
pub proof fn lemma_entity_cursor_resumes(service: Service, model: Model, raw_id: i32)
    ensures
        decode_spec(entity_cursor(service, model, raw_id)) == Ok::<
            GlobalId,
            crate::codec::MalformedIdentifier,
        >(GlobalId { service, model, raw_id }),
{
    crate::codec::lemma_round_trip(GlobalId { service, model, raw_id });
}

} // verus!
