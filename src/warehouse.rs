//! Warehouse lookups: where a warehouse is fetched from, and what a lookup that finds
//! nothing reports.
use crate::codec::Service;
use crate::config::service_url_spec;
use crate::context::{dispatched, Context, Method, OutboundCall, OutboundRequest};
use crate::error::GatewayError;
use crate::text::{int_text, render_int};
use vstd::prelude::*;

verus! {

/// A warehouse, by its id or by its slug.
pub enum WarehouseIdentifier {
    Id(String),
    Slug(String),
}

/// Optional data of an update request, wrapped so that a present field can carry `null`.
#[derive(Clone, Debug, PartialEq)]
pub struct ValueContainer<T> {
    pub value: Option<T>,
}

impl<T> From<T> for ValueContainer<T> {
    fn from(value: T) -> (r: Self) {
        ValueContainer { value: Some(value) }
    }
}

impl<T> vstd::std_specs::convert::FromSpecImpl<T> for ValueContainer<T> {
    open spec fn obeys_from_spec() -> bool {
        true
    }

    open spec fn from_spec(v: T) -> Self {
        ValueContainer { value: Some(v) }
    }
}

pub open spec fn warehouses_base(c: Context) -> Seq<char> {
    service_url_spec(c.config, Service::Warehouses) + "/warehouses/"@
}

pub open spec fn warehouse_url_spec(c: Context, id: WarehouseIdentifier) -> Seq<char> {
    warehouses_base(c) + match id {
        WarehouseIdentifier::Id(i) => "by-id/"@ + i@,
        WarehouseIdentifier::Slug(s) => "by-slug/"@ + s@,
    }
}

pub open spec fn store_warehouses_url_spec(c: Context, store_id: i32) -> Seq<char> {
    warehouses_base(c) + "by-store/"@ + int_text(store_id as int)
}

pub open spec fn not_found_reason(id: WarehouseIdentifier) -> Seq<char> {
    "warehouse "@ + match id {
        WarehouseIdentifier::Id(i) => "by id: "@ + i@,
        WarehouseIdentifier::Slug(s) => "by slug: "@ + s@,
    } + " not found"@
}

fn warehouses_base_url(ctx: &Context) -> (r: String)
    ensures
        r@ == warehouses_base(*ctx),
{
    let mut r = ctx.config.service_url(Service::Warehouses).clone();
    r.append("/warehouses/");
    r
}

/// The URL of one warehouse.
pub fn warehouse_url(ctx: &Context, id: &WarehouseIdentifier) -> (r: String)
    ensures
        r@ == warehouse_url_spec(*ctx, *id),
{
    let mut r = warehouses_base_url(ctx);
    match id {
        WarehouseIdentifier::Id(i) => {
            r.append("by-id/");
            r.append(i.as_str());
        },
        WarehouseIdentifier::Slug(s) => {
            r.append("by-slug/");
            r.append(s.as_str());
        },
    }
    r
}

/// The fetch of all warehouses of a store.
pub fn get_warehouses_for_store(ctx: &Context, store_id: i32) -> (r: Result<
    OutboundRequest,
    GatewayError,
>)
    ensures
        exists|url: String|
            url@ == store_warehouses_url_spec(*ctx, store_id) && dispatched(
                *ctx,
                OutboundCall { method: Method::Get, url, body: None, auth_override: None },
                true,
                r,
            ),
{
    let mut url = warehouses_base_url(ctx);
    url.append("by-store/");
    let id = render_int(store_id as i64);
    url.append(id.as_str());
    ctx.request(Method::Get, url, None)
}

/// The fetch of one warehouse, which the backend answers with the warehouse or nothing.
pub fn try_get_warehouse(ctx: &Context, id: &WarehouseIdentifier) -> (r: Result<
    OutboundRequest,
    GatewayError,
>)
    ensures
        exists|url: String|
            url@ == warehouse_url_spec(*ctx, *id) && dispatched(
                *ctx,
                OutboundCall { method: Method::Get, url, body: None, auth_override: None },
                true,
                r,
            ),
{
    let url = warehouse_url(ctx, id);
    ctx.request(Method::Get, url, None)
}

/// The error for a warehouse that does not exist: code 400, "Warehouse not found", and
/// details that name the warehouse.
pub open spec fn is_warehouse_not_found(e: GatewayError, id: WarehouseIdentifier) -> bool {
    e matches GatewayError::Field { code, message, reason } && code == 400 && message@
        == "Warehouse not found"@ && reason@ == not_found_reason(id)
}

/// A warehouse that must exist: a failed fetch passes its error on, and a fetch that finds
/// nothing is the not-found error naming the warehouse.
pub fn get_warehouse<W>(id: &WarehouseIdentifier, found: Result<Option<W>, GatewayError>) -> (r:
    Result<W, GatewayError>)
    ensures
        match found {
            Err(e) => r == Err::<W, GatewayError>(e),
            Ok(Some(w)) => r == Ok::<W, GatewayError>(w),
            Ok(None) => (r matches Err(x) && is_warehouse_not_found(x, *id)),
        },
{
    match found {
        Err(e) => Err(e),
        Ok(Some(w)) => Ok(w),
        Ok(None) => {
            let mut reason = String::from_str("warehouse ");
            match id {
                WarehouseIdentifier::Id(i) => {
                    reason.append("by id: ");
                    reason.append(i.as_str());
                },
                WarehouseIdentifier::Slug(s) => {
                    reason.append("by slug: ");
                    reason.append(s.as_str());
                },
            }
            reason.append(" not found");
            assert(reason@ == not_found_reason(*id));
            let message = String::from_str("Warehouse not found");
            assert(message@ == "Warehouse not found"@);
            let e = GatewayError::Field {
                code: 400,
                message,
                reason,
            };
            assert(is_warehouse_not_found(e, *id));
            Err(e)
        },
    }
}

} // verus!
