//! The orders of an invoice: the billing backend names their ids, the orders backend holds
//! them, and every id it names must resolve.
use crate::codec::Service;
use crate::config::service_url_spec;
use crate::context::{dispatched, Context, Method, OutboundCall, OutboundRequest};
use crate::error::GatewayError;
use vstd::prelude::*;

verus! {

pub open spec fn invoice_orders_url_spec(c: Context, invoice_id: Seq<char>) -> Seq<char> {
    service_url_spec(c.config, Service::Billing) + "/invoices/by-id/"@ + invoice_id
        + "/order_ids"@
}

pub open spec fn missing_order_message(id: Seq<char>) -> Seq<char> {
    "Order with id: "@ + id + " does not exist in orders microservice."@
}

/// The error for an order id that the orders backend does not know: code 100, with
/// details that name the id.
pub open spec fn is_missing_order_error(e: GatewayError, id: Seq<char>) -> bool {
    e matches GatewayError::Field { code, message, reason } && code == 100 && message@
        == "Could not find order id received from invoice in orders."@ && reason@
        == missing_order_message(id)
}

/// The fetch of the ids of the orders an invoice pays for.
pub fn invoice_orders_request(ctx: &Context, invoice_id: &str) -> (r: Result<
    OutboundRequest,
    GatewayError,
>)
    ensures
        exists|url: String|
            url@ == invoice_orders_url_spec(*ctx, invoice_id@) && dispatched(
                *ctx,
                OutboundCall { method: Method::Get, url, body: None, auth_override: None },
                true,
                r,
            ),
{
    let mut url = ctx.config.service_url(Service::Billing).clone();
    url.append("/invoices/by-id/");
    url.append(invoice_id);
    url.append("/order_ids");
    ctx.request(Method::Get, url, None)
}

/// The id whose order is looked up next, once the orders of the first `found` ids are
/// collected; none when every id has its order.
pub fn next_order_id(ids: &Vec<String>, found: usize) -> (r: Option<&String>)
    ensures
        found < ids@.len() ==> (r matches Some(id) && *id == ids@[found as int]),
        found >= ids@.len() ==> r is None,
{
    if found < ids.len() {
        Some(&ids[found])
    } else {
        None
    }
}

/// One step of collecting the orders of an invoice, in the order of its ids: the lookup of
/// the next id adds that id's order, or ends the collection with the lookup's own error,
/// or with the missing-order error when the orders backend does not know the id. No
/// further id is looked up once a step has failed.
pub fn collect_next_order<O>(
    ids: &Vec<String>,
    orders: Vec<O>,
    lookup: Result<Option<O>, GatewayError>,
) -> (r: Result<Vec<O>, GatewayError>)
    requires
        orders@.len() < ids@.len(),
    ensures
        match lookup {
            Err(e) => r == Err::<Vec<O>, GatewayError>(e),
            Ok(None) => r matches Err(e) && is_missing_order_error(e, ids@[orders@.len() as int]@),
            Ok(Some(o)) => r matches Ok(v) && v@ == orders@.push(o),
        },
{
    match lookup {
        Err(e) => Err(e),
        Ok(Some(o)) => {
            let mut orders = orders;
            orders.push(o);
            Ok(orders)
        },
        Ok(None) => {
            let mut reason = String::from_str("Order with id: ");
            reason.append(ids[orders.len()].as_str());
            reason.append(" does not exist in orders microservice.");
            Err(
                GatewayError::Field {
                    code: 100,
                    message: String::from_str(
                        "Could not find order id received from invoice in orders.",
                    ),
                    reason,
                },
            )
        },
    }
}

} // verus!
