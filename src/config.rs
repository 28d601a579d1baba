//! Resolved configuration: the base URL of each backend and the paging limit.
use crate::codec::{GlobalId, Model, Service};
use crate::text::{int_text, render_int};
use vstd::prelude::*;

verus! {

pub struct Config {
    pub users_url: String,
    pub stores_url: String,
    pub orders_url: String,
    pub billing_url: String,
    pub warehouses_url: String,
    pub delivery_url: String,
    /// The largest page any backend is asked for.
    pub records_limit: u32,
    /// The time budget of one outbound call, in milliseconds.
    pub call_timeout_ms: u64,
}

pub open spec fn service_url_spec(c: Config, s: Service) -> Seq<char> {
    match s {
        Service::Users => c.users_url@,
        Service::Stores => c.stores_url@,
        Service::Orders => c.orders_url@,
        Service::Billing => c.billing_url@,
        Service::Warehouses => c.warehouses_url@,
        Service::Delivery => c.delivery_url@,
    }
}

/// The path segment under which a backend serves an entity kind.
pub open spec fn model_url_spec(m: Model) -> Seq<char> {
    match m {
        Model::User => "users"@,
        Model::Store => "stores"@,
        Model::Product => "products"@,
        Model::BaseProduct => "base_products"@,
        Model::Category => "categories"@,
        Model::Attribute => "attributes"@,
        Model::Order => "orders"@,
        Model::Invoice => "invoices"@,
        Model::Warehouse => "warehouses"@,
    }
}

/// Where an entity is fetched from: `<service url>/<kind segment>/<id>`.
pub open spec fn entity_url_spec(c: Config, g: GlobalId) -> Seq<char> {
    service_url_spec(c, g.service) + "/"@ + model_url_spec(g.model) + "/"@ + int_text(
        g.raw_id as int,
    )
}

impl Config {
    pub fn service_url(&self, s: Service) -> (r: &String)
        ensures
            r@ == service_url_spec(*self, s),
    {
        match s {
            Service::Users => &self.users_url,
            Service::Stores => &self.stores_url,
            Service::Orders => &self.orders_url,
            Service::Billing => &self.billing_url,
            Service::Warehouses => &self.warehouses_url,
            Service::Delivery => &self.delivery_url,
        }
    }
}

impl Model {
    pub fn to_url(&self) -> (r: &'static str)
        ensures
            r@ == model_url_spec(*self),
    {
        match self {
            Model::User => "users",
            Model::Store => "stores",
            Model::Product => "products",
            Model::BaseProduct => "base_products",
            Model::Category => "categories",
            Model::Attribute => "attributes",
            Model::Order => "orders",
            Model::Invoice => "invoices",
            Model::Warehouse => "warehouses",
        }
    }
}

impl GlobalId {
    /// The backend URL of the entity this identifier addresses.
    pub fn url(&self, config: &Config) -> (r: String)
        ensures
            r@ == entity_url_spec(*config, *self),
    {
        let mut r = config.service_url(self.service).clone();
        r.append("/");
        r.append(self.model.to_url());
        r.append("/");
        let id = render_int(self.raw_id as i64);
        r.append(id.as_str());
        r
    }
}

} // verus!
