//! Node refetch: one identifier string, resolved to the singleton it names or to the entity
//! it addresses and the backend URL that entity is fetched from.
use crate::codec::{decode_spec, service_tag, GlobalId, Model, Service, QUERY_NODE_ID, VIEWER_NODE_ID};
use crate::config::entity_url_spec;
use crate::context::Context;
use crate::error::{malformed_id_error, malformed_reason, GatewayError, UpstreamMessage};
use vstd::prelude::*;

verus! {

/// What a node identifier resolves to.
pub enum Node {
    Viewer,
    Query,
    /// An entity, to be fetched from `url`.
    Entity { id: GlobalId, url: String },
}

/// The entities that can be refetched as nodes.
pub open spec fn refetchable(g: GlobalId) -> bool {
    match g.service {
        Service::Users => g.model == Model::User,
        Service::Stores => g.model == Model::Store || g.model == Model::Product || g.model
            == Model::BaseProduct || g.model == Model::Category || g.model == Model::Attribute,
        _ => false,
    }
}

pub open spec fn unauthenticated_message() -> Seq<char> {
    "Authentification of Json web token failure"@
}

/// The error for a caller that needs an identity and has none: the 401 that a backend
/// answers an anonymous call with.
pub open spec fn is_unauthenticated_error(e: GatewayError) -> bool {
    e matches GatewayError::UpstreamRejected { status, upstream } && status == 401 && (upstream
        matches Some(m) && m.code == 401 && m.message@ == unauthenticated_message())
}

pub open spec fn unknown_model_reason() -> Seq<char> {
    "Unknown model"@
}

/// The error for an identifier whose service serves no refetchable entity of its kind.
pub open spec fn is_unknown_model_error(e: GatewayError, s: Service) -> bool {
    e matches GatewayError::Field { code, message, reason } && code == 400 && message@
        == "Could not get model from "@ + service_tag(s) + " microservice."@ && reason@
        == unknown_model_reason()
}

/// What resolving `id` in context `c` gives.
pub open spec fn resolved(c: Context, id: Seq<char>, r: Result<Node, GatewayError>) -> bool {
    if id == VIEWER_NODE_ID@ {
        if c.user is Some {
            r matches Ok(Node::Viewer)
        } else {
            r matches Err(e) && is_unauthenticated_error(e)
        }
    } else if id == QUERY_NODE_ID@ {
        r matches Ok(Node::Query)
    } else {
        match decode_spec(id) {
            Err(_) => r matches Err(GatewayError::DecodeFailure { reason }) && reason@
                == malformed_reason(id),
            Ok(g) => if refetchable(g) {
                r matches Ok(Node::Entity { id: gid, url }) && gid == g && url@ == entity_url_spec(
                    c.config,
                    g,
                )
            } else {
                r matches Err(e) && is_unknown_model_error(e, g.service)
            },
        }
    }
}

fn same_text(a: &str, b: &str) -> (r: bool)
    ensures
        r == (a@ == b@),
{
    let n = a.unicode_len();
    if n != b.unicode_len() {
        return false;
    }
    let mut k: usize = 0;
    while k < n
        invariant
            n == a@.len() == b@.len(),
            k <= n,
            forall|q: int| 0 <= q < k ==> a@[q] == b@[q],
        decreases n - k,
    {
        if a.get_char(k) != b.get_char(k) {
            return false;
        }
        k = k + 1;
    }
    assert(a@ =~= b@);
    true
}

/// The error for a caller that needs an identity and has none.
pub fn unauthenticated_error() -> (r: GatewayError)
    ensures
        is_unauthenticated_error(r),
{
    GatewayError::UpstreamRejected {
        status: 401,
        upstream: Some(
            UpstreamMessage {
                code: 401,
                message: String::from_str("Authentification of Json web token failure"),
            },
        ),
    }
}

/// The viewer of the request, for an authenticated caller only.
pub fn viewer(ctx: &Context) -> (r: Result<Node, GatewayError>)
    ensures
        ctx.user is Some ==> (r matches Ok(Node::Viewer)),
        ctx.user is None ==> (r matches Err(e) && is_unauthenticated_error(e)),
{
    match ctx.user {
        Some(_) => Ok(Node::Viewer),
        None => Err(unauthenticated_error()),
    }
}

/// Resolves a node identifier: the two singleton identifiers are checked first, then the
/// identifier is decoded and its entity kind looked up.
pub fn resolve_node(ctx: &Context, id: &str) -> (r: Result<Node, GatewayError>)
    ensures
        resolved(*ctx, id@, r),
{
    if same_text(id, VIEWER_NODE_ID) {
        return viewer(ctx);
    }
    if same_text(id, QUERY_NODE_ID) {
        return Ok(Node::Query);
    }
    match GlobalId::decode(id) {
        Err(e) => Err(malformed_id_error(id, e)),
        Ok(g) => {
            let supported = match g.service {
                Service::Users => match g.model {
                    Model::User => true,
                    _ => false,
                },
                Service::Stores => match g.model {
                    Model::Store | Model::Product | Model::BaseProduct | Model::Category
                    | Model::Attribute => true,
                    _ => false,
                },
                _ => false,
            };
            if supported {
                Ok(Node::Entity { id: g, url: g.url(&ctx.config) })
            } else {
                let mut message = String::from_str("Could not get model from ");
                message.append(g.service.tag());
                message.append(" microservice.");
                Err(
                    GatewayError::Field {
                        code: 400,
                        message,
                        reason: String::from_str("Unknown model"),
                    },
                )
            }
        },
    }
}

} // verus!
