//! The global identifier codec: one opaque, URL-safe string for each
//! (backend service, entity kind, numeric id) triple, and its exact inverse.
use crate::text::{chars_of, int_text, is_digit, lemma_int_text_chars, lemma_int_text_injective, parse_i32, render_int};
use vstd::prelude::*;

verus! {

/// A backend service that owns entities.
#[derive(Clone, Copy, Debug, PartialEq, Eq, Structural)]
pub enum Service {
    Users,
    Stores,
    Orders,
    Billing,
    Warehouses,
    Delivery,
}

/// A kind of entity held by a backend service.
#[derive(Clone, Copy, Debug, PartialEq, Eq, Structural)]
pub enum Model {
    User,
    Store,
    Product,
    BaseProduct,
    Category,
    Attribute,
    Order,
    Invoice,
    Warehouse,
}

/// The address of one entity of one backend.
#[derive(Clone, Copy, Debug, PartialEq, Eq, Structural)]
pub struct GlobalId {
    pub service: Service,
    pub model: Model,
    pub raw_id: i32,
}

/// The string given to `GlobalId::decode` is no encoding of any identifier.
#[derive(Clone, Copy, Debug, PartialEq, Eq, Structural)]
pub struct MalformedIdentifier;

/// The identifier reserved for the viewer singleton node.
pub const VIEWER_NODE_ID: &'static str = "0";

/// The identifier reserved for the query root singleton node.
pub const QUERY_NODE_ID: &'static str = "1";

pub open spec fn service_tag(s: Service) -> Seq<char> {
    match s {
        Service::Users => "users"@,
        Service::Stores => "stores"@,
        Service::Orders => "orders"@,
        Service::Billing => "billing"@,
        Service::Warehouses => "warehouses"@,
        Service::Delivery => "delivery"@,
    }
}

pub open spec fn model_tag(m: Model) -> Seq<char> {
    match m {
        Model::User => "user"@,
        Model::Store => "store"@,
        Model::Product => "product"@,
        Model::BaseProduct => "base_product"@,
        Model::Category => "category"@,
        Model::Attribute => "attribute"@,
        Model::Order => "order"@,
        Model::Invoice => "invoice"@,
        Model::Warehouse => "warehouse"@,
    }
}

/// The encoding of an identifier: service tag, entity tag and decimal id, joined by dots.
pub open spec fn encode_spec(g: GlobalId) -> Seq<char> {
    service_tag(g.service) + seq!['.'] + model_tag(g.model) + seq!['.'] + int_text(
        g.raw_id as int,
    )
}

/// The string is the encoding of some identifier.
pub open spec fn is_encoding(s: Seq<char>) -> bool {
    exists|g: GlobalId| encode_spec(g) == s
}

/// What decoding a string gives: the one identifier whose encoding it is, if any.
pub open spec fn decode_spec(s: Seq<char>) -> Result<GlobalId, MalformedIdentifier> {
    if is_encoding(s) {
        Ok(choose|g: GlobalId| encode_spec(g) == s)
    } else {
        Err(MalformedIdentifier)
    }
}

pub open spec fn has_no_dot(s: Seq<char>) -> bool {
    forall|i: int| 0 <= i < s.len() ==> s[i] != '.'
}

proof fn lemma_tags_dot_free(s: Service, m: Model)
    ensures
        service_tag(s).len() > 0,
        has_no_dot(service_tag(s)),
        model_tag(m).len() > 0,
        has_no_dot(model_tag(m)),
{
    reveal_strlit("users");
    reveal_strlit("stores");
    reveal_strlit("orders");
    reveal_strlit("billing");
    reveal_strlit("warehouses");
    reveal_strlit("delivery");
    reveal_strlit("user");
    reveal_strlit("store");
    reveal_strlit("product");
    reveal_strlit("base_product");
    reveal_strlit("category");
    reveal_strlit("attribute");
    reveal_strlit("order");
    reveal_strlit("invoice");
    reveal_strlit("warehouse");
}

proof fn lemma_service_tag_injective(a: Service, b: Service)
    requires
        service_tag(a) == service_tag(b),
    ensures
        a == b,
{
    reveal_strlit("users");
    reveal_strlit("stores");
    reveal_strlit("orders");
    reveal_strlit("billing");
    reveal_strlit("warehouses");
    reveal_strlit("delivery");
    assert("users"@.len() == 5);
    assert("stores"@.len() == 6 && "stores"@[0] == 's');
    assert("orders"@.len() == 6 && "orders"@[0] == 'o');
    assert("billing"@.len() == 7);
    assert("warehouses"@.len() == 10);
    assert("delivery"@.len() == 8);
    assert(service_tag(a).len() == service_tag(b).len());
    assert(service_tag(a)[0] == service_tag(b)[0]);
}

proof fn lemma_model_tag_injective(a: Model, b: Model)
    requires
        model_tag(a) == model_tag(b),
    ensures
        a == b,
{
    reveal_strlit("user");
    reveal_strlit("store");
    reveal_strlit("product");
    reveal_strlit("base_product");
    reveal_strlit("category");
    reveal_strlit("attribute");
    reveal_strlit("order");
    reveal_strlit("invoice");
    reveal_strlit("warehouse");
    assert("user"@.len() == 4);
    assert("store"@.len() == 5 && "store"@[0] == 's');
    assert("order"@.len() == 5 && "order"@[0] == 'o');
    assert("product"@.len() == 7 && "product"@[0] == 'p');
    assert("invoice"@.len() == 7 && "invoice"@[0] == 'i');
    assert("base_product"@.len() == 12);
    assert("category"@.len() == 8);
    assert("attribute"@.len() == 9 && "attribute"@[0] == 'a');
    assert("warehouse"@.len() == 9 && "warehouse"@[0] == 'w');
    assert(model_tag(a).len() == model_tag(b).len());
    assert(model_tag(a)[0] == model_tag(b)[0]);
    assert(model_tag(a)[1] == model_tag(b)[1]);
}

proof fn lemma_int_text_dot_free(n: int)
    ensures
        has_no_dot(int_text(n)),
{
    lemma_int_text_chars(n);
    assert forall|i: int| 0 <= i < int_text(n).len() implies int_text(n)[i] != '.' by {
        if is_digit(int_text(n)[i]) {
        }
    }
}

/// Where the parts of an encoding stand.
proof fn lemma_layout(g: GlobalId)
    ensures
        ({
            let e = encode_spec(g);
            let a = service_tag(g.service).len() as int;
            let b = model_tag(g.model).len() as int;
            &&& a > 0 && b > 0
            &&& e.len() > a + b + 2
            &&& e[a] == '.'
            &&& e[a + 1 + b] == '.'
            &&& forall|t: int| 0 <= t < a ==> e[t] != '.'
            &&& forall|t: int| a < t < a + 1 + b ==> e[t] != '.'
            &&& forall|t: int| a + 1 + b < t < e.len() ==> e[t] != '.'
            &&& e.subrange(0, a) == service_tag(g.service)
            &&& e.subrange(a + 1, a + 1 + b) == model_tag(g.model)
            &&& e.subrange(a + b + 2, e.len() as int) == int_text(g.raw_id as int)
        }),
{
    lemma_tags_dot_free(g.service, g.model);
    lemma_int_text_dot_free(g.raw_id as int);
    lemma_int_text_chars(g.raw_id as int);
    let e = encode_spec(g);
    let st = service_tag(g.service);
    let mt = model_tag(g.model);
    let it = int_text(g.raw_id as int);
    let a = st.len() as int;
    let b = mt.len() as int;
    assert(e =~= st + seq!['.'] + mt + seq!['.'] + it);
    assert(e.subrange(0, a) =~= st);
    assert(e.subrange(a + 1, a + 1 + b) =~= mt);
    assert(e.subrange(a + b + 2, e.len() as int) =~= it);
    assert forall|t: int| 0 <= t < a implies e[t] != '.' by {
        assert(e[t] == st[t]);
    }
    assert forall|t: int| a < t < a + 1 + b implies e[t] != '.' by {
        assert(e[t] == mt[t - a - 1]);
    }
    assert forall|t: int| a + 1 + b < t < e.len() implies e[t] != '.' by {
        assert(e[t] == it[t - a - b - 2]);
    }
}

/// No two identifiers share an encoding.
pub proof fn lemma_encode_injective(g1: GlobalId, g2: GlobalId)
    requires
        encode_spec(g1) == encode_spec(g2),
    ensures
        g1 == g2,
{
    lemma_layout(g1);
    lemma_layout(g2);
    let e = encode_spec(g1);
    let a1 = service_tag(g1.service).len() as int;
    let a2 = service_tag(g2.service).len() as int;
    let b1 = model_tag(g1.model).len() as int;
    let b2 = model_tag(g2.model).len() as int;
    if a1 < a2 {
        assert(e[a1] == '.');
    } else if a2 < a1 {
        assert(e[a2] == '.');
    }
    assert(a1 == a2);
    lemma_service_tag_injective(g1.service, g2.service);
    if b1 < b2 {
        assert(e[a1 + 1 + b1] == '.');
    } else if b2 < b1 {
        assert(e[a1 + 1 + b2] == '.');
    }
    assert(b1 == b2);
    lemma_model_tag_injective(g1.model, g2.model);
    lemma_int_text_injective(g1.raw_id as int, g2.raw_id as int);
}

/// The two singleton identifiers are the encoding of no entity.
pub proof fn lemma_sentinels_not_encodings(g: GlobalId)
    ensures
        encode_spec(g) != VIEWER_NODE_ID@,
        encode_spec(g) != QUERY_NODE_ID@,
{
    reveal_strlit("0");
    reveal_strlit("1");
    lemma_layout(g);
}

fn span_is(cs: &Vec<char>, lo: usize, hi: usize, t: &str) -> (r: bool)
    requires
        lo <= hi <= cs@.len(),
    ensures
        r == (cs@.subrange(lo as int, hi as int) == t@),
{
    let n = t.unicode_len();
    if hi - lo != n {
        return false;
    }
    let mut k: usize = 0;
    while k < n
        invariant
            n == t@.len(),
            hi - lo == n,
            lo <= hi <= cs@.len(),
            k <= n,
            forall|q: int| 0 <= q < k ==> cs@[lo + q] == t@[q],
        decreases n - k,
    {
        if cs[lo + k] != t.get_char(k) {
            assert(cs@.subrange(lo as int, hi as int)[k as int] != t@[k as int]);
            return false;
        }
        k = k + 1;
    }
    assert(cs@.subrange(lo as int, hi as int) =~= t@);
    true
}

fn service_at(cs: &Vec<char>, lo: usize, hi: usize) -> (r: Option<Service>)
    requires
        lo <= hi <= cs@.len(),
    ensures
        match r {
            Some(s) => service_tag(s) == cs@.subrange(lo as int, hi as int),
            None => forall|s: Service| service_tag(s) != cs@.subrange(lo as int, hi as int),
        },
{
    if span_is(cs, lo, hi, "users") {
        Some(Service::Users)
    } else if span_is(cs, lo, hi, "stores") {
        Some(Service::Stores)
    } else if span_is(cs, lo, hi, "orders") {
        Some(Service::Orders)
    } else if span_is(cs, lo, hi, "billing") {
        Some(Service::Billing)
    } else if span_is(cs, lo, hi, "warehouses") {
        Some(Service::Warehouses)
    } else if span_is(cs, lo, hi, "delivery") {
        Some(Service::Delivery)
    } else {
        None
    }
}

fn model_at(cs: &Vec<char>, lo: usize, hi: usize) -> (r: Option<Model>)
    requires
        lo <= hi <= cs@.len(),
    ensures
        match r {
            Some(m) => model_tag(m) == cs@.subrange(lo as int, hi as int),
            None => forall|m: Model| model_tag(m) != cs@.subrange(lo as int, hi as int),
        },
{
    if span_is(cs, lo, hi, "user") {
        Some(Model::User)
    } else if span_is(cs, lo, hi, "store") {
        Some(Model::Store)
    } else if span_is(cs, lo, hi, "product") {
        Some(Model::Product)
    } else if span_is(cs, lo, hi, "base_product") {
        Some(Model::BaseProduct)
    } else if span_is(cs, lo, hi, "category") {
        Some(Model::Category)
    } else if span_is(cs, lo, hi, "attribute") {
        Some(Model::Attribute)
    } else if span_is(cs, lo, hi, "order") {
        Some(Model::Order)
    } else if span_is(cs, lo, hi, "invoice") {
        Some(Model::Invoice)
    } else if span_is(cs, lo, hi, "warehouse") {
        Some(Model::Warehouse)
    } else {
        None
    }
}

/// The first dot at or after `from`.
fn find_dot(cs: &Vec<char>, from: usize) -> (r: Option<usize>)
    requires
        from <= cs@.len(),
    ensures
        match r {
            Some(k) => from <= k < cs@.len() && cs@[k as int] == '.' && forall|t: int|
                from <= t < k ==> cs@[t] != '.',
            None => forall|t: int| from <= t < cs@.len() ==> cs@[t] != '.',
        },
{
    let mut k = from;
    while k < cs.len()
        invariant
            from <= k <= cs@.len(),
            forall|t: int| from <= t < k ==> cs@[t] != '.',
        decreases cs@.len() - k,
    {
        if cs[k] == '.' {
            return Some(k);
        }
        k = k + 1;
    }
    None
}

impl Service {
    /// The tag that stands for this service in encoded identifiers.
    pub fn tag(&self) -> (r: &'static str)
        ensures
            r@ == service_tag(*self),
    {
        match self {
            Service::Users => "users",
            Service::Stores => "stores",
            Service::Orders => "orders",
            Service::Billing => "billing",
            Service::Warehouses => "warehouses",
            Service::Delivery => "delivery",
        }
    }
}

impl Model {
    /// The tag that stands for this entity kind in encoded identifiers.
    pub fn tag(&self) -> (r: &'static str)
        ensures
            r@ == model_tag(*self),
    {
        match self {
            Model::User => "user",
            Model::Store => "store",
            Model::Product => "product",
            Model::BaseProduct => "base_product",
            Model::Category => "category",
            Model::Attribute => "attribute",
            Model::Order => "order",
            Model::Invoice => "invoice",
            Model::Warehouse => "warehouse",
        }
    }
}

impl GlobalId {
    pub fn new(service: Service, model: Model, raw_id: i32) -> (r: GlobalId)
        ensures
            r == (GlobalId { service, model, raw_id }),
    {
        GlobalId { service, model, raw_id }
    }

    /// The opaque string form of this identifier.
    pub fn encode(&self) -> (r: String)
        ensures
            r@ == encode_spec(*self),
    {
        let mut r = String::from_str(self.service.tag());
        proof {
            reveal_strlit(".");
        }
        r.append(".");
        r.append(self.model.tag());
        r.append(".");
        let id = render_int(self.raw_id as i64);
        r.append(id.as_str());
        assert(r@ =~= encode_spec(*self));
        r
    }

    /// Reads an identifier back from its string form; any string that is not the encoding
    /// of an identifier is refused.
    pub fn decode(s: &str) -> (r: Result<GlobalId, MalformedIdentifier>)
        ensures
            r == decode_spec(s@),
            match r {
                Ok(g) => encode_spec(g) == s@,
                Err(_) => !is_encoding(s@),
            },
    {
        let cs = chars_of(s);
        let n = cs.len();
        let i = match find_dot(&cs, 0) {
            Some(i) => i,
            None => {
                proof {
                    assert forall|g: GlobalId| encode_spec(g) != s@ by {
                        lemma_layout(g);
                        if encode_spec(g) == s@ {
                            assert(cs@[service_tag(g.service).len() as int] == '.');
                        }
                    }
                }
                return Err(MalformedIdentifier);
            },
        };
        let j = match find_dot(&cs, i + 1) {
            Some(j) => j,
            None => {
                proof {
                    assert forall|g: GlobalId| encode_spec(g) != s@ by {
                        lemma_layout(g);
                        let a = service_tag(g.service).len() as int;
                        let b = model_tag(g.model).len() as int;
                        if encode_spec(g) == s@ {
                            if i < a {
                                assert(cs@[i as int] != '.');
                            }
                            if a < i {
                                assert(cs@[a] == '.');
                            }
                            assert(cs@[a + 1 + b] == '.');
                        }
                    }
                }
                return Err(MalformedIdentifier);
            },
        };
        let service = service_at(&cs, 0, i);
        let model = model_at(&cs, i + 1, j);
        let raw_id = parse_i32(&cs, j + 1, n);
        match (service, model, raw_id) {
            (Some(service), Some(model), Some(raw_id)) => {
                let g = GlobalId { service, model, raw_id };
                assert(cs@ =~= cs@.subrange(0, i as int) + seq!['.'] + cs@.subrange(
                    i + 1,
                    j as int,
                ) + seq!['.'] + cs@.subrange(j + 1, n as int));
                proof {
                    let h = choose|h: GlobalId| encode_spec(h) == s@;
                    lemma_encode_injective(g, h);
                }
                Ok(g)
            },
            _ => {
                proof {
                    assert forall|g: GlobalId| encode_spec(g) != s@ by {
                        lemma_layout(g);
                        let a = service_tag(g.service).len() as int;
                        let b = model_tag(g.model).len() as int;
                        if encode_spec(g) == s@ {
                            if i < a {
                                assert(cs@[i as int] != '.');
                            }
                            if a < i {
                                assert(cs@[a] == '.');
                            }
                            assert(i == a);
                            if j < a + 1 + b {
                                assert(cs@[j as int] != '.');
                            }
                            if a + 1 + b < j {
                                assert(cs@[a + 1 + b] == '.');
                            }
                            assert(j == a + 1 + b);
                        }
                    }
                }
                Err(MalformedIdentifier)
            },
        }
    }
}

/// Decoding the encoding of an identifier gives that identifier back.
pub proof fn lemma_round_trip(g: GlobalId)
    ensures
        decode_spec(encode_spec(g)) == Ok::<GlobalId, MalformedIdentifier>(g),
{
    let s = encode_spec(g);
    assert(is_encoding(s));
    let h = choose|h: GlobalId| encode_spec(h) == s;
    lemma_encode_injective(g, h);
}

/// Decoding never guesses: a string that no identifier encodes to, the two singleton
/// identifiers among them, is refused, and an identifier that decoding does give is the
/// one whose encoding the string is.
pub proof fn lemma_decode_exact(s: Seq<char>)
    ensures
        !is_encoding(s) ==> decode_spec(s) == Err::<GlobalId, MalformedIdentifier>(
            MalformedIdentifier,
        ),
        s == VIEWER_NODE_ID@ || s == QUERY_NODE_ID@ ==> decode_spec(s) is Err,
        forall|g: GlobalId| decode_spec(s) == Ok::<GlobalId, MalformedIdentifier>(g) ==> encode_spec(g) == s,
{
    if s == VIEWER_NODE_ID@ || s == QUERY_NODE_ID@ {
        assert forall|g: GlobalId| encode_spec(g) != s by {
            lemma_sentinels_not_encodings(g);
        }
    }
}

} // verus!
