//! GitHub issue searches.
use vstd::prelude::*;

use super::Github;
use crate::error::Error;
use crate::query::{Order, Query};
use crate::text::{concat, owned, str_eq};
use crate::traits::{merge_option, spec_merge_option, Api, FromText, ToText};

verus! {

/// Valid search order sorting terms.
#[derive(Debug, PartialEq, Eq, Structural, Clone, Copy)]
pub enum OrderField {
    Comments,
    Created,
    Interactions,
    Reactions,
    Updated,
}

impl OrderField {
    /// Name of the variant as given in arguments and shown to users.
    pub open spec fn spec_name(self) -> Seq<char> {
        match self {
            OrderField::Comments => "comments"@,
            OrderField::Created => "created"@,
            OrderField::Interactions => "interactions"@,
            OrderField::Reactions => "reactions"@,
            OrderField::Updated => "updated"@,
        }
    }

    /// Name of the variant in the service API.
    pub open spec fn spec_api_name(self) -> Seq<char> {
        match self {
            OrderField::Comments => "comments"@,
            OrderField::Created => "created"@,
            OrderField::Interactions => "interactions"@,
            OrderField::Reactions => "reactions"@,
            OrderField::Updated => "updated"@,
        }
    }

    /// The first variant, in declaration order, with the given name.
    pub open spec fn spec_from_name(s: Seq<char>) -> Option<OrderField> {
        if s == "comments"@ {
            Some(OrderField::Comments)
        } else if s == "created"@ {
            Some(OrderField::Created)
        } else if s == "interactions"@ {
            Some(OrderField::Interactions)
        } else if s == "reactions"@ {
            Some(OrderField::Reactions)
        } else if s == "updated"@ {
            Some(OrderField::Updated)
        } else {
            None
        }
    }

    /// All variants, in declaration order.
    pub open spec fn spec_all() -> Seq<OrderField> {
        seq![OrderField::Comments, OrderField::Created, OrderField::Interactions, OrderField::Reactions, OrderField::Updated]
    }

    /// Position of the variant in declaration order.
    pub open spec fn spec_index(self) -> nat {
        match self {
            OrderField::Comments => 0,
            OrderField::Created => 1,
            OrderField::Interactions => 2,
            OrderField::Reactions => 3,
            OrderField::Updated => 4,
        }
    }

    /// Position of the variant in declaration order.
    pub fn index(&self) -> (r: u64)
        ensures
            r == self.spec_index(),
    {
        match self {
            OrderField::Comments => 0,
            OrderField::Created => 1,
            OrderField::Interactions => 2,
            OrderField::Reactions => 3,
            OrderField::Updated => 4,
        }
    }

    /// The variant at a position of the declaration order.
    pub proof fn lemma_index(self)
        ensures
            self.spec_index() < Self::spec_all().len(),
            Self::spec_all()[self.spec_index() as int] == self,
    {
    }

    /// All variants, in declaration order.
    pub fn all() -> (r: Vec<OrderField>)
        ensures
            r@ == Self::spec_all(),
    {
        let mut r = Vec::new();
        r.push(OrderField::Comments);
        r.push(OrderField::Created);
        r.push(OrderField::Interactions);
        r.push(OrderField::Reactions);
        r.push(OrderField::Updated);
        assert(r@ =~= Self::spec_all());
        r
    }
}

impl FromText for OrderField {
    open spec fn text_ok(s: Seq<char>) -> bool {
        Self::spec_from_name(s) is Some
    }

    open spec fn text_value(s: Seq<char>, v: OrderField) -> bool {
        Self::spec_from_name(s) == Some(v)
    }

    open spec fn text_error(s: Seq<char>) -> Seq<char> {
        "Matching variant not found"@
    }

    fn from_text(s: &str) -> (r: Result<OrderField, String>) {
        if str_eq(s, "comments") {
            return Ok(OrderField::Comments);
        }
        if str_eq(s, "created") {
            return Ok(OrderField::Created);
        }
        if str_eq(s, "interactions") {
            return Ok(OrderField::Interactions);
        }
        if str_eq(s, "reactions") {
            return Ok(OrderField::Reactions);
        }
        if str_eq(s, "updated") {
            return Ok(OrderField::Updated);
        }
        Err(owned("Matching variant not found"))
    }
}

impl OrderField {
    /// The name of a variant parses back to that variant.
    pub proof fn lemma_text_roundtrip(self)
        ensures
            Self::text_ok(self.spec_text()),
            Self::text_value(self.spec_text(), self),
    {
        reveal_strlit("comments");
        reveal_strlit("created");
        reveal_strlit("interactions");
        reveal_strlit("reactions");
        reveal_strlit("updated");
        match self {
            OrderField::Comments => {},
            OrderField::Created => {
                assert("created"@.len() != "comments"@.len());
            },
            OrderField::Interactions => {
                assert("interactions"@.len() != "comments"@.len());
                assert("interactions"@.len() != "created"@.len());
            },
            OrderField::Reactions => {
                assert("reactions"@.len() != "comments"@.len());
                assert("reactions"@.len() != "created"@.len());
                assert("reactions"@.len() != "interactions"@.len());
            },
            OrderField::Updated => {
                assert("updated"@.len() != "comments"@.len());
                assert("updated"@[0] != "created"@[0]);
                assert("updated"@.len() != "interactions"@.len());
                assert("updated"@.len() != "reactions"@.len());
            },
        }
    }
}

impl ToText for OrderField {
    open spec fn spec_text(&self) -> Seq<char> {
        self.spec_name()
    }

    fn to_text(&self) -> (s: String) {
        match self {
            OrderField::Comments => owned("comments"),
            OrderField::Created => owned("created"),
            OrderField::Interactions => owned("interactions"),
            OrderField::Reactions => owned("reactions"),
            OrderField::Updated => owned("updated"),
        }
    }
}

impl Api for OrderField {
    open spec fn spec_api(&self) -> Seq<char> {
        self.spec_api_name()
    }

    fn api(&self) -> (s: String) {
        match self {
            OrderField::Comments => owned("comments"),
            OrderField::Created => owned("created"),
            OrderField::Interactions => owned("interactions"),
            OrderField::Reactions => owned("reactions"),
            OrderField::Updated => owned("updated"),
        }
    }
}


/// API form of a sort order: the field name, after a `-` for descending order.
pub open spec fn spec_order_api(o: Order<OrderField>) -> Seq<char> {
    match o {
        Order::Ascending(f) => f.spec_api_name(),
        Order::Descending(f) => "-"@ + f.spec_api_name(),
    }
}

impl Api for Order<OrderField> {
    open spec fn spec_api(&self) -> Seq<char> {
        spec_order_api(*self)
    }

    fn api(&self) -> (s: String) {
        match self {
            Order::Ascending(f) => f.api(),
            Order::Descending(f) => concat("-", f.api().as_str()),
        }
    }
}

/// Issue search parameters.
#[derive(Debug)]
pub struct Parameters {
    pub order: Option<Order<OrderField>>,
}

impl Parameters {
    /// Parameters with nothing set.
    pub fn default() -> (r: Parameters)
        ensures
            r.order is None,
    {
        Parameters { order: None }
    }

    /// Fills the parameters that are not set from `other`.
    pub fn merge(&mut self, other: Parameters)
        ensures
            final(self).order == spec_merge_option(old(self).order, other.order),
    {
        let order = merge_option(self.order.take(), other.order);
        self.order = order;
    }
}

/// Issue search request.
#[derive(Debug)]
pub struct Request<'a> {
    pub service: &'a Github,
    pub params: Parameters,
}

/// Query pairs of an encoded issue search: the sort order, when one is set.
pub open spec fn spec_encode(p: Parameters) -> Seq<(Seq<char>, Seq<char>)> {
    match p.order {
        Some(o) => seq![("sort"@, spec_order_api(o))],
        None => Seq::empty(),
    }
}

impl<'a> Request<'a> {
    /// A search request on a service, with no parameters set.
    pub fn new(service: &'a Github) -> (r: Request<'a>)
        ensures
            r.service == service,
            r.params.order is None,
    {
        Request { service, params: Parameters::default() }
    }

    /// Sets the sort order.
    pub fn order(self, value: Order<OrderField>) -> (r: Request<'a>)
        ensures
            r.service == self.service,
            r.params.order == Some(value),
    {
        let mut r = self;
        r.params.order = Some(value);
        r
    }

    /// Encode the search parameters as query pairs.
    pub fn encode(&self) -> (r: Result<Query, Error>)
        ensures
            r matches Ok(q) && q@ == spec_encode(self.params),
    {
        let mut q = Query::new();
        if let Some(o) = &self.params.order {
            let v = o.api();
            q.insert(owned("sort"), v);
            assert(q@ =~= spec_encode(self.params));
        }
        Ok(q)
    }
}



} // verus!
