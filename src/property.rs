//! The property protocol: a mechanism asks for one credential property
//! through a `Demand`, and a provider answers it, or leaves it unanswered.
use vstd::prelude::*;
use vstd::string::*;
use vstd::utf8::*;
use crate::plain::PlainProvider;

verus! {

/// The kinds of credential property a mechanism may ask for.
#[derive(Debug, Clone, Copy, PartialEq, Eq, Structural)]
pub enum Property {
    /// The authentication identity.
    AuthId,
    /// The authorization identity.
    AuthzId,
    /// The password.
    Password,
    /// The trace token that ANONYMOUS sends.
    AnonymousToken,
}

/// A request for one property, and the answer once one was provided.
#[derive(Debug)]
pub struct Demand {
    pub property: Property,
    pub value: Option<Vec<u8>>,
}

/// The view of an optional byte buffer.
pub open spec fn opt_vec_bytes(v: Option<Vec<u8>>) -> Option<Seq<u8>> {
    match v {
        Some(b) => Some(b@),
        None => None,
    }
}

impl Demand {
    /// The answer so far.
    pub open spec fn answer(&self) -> Option<Seq<u8>> {
        opt_vec_bytes(self.value)
    }

    /// A demand for `property`, not yet answered.
    pub fn new(property: Property) -> (r: Demand)
        ensures
            r.property == property,
            r.answer() is None,
    {
        Demand { property, value: None }
    }

    /// Offers `value` for `property`. The first value offered for the
    /// demanded property is kept; every other offer is ignored.
    pub fn provide_ref(&mut self, property: Property, value: &[u8])
        ensures
            final(self).property == old(self).property,
            final(self).answer() == (if old(self).answer() is None && property == old(
                self,
            ).property {
                Some(value@)
            } else {
                old(self).answer()
            }),
    {
        if self.value.is_none() && property == self.property {
            self.value = Some(vstd::slice::slice_to_vec(value));
        }
    }

    /// Whether a provider answered the demand.
    pub fn is_answered(&self) -> (r: bool)
        ensures
            r == self.answer() is Some,
    {
        self.value.is_some()
    }
}

/// The view of an optional string, as UTF-8 bytes.
pub open spec fn opt_string_bytes(s: Option<String>) -> Option<Seq<u8>> {
    match s {
        Some(x) => Some(encode_utf8(x@)),
        None => None,
    }
}

/// A provider that holds each property as a plain value, or not at all.
#[derive(Debug)]
pub struct Credentials {
    pub authid: Option<String>,
    pub authzid: Option<String>,
    pub password: Option<Vec<u8>>,
    pub anonymous_token: Option<String>,
}

impl Credentials {
    /// The value this provider holds for a property.
    pub open spec fn lookup(&self, p: Property) -> Option<Seq<u8>> {
        match p {
            Property::AuthId => opt_string_bytes(self.authid),
            Property::AuthzId => opt_string_bytes(self.authzid),
            Property::Password => opt_vec_bytes(self.password),
            Property::AnonymousToken => opt_string_bytes(self.anonymous_token),
        }
    }

    /// A provider that holds no property.
    pub fn empty() -> (r: Credentials)
        ensures
            forall|p: Property| (#[trigger] r.lookup(p)) is None,
    {
        Credentials { authid: None, authzid: None, password: None, anonymous_token: None }
    }

    /// Answers a demand with what this provider holds.
    pub fn provide(&self, demand: &mut Demand)
        ensures
            final(demand).property == old(demand).property,
            final(demand).answer() == (if old(demand).answer() is None {
                self.lookup(old(demand).property)
            } else {
                old(demand).answer()
            }),
    {
        if let Some(s) = &self.authid {
            demand.provide_ref(Property::AuthId, s.as_str().as_bytes());
        }
        if let Some(s) = &self.authzid {
            demand.provide_ref(Property::AuthzId, s.as_str().as_bytes());
        }
        if let Some(b) = &self.password {
            demand.provide_ref(Property::Password, b.as_slice());
        }
        if let Some(s) = &self.anonymous_token {
            demand.provide_ref(Property::AnonymousToken, s.as_str().as_bytes());
        }
    }

    /// Asks this provider for one property.
    pub fn request(&self, property: Property) -> (r: Option<Vec<u8>>)
        ensures
            opt_vec_bytes(r) == self.lookup(property),
    {
        let mut demand = Demand::new(property);
        self.provide(&mut demand);
        demand.value
    }
}

impl PlainProvider {
    /// The value the credentials of a PLAIN message hold for a property.
    pub open spec fn lookup(&self, p: Property) -> Option<Seq<u8>> {
        match p {
            Property::AuthId => Some(encode_utf8(self.authcid@)),
            Property::AuthzId => opt_string_bytes(self.authzid),
            Property::Password => Some(self.password@),
            Property::AnonymousToken => None,
        }
    }

    /// Answers a demand with the credentials of a PLAIN message.
    pub fn provide(&self, demand: &mut Demand)
        ensures
            final(demand).property == old(demand).property,
            final(demand).answer() == (if old(demand).answer() is None {
                self.lookup(old(demand).property)
            } else {
                old(demand).answer()
            }),
    {
        demand.provide_ref(Property::AuthId, self.authcid.as_str().as_bytes());
        demand.provide_ref(Property::Password, self.password.as_slice());
        if let Some(authzid) = &self.authzid {
            demand.provide_ref(Property::AuthzId, authzid.as_str().as_bytes());
        }
    }
}

} // verus!
