//! The service that announces updates of a channel, and its builder.
use vstd::prelude::*;
use crate::utils::{
    decimal, field_message, i64_to_string, invalid_url_message, is_url, negative_value_message,
    str_to_url, with_field,
};

verus! {

/// A service that announces updates of a channel, with its port written in
/// decimal.
pub struct Cloud {
    pub domain: String,
    pub port: String,
    pub path: String,
    pub register_procedure: String,
    pub protocol: String,
}

impl Clone for Cloud {
    fn clone(&self) -> (r: Self)
        ensures
            r == *self,
    {
        Cloud {
            domain: self.domain.clone(),
            port: self.port.clone(),
            path: self.path.clone(),
            register_procedure: self.register_procedure.clone(),
            protocol: self.protocol.clone(),
        }
    }
}

impl Cloud {
    /// The `domain` field.
    pub fn domain(&self) -> (r: String)
        ensures
            r == self.domain,
    {
        self.domain.clone()
    }

    /// The `port` field.
    pub fn port(&self) -> (r: String)
        ensures
            r == self.port,
    {
        self.port.clone()
    }

    /// The `path` field.
    pub fn path(&self) -> (r: String)
        ensures
            r == self.path,
    {
        self.path.clone()
    }

    /// The `register_procedure` field.
    pub fn register_procedure(&self) -> (r: String)
        ensures
            r == self.register_procedure,
    {
        self.register_procedure.clone()
    }

    /// The `protocol` field.
    pub fn protocol(&self) -> (r: String)
        ensures
            r == self.protocol,
    {
        self.protocol.clone()
    }
}

/// Whether two clouds hold the same values, field by field.
pub open spec fn cloud_eq(a: Cloud, b: Cloud) -> bool {
    &&& a.domain == b.domain
    &&& a.port@ == b.port@
    &&& a.path == b.path
    &&& a.register_procedure == b.register_procedure
    &&& a.protocol == b.protocol
}

/// Collects the fields of a [`Cloud`].
pub struct CloudBuilder {
    pub domain: String,
    pub port: i64,
    pub path: String,
    pub register_procedure: String,
    pub protocol: String,
}

/// The first constraint that the builder's fields break, as its message.
pub open spec fn cloud_error(b: CloudBuilder) -> Option<Seq<char>> {
    if !is_url(b.domain@) {
        Some(field_message("Cloud domain"@, invalid_url_message(b.domain@)))
    } else if b.port < 0 {
        Some(field_message("Cloud port"@, negative_value_message(b.port as int)))
    } else {
        None
    }
}

/// The cloud that a builder yields once its port is not negative.
pub open spec fn cloud_of(b: CloudBuilder, c: Cloud) -> bool {
    &&& c.domain == b.domain
    &&& c.port@ == decimal(b.port as nat)
    &&& c.path == b.path
    &&& c.register_procedure == b.register_procedure
    &&& c.protocol == b.protocol
}

impl Default for CloudBuilder {
    /// The same builder as `new` makes.
    fn default() -> (r: CloudBuilder)
        ensures
            r.domain@ == Seq::<char>::empty(),
            r.port == 0,
            r.path@ == Seq::<char>::empty(),
            r.register_procedure@ == Seq::<char>::empty(),
            r.protocol@ == Seq::<char>::empty(),
    {
        CloudBuilder::new()
    }
}

impl CloudBuilder {
    /// A builder with empty text fields and port zero.
    pub fn new() -> (r: CloudBuilder)
        ensures
            r.domain@ == Seq::<char>::empty(),
            r.port == 0,
            r.path@ == Seq::<char>::empty(),
            r.register_procedure@ == Seq::<char>::empty(),
            r.protocol@ == Seq::<char>::empty(),
    {
        CloudBuilder {
            domain: String::new(),
            port: 0,
            path: String::new(),
            register_procedure: String::new(),
            protocol: String::new(),
        }
    }

    /// Sets `domain`, as given, and returns the builder.
    pub fn domain(&mut self, domain: &str) -> (r: &mut CloudBuilder)
        ensures
            *r == (CloudBuilder { domain: r.domain, ..*old(self) }),
            r.domain@ == domain@,
            *final(self) == *final(r),
    {
        self.domain = domain.to_owned();
        self
    }

    /// Sets `port`, as given, and returns the builder.
    pub fn port(&mut self, port: i64) -> (r: &mut CloudBuilder)
        ensures
            *r == (CloudBuilder { port, ..*old(self) }),
            *final(self) == *final(r),
    {
        self.port = port;
        self
    }

    /// Sets `path`, as given, and returns the builder.
    pub fn path(&mut self, path: &str) -> (r: &mut CloudBuilder)
        ensures
            *r == (CloudBuilder { path: r.path, ..*old(self) }),
            r.path@ == path@,
            *final(self) == *final(r),
    {
        self.path = path.to_owned();
        self
    }

    /// Sets `register_procedure`, as given, and returns the builder.
    pub fn register_procedure(&mut self, register_procedure: &str) -> (r: &mut CloudBuilder)
        ensures
            *r == (CloudBuilder { register_procedure: r.register_procedure, ..*old(self) }),
            r.register_procedure@ == register_procedure@,
            *final(self) == *final(r),
    {
        self.register_procedure = register_procedure.to_owned();
        self
    }

    /// Sets `protocol`, as given, and returns the builder.
    pub fn protocol(&mut self, protocol: &str) -> (r: &mut CloudBuilder)
        ensures
            *r == (CloudBuilder { protocol: r.protocol, ..*old(self) }),
            r.protocol@ == protocol@,
            *final(self) == *final(r),
    {
        self.protocol = protocol.to_owned();
        self
    }

    /// Checks that the domain parses as a URL and that the port is not
    /// negative, in that order.
    pub fn validate(&mut self) -> (r: Result<&mut CloudBuilder, String>)
        ensures
            match r {
                Ok(b) => cloud_error(*old(self)) is None && *b == *old(self) && *final(self)
                    == *final(b),
                Err(e) => cloud_error(*old(self)) == Some(e@) && *final(self) == *old(self),
            },
    {
        match str_to_url(self.domain.as_str()) {
            Ok(_) => {},
            Err(e) => {
                return Err(with_field("Cloud domain", e));
            },
        }
        match i64_to_string(self.port) {
            Ok(_) => Ok(self),
            Err(e) => Err(with_field("Cloud port", e)),
        }
    }

    /// Builds the cloud, with the port written in decimal; fails only when the
    /// port is negative.
    pub fn finalize(&self) -> (r: Result<Cloud, String>)
        ensures
            r is Ok <==> self.port >= 0,
            r matches Ok(c) ==> cloud_of(*self, c),
            r matches Err(e) ==> e@ == field_message(
                "Cloud port"@,
                negative_value_message(self.port as int),
            ),
    {
        match i64_to_string(self.port) {
            Ok(port) => Ok(
                Cloud {
                    domain: self.domain.clone(),
                    port,
                    path: self.path.clone(),
                    register_procedure: self.register_procedure.clone(),
                    protocol: self.protocol.clone(),
                },
            ),
            Err(e) => Err(with_field("Cloud port", e)),
        }
    }
}

} // verus!
