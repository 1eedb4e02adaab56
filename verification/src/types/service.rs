//! Service descriptions: the kinds of third-party services an account can
//! link, and how a user authenticates with each of them.

use vstd::prelude::*;

verus! {

/// A service as named in an add-service request, before the type-specific
/// payload has been examined.
#[derive(Debug)]
pub struct Service {
    pub service_type: ServiceType,
    pub has_password_auth: bool,
}

/// A service whose third-party account is protected by a username and
/// password pair.
#[derive(Debug)]
pub struct PasswordProtectedService {
    pub service_type: ServiceType,
    pub username: String,
    pub password: String,
}

/// How a user signs in to the third-party service.
#[derive(Clone, Copy, PartialEq, Eq, Structural, Debug)]
pub enum LoginMethod {
    PASSWORD,
}

impl LoginMethod {
    /// The identifier under which this login method is written out.
    pub fn as_str(&self) -> (r: &'static str)
        ensures
            r@ == self.name(),
    {
        match self {
            LoginMethod::PASSWORD => "PASSWORD",
        }
    }

    /// The identifier of this login method.
    pub open spec fn name(self) -> Seq<char> {
        match self {
            LoginMethod::PASSWORD => "PASSWORD"@,
        }
    }
}

/// The kind of a third-party service.
#[derive(Clone, Copy, PartialEq, Eq, Structural, Debug)]
pub enum ServiceType {
    HONEYWELL,
}

impl ServiceType {
    /// The identifier of this service type.
    pub open spec fn name(self) -> Seq<char> {
        match self {
            ServiceType::HONEYWELL => "HONEYWELL"@,
        }
    }

    /// The identifier under which this service type is stored.
    pub fn as_str(&self) -> (r: &'static str)
        ensures
            r@ == self.name(),
    {
        match self {
            ServiceType::HONEYWELL => "HONEYWELL",
        }
    }

    /// Parses a stored service-type identifier; every string other than a
    /// service type's identifier is rejected.
    pub fn from_str(input: &str) -> (r: Result<ServiceType, ()>)
        ensures
            match r {
                Ok(t) => input@ == t.name(),
                Err(()) => forall|t: ServiceType| input@ != t.name(),
            },
    {
        let known = "HONEYWELL";
        if crate::text::str_eq(input, known) {
            Ok(ServiceType::HONEYWELL)
        } else {
            assert(forall|t: ServiceType| input@ != t.name());
            Err(())
        }
    }
}

} // verus!
