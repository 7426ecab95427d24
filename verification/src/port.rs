use vstd::prelude::*;

verus! {

/// The local TCP port the provider redirects the browser back to.
#[derive(Debug, Copy, Clone)]
pub struct Port(u16);

impl Port {
    /// The port number this value stands for.
    pub closed spec fn spec_u16(&self) -> u16 {
        self.0
    }

    /// Reads the port number back out.
    pub fn as_u16(self) -> (p: u16)
        ensures
            p == self.spec_u16(),
    {
        self.0
    }
}

impl Default for Port {
    /// The port used when the configuration leaves it unset.
    fn default() -> (p: Self)
        ensures
            p.spec_u16() == 8080,
    {
        Port(8080)
    }
}

impl From<u16> for Port {
    fn from(port: u16) -> (p: Self)
        ensures
            p.spec_u16() == port,
    {
        Port(port)
    }
}

impl vstd::std_specs::convert::FromSpecImpl<u16> for Port {
    open spec fn obeys_from_spec() -> bool {
        true
    }

    closed spec fn from_spec(port: u16) -> Self {
        Port(port)
    }
}

} // verus!
