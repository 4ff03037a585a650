use vstd::prelude::*;

verus! {

/// How the network clients reach the remote host.
#[derive(Debug, Clone, Copy, PartialEq, Eq, Structural)]
pub enum ProxyMode {
    System,
    NoProxy,
    Custom,
}

impl Default for ProxyMode {
    /// The system proxy settings are used unless configured otherwise.
    fn default() -> (r: Self)
        ensures
            r is System,
    {
        ProxyMode::System
    }
}

} // verus!
