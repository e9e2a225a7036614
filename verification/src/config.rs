//! The SoftNpu configuration: the P4 program to load and the port pairs that
//! the switch connects.

use vstd::prelude::*;

verus! {

/// One switch port: the sidecar-facing link, the scrimlet-facing link and
/// the MTU of both.
#[derive(Debug)]
pub struct Port {
    pub sidecar: String,
    pub scrimlet: String,
    pub mtu: usize,
}

/// The configuration of a SoftNpu instance.
#[derive(Debug)]
pub struct Config {
    pub p4_program: String,
    pub ports: Vec<Port>,
}

impl Default for Config {
    /// An empty program path and no ports.
    fn default() -> (cfg: Config)
        ensures
            cfg.p4_program@ == Seq::<char>::empty(),
            cfg.ports@.len() == 0,
    {
        Config { p4_program: String::new(), ports: Vec::new() }
    }
}

} // verus!
