//! The record that a scan produces.

use vstd::prelude::*;

verus! {

/// Domain reported for a section that names no domain of its own.
pub const VHOST_DEFAULT_HOSTNAME: &'static str = "localhost";

/// Port reported when no port directive is found.
pub const VHOST_DEFAULT_PORT: i32 = 80;

/// A served site: a domain together with the port it listens on.
#[derive(Debug, Clone, PartialEq, Eq)]
pub struct VirtualHost {
    pub domain: String,
    pub port: i32,
}

/// Mathematical value of a [`VirtualHost`].
pub struct VirtualHostView {
    pub domain: Seq<char>,
    pub port: int,
}

impl View for VirtualHost {
    type V = VirtualHostView;

    open spec fn view(&self) -> VirtualHostView {
        VirtualHostView { domain: self.domain@, port: self.port as int }
    }
}

impl DeepView for VirtualHost {
    type V = VirtualHostView;

    open spec fn deep_view(&self) -> VirtualHostView {
        self@
    }
}

} // verus!
