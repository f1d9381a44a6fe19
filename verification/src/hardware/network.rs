//! The network interfaces of the machine, with the bytes that went through
//! each.

use vstd::prelude::*;

verus! {

/// One network interface, with the bytes it received and sent.
#[derive(Debug, Clone)]
pub struct NetworkInfo {
    pub name: String,
    pub received: u64,
    pub transmitted: u64,
}

/// A `NetworkInfo` as contracts see it, with texts as sequences of characters.
pub struct NetworkInfoView {
    pub name: Seq<char>,
    pub received: u64,
    pub transmitted: u64,
}

impl View for NetworkInfo {
    type V = NetworkInfoView;

    open spec fn view(&self) -> NetworkInfoView {
        NetworkInfoView { name: self.name@, received: self.received, transmitted: self.transmitted }
    }
}

impl DeepView for NetworkInfo {
    type V = NetworkInfoView;

    open spec fn deep_view(&self) -> NetworkInfoView {
        self@
    }
}

} // verus!
