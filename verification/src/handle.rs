//! A typed handle naming a registered data frame.

use vstd::prelude::*;

verus! {

/// Typed reference to a data frame registered with a dashboard: chart,
/// filter and table builders take it in place of the registration key.
#[derive(Debug)]
pub struct DfHandle {
    id: u32,
    name: String,
}

impl DfHandle {
    /// The name the handle refers to.
    pub closed spec fn name_view(&self) -> Seq<char> {
        self.name@
    }

    /// The registration number of the handle (`u32::MAX` when it is not
    /// tied to a registration); equality ignores it.
    pub closed spec fn id_view(&self) -> u32 {
        self.id
    }

    /// A handle for a raw name, not tied to a registration.
    pub fn new(name: &str) -> (h: Self)
        ensures
            h.name_view() == name@,
            h.id_view() == u32::MAX,
    {
        DfHandle { id: u32::MAX, name: String::from_str(name) }
    }

    /// The registration key this handle refers to.
    pub fn name(&self) -> (r: &str)
        ensures
            r@ == self.name_view(),
    {
        self.name.as_str()
    }
}

impl Clone for DfHandle {
    fn clone(&self) -> (r: Self)
        ensures
            r.name_view() == self.name_view(),
            r.id_view() == self.id_view(),
    {
        DfHandle { id: self.id, name: self.name.clone() }
    }
}

impl PartialEq for DfHandle {
    fn eq(&self, other: &Self) -> (r: bool) {
        self.name == other.name
    }
}

impl vstd::std_specs::cmp::PartialEqSpecImpl for DfHandle {
    open spec fn obeys_eq_spec() -> bool {
        true
    }

    open spec fn eq_spec(&self, other: &Self) -> bool {
        self.name_view() == other.name_view()
    }
}

impl Eq for DfHandle {}

} // verus!
