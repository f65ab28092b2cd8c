//! The identity of an exported gauge family.
use vstd::prelude::*;
use crate::text::{clone_strings, same_strings, views};

verus! {

/// Identity of a gauge family: its exported name, its help text, the names of
/// its labels in order, and whether it is exported as one boolean series per
/// declared state rather than as a single numeric series.
#[derive(Debug, Hash)]
pub struct MetricKey {
    pub name: String,
    pub help: String,
    pub labels: Vec<String>,
    pub is_enum: bool,
}

/// Mathematical value of a [`MetricKey`].
pub struct MetricKeyView {
    pub name: Seq<char>,
    pub help: Seq<char>,
    pub labels: Seq<Seq<char>>,
    pub is_enum: bool,
}

impl View for MetricKey {
    type V = MetricKeyView;

    open spec fn view(&self) -> MetricKeyView {
        MetricKeyView {
            name: self.name@,
            help: self.help@,
            labels: views(self.labels@),
            is_enum: self.is_enum,
        }
    }
}

impl Clone for MetricKey {
    fn clone(&self) -> (r: Self)
        ensures
            r@ == self@,
    {
        MetricKey {
            name: self.name.clone(),
            help: self.help.clone(),
            labels: clone_strings(&self.labels),
            is_enum: self.is_enum,
        }
    }
}

impl PartialEq for MetricKey {
    fn eq(&self, other: &Self) -> (r: bool) {
        self.name.as_str().eq(other.name.as_str()) && self.help.as_str().eq(other.help.as_str())
            && same_strings(&self.labels, &other.labels) && self.is_enum == other.is_enum
    }
}

impl vstd::std_specs::cmp::PartialEqSpecImpl for MetricKey {
    open spec fn obeys_eq_spec() -> bool {
        true
    }

    open spec fn eq_spec(&self, other: &Self) -> bool {
        self@ == other@
    }
}

impl Eq for MetricKey {

}

} // verus!
