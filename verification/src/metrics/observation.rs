//! One write to a labelled series of a gauge family.
use vstd::prelude::*;
use crate::metrics::key::{MetricKey, MetricKeyView};
use crate::target::schema::{RawValue, RawValueView};

verus! {

/// The value that an observation gives its series.
#[derive(Debug, Clone)]
pub enum Reading {
    /// One where the flag is set, zero where it is not.
    Flag(bool),
    /// The raw value of a scalar variable.
    Raw(RawValue),
}

/// Mathematical value of a [`Reading`].
pub enum ReadingView {
    Flag(bool),
    Raw(RawValueView),
}

impl View for Reading {
    type V = ReadingView;

    open spec fn view(&self) -> ReadingView {
        match self {
            Reading::Flag(on) => ReadingView::Flag(*on),
            Reading::Raw(raw) => ReadingView::Raw(raw@),
        }
    }
}

/// One observation: the gauge family, the label values that select the
/// series within it, in the order of the family's label names, and the value.
#[derive(Debug, Clone)]
pub struct Observation {
    pub key: MetricKey,
    pub label_values: Vec<String>,
    pub value: Reading,
}

/// Mathematical value of an [`Observation`].
pub struct ObservationView {
    pub key: MetricKeyView,
    pub label_values: Seq<Seq<char>>,
    pub value: ReadingView,
}

impl View for Observation {
    type V = ObservationView;

    open spec fn view(&self) -> ObservationView {
        ObservationView {
            key: self.key@,
            label_values: crate::text::views(self.label_values@),
            value: self.value@,
        }
    }
}

/// The mathematical values of a list of observations.
pub open spec fn observation_views(list: Seq<Observation>) -> Seq<ObservationView> {
    Seq::new(list.len(), |i: int| list[i]@)
}

/// How many observations of the list set a flag.
pub open spec fn flags_set(list: Seq<ObservationView>) -> nat
    decreases list.len(),
{
    if list.len() == 0 {
        0
    } else {
        flags_set(list.drop_last()) + if list.last().value == ReadingView::Flag(true) {
            1nat
        } else {
            0nat
        }
    }
}

} // verus!
