//! The registry of gauge families of one target.
//!
//! Families are created on the first observation of their key and are never
//! removed. The families themselves, their series and the exposition format
//! are those of the `prometheus` crate; this module decides when a family is
//! created and registered and keeps track of the keys that are.
use vstd::prelude::*;
use crate::metrics::key::{MetricKey, MetricKeyView};
use crate::text::views;

verus! {

/// `prometheus::Registry`, the registry of collectors.
#[verifier::external_type_specification]
#[verifier::external_body]
pub struct ExRegistry(prometheus::Registry);

/// `prometheus::Error`, the error of the crate.
#[verifier::external_type_specification]
#[verifier::external_body]
pub struct ExError(prometheus::Error);

/// `prometheus::proto::MetricFamily`, a family as it is gathered for
/// exposition.
#[verifier::external_type_specification]
#[verifier::external_body]
pub struct ExMetricFamily(prometheus::proto::MetricFamily);

/// `prometheus::core::AtomicF64`, a cell that holds the number of a sample.
/// The library carries such cells and never looks into them.
#[verifier::external_type_specification]
#[verifier::external_body]
pub struct ExAtomicF64(prometheus::core::AtomicF64);

/// A gauge family of the `prometheus` crate: a `GaugeVec`, which holds one
/// gauge for each combination of label values that was asked for. The type
/// is generic over a builder that the crate does not export, so it is held
/// here and described by [`family_name`], [`family_help`], [`family_labels`],
/// [`family_holds`] and [`family_bits`].
#[verifier::external_body]
pub struct GaugeFamily {
    inner: prometheus::GaugeVec,
}

/// The fully qualified name in the descriptor of a gauge family.
pub uninterp spec fn family_name(family: GaugeFamily) -> Seq<char>;

/// The names of the variable labels in the descriptor of a gauge family.
pub uninterp spec fn family_labels(family: GaugeFamily) -> Seq<Seq<char>>;

/// The help text in the descriptor of a gauge family.
pub uninterp spec fn family_help(family: GaugeFamily) -> Seq<char>;

/// The lists of label values for which a gauge family holds a series. The
/// family keeps its series under a hash of the list, so it holds a series for
/// a list exactly if it has an entry under the hash of that list.
pub uninterp spec fn family_holds(family: GaugeFamily) -> Set<Seq<Seq<char>>>;

/// The number that the series of a gauge family for a list of label values
/// holds, as the 64 bits in which the gauge keeps it. The series is the one
/// under the hash of the list; the name says nothing where there is none.
pub uninterp spec fn family_bits(family: GaugeFamily, list: Seq<Seq<char>>) -> u64;

/// The number that a cell holds, as the 64 bits in which the cell keeps it.
pub uninterp spec fn cell_bits(cell: prometheus::core::AtomicF64) -> u64;

/// The fully qualified names of the descriptors without constant labels that
/// are registered with a registry.
pub uninterp spec fn registered_names(registry: prometheus::Registry) -> Set<Seq<char>>;

/// Whether every collector that is registered with a registry is a gauge
/// vector without constant labels.
pub uninterp spec fn holds_gauges_only(registry: prometheus::Registry) -> bool;

/// Whether a gathered family has a type that the text encoder writes: any
/// type but `UNTYPED`.
pub uninterp spec fn is_typed(family: prometheus::proto::MetricFamily) -> bool;

/// Whether `Registry::register` accepts a collector whose one descriptor
/// bears this name, this help text and these variable label names, and no
/// constant labels. The registry decides by the descriptors that it holds
/// and by hashes of the name, of the help text and of the label names.
pub uninterp spec fn accepts(
    registry: prometheus::Registry,
    name: Seq<char>,
    help: Seq<char>,
    labels: Seq<Seq<char>>,
) -> bool;

/// A character that may begin a label name.
pub open spec fn is_name_start(c: char) -> bool {
    'a' <= c <= 'z' || 'A' <= c <= 'Z' || c == '_'
}

/// A character that may follow the first one of a label name.
pub open spec fn is_name_char(c: char) -> bool {
    is_name_start(c) || '0' <= c <= '9'
}

/// Label names are made of ASCII letters, digits and underscores and do not
/// begin with a digit.
pub open spec fn valid_label_name(name: Seq<char>) -> bool {
    &&& name.len() > 0
    &&& is_name_start(name[0])
    &&& forall|i: int| 0 < i < name.len() ==> is_name_char(#[trigger] name[i])
}

/// Metric names are formed as label names are, and may hold colons as well.
pub open spec fn valid_metric_name(name: Seq<char>) -> bool {
    &&& name.len() > 0
    &&& (is_name_start(name[0]) || name[0] == ':')
    &&& forall|i: int| 0 < i < name.len() ==> is_name_char(#[trigger] name[i]) || name[i] == ':'
}

/// What a descriptor is made from: a help text that is not empty, a valid
/// metric name, and valid label names of which no two are equal.
pub open spec fn valid_descriptor(name: Seq<char>, help: Seq<char>, labels: Seq<Seq<char>>) -> bool {
    &&& help.len() > 0
    &&& valid_metric_name(name)
    &&& forall|i: int| 0 <= i < labels.len() ==> valid_label_name(#[trigger] labels[i])
    &&& forall|i: int, j: int| 0 <= i < j < labels.len() ==> labels[i] != labels[j]
}

/// Calls `Registry::new`: the new registry holds no collector.
#[verifier::external_body]
fn new_registry() -> (registry: prometheus::Registry)
    ensures
        registered_names(registry) == Set::<Seq<char>>::empty(),
        holds_gauges_only(registry),
{
    prometheus::Registry::new()
}

/// Calls `GaugeVec::new` with options made of the name and the help text
/// alone. The descriptor is built by `Desc::new`, which fails exactly where
/// the help text is empty, the name is no valid metric name, a label name is
/// not valid or a label name occurs twice. The new family bears the name,
/// the help text and the label names that it was made with, and holds no
/// series.
#[verifier::external_body]
fn new_family(name: &str, help: &str, labels: &Vec<String>) -> (r: Result<
    GaugeFamily,
    prometheus::Error,
>)
    ensures
        r is Ok <==> valid_descriptor(name@, help@, views(labels@)),
        r is Ok ==> family_name(r->Ok_0) == name@ && family_help(r->Ok_0) == help@
            && family_labels(r->Ok_0) == views(labels@),
        r is Ok ==> family_holds(r->Ok_0) == Set::<Seq<Seq<char>>>::empty(),
{
    let names: Vec<&str> = labels.iter().map(String::as_str).collect();
    match prometheus::GaugeVec::new(prometheus::Opts::new(name, help), &names) {
        Ok(inner) => Ok(GaugeFamily { inner }),
        Err(error) => Err(error),
    }
}

/// Calls `Registry::register` with a handle to the family. Whether the
/// registry accepts the family is a function of what it holds and of the
/// descriptor of the family, which [`accepts`] names. A descriptor without
/// constant labels is identified by its fully qualified name, and the
/// registry refuses a descriptor whose identity it holds already. Where it
/// accepts the family its name is registered; where it refuses, the
/// registered descriptors stay as they were. The family is a gauge vector
/// without constant labels, so a registry that held such collectors only
/// still does.
#[verifier::external_body]
fn register_family(registry: &mut prometheus::Registry, family: &GaugeFamily) -> (r: Result<
    (),
    prometheus::Error,
>)
    ensures
        r is Ok <==> accepts(
            *old(registry),
            family_name(*family),
            family_help(*family),
            family_labels(*family),
        ),
        registered_names(*old(registry)).contains(family_name(*family)) ==> r is Err,
        r is Ok ==> registered_names(*final(registry)) == registered_names(*old(registry)).insert(
            family_name(*family),
        ),
        r is Err ==> registered_names(*final(registry)) == registered_names(*old(registry)),
        holds_gauges_only(*old(registry)) ==> holds_gauges_only(*final(registry)),
{
    registry.register(Box::new(family.inner.clone()))
}

/// Calls `GaugeVec::get_metric_with_label_values`, which returns the gauge
/// for the label values and creates it if there is none yet, and `Gauge::set`
/// on that gauge with the number that the cell holds, read by `Atomic::get`.
/// The first fails exactly where the number of values is not the number of
/// label names, and then nothing changes. Where it succeeds the family holds
/// a series for the list, and that series holds the number of the cell; the
/// family loses no series, and its descriptor stays as it was.
#[verifier::external_body]
fn set_series(
    family: &mut GaugeFamily,
    label_values: &Vec<String>,
    value: &prometheus::core::AtomicF64,
) -> (r: Result<(), prometheus::Error>)
    ensures
        family_name(*final(family)) == family_name(*old(family)),
        family_help(*final(family)) == family_help(*old(family)),
        family_labels(*final(family)) == family_labels(*old(family)),
        r is Ok <==> label_values@.len() == family_labels(*old(family)).len(),
        r is Ok ==> family_holds(*final(family)).contains(views(label_values@)),
        r is Ok ==> family_bits(*final(family), views(label_values@)) == cell_bits(*value),
        forall|list: Seq<Seq<char>>|
            family_holds(*old(family)).contains(list) ==> family_holds(*final(family)).contains(
                list,
            ),
        r is Err ==> family_holds(*final(family)) == family_holds(*old(family)),
        r is Err ==> forall|list: Seq<Seq<char>>|
            family_bits(*final(family), list) == family_bits(*old(family), list),
{
    match family.inner.get_metric_with_label_values(label_values.as_slice()) {
        Ok(gauge) => Ok(gauge.set(prometheus::core::Atomic::get(value))),
        Err(error) => Err(error),
    }
}

/// Calls `Registry::gather`, which collects from every registered collector
/// the families that hold at least one series. A gauge vector gives a family
/// of the type `GAUGE`, and a registry without a collector gathers nothing.
#[verifier::external_body]
fn gather(registry: &prometheus::Registry) -> (families: Vec<prometheus::proto::MetricFamily>)
    requires
        holds_gauges_only(*registry),
    ensures
        forall|i: int| 0 <= i < families@.len() ==> is_typed(#[trigger] families@[i]),
        (forall|name: Seq<char>| !registered_names(*registry).contains(name)) ==> families@.len()
            == 0,
{
    registry.gather()
}

/// Calls `TextEncoder::encode` on a buffer that starts empty, and returns
/// the buffer. The encoder does not write families of the type `UNTYPED`,
/// which are left out by `requires`. Of no family it writes nothing.
#[verifier::external_body]
fn encode_text(families: &Vec<prometheus::proto::MetricFamily>) -> (r: Result<
    Vec<u8>,
    prometheus::Error,
>)
    requires
        forall|i: int| 0 <= i < families@.len() ==> is_typed(#[trigger] families@[i]),
    ensures
        families@.len() == 0 ==> r is Ok && r->Ok_0@.len() == 0,
{
    let mut buffer = Vec::new();
    match prometheus::Encoder::encode(&prometheus::TextEncoder::new(), families, &mut buffer) {
        Ok(()) => Ok(buffer),
        Err(error) => Err(error),
    }
}

/// The message of an error of the `prometheus` crate.
#[verifier::external_body]
fn error_text(error: &prometheus::Error) -> (text: String) {
    error.to_string()
}

/// Why the registry could not serve a key.
#[derive(Debug)]
pub enum RegistryError {
    /// No family can be made from the key: its name, help text or label
    /// names are not acceptable.
    InvalidDescriptor(String),
    /// The registry refused the family, as it does where another family of
    /// the same name is registered.
    Rejected(String),
    /// The number of label values is not the number of label names.
    Cardinality(String),
    /// The contents of the registry could not be written out.
    Encoding(String),
}

/// The gauge families of one target, by key. Families are registered in the
/// order in which their keys are first seen, and stay.
pub struct MetricsRegistry {
    keys: Vec<MetricKey>,
    families: Vec<GaugeFamily>,
    registry: prometheus::Registry,
}

/// Whether a list of keys holds the key.
pub open spec fn holds_key(keys: Seq<MetricKeyView>, key: MetricKeyView) -> bool {
    exists|i: int| 0 <= i < keys.len() && #[trigger] keys[i] == key
}

/// Whether a list of keys holds a key of the given name.
pub open spec fn holds_name(keys: Seq<MetricKeyView>, name: Seq<char>) -> bool {
    exists|i: int| 0 <= i < keys.len() && (#[trigger] keys[i]).name == name
}

/// No two keys of the list bear the same name.
pub open spec fn distinct_names(keys: Seq<MetricKeyView>) -> bool {
    forall|i: int, j: int| 0 <= i < j < keys.len() ==> keys[i].name != keys[j].name
}

/// Whether a family can be made from the key.
pub open spec fn key_is_valid(key: MetricKeyView) -> bool {
    valid_descriptor(key.name, key.help, key.labels)
}

/// What a registration does to the registered keys, and whether it
/// succeeds. `willing` says whether the underlying registry accepts a family
/// made from the key.
///
/// A key that is registered already is served and nothing changes. A key
/// from which no family can be made, or whose name another registered key
/// bears, is refused and nothing changes. Any other key is registered
/// exactly if the underlying registry is willing: it is then appended, and
/// otherwise nothing changes.
pub open spec fn registration(
    before: Seq<MetricKeyView>,
    key: MetricKeyView,
    willing: bool,
    after: Seq<MetricKeyView>,
    accepted: bool,
) -> bool {
    if holds_key(before, key) {
        accepted && after == before
    } else if !key_is_valid(key) || holds_name(before, key.name) {
        !accepted && after == before
    } else if willing {
        accepted && after == before.push(key)
    } else {
        !accepted && after == before
    }
}

/// What an update does to the registered keys, and what it returns: the key
/// is registered as [`registration`] lays down, and where it is or gets
/// registered, the value is written exactly if there are as many label
/// values as the key has label names.
pub open spec fn update_outcome(
    before: Seq<MetricKeyView>,
    key: MetricKeyView,
    willing: bool,
    values: nat,
    after: Seq<MetricKeyView>,
    r: Result<(), RegistryError>,
) -> bool {
    match r {
        Ok(_) => registration(before, key, willing, after, true) && values == key.labels.len(),
        Err(RegistryError::InvalidDescriptor(_)) => registration(
            before,
            key,
            willing,
            after,
            false,
        ) && !key_is_valid(key),
        Err(RegistryError::Rejected(_)) => registration(before, key, willing, after, false)
            && key_is_valid(key),
        Err(RegistryError::Cardinality(_)) => registration(before, key, willing, after, true)
            && values != key.labels.len(),
        Err(RegistryError::Encoding(_)) => false,
    }
}

/// Every series that the first registry holds, the second holds too.
pub open spec fn series_kept(before: MetricsRegistry, after: MetricsRegistry) -> bool {
    forall|key: MetricKeyView, values: Seq<Seq<char>>|
        before.holds_series(key, values) ==> #[trigger] after.holds_series(key, values)
}

/// The two registries hold the same series, with the same numbers.
pub open spec fn series_same(before: MetricsRegistry, after: MetricsRegistry) -> bool {
    &&& forall|key: MetricKeyView, values: Seq<Seq<char>>|
        #[trigger] after.holds_series(key, values) == before.holds_series(key, values)
    &&& forall|key: MetricKeyView, values: Seq<Seq<char>>, bits: u64|
        #[trigger] after.holds_number(key, values, bits) == before.holds_number(key, values, bits)
}

/// The two registries hold the same series, with the same numbers, under
/// every key but the given one.
pub open spec fn series_same_but(
    before: MetricsRegistry,
    after: MetricsRegistry,
    key: MetricKeyView,
) -> bool {
    &&& forall|other: MetricKeyView, values: Seq<Seq<char>>|
        other != key ==> #[trigger] after.holds_series(other, values) == before.holds_series(
            other,
            values,
        )
    &&& forall|other: MetricKeyView, values: Seq<Seq<char>>, bits: u64|
        other != key ==> #[trigger] after.holds_number(other, values, bits)
            == before.holds_number(other, values, bits)
}

impl MetricsRegistry {
    /// The registered keys, in the order of their registration.
    pub closed spec fn keys(&self) -> Seq<MetricKeyView> {
        Seq::new(self.keys@.len(), |i: int| self.keys@[i]@)
    }

    /// Whether the family of the key holds a series for the list of label
    /// values.
    pub closed spec fn holds_series(&self, key: MetricKeyView, values: Seq<Seq<char>>) -> bool {
        exists|i: int|
            0 <= i < self.keys@.len() && i < self.families@.len() && (#[trigger] self.keys@[i])@
                == key && family_holds(self.families@[i]).contains(values)
    }

    /// Whether the family of the key holds a series for the list of label
    /// values, and that series holds the number with these bits. In a
    /// consistent registry a series holds one number, see
    /// [`MetricsRegistry::lemma_number_is_one`].
    pub closed spec fn holds_number(
        &self,
        key: MetricKeyView,
        values: Seq<Seq<char>>,
        bits: u64,
    ) -> bool {
        exists|i: int|
            0 <= i < self.keys@.len() && i < self.families@.len() && (#[trigger] self.keys@[i])@
                == key && family_holds(self.families@[i]).contains(values) && family_bits(
                self.families@[i],
                values,
            ) == bits
    }

    /// Whether the underlying registry, as it stands, accepts a family made
    /// from the key.
    pub closed spec fn accepts_key(&self, key: MetricKeyView) -> bool {
        accepts(self.registry, key.name, key.help, key.labels)
    }

    /// The registry is consistent: every key has its family, no two keys
    /// bear the same name, and the names registered with the underlying
    /// registry are those of the keys.
    pub closed spec fn wf(&self) -> bool {
        &&& self.keys@.len() == self.families@.len()
        &&& forall|i: int|
            0 <= i < self.keys@.len() ==> {
                &&& family_name(#[trigger] self.families@[i]) == self.keys@[i]@.name
                &&& family_help(self.families@[i]) == self.keys@[i]@.help
                &&& family_labels(self.families@[i]) == self.keys@[i]@.labels
            }
        &&& forall|i: int, j: int|
            0 <= i < j < self.keys@.len() ==> self.keys@[i]@.name != self.keys@[j]@.name
        &&& forall|name: Seq<char>|
            registered_names(self.registry).contains(name) <==> holds_name(self.keys(), name)
        &&& holds_gauges_only(self.registry)
    }

    /// In a consistent registry a series holds one number, and it holds one
    /// exactly if it is held.
    pub proof fn lemma_number_is_one(
        &self,
        key: MetricKeyView,
        values: Seq<Seq<char>>,
        first: u64,
        second: u64,
    )
        requires
            self.wf(),
        ensures
            self.holds_number(key, values, first) && self.holds_number(key, values, second)
                ==> first == second,
            self.holds_number(key, values, first) ==> self.holds_series(key, values),
            self.holds_series(key, values) ==> exists|bits: u64|
                self.holds_number(key, values, bits),
    {
        if self.holds_number(key, values, first) && self.holds_number(key, values, second) {
            let i = choose|i: int|
                0 <= i < self.keys@.len() && i < self.families@.len() && (#[trigger] self.keys@[i])@
                    == key && family_holds(self.families@[i]).contains(values) && family_bits(
                    self.families@[i],
                    values,
                ) == first;
            let j = choose|j: int|
                0 <= j < self.keys@.len() && j < self.families@.len() && (#[trigger] self.keys@[j])@
                    == key && family_holds(self.families@[j]).contains(values) && family_bits(
                    self.families@[j],
                    values,
                ) == second;
            assert(self.keys@[i]@.name == self.keys@[j]@.name);
            assert(i == j);
        }
        if self.holds_series(key, values) {
            let i = choose|i: int|
                0 <= i < self.keys@.len() && i < self.families@.len() && (#[trigger] self.keys@[i])@
                    == key && family_holds(self.families@[i]).contains(values);
            assert(self.holds_number(key, values, family_bits(self.families@[i], values)));
        }
    }

    /// In a consistent registry no two keys bear the same name.
    pub proof fn lemma_names_are_distinct(&self)
        requires
            self.wf(),
        ensures
            distinct_names(self.keys()),
    {
    }

    /// An empty registry: it holds no key and no series.
    pub fn new() -> (registry: Self)
        ensures
            registry.wf(),
            registry.keys() == Seq::<MetricKeyView>::empty(),
            forall|key: MetricKeyView, values: Seq<Seq<char>>|
                !#[trigger] registry.holds_series(key, values),
            forall|key: MetricKeyView, values: Seq<Seq<char>>, bits: u64|
                !#[trigger] registry.holds_number(key, values, bits),
    {
        let registry = MetricsRegistry {
            keys: Vec::new(),
            families: Vec::new(),
            registry: new_registry(),
        };
        assert(registry.keys() =~= Seq::<MetricKeyView>::empty());
        registry
    }

    /// The number of registered keys.
    pub fn len(&self) -> (n: usize)
        ensures
            n == self.keys().len(),
    {
        self.keys.len()
    }

    /// The place of a key among the registered keys.
    pub fn position(&self, key: &MetricKey) -> (r: Option<usize>)
        ensures
            match r {
                Some(i) => i < self.keys().len() && self.keys()[i as int] == key@,
                None => !holds_key(self.keys(), key@),
            },
    {
        let mut i: usize = 0;
        while i < self.keys.len()
            invariant
                i <= self.keys.len(),
                forall|j: int| 0 <= j < i ==> #[trigger] self.keys()[j] != key@,
            decreases self.keys.len() - i,
        {
            if self.keys[i].eq(key) {
                return Some(i);
            }
            i += 1;
        }
        None
    }

    /// Registers the family of a key unless the key is registered already,
    /// and returns the place of the key among the registered keys.
    ///
    /// A registered key is always served. A key from which no family can be
    /// made is refused with `InvalidDescriptor`; a key whose name another
    /// registered key bears is refused with `Rejected`. Any other key is
    /// handed to the underlying registry, and is registered exactly if that
    /// accepts it; where it does not, the key is refused with `Rejected`. A
    /// refusal leaves the registered keys as they were, and no registration
    /// changes the series that are held.
    pub fn register(&mut self, key: &MetricKey) -> (r: Result<usize, RegistryError>)
        requires
            old(self).wf(),
        ensures
            final(self).wf(),
            registration(
                old(self).keys(),
                key@,
                old(self).accepts_key(key@),
                final(self).keys(),
                r is Ok,
            ),
            match r {
                Ok(i) => i < final(self).keys().len() && final(self).keys()[i as int] == key@,
                Err(RegistryError::InvalidDescriptor(_)) => !key_is_valid(key@),
                Err(RegistryError::Rejected(_)) => key_is_valid(key@),
                Err(_) => false,
            },
            series_same(*old(self), *final(self)),
    {
        if let Some(i) = self.position(key) {
            return Ok(i);
        }
        match new_family(key.name.as_str(), key.help.as_str(), &key.labels) {
            Err(error) => Err(RegistryError::InvalidDescriptor(error_text(&error))),
            Ok(family) => {
                proof {
                    if holds_name(self.keys(), key@.name) {
                        assert(registered_names(self.registry).contains(key@.name));
                    }
                }
                match register_family(&mut self.registry, &family) {
                    Err(error) => Err(RegistryError::Rejected(error_text(&error))),
                    Ok(()) => {
                        let ghost before = self.keys();
                        let index = self.keys.len();
                        self.keys.push(key.clone());
                        self.families.push(family);
                        proof {
                            assert(self.keys() =~= before.push(key@));
                            assert forall|name: Seq<char>|
                                registered_names(self.registry).contains(name) <==> holds_name(
                                    self.keys(),
                                    name,
                                ) by {
                                if holds_name(before, name) {
                                    let i = choose|i: int|
                                        0 <= i < before.len() && (#[trigger] before[i]).name
                                            == name;
                                    assert(self.keys()[i].name == name);
                                }
                                if name == key@.name {
                                    assert(self.keys()[index as int].name == name);
                                }
                                if holds_name(self.keys(), name) {
                                    let i = choose|i: int|
                                        0 <= i < self.keys().len() && (
                                        #[trigger] self.keys()[i]).name == name;
                                    if i < index {
                                        assert(before[i].name == name);
                                    }
                                }
                            }
                            assert forall|i: int, j: int|
                                0 <= i < j < self.keys@.len() implies self.keys@[i]@.name
                                != self.keys@[j]@.name by {
                                if j == index {
                                    assert(before[i].name == self.keys@[i]@.name);
                                }
                            }
                            lemma_series_after_push(*old(self), *self);
                        }
                        Ok(index)
                    },
                }
            },
        }
    }

    /// Writes a value to one series: registers the family of the key as
    /// [`MetricsRegistry::register`] does, finds the series that the label
    /// values select, which is created if it is new, and sets it to the
    /// number that the cell holds.
    ///
    /// Where the key is or gets registered, the value is written exactly if
    /// there are as many label values as the key has label names, and the
    /// family of the key then holds a series for the label values, which
    /// holds the number of the cell. An observation that cannot be written
    /// is dropped: the series are as they were, and so are the keys, but for
    /// a family that may have been registered. No series is ever lost, and
    /// nothing changes in a family but that of the key.
    pub fn update_metric(
        &mut self,
        key: &MetricKey,
        label_values: &Vec<String>,
        value: &prometheus::core::AtomicF64,
    ) -> (r: Result<(), RegistryError>)
        requires
            old(self).wf(),
        ensures
            final(self).wf(),
            update_outcome(
                old(self).keys(),
                key@,
                old(self).accepts_key(key@),
                label_values@.len(),
                final(self).keys(),
                r,
            ),
            r is Ok ==> final(self).holds_series(key@, views(label_values@)),
            r is Ok ==> final(self).holds_number(key@, views(label_values@), cell_bits(*value)),
            r is Err ==> series_same(*old(self), *final(self)),
            series_kept(*old(self), *final(self)),
            series_same_but(*old(self), *final(self), key@),
    {
        match self.register(key) {
            Err(error) => {
                assert(registration(
                    old(self).keys(),
                    key@,
                    old(self).accepts_key(key@),
                    self.keys(),
                    false,
                ));
                Err(error)
            },
            Ok(index) => {
                assert(registration(
                    old(self).keys(),
                    key@,
                    old(self).accepts_key(key@),
                    self.keys(),
                    true,
                ));
                assert(self.keys@[index as int]@ == self.keys()[index as int]);
                let ghost registered = *self;
                let outcome = set_series(&mut self.families[index], label_values, value);
                proof {
                    assert(self.keys@ == registered.keys@);
                    assert(self.keys() == registered.keys());
                    lemma_series_after_write(
                        registered,
                        *self,
                        index as int,
                        views(label_values@),
                        outcome is Ok,
                    );
                }
                match outcome {
                    Ok(()) => Ok(()),
                    Err(error) => Err(RegistryError::Cardinality(error_text(&error))),
                }
            },
        }
    }

    /// Tells whether no series holds a value yet. A registry without a key
    /// is empty; of any other the underlying registry is asked.
    pub fn is_empty(&self) -> (r: bool)
        requires
            self.wf(),
        ensures
            self.keys().len() == 0 ==> r,
    {
        proof {
            self.lemma_no_key_no_name();
        }
        holds_no_family(&gather(&self.registry))
    }

    /// Writes out every series in the text exposition format. A registry
    /// without a key gives the empty text.
    pub fn encode(&self) -> (r: Result<Vec<u8>, RegistryError>)
        requires
            self.wf(),
        ensures
            r is Err ==> r->Err_0 is Encoding,
            self.keys().len() == 0 ==> r is Ok && r->Ok_0@.len() == 0,
    {
        proof {
            self.lemma_no_key_no_name();
        }
        let families = gather(&self.registry);
        exposition(encode_text(&families))
    }

    proof fn lemma_no_key_no_name(&self)
        requires
            self.wf(),
        ensures
            holds_gauges_only(self.registry),
            self.keys().len() == 0 ==> forall|name: Seq<char>|
                !registered_names(self.registry).contains(name),
    {
        if self.keys().len() == 0 {
            assert forall|name: Seq<char>| !registered_names(self.registry).contains(name) by {
                assert(!holds_name(self.keys(), name));
            }
        }
    }
}

/// After a family without series was added for a new key, the series are as
/// they were.
proof fn lemma_series_after_push(before: MetricsRegistry, after: MetricsRegistry)
    requires
        before.keys@.len() == before.families@.len(),
        after.keys@.len() == before.keys@.len() + 1,
        after.families@.len() == after.keys@.len(),
        forall|i: int| 0 <= i < before.keys@.len() ==> after.keys@[i] == before.keys@[i],
        forall|i: int|
            0 <= i < before.families@.len() ==> after.families@[i] == before.families@[i],
        family_holds(after.families@[before.keys@.len() as int]) == Set::<Seq<Seq<char>>>::empty(),
    ensures
        series_same(before, after),
{
    let last = before.keys@.len() as int;
    assert forall|key: MetricKeyView, values: Seq<Seq<char>>|
        #[trigger] after.holds_series(key, values) == before.holds_series(key, values) by {
        if before.holds_series(key, values) {
            let i = choose|i: int|
                0 <= i < before.keys@.len() && i < before.families@.len() && (
                #[trigger] before.keys@[i])@ == key && family_holds(before.families@[i]).contains(
                    values,
                );
            assert(after.keys@[i]@ == key);
        }
        if after.holds_series(key, values) {
            let i = choose|i: int|
                0 <= i < after.keys@.len() && i < after.families@.len() && (
                #[trigger] after.keys@[i])@ == key && family_holds(after.families@[i]).contains(
                    values,
                );
            assert(i != last);
            assert(before.keys@[i]@ == key);
        }
    }
    assert forall|key: MetricKeyView, values: Seq<Seq<char>>, bits: u64|
        #[trigger] after.holds_number(key, values, bits) == before.holds_number(
            key,
            values,
            bits,
        ) by {
        if before.holds_number(key, values, bits) {
            let i = choose|i: int|
                0 <= i < before.keys@.len() && i < before.families@.len() && (
                #[trigger] before.keys@[i])@ == key && family_holds(before.families@[i]).contains(
                    values,
                ) && family_bits(before.families@[i], values) == bits;
            assert(after.keys@[i]@ == key);
        }
        if after.holds_number(key, values, bits) {
            let i = choose|i: int|
                0 <= i < after.keys@.len() && i < after.families@.len() && (
                #[trigger] after.keys@[i])@ == key && family_holds(after.families@[i]).contains(
                    values,
                ) && family_bits(after.families@[i], values) == bits;
            assert(i != last);
            assert(before.keys@[i]@ == key);
        }
    }
}

/// After a write to the family at one place, the series of the other
/// families are as they were; the family written to has lost none, holds the
/// series written where the write succeeded, and is as it was where it
/// failed.
proof fn lemma_series_after_write(
    before: MetricsRegistry,
    after: MetricsRegistry,
    place: int,
    list: Seq<Seq<char>>,
    written: bool,
)
    requires
        before.wf(),
        0 <= place < before.keys@.len(),
        after.keys@ == before.keys@,
        after.families@.len() == before.families@.len(),
        forall|i: int|
            0 <= i < before.families@.len() && i != place ==> after.families@[i]
                == before.families@[i],
        forall|other: Seq<Seq<char>>|
            family_holds(before.families@[place]).contains(other) ==> family_holds(
                after.families@[place],
            ).contains(other),
        written ==> family_holds(after.families@[place]).contains(list),
        !written ==> family_holds(after.families@[place]) == family_holds(
            before.families@[place],
        ),
        !written ==> forall|other: Seq<Seq<char>>|
            family_bits(after.families@[place], other) == family_bits(
                before.families@[place],
                other,
            ),
    ensures
        series_kept(before, after),
        series_same_but(before, after, before.keys@[place]@),
        written ==> after.holds_series(before.keys@[place]@, list) && after.holds_number(
            before.keys@[place]@,
            list,
            family_bits(after.families@[place], list),
        ),
        !written ==> series_same(before, after),
{
    let key = before.keys@[place]@;
    assert forall|other: MetricKeyView, values: Seq<Seq<char>>|
        before.holds_series(other, values) implies #[trigger] after.holds_series(
        other,
        values,
    ) by {
        let i = choose|i: int|
            0 <= i < before.keys@.len() && i < before.families@.len() && (
            #[trigger] before.keys@[i])@ == other && family_holds(before.families@[i]).contains(
                values,
            );
        assert(after.keys@[i]@ == other);
    }
    assert forall|other: MetricKeyView, values: Seq<Seq<char>>|
        (other != key || !written) && after.holds_series(
            other,
            values,
        ) implies #[trigger] before.holds_series(other, values) by {
        let i = choose|i: int|
            0 <= i < after.keys@.len() && i < after.families@.len() && (#[trigger] after.keys@[i])@
                == other && family_holds(after.families@[i]).contains(values);
        assert(before.keys@[i]@ == other);
        if i != place {
            assert(after.families@[i] == before.families@[i]);
        }
    }
    assert forall|other: MetricKeyView, values: Seq<Seq<char>>, bits: u64|
        (other != key || !written) implies #[trigger] after.holds_number(other, values, bits)
        == before.holds_number(other, values, bits) by {
        if before.holds_number(other, values, bits) {
            let i = choose|i: int|
                0 <= i < before.keys@.len() && i < before.families@.len() && (
                #[trigger] before.keys@[i])@ == other && family_holds(
                    before.families@[i],
                ).contains(values) && family_bits(before.families@[i], values) == bits;
            assert(after.keys@[i]@ == other);
            if i != place {
                assert(after.families@[i] == before.families@[i]);
            }
        }
        if after.holds_number(other, values, bits) {
            let i = choose|i: int|
                0 <= i < after.keys@.len() && i < after.families@.len() && (
                #[trigger] after.keys@[i])@ == other && family_holds(after.families@[i]).contains(
                    values,
                ) && family_bits(after.families@[i], values) == bits;
            assert(before.keys@[i]@ == other);
            if i != place {
                assert(after.families@[i] == before.families@[i]);
            }
        }
    }
    if written {
        assert(after.keys@[place]@ == key);
    }
}

/// Tells whether nothing was gathered. The underlying registry gathers the
/// families that hold at least one series, so a registry is empty exactly if
/// it gathers no family.
pub fn holds_no_family(families: &Vec<prometheus::proto::MetricFamily>) -> (r: bool)
    ensures
        r == (families@.len() == 0),
{
    families.len() == 0
}

/// What the registry answers with the outcome of the encoder: the text where
/// there is one, and an `Encoding` error with the message of the encoder
/// where there is none.
pub fn exposition(outcome: Result<Vec<u8>, prometheus::Error>) -> (r: Result<
    Vec<u8>,
    RegistryError,
>)
    ensures
        match outcome {
            Ok(text) => r is Ok && r->Ok_0 == text,
            Err(_) => r is Err && r->Err_0 is Encoding,
        },
{
    match outcome {
        Ok(text) => Ok(text),
        Err(error) => Err(RegistryError::Encoding(error_text(&error))),
    }
}

/// The registered keys only grow: a registration keeps every key in its
/// place and adds at most the key that it is for.
pub proof fn lemma_registration_grows(
    before: Seq<MetricKeyView>,
    key: MetricKeyView,
    willing: bool,
    after: Seq<MetricKeyView>,
    accepted: bool,
)
    requires
        registration(before, key, willing, after, accepted),
    ensures
        before.len() <= after.len() <= before.len() + 1,
        after.take(before.len() as int) == before,
        accepted ==> holds_key(after, key),
{
    assert(after.take(before.len() as int) =~= before);
    if accepted && !holds_key(before, key) {
        assert(after[before.len() as int] == key);
    }
}

/// A key that was registered is served again without error, and a key of the
/// same name that differs from it, as one with another label schema does, is
/// refused, whatever the underlying registry would say; neither changes the
/// registered keys.
pub proof fn lemma_registration_is_stable(
    before: Seq<MetricKeyView>,
    first: MetricKeyView,
    registered: Seq<MetricKeyView>,
    second: MetricKeyView,
    after: Seq<MetricKeyView>,
    willing_first: bool,
    willing_second: bool,
    accepted: bool,
)
    requires
        distinct_names(before),
        registration(before, first, willing_first, registered, true),
        second.name == first.name,
        registration(registered, second, willing_second, after, accepted),
    ensures
        distinct_names(registered),
        after == registered,
        accepted <==> second == first,
        holds_key(after, first),
{
    let place = if holds_key(before, first) {
        choose|i: int| 0 <= i < before.len() && #[trigger] before[i] == first
    } else {
        before.len() as int
    };
    assert(registered[place] == first);
    assert forall|i: int, j: int| 0 <= i < j < registered.len() implies registered[i].name
        != registered[j].name by {
        if !holds_key(before, first) && j == before.len() {
            assert(before[i].name == registered[i].name);
        }
    }
    if holds_key(registered, second) {
        let other = choose|i: int| 0 <= i < registered.len() && #[trigger] registered[i] == second;
        assert(other == place);
    }
}

} // verus!
