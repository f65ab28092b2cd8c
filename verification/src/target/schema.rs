//! The variables that one poll of a management endpoint returns.
use vstd::prelude::*;

verus! {

/// One of the states that an enumerated variable can be in.
#[derive(Debug, Clone)]
pub struct EnumValue {
    pub name: String,
}

/// The attributes of one reported variable.
#[derive(Debug, Clone)]
pub struct Attributes {
    pub device_name: String,
    pub label: String,
    pub value: String,
    pub raw_value: String,
    pub enum_values: Vec<EnumValue>,
}

/// One reported variable.
#[derive(Debug, Clone)]
pub struct Variable {
    pub attributes: Attributes,
}

/// The result of one poll: every variable of every device of the endpoint.
#[derive(Debug, Clone)]
pub struct ApiResponse {
    pub data: Vec<Variable>,
}

/// How the value of a scalar series is obtained from a variable.
#[derive(Debug, Clone)]
pub enum RawValue {
    /// The value is the constant one; what the variable says is carried by a
    /// label.
    One,
    /// The value is the number that this text denotes, rounded to one
    /// decimal place. Text that denotes no number gives no value.
    Number(String),
}

/// Mathematical value of a [`RawValue`].
pub enum RawValueView {
    One,
    Number(Seq<char>),
}

impl View for RawValue {
    type V = RawValueView;

    open spec fn view(&self) -> RawValueView {
        match self {
            RawValue::One => RawValueView::One,
            RawValue::Number(text) => RawValueView::Number(text@),
        }
    }
}

/// Mathematical value of [`Attributes`].
pub struct AttributesView {
    pub device_name: Seq<char>,
    pub label: Seq<char>,
    pub value: Seq<char>,
    pub raw_value: Seq<char>,
    pub enum_values: Seq<Seq<char>>,
}

/// The vendor label of the firmware version variable.
pub open spec fn firmware_label() -> Seq<char> {
    "Firmware Version"@
}

impl AttributesView {
    /// The raw value of the variable: the constant one for the firmware
    /// version, and the number in the raw text for every other variable.
    pub open spec fn raw(self) -> RawValueView {
        if self.label == firmware_label() {
            RawValueView::One
        } else {
            RawValueView::Number(self.raw_value)
        }
    }
}

impl View for Attributes {
    type V = AttributesView;

    open spec fn view(&self) -> AttributesView {
        AttributesView {
            device_name: self.device_name@,
            label: self.label@,
            value: self.value@,
            raw_value: self.raw_value@,
            enum_values: Seq::new(self.enum_values@.len(), |i: int| self.enum_values@[i].name@),
        }
    }
}

impl Attributes {
    /// The raw value of the variable.
    pub fn get_raw(&self) -> (r: RawValue)
        ensures
            r@ == self@.raw(),
    {
        if self.label.as_str().eq("Firmware Version") {
            RawValue::One
        } else {
            RawValue::Number(self.raw_value.clone())
        }
    }
}

impl View for ApiResponse {
    type V = Seq<AttributesView>;

    open spec fn view(&self) -> Seq<AttributesView> {
        Seq::new(self.data@.len(), |i: int| self.data@[i].attributes@)
    }
}

} // verus!
