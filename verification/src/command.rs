//! The structured text commands.
//!
//! A command is one flat record in braces: a `type` field, then the fields
//! that belong to that type, each as `"name": value`, separated by a comma
//! and a space. Field names and their order are part of the wire format.

use crate::decimal::{decimal_text, push_decimal};
use vstd::prelude::*;

verus! {

/// Whether a move shifts the target or turns it.
#[derive(Clone, Copy, Debug, PartialEq, Eq, Structural)]
pub enum Kind {
    Translation,
    Rotation,
}

/// The axis along, or around, which the target is moved.
#[derive(Clone, Copy, Debug, PartialEq, Eq, Structural)]
pub enum Axis {
    X,
    Y,
    Z,
}

/// A signed amount in thousandths. The sign is kept apart from the magnitude,
/// so that a negative zero stays negative on the wire.
#[derive(Clone, Copy, Debug, PartialEq, Eq, Structural)]
pub struct Amount {
    pub negative: bool,
    pub thousandths: u64,
}

impl Kind {
    /// The word that stands for this kind on the wire.
    pub open spec fn wire_name(self) -> Seq<char> {
        match self {
            Kind::Translation => "TRANSLATION"@,
            Kind::Rotation => "ROTATION"@,
        }
    }

    /// The word that stands for this kind on the wire.
    pub fn name(self) -> (word: &'static str)
        ensures
            word@ == self.wire_name(),
    {
        match self {
            Kind::Translation => "TRANSLATION",
            Kind::Rotation => "ROTATION",
        }
    }
}

impl Axis {
    /// The letter that stands for this axis on the wire.
    pub open spec fn wire_name(self) -> Seq<char> {
        match self {
            Axis::X => "x"@,
            Axis::Y => "y"@,
            Axis::Z => "z"@,
        }
    }

    /// The letter that stands for this axis on the wire.
    pub fn name(self) -> (word: &'static str)
        ensures
            word@ == self.wire_name(),
    {
        match self {
            Axis::X => "x",
            Axis::Y => "y",
            Axis::Z => "z",
        }
    }
}

impl Amount {
    /// The decimal text of this amount: at most three digits behind the point.
    pub open spec fn text(self) -> Seq<char> {
        decimal_text(
            self.negative,
            (self.thousandths / 1000) as nat,
            (self.thousandths % 1000) as nat,
            3,
        )
    }
}

/// The opening of a move request, up to the quote that opens the target's name.
pub open spec fn move_head() -> Seq<char> {
    r#"{"type": "MOVE_UNITY_OBJECT", "objectName": ""#@
}

/// What stands between the target's name and the kind.
pub open spec fn kind_field() -> Seq<char> {
    r#"", "kind": ""#@
}

/// What stands between the kind and the axis.
pub open spec fn axis_field() -> Seq<char> {
    r#"", "axis": ""#@
}

/// What stands between the axis and the amount.
pub open spec fn amount_field() -> Seq<char> {
    r#"", "amount": "#@
}

/// The text of a move request.
pub open spec fn move_text(object_name: Seq<char>, kind: Kind, axis: Axis, amount: Amount) -> Seq<
    char,
> {
    move_head() + object_name + kind_field() + kind.wire_name() + axis_field() + axis.wire_name()
        + amount_field() + amount.text() + "}"@
}

/// The text of a request for the status of one object.
pub open spec fn dump_object_text(object_name: Seq<char>) -> Seq<char> {
    r#"{"type": "DUMP_UNITY_OBJECT_STATUS", "objectName": ""#@ + object_name + r#""}"#@
}

/// The text of a request for the whole hierarchy.
pub open spec fn dump_hierarchy_text() -> Seq<char> {
    r#"{"type": "DUMP_HIERARCHY"}"#@
}

/// Encodes a move request: the target's name, the kind, the axis and the
/// signed amount, in that order, behind the type tag.
pub fn encode_move(object_name: &str, kind: Kind, axis: Axis, amount: Amount) -> (text: String)
    ensures
        text@ == move_text(object_name@, kind, axis, amount),
{
    let mut text = String::from_str(r#"{"type": "MOVE_UNITY_OBJECT", "objectName": ""#);
    text.append(object_name);
    text.append(r#"", "kind": ""#);
    text.append(kind.name());
    text.append(r#"", "axis": ""#);
    text.append(axis.name());
    text.append(r#"", "amount": "#);
    push_decimal(
        &mut text,
        amount.negative,
        amount.thousandths / 1000,
        amount.thousandths % 1000,
        3,
    );
    text.append("}");
    text
}

/// Encodes a request for the status of the object named `object_name`.
pub fn encode_dump_object(object_name: &str) -> (text: String)
    ensures
        text@ == dump_object_text(object_name@),
{
    let mut text = String::from_str(r#"{"type": "DUMP_UNITY_OBJECT_STATUS", "objectName": ""#);
    text.append(object_name);
    text.append(r#""}"#);
    text
}

/// Encodes a request for the whole hierarchy.
pub fn encode_dump_hierarchy() -> (text: String)
    ensures
        text@ == dump_hierarchy_text(),
{
    String::from_str(r#"{"type": "DUMP_HIERARCHY"}"#)
}

} // verus!
