//! The editor's key table and the session context that its keys act on.
//!
//! A binding pairs a key with a label and an [`Action`]. What an action does
//! is a function of the context alone: [`Action::context_after`] gives the
//! context it leaves, [`Action::payload`] the command it sends, if any.

use crate::command::{
    dump_hierarchy_text, dump_object_text, encode_dump_hierarchy, encode_dump_object, encode_move,
    move_text, Amount, Axis, Kind,
};
use vstd::prelude::*;

verus! {

/// The remote objects that a key can select.
#[derive(Clone, Copy, Debug, PartialEq, Eq, Structural)]
pub enum Target {
    Da42One,
    Da42Two,
    Plane,
    EnuOrigin,
    SimulatorViewProjectionPoint,
    CylinderRadiusMarker,
    SimulatorCylinderCenter,
}

impl Target {
    /// The name under which the remote side knows this object.
    pub open spec fn wire_name(self) -> Seq<char> {
        match self {
            Target::Da42One => "DA42-1"@,
            Target::Da42Two => "DA42-2"@,
            Target::Plane => "Plane"@,
            Target::EnuOrigin => "ENUOrigin"@,
            Target::SimulatorViewProjectionPoint => "SimulatorViewProjectionPoint"@,
            Target::CylinderRadiusMarker => "CylinderRadiusMarker"@,
            Target::SimulatorCylinderCenter => "SimulatorCylinderCenter"@,
        }
    }

    /// The name under which the remote side knows this object.
    pub fn name(self) -> (word: &'static str)
        ensures
            word@ == self.wire_name(),
    {
        match self {
            Target::Da42One => "DA42-1",
            Target::Da42Two => "DA42-2",
            Target::Plane => "Plane",
            Target::EnuOrigin => "ENUOrigin",
            Target::SimulatorViewProjectionPoint => "SimulatorViewProjectionPoint",
            Target::CylinderRadiusMarker => "CylinderRadiusMarker",
            Target::SimulatorCylinderCenter => "SimulatorCylinderCenter",
        }
    }
}

/// What a key of the editor does.
#[derive(Clone, Copy, Debug, PartialEq, Eq, Structural)]
pub enum Action {
    /// Raise the step by one thousandth.
    IncrementAmount,
    /// Lower the step by one thousandth, but not below zero.
    DecrementAmount,
    /// Make the given object the current one.
    Select(Target),
    /// Ask the remote side to move the current object by the current step.
    Move { kind: Kind, axis: Axis, decrement: bool },
    /// Ask the remote side for the status of the current object.
    DumpObject,
    /// Ask the remote side for its whole hierarchy.
    DumpHierarchy,
}

/// The state that the operator edits.
pub struct Context<'a> {
    /// The step of the next move, in thousandths.
    pub current_increment_amount: u32,
    /// The name of the object that the next command is about.
    pub current_game_object: &'a str,
}

/// A context as plain values.
pub struct ContextView {
    /// The step, in thousandths.
    pub increment: nat,
    /// The name of the current object.
    pub object: Seq<char>,
}

impl<'a> View for Context<'a> {
    type V = ContextView;

    open spec fn view(&self) -> ContextView {
        ContextView {
            increment: self.current_increment_amount as nat,
            object: self.current_game_object@,
        }
    }
}

/// One line of the key table: a key, its label, and what it does.
pub struct KeyBinding {
    pub key: char,
    pub description: String,
    pub action: Action,
}

/// A binding as plain values.
pub struct Entry {
    pub key: char,
    pub description: Seq<char>,
    pub action: Action,
}

impl View for KeyBinding {
    type V = Entry;

    open spec fn view(&self) -> Entry {
        Entry { key: self.key, description: self.description@, action: self.action }
    }
}

/// The greatest step that a context can hold, in thousandths.
pub open spec fn max_increment() -> nat {
    u32::MAX as nat
}

/// The step after one increment: one thousandth more, up to the greatest step.
pub open spec fn incremented(increment: nat) -> nat {
    if increment + 1 > max_increment() {
        max_increment()
    } else {
        increment + 1
    }
}

/// The step after one decrement: one thousandth less, but never below zero.
pub open spec fn decremented(increment: nat) -> nat {
    if increment >= 1 {
        (increment - 1) as nat
    } else {
        0
    }
}

/// The amount of a move: the step itself for a translation, ten times the
/// step for a rotation; negative for a decrement.
pub open spec fn move_amount(increment: nat, kind: Kind, decrement: bool) -> Amount {
    Amount {
        negative: decrement,
        thousandths: match kind {
            Kind::Translation => increment as u64,
            Kind::Rotation => (10 * increment) as u64,
        },
    }
}

impl Action {
    /// The context that this action leaves behind.
    pub open spec fn context_after(self, ctx: ContextView) -> ContextView {
        match self {
            Action::IncrementAmount => ContextView {
                increment: incremented(ctx.increment),
                object: ctx.object,
            },
            Action::DecrementAmount => ContextView {
                increment: decremented(ctx.increment),
                object: ctx.object,
            },
            Action::Select(target) => ContextView {
                increment: ctx.increment,
                object: target.wire_name(),
            },
            _ => ctx,
        }
    }

    /// The command that this action sends, if it sends one.
    pub open spec fn payload(self, ctx: ContextView) -> Option<Seq<char>> {
        match self {
            Action::Move { kind, axis, decrement } => Some(
                move_text(ctx.object, kind, axis, move_amount(ctx.increment, kind, decrement)),
            ),
            Action::DumpObject => Some(dump_object_text(ctx.object)),
            Action::DumpHierarchy => Some(dump_hierarchy_text()),
            _ => None,
        }
    }

    /// Whether this action leaves every context as it found it.
    pub open spec fn keeps_context(self) -> bool {
        match self {
            Action::Move { .. } | Action::DumpObject | Action::DumpHierarchy => true,
            _ => false,
        }
    }
}

/// The step never goes below zero: a decrement takes one thousandth off and
/// stops at zero, an increment adds one thousandth and stops at the greatest
/// step. Neither touches the current object.
pub proof fn lemma_step_stays_in_range(ctx: ContextView)
    requires
        ctx.increment <= max_increment(),
    ensures
        Action::DecrementAmount.context_after(ctx).increment == vstd::math::max(
            0,
            ctx.increment - 1,
        ),
        Action::IncrementAmount.context_after(ctx).increment == vstd::math::min(
            (ctx.increment + 1) as int,
            max_increment() as int,
        ),
        Action::DecrementAmount.context_after(ctx).object == ctx.object,
        Action::IncrementAmount.context_after(ctx).object == ctx.object,
        Action::DecrementAmount.payload(ctx) is None,
        Action::IncrementAmount.payload(ctx) is None,
{
}

/// The text of a payload, if there is one.
pub open spec fn payload_text(payload: Option<String>) -> Option<Seq<char>> {
    match payload {
        Some(text) => Some(text@),
        None => None,
    }
}

/// The context of a fresh session: a step of one thousandth, and the plane
/// as the current object.
pub fn initial_context() -> (ctx: Context<'static>)
    ensures
        ctx@ == (ContextView { increment: 1, object: Target::Plane.wire_name() }),
{
    Context { current_increment_amount: 1, current_game_object: Target::Plane.name() }
}

/// Builds the move request for the current object and step.
pub fn change_obj_command(ctx: &Context, kind: Kind, decrement: bool, axis: Axis) -> (payload:
    Option<String>)
    ensures
        payload_text(payload) == Some(
            move_text(ctx@.object, kind, axis, move_amount(ctx@.increment, kind, decrement)),
        ),
{
    let step: u64 = ctx.current_increment_amount as u64;
    let thousandths: u64 = match kind {
        Kind::Translation => step,
        Kind::Rotation => step * 10,
    };
    let amount = Amount { negative: decrement, thousandths };
    Some(encode_move(ctx.current_game_object, kind, axis, amount))
}

impl KeyBinding {
    /// Carries out this binding's action on `ctx` and returns the command to
    /// send, if the action sends one.
    pub fn build<'a>(&self, ctx: &mut Context<'a>) -> (payload: Option<String>)
        ensures
            final(ctx)@ == self.action.context_after(old(ctx)@),
            payload_text(payload) == self.action.payload(old(ctx)@),
            self.action.keeps_context() ==> *final(ctx) == *old(ctx),
    {
        match self.action {
            Action::IncrementAmount => {
                ctx.current_increment_amount = ctx.current_increment_amount.saturating_add(1);
                None
            },
            Action::DecrementAmount => {
                ctx.current_increment_amount = ctx.current_increment_amount.saturating_sub(1);
                None
            },
            Action::Select(target) => {
                ctx.current_game_object = target.name();
                None
            },
            Action::Move { kind, axis, decrement } => change_obj_command(
                ctx,
                kind,
                decrement,
                axis,
            ),
            Action::DumpObject => Some(encode_dump_object(ctx.current_game_object)),
            Action::DumpHierarchy => Some(encode_dump_hierarchy()),
        }
    }
}

/// The bindings as plain values, in order.
pub open spec fn entries(bindings: Seq<KeyBinding>) -> Seq<Entry> {
    bindings.map_values(|kb: KeyBinding| kb@)
}

/// Whether some entry of `table` has the key `key`.
pub open spec fn has_key(table: Seq<Entry>, key: char) -> bool {
    exists|i: int| 0 <= i < table.len() && #[trigger] table[i].key == key
}

/// Whether entry `i` is the first of `table` with the key `key`.
pub open spec fn is_first_match(table: Seq<Entry>, key: char, i: int) -> bool {
    &&& 0 <= i < table.len()
    &&& table[i].key == key
    &&& forall|j: int| 0 <= j < i ==> #[trigger] table[j].key != key
}

/// Whether no two entries of `table` share a key.
pub open spec fn keys_distinct(table: Seq<Entry>) -> bool {
    forall|i: int, j: int|
        0 <= i < table.len() && 0 <= j < table.len() && i != j ==> #[trigger] table[i].key
            != #[trigger] table[j].key
}

/// The editor's key table, in the order in which it is shown and searched.
pub open spec fn key_table() -> Seq<Entry> {
    seq![
        Entry { key: '+', description: "Increment amount"@, action: Action::IncrementAmount },
        Entry { key: '-', description: "Descrement amount"@, action: Action::DecrementAmount },
        Entry {
            key: '0',
            description: "Select Unity 'DA42-1'"@,
            action: Action::Select(Target::Da42One),
        },
        Entry {
            key: '1',
            description: "Select Unity 'DA42-2'"@,
            action: Action::Select(Target::Da42Two),
        },
        Entry {
            key: '2',
            description: "Select Unity 'Plane'"@,
            action: Action::Select(Target::Plane),
        },
        Entry {
            key: '3',
            description: "Select Unity 'ENUOrigin'"@,
            action: Action::Select(Target::EnuOrigin),
        },
        Entry {
            key: '4',
            description: "Select Unity 'SimulatorViewProjectionPoint'"@,
            action: Action::Select(Target::SimulatorViewProjectionPoint),
        },
        Entry {
            key: '5',
            description: "Select Unity 'CylinderRadiusMarker'"@,
            action: Action::Select(Target::CylinderRadiusMarker),
        },
        Entry {
            key: '6',
            description: "Select Unity 'SimulatorCylinderCenter'"@,
            action: Action::Select(Target::SimulatorCylinderCenter),
        },
        Entry {
            key: 'w',
            description: "Change translation, increment z"@,
            action: Action::Move { kind: Kind::Translation, axis: Axis::Z, decrement: false },
        },
        Entry {
            key: 's',
            description: "Change translation, decrement z"@,
            action: Action::Move { kind: Kind::Translation, axis: Axis::Z, decrement: true },
        },
        Entry {
            key: 'd',
            description: "Change translation, increment x"@,
            action: Action::Move { kind: Kind::Translation, axis: Axis::X, decrement: false },
        },
        Entry {
            key: 'a',
            description: "Change translation, decrement x"@,
            action: Action::Move { kind: Kind::Translation, axis: Axis::X, decrement: true },
        },
        Entry {
            key: 'q',
            description: "Change translation, increment y"@,
            action: Action::Move { kind: Kind::Translation, axis: Axis::Y, decrement: false },
        },
        Entry {
            key: 'e',
            description: "Change translation, decrement y"@,
            action: Action::Move { kind: Kind::Translation, axis: Axis::Y, decrement: true },
        },
        Entry {
            key: 'u',
            description: "Change rotation, increment z"@,
            action: Action::Move { kind: Kind::Rotation, axis: Axis::Z, decrement: false },
        },
        Entry {
            key: 'j',
            description: "Change rotation, decrement z"@,
            action: Action::Move { kind: Kind::Rotation, axis: Axis::Z, decrement: true },
        },
        Entry {
            key: 'k',
            description: "Change rotation, increment x"@,
            action: Action::Move { kind: Kind::Rotation, axis: Axis::X, decrement: false },
        },
        Entry {
            key: 'h',
            description: "Change rotation, decrement x"@,
            action: Action::Move { kind: Kind::Rotation, axis: Axis::X, decrement: true },
        },
        Entry {
            key: 'i',
            description: "Change rotation, increment y"@,
            action: Action::Move { kind: Kind::Rotation, axis: Axis::Y, decrement: false },
        },
        Entry {
            key: 'y',
            description: "Change rotation, decrement y"@,
            action: Action::Move { kind: Kind::Rotation, axis: Axis::Y, decrement: true },
        },
        Entry { key: 'z', description: "Dump data"@, action: Action::DumpObject },
        Entry { key: 'x', description: "Dump hierarchy"@, action: Action::DumpHierarchy },
    ]
}

/// The place of a key in the editor's table; the table's length for a key
/// that it does not hold.
pub open spec fn key_slot(key: char) -> int {
    match key {
        '+' => 0,
        '-' => 1,
        '0' => 2,
        '1' => 3,
        '2' => 4,
        '3' => 5,
        '4' => 6,
        '5' => 7,
        '6' => 8,
        'w' => 9,
        's' => 10,
        'd' => 11,
        'a' => 12,
        'q' => 13,
        'e' => 14,
        'u' => 15,
        'j' => 16,
        'k' => 17,
        'h' => 18,
        'i' => 19,
        'y' => 20,
        'z' => 21,
        'x' => 22,
        _ => 23,
    }
}

/// Every entry of the editor's table stands at the place of its key, so no
/// key occurs twice in it.
pub proof fn lemma_key_table_distinct()
    ensures
        key_table().len() == 23,
        forall|i: int| 0 <= i < 23 ==> key_slot(#[trigger] key_table()[i].key) == i,
        keys_distinct(key_table()),
{
    let table = key_table();
    assert(table.len() == 23);
    assert(forall|i: int| 0 <= i < 23 ==> key_slot(#[trigger] table[i].key) == i);
    assert forall|i: int, j: int| 0 <= i < table.len() && 0 <= j < table.len() && i != j implies
        #[trigger] table[i].key != #[trigger] table[j].key by {
        assert(key_slot(table[i].key) == i);
        assert(key_slot(table[j].key) == j);
    }
}

fn binding(key: char, description: &str, action: Action) -> (kb: KeyBinding)
    ensures
        kb@ == (Entry { key, description: description@, action }),
{
    KeyBinding { key, description: String::from_str(description), action }
}

/// Builds the editor's key table.
pub fn build_key_bindings_vector() -> (bindings: Vec<KeyBinding>)
    ensures
        entries(bindings@) == key_table(),
        keys_distinct(entries(bindings@)),
{
    let mut v: Vec<KeyBinding> = Vec::new();
    v.push(binding('+', "Increment amount", Action::IncrementAmount));
    v.push(binding('-', "Descrement amount", Action::DecrementAmount));
    v.push(binding('0', "Select Unity 'DA42-1'", Action::Select(Target::Da42One)));
    v.push(binding('1', "Select Unity 'DA42-2'", Action::Select(Target::Da42Two)));
    v.push(binding('2', "Select Unity 'Plane'", Action::Select(Target::Plane)));
    v.push(binding('3', "Select Unity 'ENUOrigin'", Action::Select(Target::EnuOrigin)));
    v.push(
        binding(
            '4',
            "Select Unity 'SimulatorViewProjectionPoint'",
            Action::Select(Target::SimulatorViewProjectionPoint),
        ),
    );
    v.push(
        binding(
            '5',
            "Select Unity 'CylinderRadiusMarker'",
            Action::Select(Target::CylinderRadiusMarker),
        ),
    );
    v.push(
        binding(
            '6',
            "Select Unity 'SimulatorCylinderCenter'",
            Action::Select(Target::SimulatorCylinderCenter),
        ),
    );
    v.push(
        binding(
            'w',
            "Change translation, increment z",
            Action::Move { kind: Kind::Translation, axis: Axis::Z, decrement: false },
        ),
    );
    v.push(
        binding(
            's',
            "Change translation, decrement z",
            Action::Move { kind: Kind::Translation, axis: Axis::Z, decrement: true },
        ),
    );
    v.push(
        binding(
            'd',
            "Change translation, increment x",
            Action::Move { kind: Kind::Translation, axis: Axis::X, decrement: false },
        ),
    );
    v.push(
        binding(
            'a',
            "Change translation, decrement x",
            Action::Move { kind: Kind::Translation, axis: Axis::X, decrement: true },
        ),
    );
    v.push(
        binding(
            'q',
            "Change translation, increment y",
            Action::Move { kind: Kind::Translation, axis: Axis::Y, decrement: false },
        ),
    );
    v.push(
        binding(
            'e',
            "Change translation, decrement y",
            Action::Move { kind: Kind::Translation, axis: Axis::Y, decrement: true },
        ),
    );
    v.push(
        binding(
            'u',
            "Change rotation, increment z",
            Action::Move { kind: Kind::Rotation, axis: Axis::Z, decrement: false },
        ),
    );
    v.push(
        binding(
            'j',
            "Change rotation, decrement z",
            Action::Move { kind: Kind::Rotation, axis: Axis::Z, decrement: true },
        ),
    );
    v.push(
        binding(
            'k',
            "Change rotation, increment x",
            Action::Move { kind: Kind::Rotation, axis: Axis::X, decrement: false },
        ),
    );
    v.push(
        binding(
            'h',
            "Change rotation, decrement x",
            Action::Move { kind: Kind::Rotation, axis: Axis::X, decrement: true },
        ),
    );
    v.push(
        binding(
            'i',
            "Change rotation, increment y",
            Action::Move { kind: Kind::Rotation, axis: Axis::Y, decrement: false },
        ),
    );
    v.push(
        binding(
            'y',
            "Change rotation, decrement y",
            Action::Move { kind: Kind::Rotation, axis: Axis::Y, decrement: true },
        ),
    );
    v.push(binding('z', "Dump data", Action::DumpObject));
    v.push(binding('x', "Dump hierarchy", Action::DumpHierarchy));
    proof {
        assert(entries(v@) =~= key_table());
        lemma_key_table_distinct();
    }
    v
}

/// The place of the first binding with the key `key`, if there is one.
pub fn position(bindings: &Vec<KeyBinding>, key: char) -> (found: Option<usize>)
    ensures
        match found {
            Some(i) => is_first_match(entries(bindings@), key, i as int),
            None => !has_key(entries(bindings@), key),
        },
{
    let mut i: usize = 0;
    while i < bindings.len()
        invariant
            i <= bindings.len(),
            forall|j: int| 0 <= j < i ==> #[trigger] entries(bindings@)[j].key != key,
        decreases bindings.len() - i,
    {
        if bindings[i].key == key {
            return Some(i);
        }
        i += 1;
    }
    None
}

/// The first binding with the key `key`, if there is one.
pub fn lookup<'b>(bindings: &'b Vec<KeyBinding>, key: char) -> (found: Option<&'b KeyBinding>)
    ensures
        match found {
            Some(kb) => exists|i: int|
                is_first_match(entries(bindings@), key, i) && *kb == #[trigger] bindings@[i],
            None => !has_key(entries(bindings@), key),
        },
{
    match position(bindings, key) {
        Some(i) => Some(&bindings[i]),
        None => None,
    }
}

/// Handles one key: the first binding with that key, if there is one, acts on
/// `ctx`, and its command is returned. A key without a binding changes
/// nothing and sends nothing.
pub fn dispatch<'a>(bindings: &Vec<KeyBinding>, ctx: &mut Context<'a>, key: char) -> (payload:
    Option<String>)
    ensures
        !has_key(entries(bindings@), key) ==> *final(ctx) == *old(ctx) && payload is None,
        forall|i: int|
            is_first_match(entries(bindings@), key, i) ==> {
                let action = #[trigger] entries(bindings@)[i].action;
                &&& final(ctx)@ == action.context_after(old(ctx)@)
                &&& payload_text(payload) == action.payload(old(ctx)@)
                &&& action.keeps_context() ==> *final(ctx) == *old(ctx)
            },
{
    match position(bindings, key) {
        Some(i) => {
            assert forall|k: int| is_first_match(entries(bindings@), key, k) implies k == i by {}
            bindings[i].build(ctx)
        },
        None => None,
    }
}

} // verus!
