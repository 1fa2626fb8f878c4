//! One turn of each program's input loop, and where its packets go.
//!
//! The loop itself waits for input and sends packets; what it decides on each
//! input is here: whether to stop, what becomes of the state, and what is
//! sent.

use crate::keybindings::{dispatch, entries, has_key, is_first_match, Context, KeyBinding};
use crate::pose::SimStatus;
use vstd::prelude::*;

verus! {

/// The key that ends either program.
pub const QUIT_KEY: char = 'p';

/// What the terminal reports.
#[derive(Clone, Copy, Debug, PartialEq, Eq, Structural)]
pub enum Input {
    /// A key that stands for a character.
    Char(char),
    /// Any other key.
    OtherKey,
    /// Something that is not a key press at all.
    NotAKey,
}

/// What the editor's loop does after one input.
#[derive(Debug, PartialEq, Eq)]
pub enum EditorStep {
    /// Leave the loop; nothing is sent.
    Quit,
    /// Wait for the next input; nothing is sent or drawn.
    Ignore,
    /// Send `packet`, if there is one, to every destination, then draw the
    /// screen again.
    Redraw { packet: Option<String> },
}

/// What the pose program's loop does after one input.
#[derive(Clone, Copy, Debug, PartialEq, Eq, Structural)]
pub enum PoseStep {
    /// Leave the loop; nothing is sent.
    Quit,
    /// Wait for the next input; nothing is sent or drawn.
    Ignore,
    /// Send the frame of the pose as it now is to every destination, then
    /// draw the screen again.
    Send,
}

/// A command as it travels: its text, closed by a line feed.
pub open spec fn packet_text(payload: Option<Seq<char>>) -> Option<Seq<char>> {
    match payload {
        Some(text) => Some(text.push('\n')),
        None => None,
    }
}

impl EditorStep {
    /// The text that this step sends, if it sends any.
    pub open spec fn sent(self) -> Option<Seq<char>> {
        match self {
            EditorStep::Redraw { packet: Some(text) } => Some(text@),
            _ => None,
        }
    }
}

/// Closes a command's text with a line feed.
pub fn wire_line(payload: String) -> (packet: String)
    ensures
        packet@ == payload@.push('\n'),
{
    let mut packet = payload;
    packet.push('\n');
    packet
}

/// One turn of the editor's loop.
///
/// The quit key ends the loop. Any other key is looked up in `bindings`: the
/// first binding with that key acts on `ctx`, and its command, closed by a
/// line feed, is the packet to send. A key without a binding changes nothing
/// and sends nothing, but the screen is drawn again. Input that is no key
/// press is passed over.
pub fn editor_step<'a>(bindings: &Vec<KeyBinding>, ctx: &mut Context<'a>, input: Input) -> (step:
    EditorStep)
    ensures
        input is NotAKey ==> step is Ignore && *final(ctx) == *old(ctx),
        input is OtherKey ==> step == (EditorStep::Redraw { packet: None }) && *final(ctx) == *old(
            ctx,
        ),
        input == Input::Char(QUIT_KEY) ==> step is Quit && *final(ctx) == *old(ctx),
        forall|key: char|
            input == Input::Char(key) && key != QUIT_KEY ==> {
                &&& step is Redraw
                &&& !has_key(entries(bindings@), key) ==> *final(ctx) == *old(ctx)
                    && step.sent() is None
                &&& forall|i: int|
                    is_first_match(entries(bindings@), key, i) ==> {
                        let action = #[trigger] entries(bindings@)[i].action;
                        &&& final(ctx)@ == action.context_after(old(ctx)@)
                        &&& step.sent() == packet_text(action.payload(old(ctx)@))
                    }
            },
{
    match input {
        Input::NotAKey => EditorStep::Ignore,
        Input::OtherKey => EditorStep::Redraw { packet: None },
        Input::Char(key) => {
            if key == QUIT_KEY {
                EditorStep::Quit
            } else {
                match dispatch(bindings, ctx, key) {
                    Some(payload) => EditorStep::Redraw { packet: Some(wire_line(payload)) },
                    None => EditorStep::Redraw { packet: None },
                }
            }
        },
    }
}

/// The pose and the step that one input makes of `pose`.
///
/// The quit key ends the loop. Every other key press has the pose sent, also
/// a key that leaves the pose as it is. Input that is no key press is passed
/// over.
pub open spec fn pose_turn(pose: SimStatus, input: Input) -> (SimStatus, PoseStep) {
    match input {
        Input::NotAKey => (pose, PoseStep::Ignore),
        Input::OtherKey => (pose, PoseStep::Send),
        Input::Char(key) => if key == QUIT_KEY {
            (pose, PoseStep::Quit)
        } else {
            (pose.after_key(key), PoseStep::Send)
        },
    }
}

/// One turn of the pose program's loop.
pub fn pose_step(pose: &mut SimStatus, input: Input) -> (step: PoseStep)
    ensures
        (*final(pose), step) == pose_turn(*old(pose), input),
{
    match input {
        Input::NotAKey => PoseStep::Ignore,
        Input::OtherKey => PoseStep::Send,
        Input::Char(key) => {
            if key == QUIT_KEY {
                PoseStep::Quit
            } else {
                pose.press(key);
                PoseStep::Send
            }
        },
    }
}

/// The address that every socket is bound to: any interface, any free port.
pub fn local_address() -> (address: &'static str)
    ensures
        address@ == "0.0.0.0:0"@,
{
    "0.0.0.0:0"
}

/// Where the editor's packets go, in the order in which they are sent.
pub fn editor_destinations() -> (addresses: Vec<&'static str>)
    ensures
        addresses@.len() == 2,
        addresses@[0]@ == "192.168.0.200:53941"@,
        addresses@[1]@ == "127.0.0.1:53941"@,
{
    let mut addresses: Vec<&'static str> = Vec::new();
    addresses.push("192.168.0.200:53941");
    addresses.push("127.0.0.1:53941");
    addresses
}

/// Where the pose frames go, in the order in which they are sent.
pub fn pose_destinations() -> (addresses: Vec<&'static str>)
    ensures
        addresses@.len() == 3,
        addresses@[0]@ == "192.168.0.200:53941"@,
        addresses@[1]@ == "127.0.0.1:53941"@,
        addresses@[2]@ == "127.0.0.1:53943"@,
{
    let mut addresses: Vec<&'static str> = Vec::new();
    addresses.push("192.168.0.200:53941");
    addresses.push("127.0.0.1:53941");
    addresses.push("127.0.0.1:53943");
    addresses
}

} // verus!
