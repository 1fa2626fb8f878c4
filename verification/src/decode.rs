//! Reading a move request back from its text.
//!
//! [`decode_move`] is the inverse of [`encode_move`]: it accepts exactly the
//! texts that the encoder writes for a target whose name needs no escaping,
//! and returns the target, kind, axis and amount that were encoded.

use crate::command::{
    amount_field, axis_field, encode_move, kind_field, move_head, move_text, Amount, Axis, Kind,
};
use crate::decimal::{digit_char, digits, padded, trimmed};
use vstd::prelude::*;

verus! {

/// The character at place `i` of `s`; a blank where `s` has no such place.
spec fn char_at(s: Seq<char>, i: int) -> char {
    if 0 <= i < s.len() {
        s[i]
    } else {
        ' '
    }
}

/// The digit that `c` stands for, if it is a decimal digit.
spec fn digit_value(c: char) -> Option<nat> {
    if c == '0' {
        Some(0)
    } else if c == '1' {
        Some(1)
    } else if c == '2' {
        Some(2)
    } else if c == '3' {
        Some(3)
    } else if c == '4' {
        Some(4)
    } else if c == '5' {
        Some(5)
    } else if c == '6' {
        Some(6)
    } else if c == '7' {
        Some(7)
    } else if c == '8' {
        Some(8)
    } else if c == '9' {
        Some(9)
    } else {
        None
    }
}

/// The digit at place `i` of `s`; zero where there is no digit.
spec fn digit_or_zero(s: Seq<char>, i: int) -> nat {
    match digit_value(char_at(s, i)) {
        Some(d) => d,
        None => 0,
    }
}

/// The place behind the run of digits that starts at `from`.
spec fn digits_end(s: Seq<char>, from: int) -> int
    decreases s.len() - from,
{
    if 0 <= from < s.len() && digit_value(s[from]) is Some {
        digits_end(s, from + 1)
    } else {
        from
    }
}

/// `v`, or the greatest number of 64 bits where `v` is greater.
spec fn capped(v: nat) -> nat {
    if v > u64::MAX {
        u64::MAX as nat
    } else {
        v
    }
}

/// The number that the characters from `from` up to `to` spell, read as
/// decimal digits and capped at 64 bits.
spec fn number_between(s: Seq<char>, from: int, to: int) -> nat
    decreases to - from,
{
    if to <= from {
        0
    } else {
        capped(number_between(s, from, to - 1) * 10 + digit_or_zero(s, to - 1))
    }
}

/// The amount that is written at place `pos` of `s`: an optional minus sign,
/// a run of digits, and up to three digits behind a point.
spec fn amount_at(s: Seq<char>, pos: int) -> Amount {
    let negative = char_at(s, pos) == '-';
    let first = if negative {
        pos + 1
    } else {
        pos
    };
    let point = digits_end(s, first);
    let whole = number_between(s, first, point);
    let frac = if char_at(s, point) == '.' {
        digit_or_zero(s, point + 1) * 100 + digit_or_zero(s, point + 2) * 10 + digit_or_zero(
            s,
            point + 3,
        )
    } else {
        0
    };
    Amount { negative, thousandths: capped(whole * 1000 + frac) as u64 }
}

proof fn lemma_digits_are_digits(n: nat)
    ensures
        digits(n).len() >= 1,
        forall|i: int| 0 <= i < digits(n).len() ==> digit_value(#[trigger] digits(n)[i]) is Some,
    decreases n,
{
    if n >= 10 {
        lemma_digits_are_digits(n / 10);
    }
}

proof fn lemma_digits_end(s: Seq<char>, from: int, to: int)
    requires
        0 <= from <= to <= s.len(),
        forall|i: int| from <= i < to ==> digit_value(#[trigger] s[i]) is Some,
        to < s.len() ==> digit_value(s[to]) is None,
    ensures
        digits_end(s, from) == to,
    decreases to - from,
{
    if from < to {
        lemma_digits_end(s, from + 1, to);
    }
}

proof fn lemma_number_between(s: Seq<char>, from: int, to: int, n: nat)
    requires
        0 <= from <= to <= s.len(),
        s.subrange(from, to) == digits(n),
        n <= u64::MAX,
    ensures
        number_between(s, from, to) == n,
    decreases n,
{
    let d = digits(n);
    assert(d.len() == to - from);
    assert(s[to - 1] == d[d.len() - 1]);
    if n < 10 {
        assert(to == from + 1);
        assert(number_between(s, from, to - 1) == 0);
    } else {
        assert(s.subrange(from, to - 1) =~= digits(n / 10));
        lemma_number_between(s, from, to - 1, n / 10);
    }
}

/// Where `s` ends in the text of `amount`, from place `pos` on, and a closing
/// brace, reading the amount at `pos` gives `amount` back.
proof fn lemma_amount_at(s: Seq<char>, pos: int, amount: Amount)
    requires
        0 <= pos,
        pos + amount.text().len() + 1 == s.len(),
        s.subrange(pos, pos + amount.text().len()) == amount.text(),
        s[pos + amount.text().len()] == '}',
    ensures
        amount_at(s, pos) == amount,
{
    let text = amount.text();
    let whole = (amount.thousandths / 1000) as nat;
    let frac = (amount.thousandths % 1000) as nat;
    let body = digits(whole);
    let sign: int = if amount.negative {
        1
    } else {
        0
    };
    let tail = trimmed(frac, 3);
    reveal_with_fuel(trimmed, 4);
    reveal_with_fuel(padded, 4);
    lemma_digits_are_digits(whole);
    assert forall|j: int| 0 <= j < text.len() implies s[pos + j] == #[trigger] text[j] by {
        assert(s.subrange(pos, pos + text.len())[j] == s[pos + j]);
    }
    let first = pos + sign;
    let point = first + body.len();
    assert(text.len() == sign + body.len() + (if tail.len() == 0 {
        0
    } else {
        1 + tail.len()
    }));
    assert forall|j: int| 0 <= j < body.len() implies s[first + j] == #[trigger] body[j] by {
        assert(text[sign + j] == body[j]);
    }
    assert(char_at(s, pos) == '-' <==> amount.negative) by {
        assert(s[pos] == text[0]);
        if !amount.negative {
            assert(text[0] == body[0]);
        }
    }
    assert(digits_end(s, first) == point) by {
        assert forall|i: int| first <= i < point implies digit_value(#[trigger] s[i]) is Some by {
            assert(s[first + (i - first)] == body[i - first]);
        }
        if tail.len() > 0 {
            assert(s[point] == text[sign + body.len()]);
        }
        lemma_digits_end(s, first, point);
    }
    assert(number_between(s, first, point) == whole) by {
        assert(s.subrange(first, point) =~= body);
        lemma_number_between(s, first, point, whole);
    }
    if tail.len() == 0 {
        assert(frac == 0);
        assert(s[point] == '}');
    } else {
        assert(s[point] == text[sign + body.len()]);
        assert(s[point] == '.');
        assert forall|j: int| 0 <= j < tail.len() implies s[point + 1 + j] == #[trigger] tail[j] by {
            assert(text[sign + body.len() + 1 + j] == tail[j]);
        }
        assert(s[point + 1 + tail.len()] == '}');
        assert(digit_or_zero(s, point + 1) * 100 + digit_or_zero(s, point + 2) * 10
            + digit_or_zero(s, point + 3) == frac) by {
            assert(frac < 1000);
            assert(s[point + 1] == tail[0]);
            assert(tail[0] == digit_char(frac / 100));
            if tail.len() >= 2 {
                assert(s[point + 2] == tail[1]);
                assert(tail[1] == digit_char((frac / 10) % 10));
            } else {
                assert(frac % 100 == 0);
            }
            if tail.len() >= 3 {
                assert(s[point + 3] == tail[2]);
                assert(tail[2] == digit_char(frac % 10));
            } else {
                assert(frac % 10 == 0);
            }
        }
    }
}

/// A move request: the target's name, the kind, the axis and the amount.
#[derive(Debug, PartialEq, Eq)]
pub struct MoveCommand {
    pub object_name: String,
    pub kind: Kind,
    pub axis: Axis,
    pub amount: Amount,
}

/// A move request as plain values.
pub struct MoveView {
    pub object_name: Seq<char>,
    pub kind: Kind,
    pub axis: Axis,
    pub amount: Amount,
}

impl View for MoveCommand {
    type V = MoveView;

    open spec fn view(&self) -> MoveView {
        MoveView {
            object_name: self.object_name@,
            kind: self.kind,
            axis: self.axis,
            amount: self.amount,
        }
    }
}

impl MoveView {
    /// The text that the encoder writes for this request.
    pub open spec fn text(self) -> Seq<char> {
        move_text(self.object_name, self.kind, self.axis, self.amount)
    }
}

/// Whether `c` can stand in a quoted name as it is: no quote, no backslash,
/// no control character.
pub open spec fn plain_char(c: char) -> bool {
    c != '"' && c != '\\' && c >= ' '
}

/// Whether every character of `name` can stand in a quoted name as it is.
pub open spec fn plain_name(name: Seq<char>) -> bool {
    forall|i: int| 0 <= i < name.len() ==> plain_char(#[trigger] name[i])
}

/// Whether `text` is what the encoder writes for `cmd`, and the name in it
/// needs no escaping.
pub open spec fn encodes(cmd: MoveView, text: Seq<char>) -> bool {
    plain_name(cmd.object_name) && text == cmd.text()
}

/// The request that `text` stands for: `None` unless `text` is what the
/// encoder writes for some request whose name needs no escaping.
pub open spec fn decoded_move(text: Seq<char>) -> Option<MoveView> {
    if exists|cmd: MoveView| encodes(cmd, text) {
        Some(choose|cmd: MoveView| encodes(cmd, text))
    } else {
        None
    }
}

/// The place of the first quote at or behind `from`; the end of `s` where
/// there is none.
spec fn quote_at(s: Seq<char>, from: int) -> int
    decreases s.len() - from,
{
    if 0 <= from < s.len() && s[from] != '"' {
        quote_at(s, from + 1)
    } else {
        from
    }
}

/// What a reader finds in `s` that takes each field from the place where the
/// encoder writes it, and checks nothing.
spec fn read_move(s: Seq<char>) -> MoveView {
    let start = move_head().len() as int;
    let end = quote_at(s, start);
    let kind_pos = end + kind_field().len();
    let kind = if char_at(s, kind_pos) == 'T' {
        Kind::Translation
    } else {
        Kind::Rotation
    };
    let axis_pos = kind_pos + kind.wire_name().len() + axis_field().len();
    let axis = if char_at(s, axis_pos) == 'x' {
        Axis::X
    } else if char_at(s, axis_pos) == 'y' {
        Axis::Y
    } else {
        Axis::Z
    };
    let amount_pos = axis_pos + 1 + amount_field().len();
    MoveView {
        object_name: if end <= s.len() {
            s.subrange(start, end)
        } else {
            Seq::empty()
        },
        kind,
        axis,
        amount: amount_at(s, amount_pos),
    }
}

proof fn lemma_quote_at(s: Seq<char>, from: int, to: int)
    requires
        0 <= from <= to < s.len(),
        forall|i: int| from <= i < to ==> #[trigger] s[i] != '"',
        s[to] == '"',
    ensures
        quote_at(s, from) == to,
    decreases to - from,
{
    if from < to {
        lemma_quote_at(s, from + 1, to);
    }
}

proof fn lemma_literals()
    ensures
        move_head().len() == 45,
        kind_field().len() == 12,
        kind_field()[0] == '"',
        axis_field().len() == 12,
        amount_field().len() == 13,
        "}"@.len() == 1,
        "}"@[0] == '}',
        Kind::Translation.wire_name().len() == 11,
        Kind::Translation.wire_name()[0] == 'T',
        Kind::Rotation.wire_name().len() == 8,
        Kind::Rotation.wire_name()[0] == 'R',
        Axis::X.wire_name() == seq!['x'],
        Axis::Y.wire_name() == seq!['y'],
        Axis::Z.wire_name() == seq!['z'],
{
    reveal_strlit(r#"{"type": "MOVE_UNITY_OBJECT", "objectName": ""#);
    reveal_strlit(r#"", "kind": ""#);
    reveal_strlit(r#"", "axis": ""#);
    reveal_strlit(r#"", "amount": "#);
    reveal_strlit("}");
    reveal_strlit("TRANSLATION");
    reveal_strlit("ROTATION");
    reveal_strlit("x");
    reveal_strlit("y");
    reveal_strlit("z");
    assert(Axis::X.wire_name() =~= seq!['x']);
    assert(Axis::Y.wire_name() =~= seq!['y']);
    assert(Axis::Z.wire_name() =~= seq!['z']);
}

/// Reading the text of a request gives the request back, provided that its
/// name needs no escaping.
proof fn lemma_read_move(cmd: MoveView)
    requires
        plain_name(cmd.object_name),
    ensures
        read_move(cmd.text()) == cmd,
{
    lemma_literals();
    let name = cmd.object_name;
    let word = cmd.kind.wire_name();
    let letter = cmd.axis.wire_name();
    let number = cmd.amount.text();
    let t1 = move_head() + name;
    let t2 = t1 + kind_field();
    let t3 = t2 + word;
    let t4 = t3 + axis_field();
    let t5 = t4 + letter;
    let t6 = t5 + amount_field();
    let t7 = t6 + number;
    let t = t7 + "}"@;
    assert(t == cmd.text());
    let start = 45int;
    let end = start + name.len();
    let kind_pos = end + 12;
    let axis_pos = kind_pos + word.len() + 12;
    let amount_pos = axis_pos + 1 + 13;
    assert(t1.len() == end);
    assert(t2.len() == kind_pos);
    assert(t3.len() == kind_pos + word.len());
    assert(t4.len() == axis_pos);
    assert(t5.len() == axis_pos + 1);
    assert(t6.len() == amount_pos);
    assert(t7.len() == amount_pos + number.len());
    assert(t.len() == amount_pos + number.len() + 1);
    assert forall|i: int| start <= i < end implies #[trigger] t[i] == name[i - start] by {
        assert(t[i] == t1[i]);
    }
    assert(t[end] == '"') by {
        assert(t[end] == t2[end]);
    }
    assert(quote_at(t, start) == end) by {
        assert forall|i: int| start <= i < end implies #[trigger] t[i] != '"' by {
            assert(plain_char(name[i - start]));
        }
        lemma_quote_at(t, start, end);
    }
    assert(t.subrange(start, end) =~= name);
    assert(t[kind_pos] == word[0]) by {
        assert(t[kind_pos] == t3[kind_pos]);
    }
    assert(t[axis_pos] == letter[0]) by {
        assert(t[axis_pos] == t5[axis_pos]);
    }
    assert(t.subrange(amount_pos, amount_pos + number.len()) =~= number) by {
        assert forall|j: int| 0 <= j < number.len() implies t[amount_pos + j] == number[j] by {
            assert(t[amount_pos + j] == t7[amount_pos + j]);
        }
    }
    lemma_amount_at(t, amount_pos, cmd.amount);
}

/// No two requests have the same text.
pub proof fn lemma_move_text_injective(a: MoveView, b: MoveView)
    requires
        plain_name(a.object_name),
        plain_name(b.object_name),
        a.text() == b.text(),
    ensures
        a == b,
{
    lemma_read_move(a);
    lemma_read_move(b);
}

/// Decoding what the encoder wrote gives back the target's name, the kind,
/// the axis and the signed amount that went in, for every name that needs no
/// escaping.
pub proof fn lemma_decode_inverts_encode(cmd: MoveView)
    requires
        plain_name(cmd.object_name),
    ensures
        decoded_move(cmd.text()) == Some(cmd),
{
    let text = cmd.text();
    assert(encodes(cmd, text));
    let found = choose|other: MoveView| encodes(other, text);
    lemma_move_text_injective(found, cmd);
}

/// The characters of `text`, one by one.
pub fn chars_of(text: &str) -> (chars: Vec<char>)
    ensures
        chars@ == text@,
{
    let mut chars: Vec<char> = Vec::new();
    for c in it: text.chars()
        invariant
            chars@ == it.history(),
            it.seq() == text@,
    {
        chars.push(c);
    }
    chars
}

/// Whether every character of `name` can stand in a quoted name as it is.
pub fn is_plain_name(name: &str) -> (plain: bool)
    ensures
        plain == plain_name(name@),
{
    let chars = chars_of(name);
    let mut i: usize = 0;
    while i < chars.len()
        invariant
            i <= chars.len(),
            chars@ == name@,
            forall|k: int| 0 <= k < i ==> plain_char(#[trigger] chars@[k]),
        decreases chars.len() - i,
    {
        let c = chars[i];
        if c == '"' || c == '\\' || !(c >= ' ') {
            return false;
        }
        i += 1;
    }
    true
}

fn digit_of(c: char) -> (d: Option<u8>)
    ensures
        match d {
            Some(v) => v < 10 && digit_value(c) == Some(v as nat),
            None => digit_value(c) is None,
        },
{
    match c {
        '0' => Some(0),
        '1' => Some(1),
        '2' => Some(2),
        '3' => Some(3),
        '4' => Some(4),
        '5' => Some(5),
        '6' => Some(6),
        '7' => Some(7),
        '8' => Some(8),
        '9' => Some(9),
        _ => None,
    }
}

fn at(chars: &Vec<char>, base: usize, offset: usize) -> (c: char)
    requires
        base <= chars.len(),
    ensures
        c == char_at(chars@, base + offset),
{
    if offset < chars.len() - base {
        chars[base + offset]
    } else {
        ' '
    }
}

fn digit_at(chars: &Vec<char>, base: usize, offset: usize) -> (d: u64)
    requires
        base <= chars.len(),
    ensures
        d == digit_or_zero(chars@, base + offset),
        d < 10,
{
    match digit_of(at(chars, base, offset)) {
        Some(v) => v as u64,
        None => 0,
    }
}

fn find_quote(chars: &Vec<char>, from: usize) -> (place: usize)
    requires
        from <= chars.len(),
    ensures
        place == quote_at(chars@, from as int),
        from <= place <= chars.len(),
{
    let mut i: usize = from;
    while i < chars.len() && chars[i] != '"'
        invariant
            from <= i <= chars.len(),
            quote_at(chars@, i as int) == quote_at(chars@, from as int),
        decreases chars.len() - i,
    {
        i += 1;
    }
    i
}

fn read_amount(chars: &Vec<char>, pos: usize) -> (amount: Amount)
    requires
        pos <= chars.len(),
    ensures
        amount == amount_at(chars@, pos as int),
{
    let negative = at(chars, pos, 0) == '-';
    let first: usize = if negative {
        pos + 1
    } else {
        pos
    };
    let mut i: usize = first;
    let mut whole: u64 = 0;
    while i < chars.len() && digit_of(chars[i]).is_some()
        invariant
            first <= i <= chars.len(),
            digits_end(chars@, i as int) == digits_end(chars@, first as int),
            whole == number_between(chars@, first as int, i as int),
        decreases chars.len() - i,
    {
        let d: u64 = digit_at(chars, i, 0);
        whole = if whole > (u64::MAX - d) / 10 {
            u64::MAX
        } else {
            whole * 10 + d
        };
        i += 1;
    }
    let frac: u64 = if at(chars, i, 0) == '.' {
        digit_at(chars, i, 1) * 100 + digit_at(chars, i, 2) * 10 + digit_at(chars, i, 3)
    } else {
        0
    };
    let thousandths: u64 = if whole > (u64::MAX - frac) / 1000 {
        u64::MAX
    } else {
        whole * 1000 + frac
    };
    Amount { negative, thousandths }
}

/// Where the target's name starts: behind the opening of the request.
const NAME_START: usize = 45;

/// How far behind the name's closing quote the kind starts.
const KIND_OFFSET: usize = 12;

/// How far behind the kind the axis starts.
const AXIS_OFFSET: usize = 12;

/// How far behind the axis the amount starts.
const AMOUNT_OFFSET: usize = 14;

/// Takes each field from the place where the encoder writes it.
fn read(chars: &Vec<char>) -> (cmd: MoveCommand)
    ensures
        cmd@ == read_move(chars@),
{
    proof {
        lemma_literals();
    }
    let mut object_name = String::new();
    if chars.len() < NAME_START {
        assert(quote_at(chars@, NAME_START as int) == NAME_START);
        return MoveCommand {
            object_name,
            kind: Kind::Rotation,
            axis: Axis::Z,
            amount: Amount { negative: false, thousandths: 0 },
        };
    }
    let end: usize = find_quote(chars, NAME_START);
    let mut i: usize = NAME_START;
    while i < end
        invariant
            NAME_START <= i <= end <= chars.len(),
            object_name@ == chars@.subrange(NAME_START as int, i as int),
        decreases end - i,
    {
        object_name.push(chars[i]);
        i += 1;
        assert(object_name@ =~= chars@.subrange(NAME_START as int, i as int));
    }
    let kind = if at(chars, end, KIND_OFFSET) == 'T' {
        Kind::Translation
    } else {
        Kind::Rotation
    };
    let word_len: usize = match kind {
        Kind::Translation => 11,
        Kind::Rotation => 8,
    };
    let axis_at: usize = KIND_OFFSET + word_len + AXIS_OFFSET;
    let letter = at(chars, end, axis_at);
    let axis = if letter == 'x' {
        Axis::X
    } else if letter == 'y' {
        Axis::Y
    } else {
        Axis::Z
    };
    let amount_at: usize = axis_at + AMOUNT_OFFSET;
    let amount = if amount_at <= chars.len() - end {
        read_amount(chars, end + amount_at)
    } else {
        Amount { negative: false, thousandths: 0 }
    };
    MoveCommand { object_name, kind, axis, amount }
}

/// Decodes a move request.
///
/// Returns the request whose text `text` is, and `None` where `text` is not
/// what the encoder writes for any request whose name needs no escaping.
pub fn decode_move(text: &str) -> (decoded: Option<MoveCommand>)
    ensures
        match decoded {
            Some(cmd) => decoded_move(text@) == Some(cmd@),
            None => decoded_move(text@) is None,
        },
{
    let chars = chars_of(text);
    let cmd = read(&chars);
    let again = encode_move(cmd.object_name.as_str(), cmd.kind, cmd.axis, cmd.amount);
    let given = String::from_str(text);
    proof {
        assert forall|other: MoveView| encodes(other, text@) implies other == cmd@ by {
            lemma_read_move(other);
        }
    }
    if is_plain_name(cmd.object_name.as_str()) && again == given {
        proof {
            assert(encodes(cmd@, text@));
        }
        Some(cmd)
    } else {
        None
    }
}

} // verus!
