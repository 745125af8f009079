//! The sequence classifier: what a text payload is, judged by the sequence
//! number and the type that the matchers find in it.

use crate::continuity::Continuity;
use crate::matcher::Matchers;
use vstd::prelude::*;
use vstd::string::StrSliceExecFns;
use vstd::utf8::{encode_utf8, encode_utf8_decode_utf8, is_ascii_chars};

verus! {

/// The type word of a heartbeat.
pub const HEARTBEAT_KIND: &'static str = "heartbeat";

/// What a received text payload was classified as.
#[derive(Debug, Clone, Copy, PartialEq, Eq, Structural)]
pub enum Packet {
    /// A keep-alive that repeats the current sequence number.
    HeartBeat(u64),
    /// An order-book update that carries the next sequence number.
    Next(u64),
    /// A payload that cannot be placed in the sequence: the session must end.
    Reconnect,
}

/// Whether a character is one of the ten decimal digits.
pub open spec fn is_digit(c: char) -> bool {
    '0' <= c <= '9'
}

/// Whether a character is one of the letters `a` to `z`.
pub open spec fn is_lower(c: char) -> bool {
    'a' <= c <= 'z'
}

/// Whether a text is made of decimal digits only.
pub open spec fn all_digits(text: Seq<char>) -> bool {
    forall|i: int| 0 <= i < text.len() ==> is_digit(#[trigger] text[i])
}

/// Whether a text is a word: one or more of the letters `a` to `z`.
pub open spec fn is_word(text: Seq<char>) -> bool {
    &&& text.len() > 0
    &&& forall|i: int| 0 <= i < text.len() ==> is_lower(#[trigger] text[i])
}

/// The number that a text of decimal digits writes, most significant digit
/// first.
pub open spec fn decimal_value(digits: Seq<char>) -> nat
    decreases digits.len(),
{
    if digits.len() == 0 {
        0
    } else {
        (decimal_value(digits.drop_last()) * 10 + (digits.last() as int - '0' as int)) as nat
    }
}

/// The sequence number that a field writes: the value of one or more decimal
/// digits, where it fits in 64 bits. Anything else is no sequence number.
pub open spec fn sequence_number(field: Seq<char>) -> Option<u64> {
    if field.len() > 0 && all_digits(field) && decimal_value(field) <= u64::MAX {
        Some(decimal_value(field) as u64)
    } else {
        None
    }
}

/// The value of a text of digits is at least the value of each of its
/// prefixes.
proof fn lemma_prefix_value(digits: Seq<char>, len: int)
    requires
        all_digits(digits),
        0 <= len <= digits.len(),
    ensures
        decimal_value(digits.take(len)) <= decimal_value(digits),
    decreases digits.len() - len,
{
    if len == digits.len() {
        assert(digits.take(len) =~= digits);
    } else {
        let longer = digits.take(len + 1);
        assert(longer.drop_last() =~= digits.take(len));
        assert(is_digit(longer.last()));
        lemma_prefix_value(digits, len + 1);
    }
}

/// Reads a sequence number from the digits of a field.
pub fn parse_sequence(field: &str) -> (number: Option<u64>)
    ensures
        number == sequence_number(field@),
{
    if !field.is_ascii() {
        return None;
    }
    let len: usize = field.unicode_len();
    if len == 0 {
        return None;
    }
    let mut value: u64 = 0;
    let mut i: usize = 0;
    while i < len
        invariant
            i <= len,
            len == field@.len(),
            is_ascii_chars(field@),
            all_digits(field@.take(i as int)),
            value == decimal_value(field@.take(i as int)),
        decreases len - i,
    {
        let byte: u8 = field.get_ascii(i);
        if byte < 48 || byte > 57 {
            assert(!is_digit(field@[i as int]));
            return None;
        }
        let digit: u64 = (byte - 48) as u64;
        proof {
            let longer = field@.take(i + 1);
            assert(longer.drop_last() =~= field@.take(i as int));
            assert(longer.last() == field@[i as int]);
            assert(is_digit(field@[i as int]));
            assert(decimal_value(longer) == value * 10 + digit);
            if all_digits(field@) {
                lemma_prefix_value(field@, i + 1);
            }
        }
        let tens: u64 = match value.checked_mul(10) {
            Some(tens) => tens,
            None => {
                return None;
            },
        };
        value = match tens.checked_add(digit) {
            Some(sum) => sum,
            None => {
                return None;
            },
        };
        i = i + 1;
    }
    assert(field@.take(len as int) =~= field@);
    Some(value)
}

/// Whether two texts are the same, character for character.
pub fn same_text(left: &str, right: &str) -> (same: bool)
    ensures
        same == (left@ == right@),
{
    let a = left.as_bytes();
    let b = right.as_bytes();
    proof {
        encode_utf8_decode_utf8(left@);
        encode_utf8_decode_utf8(right@);
    }
    if a.len() != b.len() {
        return false;
    }
    let mut i: usize = 0;
    while i < a.len()
        invariant
            i <= a.len(),
            a.len() == b.len(),
            a@ == encode_utf8(left@),
            b@ == encode_utf8(right@),
            forall|k: int| 0 <= k < i ==> a@[k] == b@[k],
        decreases a.len() - i,
    {
        if a[i] != b[i] {
            return false;
        }
        i = i + 1;
    }
    assert(a@ =~= b@);
    true
}

/// Whether a text is a word: one or more of the letters `a` to `z`.
pub fn is_lowercase_word(text: &str) -> (word: bool)
    ensures
        word == is_word(text@),
{
    if !text.is_ascii() {
        return false;
    }
    let len: usize = text.unicode_len();
    if len == 0 {
        return false;
    }
    let mut i: usize = 0;
    while i < len
        invariant
            i <= len,
            len == text@.len(),
            is_ascii_chars(text@),
            forall|k: int| 0 <= k < i ==> is_lower(#[trigger] text@[k]),
        decreases len - i,
    {
        let byte: u8 = text.get_ascii(i);
        if byte < 97 || byte > 122 {
            assert(!is_lower(text@[i as int]));
            return false;
        }
        i = i + 1;
    }
    true
}

impl Packet {
    /// The sequence number that the packet carries, if it carries one.
    pub open spec fn sequence(self) -> Option<u64> {
        match self {
            Packet::HeartBeat(seq) => Some(seq),
            Packet::Next(seq) => Some(seq),
            Packet::Reconnect => None,
        }
    }

    /// The classification of a payload by the two fields found in it.
    ///
    /// Without a sequence field that writes a sequence number the payload
    /// cannot be placed. With one, the type field decides: the word
    /// `heartbeat` makes a heartbeat, any other word an update, and a missing
    /// type field, or one that is no word, leaves the payload unplaced.
    pub open spec fn spec_from_fields(
        sequence: Option<Seq<char>>,
        kind: Option<Seq<char>>,
    ) -> Packet {
        match (sequence, kind) {
            (Some(digits), Some(word)) => match sequence_number(digits) {
                Some(number) => if word == HEARTBEAT_KIND@ {
                    Packet::HeartBeat(number)
                } else if is_word(word) {
                    Packet::Next(number)
                } else {
                    Packet::Reconnect
                },
                None => Packet::Reconnect,
            },
            _ => Packet::Reconnect,
        }
    }

    /// The classification of a text payload by the fields that the matchers
    /// find in it.
    pub open spec fn spec_new(msg: Seq<char>, matchers: Matchers) -> Packet {
        Self::spec_from_fields(matchers.spec_sequence_field(msg), matchers.spec_kind_field(msg))
    }
}

/// The view of an optional string slice.
pub open spec fn field_text(field: Option<&str>) -> Option<Seq<char>> {
    match field {
        Some(text) => Some(text@),
        None => None,
    }
}

impl Packet {
    /// Classifies a payload by the sequence field and the type field that
    /// were found in it.
    pub fn from_fields(sequence: Option<&str>, kind: Option<&str>) -> (packet: Packet)
        ensures
            packet == Packet::spec_from_fields(field_text(sequence), field_text(kind)),
            field_text(sequence) is None ==> packet is Reconnect,
            field_text(sequence) matches Some(digits) ==> (sequence_number(digits) is None
                ==> packet is Reconnect),
            packet.sequence() matches Some(number) ==> field_text(sequence) matches Some(digits)
                && sequence_number(digits) == Some(number),
    {
        let number: u64 = match sequence {
            Some(digits) => match parse_sequence(digits) {
                Some(number) => number,
                None => {
                    return Packet::Reconnect;
                },
            },
            None => {
                return Packet::Reconnect;
            },
        };
        match kind {
            Some(word) => {
                if same_text(word, HEARTBEAT_KIND) {
                    Packet::HeartBeat(number)
                } else if is_lowercase_word(word) {
                    Packet::Next(number)
                } else {
                    Packet::Reconnect
                }
            },
            None => Packet::Reconnect,
        }
    }

    /// Classifies a text payload.
    ///
    /// The matchers find the sequence field and the type field; what they
    /// find decides as in [`Packet::from_fields`]. A payload in which the
    /// sequence matcher finds no number is never anything but `Reconnect`.
    pub fn new(msg: &str, matchers: &Matchers) -> (packet: Packet)
        ensures
            packet == Packet::spec_new(msg@, *matchers),
            matchers.spec_sequence_field(msg@) is None ==> packet is Reconnect,
            matchers.spec_sequence_field(msg@) matches Some(digits) ==> (sequence_number(digits)
                is None ==> packet is Reconnect),
    {
        let sequence = matchers.sequence_field(msg);
        let digits: &str = match &sequence {
            Some(digits) => digits.as_str(),
            None => {
                return Packet::Reconnect;
            },
        };
        let kind = matchers.kind_field(msg);
        let word: Option<&str> = match &kind {
            Some(word) => Some(word.as_str()),
            None => None,
        };
        Packet::from_fields(Some(digits), word)
    }
}

/// Whether a sequence field is missing or writes no sequence number.
pub open spec fn lacks_number(field: Option<Seq<char>>) -> bool {
    match field {
        Some(digits) => sequence_number(digits) is None,
        None => true,
    }
}

/// A payload in which the sequence matcher finds no number is classified as
/// `Reconnect`, and `Reconnect` is rejected in every state and changes none.
pub proof fn unnumbered_is_rejected(msg: Seq<char>, matchers: Matchers, state: Continuity)
    requires
        lacks_number(matchers.spec_sequence_field(msg)),
    ensures
        Packet::spec_new(msg, matchers) == Packet::Reconnect,
        !state.accepts(Packet::Reconnect),
        state.after(Packet::Reconnect) == state,
{
}

impl Packet {
    /// Offers the packet to the tracker. Returns whether it was accepted, and
    /// on acceptance records its sequence number as the last one.
    ///
    /// The first packet of a session that carries a sequence number is
    /// accepted whatever the number is. After that a heartbeat is accepted
    /// exactly when it repeats the last number, and an update exactly when it
    /// carries the wrapping successor of the last number. A rejected packet
    /// leaves the state as it was.
    pub fn handle(self, state: &mut Continuity) -> (accepted: bool)
        ensures
            accepted == old(state).accepts(self),
            *final(state) == old(state).after(self),
            self is Reconnect ==> !accepted && *final(state) == *old(state),
            *old(state) is Uninitialized && self.sequence() is Some ==> accepted && *final(state)
                == Continuity::Tracking(self.sequence()->0),
            *old(state) matches Continuity::Tracking(last) ==> (self matches Packet::HeartBeat(number)
                ==> accepted == (number == last) && *final(state) == *old(state)),
            *old(state) matches Continuity::Tracking(last) ==> (self matches Packet::Next(number)
                ==> accepted == (number as int == (last as int + 1) % 0x1_0000_0000_0000_0000)
                && *final(state) == (if accepted {
                Continuity::Tracking(number)
            } else {
                *old(state)
            })),
    {
        match self {
            Packet::Reconnect => false,
            Packet::HeartBeat(seq) => match *state {
                Continuity::Uninitialized => {
                    *state = Continuity::Tracking(seq);
                    true
                },
                Continuity::Tracking(last) => seq == last,
            },
            Packet::Next(seq) => match *state {
                Continuity::Uninitialized => {
                    *state = Continuity::Tracking(seq);
                    true
                },
                Continuity::Tracking(last) => {
                    let next_seq: u64 = last.wrapping_add(1);
                    if seq == next_seq {
                        *state = Continuity::Tracking(next_seq);
                        true
                    } else {
                        false
                    }
                },
            },
        }
    }
}


} // verus!
