//! Choosing a free log file name.
//!
//! Log files are named `TR00` to `TR99`; a new log takes the first name that no file has yet.

use vstd::prelude::*;

verus! {

/// How many log file names there are.
pub const SLOTS: u8 = 100;

/// Code of the digit zero.
pub const DIGIT_ZERO: u8 = 48;

/// A bounded string of the `heapless` crate.
#[verifier::external_type_specification]
#[verifier::external_body]
pub struct ExHeaplessString<const N: usize>(heapless::String<N>);

/// The characters that a bounded name holds.
pub uninterp spec fn name_chars(name: heapless::String<8>) -> Seq<char>;

/// Every character takes one byte.
pub open spec fn all_ascii(s: Seq<char>) -> bool {
    forall|i: int| 0 <= i < s.len() ==> (#[trigger] s[i] as u32) < 128
}

/// `heapless::String::new`: an empty string.
#[verifier::external_body]
fn empty_name() -> (name: heapless::String<8>)
    ensures
        name_chars(name) == Seq::<char>::empty(),
{
    heapless::String::new()
}

/// `heapless::String::push` with a character of one byte, on a string that holds such characters
/// only: the character goes to the end if fewer than eight bytes are in use, and otherwise
/// nothing changes and an error comes back.
#[verifier::external_body]
fn push_char(name: &mut heapless::String<8>, c: char) -> (pushed: Result<(), ()>)
    requires
        (c as u32) < 128,
        all_ascii(name_chars(*old(name))),
    ensures
        pushed is Ok <==> name_chars(*old(name)).len() < 8,
        pushed is Ok ==> name_chars(*final(name)) == name_chars(*old(name)).push(c),
        pushed is Err ==> name_chars(*final(name)) == name_chars(*old(name)),
{
    name.push(c)
}

/// `heapless::String::as_str`: the characters of the string.
#[verifier::external_body]
fn name_str(name: &heapless::String<8>) -> (text: &str)
    ensures
        text@ == name_chars(*name),
{
    name.as_str()
}

/// A file name of at most eight bytes with an extension of at most three.
pub struct ShortName {
    pub base: Vec<u8>,
    pub extension: Vec<u8>,
}

/// One to eight capital letters and digits.
pub open spec fn is_plain_base(text: Seq<char>) -> bool {
    &&& 1 <= text.len() <= 8
    &&& forall|i: int|
        0 <= i < text.len() ==> 'A' <= #[trigger] text[i] <= 'Z' || '0' <= text[i] <= '9'
}

/// One byte per character.
pub open spec fn char_bytes(text: Seq<char>) -> Seq<u8> {
    Seq::new(text.len(), |i: int| text[i] as u8)
}

/// `embedded_sdmmc::ShortFileName::create_from_str`, with its result taken apart by `base_name`
/// and `extension`, on a text of one to eight capital letters and digits: such a text is a short
/// file name, and its own base name, without an extension.
#[verifier::external_body]
fn create_short_name(text: &str) -> (name: Option<ShortName>)
    requires
        is_plain_base(text@),
    ensures
        name is Some,
        name->0.base@ == char_bytes(text@),
        name->0.extension@ == Seq::<u8>::empty(),
{
    match embedded_sdmmc::ShortFileName::create_from_str(text) {
        Ok(name) => Some(
            ShortName { base: name.base_name().to_vec(), extension: name.extension().to_vec() },
        ),
        Err(_) => None,
    }
}

/// The character of a decimal digit.
pub open spec fn digit_char(digit: int) -> char {
    (DIGIT_ZERO + digit) as char
}

/// The name of a log file, as text.
pub open spec fn slot_chars(slot: int) -> Seq<char> {
    seq!['T', 'R', digit_char(slot / 10), digit_char(slot % 10)]
}

/// The name of a log file, as bytes.
pub open spec fn slot_bytes(slot: int) -> Seq<u8> {
    seq![84u8, 82u8, (DIGIT_ZERO + slot / 10) as u8, (DIGIT_ZERO + slot % 10) as u8]
}

/// Builds the name of a log file.
pub fn slot_name(slot: u8) -> (name: heapless::String<8>)
    requires
        slot < SLOTS,
    ensures
        name_chars(name) == slot_chars(slot as int),
{
    let tens: u8 = DIGIT_ZERO + slot / 10;
    let ones: u8 = DIGIT_ZERO + slot % 10;
    let mut name = empty_name();
    let _ = push_char(&mut name, 'T');
    let _ = push_char(&mut name, 'R');
    let _ = push_char(&mut name, tens as char);
    let _ = push_char(&mut name, ones as char);
    assert(name_chars(name) == slot_chars(slot as int));
    name
}

/// The short name of the log file in a slot has the four bytes of its text and no extension.
pub open spec fn is_slot_name(name: ShortName, slot: int) -> bool {
    name.base@ == slot_bytes(slot) && name.extension@ == Seq::<u8>::empty()
}

/// The short file name of a log file; every slot has one.
pub fn slot_short_name(slot: u8) -> (name: Option<ShortName>)
    requires
        slot < SLOTS,
    ensures
        name is Some,
        is_slot_name(name->0, slot as int),
{
    let text = slot_name(slot);
    assert(is_plain_base(slot_chars(slot as int)));
    let name = create_short_name(name_str(&text));
    assert(char_bytes(slot_chars(slot as int)) == slot_bytes(slot as int));
    name
}

/// What the search for a free name asks for next.
pub enum SearchStep {
    /// Try to open this file for reading, and report whether it opened.
    Probe(ShortName),
    /// Nobody has this name: create the file.
    Create(ShortName),
    /// Every name is taken.
    NoFreeSlot,
}

/// A step of the search, with the slot in place of the name.
pub enum Choice {
    Probe(int),
    Create(int),
    NoFreeSlot,
}

/// The step that `choice` stands for, with the name of its slot.
pub open spec fn names_choice(step: SearchStep, choice: Choice) -> bool {
    match (step, choice) {
        (SearchStep::Probe(name), Choice::Probe(slot)) => is_slot_name(name, slot),
        (SearchStep::Create(name), Choice::Create(slot)) => is_slot_name(name, slot),
        (SearchStep::NoFreeSlot, Choice::NoFreeSlot) => true,
        _ => false,
    }
}

/// Where the search goes on from `slot`.
pub open spec fn choice_at(slot: int) -> Choice {
    if slot < SLOTS {
        Choice::Probe(slot)
    } else {
        Choice::NoFreeSlot
    }
}

/// What follows once `slot` was probed: a taken slot is passed over, a free one is used.
pub open spec fn choice_after(slot: int, found: bool) -> Choice {
    if found {
        choice_at(slot + 1)
    } else {
        Choice::Create(slot)
    }
}

/// The search for a free name: the slot under test.
#[derive(Clone, Copy, Debug, PartialEq, Eq, Structural)]
pub struct LogFileSearch {
    pub slot: u8,
}

impl LogFileSearch {
    /// Whether a slot is under test.
    pub open spec fn is_probing(&self) -> bool {
        self.slot < SLOTS
    }

    /// A search that begins with the first slot.
    pub fn new() -> (search: Self)
        ensures
            search.slot == 0,
    {
        LogFileSearch { slot: 0 }
    }

    /// Asks for the slot under test to be probed.
    pub fn start(&mut self) -> (step: SearchStep)
        requires
            old(self).slot <= SLOTS,
        ensures
            final(self).slot == old(self).slot,
            names_choice(step, choice_at(old(self).slot as int)),
    {
        while self.slot < SLOTS
            invariant
                self.slot == old(self).slot,
                self.slot <= SLOTS,
            decreases SLOTS - self.slot,
        {
            match slot_short_name(self.slot) {
                Some(name) => {
                    return SearchStep::Probe(name);
                },
                None => {
                    self.slot = self.slot + 1;
                },
            }
        }
        SearchStep::NoFreeSlot
    }

    /// Takes in whether the file in the slot under test exists.
    pub fn probed(&mut self, found: bool) -> (step: SearchStep)
        requires
            old(self).is_probing(),
        ensures
            final(self).slot == if found {
                old(self).slot + 1
            } else {
                old(self).slot as int
            },
            names_choice(step, choice_after(old(self).slot as int, found)),
    {
        if found {
            self.slot = self.slot + 1;
            self.start()
        } else {
            match slot_short_name(self.slot) {
                Some(name) => SearchStep::Create(name),
                None => SearchStep::NoFreeSlot,
            }
        }
    }
}

/// The slot that the search settles on when it begins at `slot` and the slots in `taken` hold
/// files.
pub open spec fn settled_slot(taken: Set<int>, slot: int) -> Option<int>
    decreases SLOTS - slot,
{
    if slot >= SLOTS {
        None
    } else {
        match choice_after(slot, taken.contains(slot)) {
            Choice::Probe(_) => settled_slot(taken, slot + 1),
            Choice::Create(free) => Some(free),
            Choice::NoFreeSlot => None,
        }
    }
}

proof fn lemma_settled_from(taken: Set<int>, slot: int)
    requires
        0 <= slot,
    ensures
        match settled_slot(taken, slot) {
            Some(free) => slot <= free < SLOTS && !taken.contains(free) && (forall|i: int|
                slot <= i < free ==> taken.contains(i)),
            None => forall|i: int| slot <= i < SLOTS ==> taken.contains(i),
        },
    decreases SLOTS - slot,
{
    if slot < SLOTS {
        lemma_settled_from(taken, slot + 1);
    }
}

/// The search settles on the first slot without a file, and gives up only if every slot has one.
pub proof fn law_first_free_slot(taken: Set<int>)
    ensures
        match settled_slot(taken, 0) {
            Some(free) => 0 <= free < SLOTS && !taken.contains(free) && (forall|i: int|
                0 <= i < free ==> taken.contains(i)),
            None => forall|i: int| 0 <= i < SLOTS ==> taken.contains(i),
        },
{
    lemma_settled_from(taken, 0);
}

/// No two slots share a file name.
pub proof fn law_slot_names_differ(a: int, b: int)
    requires
        0 <= a < SLOTS,
        0 <= b < SLOTS,
        a != b,
    ensures
        slot_bytes(a) != slot_bytes(b),
{
    if slot_bytes(a) == slot_bytes(b) {
        assert(slot_bytes(a)[2] == slot_bytes(b)[2]);
        assert(slot_bytes(a)[3] == slot_bytes(b)[3]);
        assert(a / 10 == b / 10);
        assert(a % 10 == b % 10);
    }
}

/// A file name is `TR` and the slot in two decimal digits, as text and as bytes.
pub proof fn law_slot_name_is_decimal(slot: int)
    requires
        0 <= slot < SLOTS,
    ensures
        ({
            let b = slot_bytes(slot);
            let c = slot_chars(slot);
            &&& b.len() == 4
            &&& c.len() == 4
            &&& c[0] == 'T' && c[1] == 'R'
            &&& '0' <= c[2] <= '9' && '0' <= c[3] <= '9'
            &&& 10 * (b[2] - 48) + (b[3] - 48) == slot
            &&& forall|i: int| 0 <= i < 4 ==> #[trigger] b[i] as int == c[i] as int
        }),
{
}

} // verus!
