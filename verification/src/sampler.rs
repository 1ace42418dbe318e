//! Sampler banks and buttons, and the slot that each pair occupies.

use vstd::prelude::*;

verus! {

/// One of the three sampler banks.
#[derive(Clone, Copy, Debug, PartialEq, Eq, Structural)]
pub enum SampleBank {
    A,
    B,
    C,
}

/// One of the four sampler buttons of a bank.
#[derive(Clone, Copy, Debug, PartialEq, Eq, Structural)]
pub enum SampleButtons {
    TopLeft,
    TopRight,
    BottomLeft,
    BottomRight,
}

/// Number of sampler slots, one per bank and button.
pub const SLOT_COUNT: usize = 12;

pub open spec fn bank_index(bank: SampleBank) -> int {
    match bank {
        SampleBank::A => 0,
        SampleBank::B => 1,
        SampleBank::C => 2,
    }
}

pub open spec fn button_index(button: SampleButtons) -> int {
    match button {
        SampleButtons::TopLeft => 0,
        SampleButtons::TopRight => 1,
        SampleButtons::BottomLeft => 2,
        SampleButtons::BottomRight => 3,
    }
}

/// The slot of a bank and button: banks in order, buttons in order within a bank.
pub open spec fn slot_index(bank: SampleBank, button: SampleButtons) -> int {
    bank_index(bank) * 4 + button_index(button)
}

/// The bank of a slot.
pub open spec fn slot_bank(slot: int) -> SampleBank {
    if slot < 4 {
        SampleBank::A
    } else if slot < 8 {
        SampleBank::B
    } else {
        SampleBank::C
    }
}

/// The button of a slot.
pub open spec fn slot_button(slot: int) -> SampleButtons {
    let b = slot % 4;
    if b == 0 {
        SampleButtons::TopLeft
    } else if b == 1 {
        SampleButtons::TopRight
    } else if b == 2 {
        SampleButtons::BottomLeft
    } else {
        SampleButtons::BottomRight
    }
}

/// Each bank and button has its own slot, and each slot belongs to exactly one of them.
pub proof fn lemma_slot_index_bijective(bank: SampleBank, button: SampleButtons, slot: int)
    requires
        0 <= slot < SLOT_COUNT,
    ensures
        0 <= slot_index(bank, button) < SLOT_COUNT,
        slot_bank(slot_index(bank, button)) == bank,
        slot_button(slot_index(bank, button)) == button,
        slot_index(slot_bank(slot), slot_button(slot)) == slot,
{
}

/// Returns the slot that a bank and button occupy.
pub fn slot_of(bank: SampleBank, button: SampleButtons) -> (slot: usize)
    ensures
        slot as int == slot_index(bank, button),
        slot < SLOT_COUNT,
{
    let b: usize = match bank {
        SampleBank::A => 0,
        SampleBank::B => 1,
        SampleBank::C => 2,
    };
    let k: usize = match button {
        SampleButtons::TopLeft => 0,
        SampleButtons::TopRight => 1,
        SampleButtons::BottomLeft => 2,
        SampleButtons::BottomRight => 3,
    };
    b * 4 + k
}

/// Returns the bank and button of a slot.
pub fn bank_button_of(slot: usize) -> (pair: (SampleBank, SampleButtons))
    requires
        slot < SLOT_COUNT,
    ensures
        pair.0 == slot_bank(slot as int),
        pair.1 == slot_button(slot as int),
        slot_index(pair.0, pair.1) == slot as int,
{
    let bank = if slot < 4 {
        SampleBank::A
    } else if slot < 8 {
        SampleBank::B
    } else {
        SampleBank::C
    };
    let k: usize = slot % 4;
    let button = if k == 0 {
        SampleButtons::TopLeft
    } else if k == 1 {
        SampleButtons::TopRight
    } else if k == 2 {
        SampleButtons::BottomLeft
    } else {
        SampleButtons::BottomRight
    };
    (bank, button)
}

} // verus!
