use macxlr::sampler::{bank_button_of, slot_of, SampleBank, SampleButtons, SLOT_COUNT};

#[test]
fn slots_follow_bank_then_button() {
    assert_eq!(slot_of(SampleBank::A, SampleButtons::TopLeft), 0);
    assert_eq!(slot_of(SampleBank::A, SampleButtons::BottomRight), 3);
    assert_eq!(slot_of(SampleBank::B, SampleButtons::TopRight), 5);
    assert_eq!(slot_of(SampleBank::C, SampleButtons::BottomLeft), 10);
    assert_eq!(slot_of(SampleBank::C, SampleButtons::BottomRight), 11);
}

#[test]
fn every_slot_maps_back_to_its_pair() {
    for slot in 0..SLOT_COUNT {
        let (bank, button) = bank_button_of(slot);
        assert_eq!(slot_of(bank, button), slot);
    }
    assert_eq!(bank_button_of(6), (SampleBank::B, SampleButtons::BottomLeft));
}
