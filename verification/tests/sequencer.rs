use ibswm::sequencer::EventSequencer;

#[test]
fn a_pending_sequence_number_is_suppressed_exactly_once() {
    let mut sequencer = EventSequencer::new();
    sequencer.push(5);
    sequencer.push(10);
    sequencer.push(15);

    assert_eq!(true, sequencer.should_ignore(10));
    assert_eq!(false, sequencer.should_ignore(10));
}

#[test]
fn suppression_discards_entries_that_already_passed() {
    let mut sequencer = EventSequencer::new();
    sequencer.push(5);
    sequencer.push(10);

    // Both entries lie behind this event and are discarded unused.
    assert_eq!(false, sequencer.should_ignore(12));
    assert_eq!(0, sequencer.len());
}

#[test]
fn an_entry_still_ahead_is_kept() {
    let mut sequencer = EventSequencer::new();
    sequencer.push(10);

    assert_eq!(false, sequencer.should_ignore(5));
    assert_eq!(1, sequencer.len());
}

#[test]
fn wraparound_counts_the_highest_value_as_already_passed() {
    let mut sequencer = EventSequencer::new();
    sequencer.push(65535);

    // Sequence 0 lies one step after 65535 in the 16-bit space, so the
    // entry has already passed and must not suppress this event.
    assert_eq!(false, sequencer.should_ignore(0));
    assert_eq!(0, sequencer.len());
}

#[test]
fn wraparound_still_suppresses_a_pending_entry_ahead() {
    let mut sequencer = EventSequencer::new();
    sequencer.push(3);

    // Sequence 65535 lies shortly before 3 across the wrap, so the
    // entry is still pending; then its own event consumes it.
    assert_eq!(false, sequencer.should_ignore(65535));
    assert_eq!(1, sequencer.len());
    assert_eq!(true, sequencer.should_ignore(3));
    assert_eq!(0, sequencer.len());
}

#[test]
fn an_unknown_sequence_number_is_never_suppressed() {
    let mut sequencer = EventSequencer::new();
    sequencer.push(7);
    sequencer.push(9);

    assert_eq!(false, sequencer.should_ignore(8));
}
