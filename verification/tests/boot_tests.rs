use nezha_runtime::boot::{
    stack_top, zero_fill, BootError, BootProgress, BootStage, STACK_SIZE, WORD_BYTES,
};

#[test]
fn zero_fill_clears_exactly_the_region() {
    let mut mem: Vec<u8> = (0..40u8).map(|b| b + 1).collect();
    assert_eq!(zero_fill(&mut mem, 8, 32), Ok(()));
    for (i, byte) in mem.iter().enumerate() {
        if (8..32).contains(&i) {
            assert_eq!(*byte, 0);
        } else {
            assert_eq!(*byte, i as u8 + 1);
        }
    }
}

#[test]
fn zero_fill_whole_memory() {
    let mut mem = vec![0xffu8; 64];
    assert_eq!(zero_fill(&mut mem, 0, 64), Ok(()));
    assert_eq!(mem, vec![0u8; 64]);
}

#[test]
fn zero_fill_one_word() {
    let mut mem = vec![0xaau8; 16];
    assert_eq!(zero_fill(&mut mem, 8, 16), Ok(()));
    assert_eq!(&mem[..8], &[0xaau8; 8]);
    assert_eq!(&mem[8..], &[0u8; 8]);
}

#[test]
fn zero_fill_empty_region_writes_nothing() {
    let mut mem = vec![7u8; 24];
    assert_eq!(zero_fill(&mut mem, 8, 8), Ok(()));
    assert_eq!(mem, vec![7u8; 24]);
    assert_eq!(zero_fill(&mut mem, 24, 24), Ok(()));
    assert_eq!(mem, vec![7u8; 24]);
    let mut none: Vec<u8> = Vec::new();
    assert_eq!(zero_fill(&mut none, 0, 0), Ok(()));
    assert!(none.is_empty());
}

#[test]
fn zero_fill_refuses_a_fraction_of_a_word() {
    let mut mem = vec![7u8; 24];
    assert_eq!(zero_fill(&mut mem, 0, 4), Err(BootError::Misaligned));
    assert_eq!(zero_fill(&mut mem, 3, 18), Err(BootError::Misaligned));
    assert_eq!(mem, vec![7u8; 24]);
}

#[test]
fn zero_fill_refuses_a_region_outside_the_memory() {
    let mut mem = vec![7u8; 24];
    assert_eq!(zero_fill(&mut mem, 16, 32), Err(BootError::OutOfBounds));
    assert_eq!(zero_fill(&mut mem, 16, 8), Err(BootError::OutOfBounds));
    assert_eq!(zero_fill(&mut mem, 25, 25), Err(BootError::OutOfBounds));
    assert_eq!(mem, vec![7u8; 24]);
}

#[test]
fn word_and_stack_sizes() {
    assert_eq!(WORD_BYTES, 8);
    assert_eq!(STACK_SIZE, 1024);
}

#[test]
fn stack_top_is_base_plus_size() {
    assert_eq!(stack_top(0x4001_0000, STACK_SIZE), Some(0x4001_0400));
    assert_eq!(stack_top(0, 0), Some(0));
    assert_eq!(stack_top(usize::MAX - 1024, 1024), Some(usize::MAX));
    assert_eq!(stack_top(usize::MAX - 1023, 1024), None);
}

#[test]
fn stages_follow_in_order() {
    let order = [
        BootStage::ClearBss,
        BootStage::Stack,
        BootStage::Heap,
        BootStage::Peripherals,
        BootStage::Logger,
        BootStage::TrapConfiguration,
        BootStage::Introspection,
        BootStage::Dispatch,
        BootStage::Finish,
    ];
    for pair in order.windows(2) {
        assert_eq!(pair[0].successor(), Some(pair[1]));
        assert!(pair[0].may_precede(pair[1]));
        assert!(!pair[1].may_precede(pair[0]));
    }
    assert_eq!(BootStage::Finish.successor(), None);
}

#[test]
fn only_the_diagnostic_dump_may_be_skipped() {
    assert!(BootStage::TrapConfiguration.may_precede(BootStage::Dispatch));
    assert!(!BootStage::Logger.may_precede(BootStage::Dispatch));
    assert!(!BootStage::Peripherals.may_precede(BootStage::TrapConfiguration));
    assert!(!BootStage::ClearBss.may_precede(BootStage::Heap));
    assert!(!BootStage::Heap.may_precede(BootStage::Heap));
    assert!(!BootStage::Introspection.may_precede(BootStage::Finish));
}

#[test]
fn progress_moves_only_along_the_order() {
    let mut progress = BootProgress::new();
    assert_eq!(progress.stage(), BootStage::ClearBss);
    assert!(!progress.enter(BootStage::Heap));
    assert_eq!(progress.stage(), BootStage::ClearBss);
    for next in [
        BootStage::Stack,
        BootStage::Heap,
        BootStage::Peripherals,
        BootStage::Logger,
        BootStage::TrapConfiguration,
    ] {
        assert!(progress.enter(next));
        assert_eq!(progress.stage(), next);
    }
    assert!(!progress.enter(BootStage::Logger));
    assert!(!progress.enter(BootStage::Finish));
    assert!(progress.enter(BootStage::Dispatch));
    assert!(!progress.enter(BootStage::Introspection));
    assert!(progress.enter(BootStage::Finish));
    assert!(!progress.enter(BootStage::ClearBss));
    assert_eq!(progress.stage(), BootStage::Finish);
}
