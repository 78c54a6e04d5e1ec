use std::sync::atomic::AtomicU32;
use vmware_svga_vulkan_impl::fifo_processor::fifo_reader::FifoError;
use vmware_svga_vulkan_impl::fifo_processor::fifo_reader::FifoReader;
use vmware_svga_vulkan_impl::fifo_processor::fifo_state::copy_bytes;
use vmware_svga_vulkan_impl::fifo_processor::fifo_state::copy_frame;
use vmware_svga_vulkan_impl::fifo_processor::fifo_state::size_frame;
use vmware_svga_vulkan_impl::fifo_processor::fifo_state::FifoState;
use vmware_svga_vulkan_impl::fifo_processor::fifo_state::WorkerStep;
use vmware_svga_vulkan_impl::graphic::align_value;
use vmware_svga_vulkan_impl::graphic::unpad_rows;
use vmware_svga_vulkan_impl::mailbox::next_slot;
use vmware_svga_vulkan_impl::mailbox::Mailbox;
use vmware_svga_vulkan_impl::shared_mem::LocalMem;
use vmware_svga_vulkan_impl::shared_mem::SharedMem;
use vmware_svga_vulkan_impl::shared_mem::WordMemory;

#[test]
fn slots_go_round() {
    assert_eq!(next_slot(0, 1), 1);
    assert_eq!(next_slot(0, 2), 2);
    assert_eq!(next_slot(1, 2), 0);
    assert_eq!(next_slot(2, 1), 0);
    assert_eq!(next_slot(2, 0), 2);
    assert_eq!(next_slot(usize::MAX, 2), (usize::MAX % 3 + 2) % 3);
    for latest in 0..3 {
        for step in 1..3 {
            assert_ne!(next_slot(latest, step), latest);
        }
    }
}

#[test]
fn reader_sees_the_last_frame_written() {
    let mailbox = Mailbox::new();
    assert_eq!(*mailbox.borrow_read().get(), None);
    {
        let mut writer = mailbox.borrow_write(0).unwrap();
        assert_eq!(writer.index(), 1);
        assert_eq!(*writer.get(), None);
        *writer.get_mut() = Some(vec![1, 2, 3]);
        assert_eq!(*writer.get(), Some(vec![1, 2, 3]));
    }
    assert_eq!(*mailbox.borrow_read().get(), Some(vec![1, 2, 3]));
    {
        let mut writer = mailbox.borrow_write(0).unwrap();
        assert_eq!(writer.index(), 2);
        *writer.get_mut() = Some(vec![4]);
        // Not published yet.
        assert_eq!(*mailbox.borrow_read().get(), Some(vec![1, 2, 3]));
    }
    assert_eq!(*mailbox.borrow_read().get(), Some(vec![4]));
    let writer = mailbox.borrow_write(0).unwrap();
    assert_eq!(writer.index(), 0);
}

#[test]
fn writers_take_different_slots_and_never_the_latest() {
    let mailbox = Mailbox::new();
    let reader = mailbox.borrow_read();
    let first = mailbox.borrow_write(0).unwrap();
    let second = mailbox.borrow_write(0).unwrap();
    assert_eq!(first.index(), 1);
    assert_eq!(second.index(), 2);
    assert!(mailbox.borrow_write(0).is_none());
    drop(second);
    drop(first);
    drop(reader);
    // The first writer was dropped last: its slot is the latest.
    let third = mailbox.borrow_write(0).unwrap();
    assert_eq!(third.index(), 2);
}

#[test]
fn reader_keeps_its_slot_from_the_writer() {
    let mailbox = Mailbox::new();
    {
        let mut writer = mailbox.borrow_write(0).unwrap();
        *writer.get_mut() = Some(vec![9]);
    }
    let reader = mailbox.borrow_read();
    let a = mailbox.borrow_write(0).unwrap();
    let b = mailbox.borrow_write(0).unwrap();
    assert_eq!((a.index(), b.index()), (2, 0));
    assert_eq!(*reader.get(), Some(vec![9]));
}

#[test]
fn frame_is_sized_to_the_screen() {
    let mut slot = None;
    size_frame(&mut slot, 3);
    assert_eq!(slot, Some(vec![0, 0, 0]));
    slot = Some(vec![5, 6, 7]);
    size_frame(&mut slot, 3);
    assert_eq!(slot, Some(vec![5, 6, 7]));
    size_frame(&mut slot, 2);
    assert_eq!(slot, Some(vec![0, 0]));
    size_frame(&mut slot, 0);
    assert_eq!(slot, Some(vec![]));
}

#[test]
fn frame_is_copied_only_to_a_buffer_of_its_size() {
    let frame = Some(vec![0x0403_0201u32, 0x0807_0605]);
    let mut out = [0u8; 8];
    assert!(copy_frame(&frame, &mut out));
    let mut expected = Vec::new();
    expected.extend_from_slice(&0x0403_0201u32.to_ne_bytes());
    expected.extend_from_slice(&0x0807_0605u32.to_ne_bytes());
    assert_eq!(out.to_vec(), expected);

    let mut small = [9u8; 7];
    assert!(!copy_frame(&frame, &mut small));
    assert_eq!(small, [9u8; 7]);
    let mut large = [9u8; 12];
    assert!(!copy_frame(&frame, &mut large));
    assert_eq!(large, [9u8; 12]);
    let mut any = [9u8; 8];
    assert!(!copy_frame(&None, &mut any));
    assert_eq!(any, [9u8; 8]);
    let mut none = [0u8; 0];
    assert!(copy_frame(&Some(vec![]), &mut none));
}

#[test]
fn state_renders_and_reads() {
    let fifo: Vec<AtomicU32> = (0..9).map(|_| AtomicU32::new(0)).collect();
    let fb: Vec<AtomicU32> = (0..4).map(|_| AtomicU32::new(0)).collect();
    fifo[3].store(5, std::sync::atomic::Ordering::Relaxed);
    FifoState::init_fifo(&mut SharedMem::new(&fifo));
    assert!(fifo.iter().all(|w| w.load(std::sync::atomic::Ordering::Relaxed) == 0));
    let mut local = LocalMem::new(vec![7; 9]);
    FifoState::init_fifo(&mut local);
    assert_eq!(local.slice_to(0, 9).get(), [0u32; 9].as_slice());
    let state = FifoState::new(SharedMem::new(&fifo), SharedMem::new(&fb));
    assert!(!state.is_enabled());
    assert!(!state.is_busy());
    assert!(state.must_terminate());
    state.set_enabled(true);
    state.set_busy(true);
    assert!(state.is_enabled());
    assert!(state.is_busy());
    state.suspend();
    assert!(!state.is_busy());

    let mut out = [1u8; 8];
    assert!(!state.read_output(&mut out));
    assert!(state.render_output(0, 2, 0).is_none());
    assert!(state.render_output(2, 0, 0).is_none());
    {
        let mut frame = state.render_output(2, 1, 0).unwrap();
        assert_eq!(*frame.get(), Some(vec![0, 0]));
        frame.get_mut().as_mut().unwrap()[1] = 0x0102_0304;
    }
    assert!(state.read_output(&mut out));
    assert_eq!(out[..4], [0u8; 4]);
    assert_eq!(out[4..], 0x0102_0304u32.to_ne_bytes());
    let mut wrong = [1u8; 4];
    assert!(!state.read_output(&mut wrong));
    assert_eq!(wrong, [1u8; 4]);
}

#[test]
fn state_skips_the_words_of_the_guest() {
    let fifo: Vec<AtomicU32> = [99u32, 98, 16, 24, 20, 16, 30, 5]
        .iter()
        .map(|w| AtomicU32::new(*w))
        .collect();
    let fb: Vec<AtomicU32> = Vec::new();
    let state = FifoState::new(SharedMem::new(&fifo), SharedMem::new(&fb));
    let reader = FifoReader::new(state.fifo).unwrap();
    assert_eq!(reader.area().min_byte, 16);
    assert_eq!(reader.area().max_byte, 24);
    assert_eq!(reader.available(), Ok((1, 16)));
}

#[test]
fn step_of_the_thread() {
    let fifo: Vec<AtomicU32> = (0..2).map(|_| AtomicU32::new(0)).collect();
    let fb: Vec<AtomicU32> = Vec::new();
    let state = FifoState::new(SharedMem::new(&fifo), SharedMem::new(&fb));

    let mut reader = FifoReader::new(LocalMem::new(vec![16, 40, 24, 16, 30, 8, 0, 0, 0, 0])).unwrap();
    state.set_busy(true);
    match state.run_step(&mut reader).unwrap() {
        WorkerStep::Process { view, cmd } => {
            assert_eq!(view.peeked_amount, 2);
            assert!(state.is_busy());
            assert!(matches!(
                cmd,
                vmware_svga_vulkan_impl::fifo_processor::cmd::FifoCommand::Fence(_)
            ));
            assert_eq!(view.commit(), Ok(24));
        }
        WorkerStep::Suspend => panic!("a command waits"),
    }
    assert!(matches!(state.run_step(&mut reader), Ok(WorkerStep::Suspend)));
    assert!(!state.is_busy());

    let mut reader = FifoReader::new(LocalMem::new(vec![16, 40, 24, 16, 31, 8, 0, 0, 0, 0])).unwrap();
    assert_eq!(state.run_step(&mut reader).err(), Some(FifoError::UnknownOpcode(31)));
    let mut reader = FifoReader::new(LocalMem::new(vec![16, 40, 24, 44, 31, 8, 0, 0, 0, 0])).unwrap();
    assert_eq!(state.run_step(&mut reader).err(), Some(FifoError::InvalidCursor));
    let mut reader = FifoReader::new(LocalMem::new(vec![16, 40, 28, 24, 31, 8])).unwrap();
    assert_eq!(state.run_step(&mut reader).err(), Some(FifoError::BoundsOutsideMemory));
    let mut reader = FifoReader::new(LocalMem::new(vec![16, 40, 24, 24, 31, 8])).unwrap();
    assert!(matches!(state.run_step(&mut reader), Ok(WorkerStep::Suspend)));
}

#[test]
fn lines_are_aligned() {
    assert_eq!(align_value(0, 64), 0);
    assert_eq!(align_value(1, 64), 64);
    assert_eq!(align_value(64, 64), 64);
    assert_eq!(align_value(65, 64), 128);
    assert_eq!(align_value(640, 64), 640);
    assert_eq!(align_value(7, 1), 7);
    assert_eq!(align_value(0xffff_fff0, 16), 0xffff_fff0);
}

#[test]
fn padding_is_dropped() {
    let padded = [1u8, 2, 3, 0, 0, 4, 5, 6, 0, 0];
    let mut output = [9u8; 6];
    unpad_rows(&padded, &mut output, 3, 5, 2);
    assert_eq!(output, [1, 2, 3, 4, 5, 6]);
    let mut same = [9u8; 4];
    unpad_rows(&[1, 2, 3, 4], &mut same, 2, 2, 2);
    assert_eq!(same, [1, 2, 3, 4]);
    let mut none = [0u8; 0];
    unpad_rows(&padded, &mut none, 3, 5, 0);
    let mut longer = [9u8; 8];
    unpad_rows(&padded, &mut longer, 3, 5, 2);
    assert_eq!(longer, [1, 2, 3, 4, 5, 6, 9, 9]);
}

#[test]
fn bytes_are_copied_only_to_a_buffer_of_their_length() {
    let mut out = [0u8; 3];
    assert!(copy_bytes(&[1, 2, 3], &mut out));
    assert_eq!(out, [1, 2, 3]);
    assert!(!copy_bytes(&[4, 5], &mut out));
    assert!(!copy_bytes(&[4, 5, 6, 7], &mut out));
    assert_eq!(out, [1, 2, 3]);
    let mut none = [0u8; 0];
    assert!(copy_bytes(&[], &mut none));
}

#[test]
fn frame_bytes_come_in_one_of_two_orders() {
    let frame = Some(vec![0x0403_0201u32, 0x0807_0605]);
    let mut out = [0u8; 8];
    assert!(copy_frame(&frame, &mut out));
    let least_first = [1u8, 2, 3, 4, 5, 6, 7, 8];
    let most_first = [4u8, 3, 2, 1, 8, 7, 6, 5];
    assert!(out == least_first || out == most_first);
    assert_eq!(out == least_first, 1u32.to_ne_bytes() == [1, 0, 0, 0]);
}

#[test]
fn exchange_returns_what_it_replaced() {
    let arr = [AtomicU32::new(7)];
    let mut shared = SharedMem::new(&arr);
    let mut done = false;
    for _ in 0..1000 {
        match shared.compare_exchange_weak(0, 7, 9) {
            Ok(replaced) => {
                assert_eq!(replaced, 7);
                done = true;
                break;
            }
            Err(found) => assert_eq!(found, 7),
        }
    }
    assert!(done);
    assert_eq!(shared.load(0), 9);
    assert_eq!(shared.compare_exchange_weak(0, 7, 1), Err(9));
    assert_eq!(shared.load(0), 9);
}

#[test]
fn memory_without_its_first_words() {
    let rest = LocalMem::new(vec![1, 2, 3, 4]).skip(1);
    assert_eq!(rest.len(), 3);
    assert_eq!(rest.slice_to(0, 3).get(), [2, 3, 4].as_slice());
    assert_eq!(LocalMem::new(vec![1, 2]).skip(2).len(), 0);
    let arr = [AtomicU32::new(1), AtomicU32::new(2), AtomicU32::new(3)];
    let rest = SharedMem::new(&arr).skip(2);
    assert_eq!(rest.len(), 1);
    rest.write_volatile(0, 9);
    assert_eq!(arr[2].load(std::sync::atomic::Ordering::Relaxed), 9);
    let state = FifoState::new(LocalMem::new(vec![1, 2, 3, 4]), LocalMem::new(vec![8]));
    assert_eq!(state.fifo.slice_to(0, 2).get(), [3, 4].as_slice());
    assert_eq!(state.fb.slice_to(0, 1).get(), [8].as_slice());
}
