use vmware_svga_vulkan_impl::fifo_processor::cmd::fetch_fifo_cmd;
use vmware_svga_vulkan_impl::fifo_processor::cmd::FifoCmd;
use vmware_svga_vulkan_impl::fifo_processor::cmd::FifoCmdBuildable;
use vmware_svga_vulkan_impl::fifo_processor::cmd::FifoCmdFence;
use vmware_svga_vulkan_impl::fifo_processor::cmd::FifoCmdInfo;
use vmware_svga_vulkan_impl::fifo_processor::cmd::FifoCmdUpdate;
use vmware_svga_vulkan_impl::fifo_processor::cmd::FifoCommand;
use vmware_svga_vulkan_impl::fifo_processor::fifo_reader::FifoError;
use vmware_svga_vulkan_impl::fifo_processor::fifo_reader::FifoReader;
use vmware_svga_vulkan_impl::shared_mem::LocalMem;
use vmware_svga_vulkan_impl::shared_mem::WordMemory;

fn ring(stop: u32, next_cmd: u32, words: [u32; 6]) -> FifoReader<LocalMem> {
    let mut all = vec![16, 40, next_cmd, stop];
    all.extend_from_slice(&words);
    FifoReader::new(LocalMem::new(all)).unwrap()
}

#[test]
fn fetches_an_update() {
    let mut reader = ring(16, 36, [1, 10, 20, 300, 400, 0]);
    let mut view = reader.view().unwrap();
    let cmd = fetch_fifo_cmd(&mut view).unwrap().unwrap();
    assert_eq!(
        cmd,
        FifoCommand::Update(FifoCmdUpdate { x: 10, y: 20, width: 300, height: 400 })
    );
    assert_eq!(cmd.opcode(), 1);
    assert_eq!(cmd.name(), "SVGA_CMD_UPDATE");
    assert_eq!(view.available(), 0);
    assert_eq!(fetch_fifo_cmd(&mut view), Ok(None));
    assert_eq!(view.commit(), Ok(36));
}

#[test]
fn fetches_an_update_across_the_end() {
    let mut reader = ring(32, 28, [300, 400, 0, 0, 1, 10]);
    let mut view = reader.view().unwrap();
    assert_eq!(view.available(), 5);
    assert_eq!(
        fetch_fifo_cmd(&mut view),
        Ok(Some(FifoCommand::Update(FifoCmdUpdate { x: 10, y: 300, width: 400, height: 0 })))
    );
    assert_eq!(view.commit(), Ok(28));
}

#[test]
fn fetches_a_fence() {
    let mut reader = ring(16, 24, [30, 77, 0, 0, 0, 0]);
    let mut view = reader.view().unwrap();
    let cmd = fetch_fifo_cmd(&mut view).unwrap().unwrap();
    assert_eq!(cmd, FifoCommand::Fence(FifoCmdFence { fence: 77 }));
    assert_eq!(cmd.opcode(), 30);
    assert_eq!(cmd.name(), "SVGA_CMD_FENCE");
    assert_eq!(view.commit(), Ok(24));
}

#[test]
fn commands_follow_each_other() {
    let mut reader = ring(36, 32, [10, 20, 30, 40, 30, 30]);
    let mut view = reader.view().unwrap();
    assert_eq!(view.available(), 5);
    assert_eq!(
        fetch_fifo_cmd(&mut view),
        Ok(Some(FifoCommand::Fence(FifoCmdFence { fence: 10 })))
    );
    assert_eq!(view.commit(), Ok(20));
    let mut view = reader.view().unwrap();
    assert_eq!(fetch_fifo_cmd(&mut view), Err(FifoError::UnknownOpcode(20)));
}

#[test]
fn unknown_opcode_is_an_error() {
    let mut reader = ring(16, 24, [2, 0, 0, 0, 0, 0]);
    let mut view = reader.view().unwrap();
    assert_eq!(fetch_fifo_cmd(&mut view), Err(FifoError::UnknownOpcode(2)));
    drop(view);
    assert_eq!(reader.memory().load(3), 16);
}

#[test]
fn command_without_all_its_arguments_waits() {
    let mut reader = ring(16, 32, [1, 10, 20, 300, 400, 0]);
    let mut view = reader.view().unwrap();
    assert_eq!(view.available(), 4);
    assert_eq!(fetch_fifo_cmd(&mut view), Ok(None));
    assert_eq!(view.available(), 3);
    drop(view);
    assert_eq!(reader.available(), Ok((4, 16)));

    let mut reader = ring(16, 20, [30, 0, 0, 0, 0, 0]);
    let mut view = reader.view().unwrap();
    assert_eq!(fetch_fifo_cmd(&mut view), Ok(None));
}

#[test]
fn empty_ring_fetches_nothing() {
    let mut reader = ring(24, 24, [1, 10, 20, 300, 400, 0]);
    let mut view = reader.view().unwrap();
    assert_eq!(fetch_fifo_cmd(&mut view), Ok(None));
    assert_eq!(view.commit(), Ok(24));
}

#[test]
fn builds_from_the_view() {
    let mut reader = ring(16, 36, [10, 20, 300, 400, 9, 0]);
    let mut view = reader.view().unwrap();
    assert_eq!(
        FifoCmdUpdate::from_fifo(&mut view),
        Some(FifoCmdUpdate { x: 10, y: 20, width: 300, height: 400 })
    );
    assert_eq!(FifoCmdUpdate::from_fifo(&mut view), None);
    assert_eq!(FifoCmdFence::from_fifo(&mut view), Some(FifoCmdFence { fence: 9 }));
    assert_eq!(FifoCmdFence::from_fifo(&mut view), None);
    assert_eq!(FifoCmdUpdate::from_words(&[1, 2, 3, 4]).height, 4);
}

#[test]
fn command_constants() {
    assert_eq!(FifoCmdUpdate::OPCODE, 1);
    assert_eq!(FifoCmdUpdate::ARGS, 4);
    assert_eq!(FifoCmdUpdate::NAME, "SVGA_CMD_UPDATE");
    assert_eq!(FifoCmdFence::OPCODE, 30);
    assert_eq!(FifoCmdFence::ARGS, 1);
    assert_eq!(FifoCmdFence::NAME, "SVGA_CMD_FENCE");
    let update = FifoCmdUpdate { x: 0, y: 0, width: 1, height: 1 };
    assert_eq!(update.opcode(), 1);
    assert_eq!(update.name(), "SVGA_CMD_UPDATE");
    let fence = FifoCmdFence { fence: 3 };
    assert_eq!(fence.opcode(), 30);
    assert_eq!(fence.name(), "SVGA_CMD_FENCE");
}

#[test]
fn update_hands_over_the_whole_frame() {
    let fb = LocalMem::new(vec![11, 12, 13, 14, 15, 16, 17]);
    let update = FifoCommand::Update(FifoCmdUpdate { x: 1, y: 1, width: 1, height: 1 });
    let pixels = update.process(&fb, 3, 2).unwrap();
    assert_eq!(pixels.get(), [11, 12, 13, 14, 15, 16].as_slice());
    assert!(update.process(&fb, 0, 5).unwrap().get().is_empty());
    let fence = FifoCommand::Fence(FifoCmdFence { fence: 0 });
    assert!(fence.process(&fb, 3, 2).is_none());
}

#[test]
fn command_beyond_the_memory_is_an_error() {
    // The opcode lies beyond the memory.
    let mut reader = FifoReader::new(LocalMem::new(vec![16, 48, 44, 40, 1, 2, 3, 4])).unwrap();
    let mut view = reader.view().unwrap();
    assert_eq!(view.available(), 1);
    assert_eq!(fetch_fifo_cmd(&mut view), Err(FifoError::BoundsOutsideMemory));
    assert_eq!(view.available(), 1);

    // The opcode is there, its argument is not.
    let mut reader = FifoReader::new(LocalMem::new(vec![16, 48, 36, 28, 1, 2, 3, 30])).unwrap();
    let mut view = reader.view().unwrap();
    assert_eq!(view.available(), 2);
    assert_eq!(fetch_fifo_cmd(&mut view), Err(FifoError::BoundsOutsideMemory));
    assert_eq!(view.available(), 1);
    drop(view);
    assert_eq!(reader.memory().load(3), 28);

    // The argument has not been written yet: nothing is read beyond the memory.
    let mut reader = FifoReader::new(LocalMem::new(vec![16, 48, 32, 28, 1, 2, 3, 30])).unwrap();
    let mut view = reader.view().unwrap();
    assert_eq!(fetch_fifo_cmd(&mut view), Ok(None));

    // All of the command lies in the memory, though the ring does not.
    let mut reader = FifoReader::new(LocalMem::new(vec![16, 48, 32, 24, 1, 2, 30, 9])).unwrap();
    let mut view = reader.view().unwrap();
    assert_eq!(
        fetch_fifo_cmd(&mut view),
        Ok(Some(FifoCommand::Fence(FifoCmdFence { fence: 9 })))
    );
    assert_eq!(view.commit(), Ok(32));
}
