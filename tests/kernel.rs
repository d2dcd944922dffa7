use my_kernel::context::{create_user_context, UserContext, ENTRY_POINT};
use my_kernel::loader::{create_vm_space, MAP_ADDR};
use my_kernel::mm::{AccessFault, FrameSegment, PAGE_SIZE};
use my_kernel::space::{AddressSpace, MappingViolation, PageFlags};
use my_kernel::syscall::{
    complete_write, handle_syscall, SyscallError, SyscallOutcome, EFAULT_RET, EINVAL_RET,
    ENOSYS_RET, SYS_EXIT, SYS_WRITE,
};
use my_kernel::task::{create_user_task, CoreSlot, ReturnReason, TaskState, TrapAction};
use std::sync::Arc;

const RO: PageFlags = PageFlags { read: true, write: false, execute: false };
const WO: PageFlags = PageFlags { read: false, write: true, execute: false };

fn segment_with(nframes: usize, data: &[u8]) -> FrameSegment {
    let mut s = FrameSegment::alloc_segment(nframes);
    s.write_bytes(0, data).unwrap();
    s
}

fn syscall_ctx(num: u64, a0: u64, a1: u64, a2: u64) -> UserContext {
    let mut c = create_user_context();
    c.a7 = num;
    c.a0 = a0;
    c.a1 = a1;
    c.a2 = a2;
    c
}

#[test]
fn loader_pads_image_to_whole_pages() {
    let image: Vec<u8> = (0..5000u32).map(|i| (i % 251) as u8 + 1).collect();
    let space = create_vm_space(&image);
    assert_eq!(space.num_ranges(), 1);
    let mapped = space.read(MAP_ADDR, 2 * PAGE_SIZE as u64).unwrap();
    assert_eq!(mapped.len(), 8192);
    assert_eq!(&mapped[..5000], &image[..]);
    assert!(mapped[5000..].iter().all(|b| *b == 0));
    assert_eq!(space.read(MAP_ADDR + 8192, 1), Err(AccessFault));
    assert_eq!(space.read(MAP_ADDR - 1, 1), Err(AccessFault));
}

#[test]
fn loader_exact_page_image_maps_one_page() {
    let image = vec![7u8; 4096];
    let space = create_vm_space(&image);
    assert_eq!(space.read(MAP_ADDR, 4096).unwrap(), image);
    assert_eq!(space.read(MAP_ADDR + 4095, 2), Err(AccessFault));
}

#[test]
fn loader_one_byte_image_maps_one_zero_padded_page() {
    let space = create_vm_space(&[0xab]);
    let mapped = space.read(MAP_ADDR, 4096).unwrap();
    assert_eq!(mapped[0], 0xab);
    assert!(mapped[1..].iter().all(|b| *b == 0));
    assert_eq!(space.read(MAP_ADDR + 4096, 1), Err(AccessFault));
}

#[test]
fn loader_empty_image_maps_nothing_readable() {
    let space = create_vm_space(&[]);
    assert_eq!(space.read(MAP_ADDR, 1), Err(AccessFault));
    assert_eq!(space.read(MAP_ADDR, 0), Ok(vec![]));
}

#[test]
fn map_rejects_misaligned_base() {
    let mut space = AddressSpace::new();
    assert_eq!(space.map(0x1001, FrameSegment::alloc_segment(1), RO), Err(MappingViolation));
    assert_eq!(space.num_ranges(), 0);
}

#[test]
fn map_rejects_overlap_and_keeps_prior_mappings() {
    let mut space = AddressSpace::new();
    assert_eq!(space.map(0x10000, segment_with(2, b"abc"), RO), Ok(()));
    assert_eq!(space.map(0x11000, FrameSegment::alloc_segment(1), RO), Err(MappingViolation));
    assert_eq!(space.map(0xf000, FrameSegment::alloc_segment(2), RO), Err(MappingViolation));
    assert_eq!(space.map(0x8000, FrameSegment::alloc_segment(16), RO), Err(MappingViolation));
    assert_eq!(space.num_ranges(), 1);
    assert_eq!(space.read(0x10000, 3).unwrap(), b"abc".to_vec());
    assert_eq!(space.map(0x12000, FrameSegment::alloc_segment(1), RO), Ok(()));
    assert_eq!(space.map(0xf000, FrameSegment::alloc_segment(1), RO), Ok(()));
    assert_eq!(space.num_ranges(), 3);
}

#[test]
fn map_rejects_range_past_address_space_end() {
    let mut space = AddressSpace::new();
    let base = u64::MAX - 4095;
    assert_eq!(space.map(base, FrameSegment::alloc_segment(2), RO), Err(MappingViolation));
    assert_eq!(space.map(base, FrameSegment::alloc_segment(1), RO), Ok(()));
    assert_eq!(space.read(u64::MAX, 1), Ok(vec![0]));
    assert_eq!(space.read(u64::MAX, 2), Err(AccessFault));
}

#[test]
fn read_spans_adjacent_ranges() {
    let mut space = AddressSpace::new();
    let mut first = vec![0u8; 4096];
    first[4095] = b'x';
    space.map(0x2000, segment_with(1, &first), RO).unwrap();
    space.map(0x3000, segment_with(1, b"yz"), RO).unwrap();
    assert_eq!(space.read(0x2fff, 3).unwrap(), b"xyz".to_vec());
}

#[test]
fn read_needs_read_permission() {
    let mut space = AddressSpace::new();
    space.map(0x2000, segment_with(1, b"secret"), WO).unwrap();
    assert_eq!(space.read(0x2000, 1), Err(AccessFault));
}

#[test]
fn segment_write_out_of_bounds_fails() {
    let mut s = FrameSegment::alloc_segment(1);
    assert_eq!(s.write_bytes(4095, b"ab"), Err(AccessFault));
    assert_eq!(s.write_bytes(4094, b"ab"), Ok(()));
    assert_eq!(s.byte(4094), b'a');
    assert_eq!(s.nframes(), 1);
    assert_eq!(s.nbytes(), 4096);
}

#[test]
fn user_context_starts_at_entry_point() {
    let c = create_user_context();
    assert_eq!(c.instruction_pointer(), ENTRY_POINT);
    assert_eq!(ENTRY_POINT, 0x120000078);
    assert_eq!((c.a0(), c.a1(), c.a2(), c.a7()), (0, 0, 0, 0));
    let mut d = UserContext::new(5);
    d.set_a0(9);
    d.set_instruction_pointer(6);
    assert_eq!(d.a0(), 9);
    assert_eq!(d.instruction_pointer(), 6);
}

#[test]
fn write_syscall_returns_length_and_emits_resident_bytes() {
    let mut image = vec![0u8; 0x200];
    image[0x100..0x10a].copy_from_slice(b"hello, os\n");
    let space = create_vm_space(&image);
    let mut ctx = syscall_ctx(SYS_WRITE, 1, MAP_ADDR + 0x100, 10);
    let before = ctx;
    match handle_syscall(&mut ctx, &space) {
        SyscallOutcome::Console(bytes) => assert_eq!(bytes, b"hello, os\n".to_vec()),
        other => panic!("unexpected outcome {:?}", other),
    }
    assert_eq!(ctx.a0, 10);
    assert_eq!(UserContext { a0: 1, ..ctx }, before);
}

#[test]
fn write_syscall_with_buffer_past_mapping_faults() {
    let space = create_vm_space(&[b'a'; 16]);
    let mut ctx = syscall_ctx(SYS_WRITE, 1, MAP_ADDR + 4090, 10);
    let before = ctx;
    match handle_syscall(&mut ctx, &space) {
        SyscallOutcome::Failed(e) => assert_eq!(e, SyscallError::CrossSpaceAccessFault),
        other => panic!("unexpected outcome {:?}", other),
    }
    assert_eq!(ctx, UserContext { a0: EFAULT_RET, ..before });
    assert_eq!(space.read(MAP_ADDR, 16).unwrap(), vec![b'a'; 16]);
}

#[test]
fn write_syscall_with_wrapping_buffer_faults() {
    let space = create_vm_space(&[b'a'; 16]);
    let mut ctx = syscall_ctx(SYS_WRITE, 1, u64::MAX, 2);
    match handle_syscall(&mut ctx, &space) {
        SyscallOutcome::Failed(e) => assert_eq!(e, SyscallError::CrossSpaceAccessFault),
        other => panic!("unexpected outcome {:?}", other),
    }
    assert_eq!(ctx.a0, EFAULT_RET);
}

#[test]
fn write_syscall_with_invalid_text_reports_decode_failure() {
    let space = create_vm_space(&[0xff, 0xfe]);
    let mut ctx = syscall_ctx(SYS_WRITE, 1, MAP_ADDR, 2);
    match handle_syscall(&mut ctx, &space) {
        SyscallOutcome::Failed(e) => assert_eq!(e, SyscallError::DecodeFailure),
        other => panic!("unexpected outcome {:?}", other),
    }
    assert_eq!(ctx.a0, EINVAL_RET);
}

#[test]
fn complete_write_takes_decode_result() {
    let mut ctx = syscall_ctx(SYS_WRITE, 1, 2, 3);
    match complete_write(&mut ctx, b"abc".to_vec(), true) {
        SyscallOutcome::Console(bytes) => assert_eq!(bytes, b"abc".to_vec()),
        other => panic!("unexpected outcome {:?}", other),
    }
    assert_eq!(ctx.a0, 3);
    let mut ctx = syscall_ctx(SYS_WRITE, 1, 2, 3);
    match complete_write(&mut ctx, b"abc".to_vec(), false) {
        SyscallOutcome::Failed(e) => assert_eq!(e, SyscallError::DecodeFailure),
        other => panic!("unexpected outcome {:?}", other),
    }
    assert_eq!(ctx.a0, EINVAL_RET);
}

#[test]
fn exit_syscall_carries_status() {
    let space = create_vm_space(&[0u8; 8]);
    let mut ctx = syscall_ctx(SYS_EXIT, 3, 0, 0);
    match handle_syscall(&mut ctx, &space) {
        SyscallOutcome::Exit(code) => assert_eq!(code, 3),
        other => panic!("unexpected outcome {:?}", other),
    }
    assert_eq!(ctx.a0, 3);
}

#[test]
fn unknown_syscall_is_answered_not_fatal() {
    let space = create_vm_space(&[0u8; 8]);
    let mut ctx = syscall_ctx(172, 0, 0, 0);
    match handle_syscall(&mut ctx, &space) {
        SyscallOutcome::Failed(e) => assert_eq!(e, SyscallError::UnknownSyscall),
        other => panic!("unexpected outcome {:?}", other),
    }
    assert_eq!(ctx.a0, ENOSYS_RET);

    let mut task = create_user_task(Arc::new(space));
    assert!(task.enter().is_some());
    assert!(matches!(task.on_return(ReturnReason::UserSyscall, syscall_ctx(172, 0, 0, 0)), TrapAction::Resume));
    assert_eq!(task.current_state(), TaskState::Trapped(ReturnReason::UserSyscall));
    assert_eq!(task.user_context().a0, ENOSYS_RET);
    assert!(task.enter().is_some());
    assert_eq!(task.current_state(), TaskState::Running);
}

#[test]
fn exit_halts_with_success_and_task_never_reenters() {
    for code in [0u64, 1, u64::MAX] {
        let mut task = create_user_task(Arc::new(create_vm_space(&[0u8; 8])));
        assert!(task.enter().is_some());
        assert!(matches!(task.on_return(ReturnReason::UserSyscall, syscall_ctx(SYS_EXIT, code, 0, 0)), TrapAction::HaltSuccess));
        assert_eq!(task.current_state(), TaskState::Exited(code));
        assert!(task.enter().is_none());
        assert_eq!(task.current_state(), TaskState::Exited(code));
    }
}

#[test]
fn exception_reclaims_only_the_task() {
    let mut task = create_user_task(Arc::new(create_vm_space(&[0u8; 8])));
    assert_eq!(task.current_state(), TaskState::Ready);
    let ctx = task.enter().unwrap();
    assert_eq!(ctx.ip, ENTRY_POINT);
    assert!(task.enter().is_none());
    assert!(matches!(task.on_return(ReturnReason::UserException, ctx), TrapAction::Reclaim));
    assert_eq!(task.current_state(), TaskState::Faulted);
    assert!(task.enter().is_none());
}

#[test]
fn kernel_event_resumes() {
    let mut task = create_user_task(Arc::new(create_vm_space(&[0u8; 8])));
    let mut ctx = task.enter().unwrap();
    ctx.ip += 4;
    assert!(matches!(task.on_return(ReturnReason::KernelEvent, ctx), TrapAction::Resume));
    assert_eq!(task.current_state(), TaskState::Trapped(ReturnReason::KernelEvent));
    assert_eq!(task.enter(), Some(ctx));
}

#[test]
fn faulting_write_leaves_task_running() {
    let mut task = create_user_task(Arc::new(create_vm_space(b"hi\n")));
    task.enter().unwrap();
    let regs = syscall_ctx(SYS_WRITE, 1, 0x1000, 3);
    assert!(matches!(task.on_return(ReturnReason::UserSyscall, regs), TrapAction::Resume));
    assert_eq!(task.user_context(), UserContext { a0: EFAULT_RET, ..regs });
    assert!(task.enter().is_some());
}

#[test]
fn core_slot_holds_one_active_space() {
    let mut slot = CoreSlot::new();
    assert!(!slot.has_active());
    slot.activate(Arc::new(create_vm_space(b"a")));
    slot.activate(Arc::new(create_vm_space(b"b")));
    assert!(slot.has_active());
}

#[test]
fn hello_program_prints_and_halts() {
    // One page: the string "hi\n" at offset 0x80.
    let mut image = vec![0u8; 4096];
    image[0x80..0x83].copy_from_slice(b"hi\n");
    let space = Arc::new(create_vm_space(&image));
    let mut slot = CoreSlot::new();
    slot.activate(space.clone());
    let mut task = create_user_task(space);

    let mut console: Vec<u8> = Vec::new();
    let mut halted = false;
    let program = [
        syscall_ctx(SYS_WRITE, 1, MAP_ADDR + 0x80, 3),
        syscall_ctx(SYS_EXIT, 0, 0, 0),
    ];
    for regs in program {
        assert!(task.enter().is_some());
        match task.on_return(ReturnReason::UserSyscall, regs) {
            TrapAction::Print(bytes) => console.extend_from_slice(&bytes),
            TrapAction::HaltSuccess => halted = true,
            other => panic!("unexpected action {:?}", other),
        }
    }
    assert_eq!(console, b"hi\n".to_vec());
    assert!(halted);
    assert_eq!(task.current_state(), TaskState::Exited(0));
    assert!(task.enter().is_none());
}

#[test]
fn cross_space_write_stores_bytes() {
    let mut space = create_vm_space(&[0u8; 10]);
    assert_eq!(space.write(MAP_ADDR + 2, b"abc"), Ok(()));
    assert_eq!(space.read(MAP_ADDR, 6).unwrap(), vec![0, 0, b'a', b'b', b'c', 0]);
    assert_eq!(space.write(MAP_ADDR + 4094, b"abc"), Err(AccessFault));
    assert_eq!(space.read(MAP_ADDR + 4094, 2).unwrap(), vec![0, 0]);
}

#[test]
fn cross_space_write_spans_ranges_and_needs_permission() {
    let mut space = AddressSpace::new();
    let rw = PageFlags { read: true, write: true, execute: false };
    space.map(0x4000, FrameSegment::alloc_segment(1), rw).unwrap();
    space.map(0x5000, FrameSegment::alloc_segment(1), rw).unwrap();
    space.map(0x6000, FrameSegment::alloc_segment(1), RO).unwrap();
    assert_eq!(space.write(0x4ffe, b"wxyz"), Ok(()));
    assert_eq!(space.read(0x4ffe, 4).unwrap(), b"wxyz".to_vec());
    assert_eq!(space.write(0x5fff, b"pq"), Err(AccessFault));
    assert_eq!(space.read(0x5fff, 2).unwrap(), vec![0, 0]);
    assert_eq!(space.write(u64::MAX, b"a"), Err(AccessFault));
    assert_eq!(space.write(0x6000, b""), Ok(()));
}
