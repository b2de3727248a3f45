//! Tests of the virtual machine: part and level loading, register
//! instructions, deferred thread scheduling, and step determinism.

use awlib::defines::{INACTIVE_THREAD, NUM_REGISTERS, NUM_THREADS};
use awlib::opcodes::{build_action_request, build_play_sound_action_request, ActionRequest,
    OpcodeKind, Opcodes};
use awlib::resources_manager::{FileEntry, ResourcesManager};
use awlib::video::Video;
use awlib::virtual_machine::VirtualMachine;

/// A resource table big enough for every part binding, with `script` bound
/// as part 1's script (the introduction).
fn resources_with_intro_script(script: Vec<u8>) -> ResourcesManager {
    let mut files = Vec::new();
    for i in 0..0x29u32 {
        let content = if i == 0x18 { script.clone() } else { Vec::new() };
        files.push(FileEntry { ftype: 4, content });
    }
    ResourcesManager { files }
}

#[test]
fn loading_the_introduction_binds_its_resources() {
    let mut vm = VirtualMachine::new();
    vm.restart_level(0);
    assert_eq!(vm.script_file_id, 0x18);
    assert_eq!(vm.polys1_file_id, 0x19);
    assert_eq!(vm.polys2_file_id, 0x00);
    assert_eq!(vm.palette_file_id, 0x17);
    for i in 0..64 {
        assert_eq!(vm.registers[i], 0);
    }
    assert_eq!(vm.registers[0xe4], 0x14);
    assert_eq!(vm.threads[0].pc, 0);
    assert_eq!(vm.active_thread, 0);
    for t in 1..NUM_THREADS {
        assert_eq!(vm.threads[t].pc, INACTIVE_THREAD);
    }
}

#[test]
fn later_levels_map_to_their_parts() {
    let mut vm = VirtualMachine::new();
    vm.restart_level(5);
    assert_eq!(vm.script_file_id, 0x21);
    assert_eq!(vm.polys1_file_id, 0x22);
    assert_eq!(vm.polys2_file_id, 0x11);
    assert_eq!(vm.palette_file_id, 0x20);
    vm.restart_level(14);
    assert_eq!(vm.script_file_id, 0x24);
}

#[test]
fn and_masks_the_unsigned_bit_pattern() {
    let mut vm = VirtualMachine::new();
    vm.registers[5] = -1; // all bits set
    // Operands of the and instruction: register 5, immediate 0x00f0.
    let operands = [0x05u8, 0x00, 0xf0];
    vm.exec_and(0, &operands);
    assert_eq!(vm.registers[5], 0x00f0);

    vm.registers[7] = -13570; // 0xcafe as an unsigned pattern
    let operands2 = [0x07u8, 0x00, 0xf0];
    vm.exec_and(0, &operands2);
    assert_eq!(vm.registers[7], 0x00f0);

    vm.registers[8] = 0x1234;
    let operands3 = [0x08u8, 0x00, 0xf0];
    vm.exec_and(0, &operands3);
    assert_eq!(vm.registers[8], 0x0030);
}

#[test]
fn register_arithmetic_wraps() {
    let mut vm = VirtualMachine::new();
    vm.registers[1] = i16::MAX;
    vm.registers[2] = 1;
    let operands = [0x01u8, 0x02];
    vm.exec_add(0, &operands);
    assert_eq!(vm.registers[1], i16::MIN);
}

#[test]
fn setvec_takes_effect_only_next_round() {
    // Thread 0 stages thread 1's program counter, then yields twice; the
    // staged change commits at the round boundary and thread 1 is picked up
    // only in the following round.
    let script = vec![
        0x08, 0x01, 0x00, 0x08, // stage thread 1 at address 8
        0x06, // yield
        0x06, // yield
        0x00, 0x00, // padding
        0x11, // address 8: thread 1 kills itself
    ];
    let rm = resources_with_intro_script(script);
    let mut vm = VirtualMachine::new();
    let mut video = Video::new();
    vm.restart_level(0);

    vm.step(&mut video, &rm); // the stage itself
    assert_eq!(vm.threads[1].pc, INACTIVE_THREAD);
    assert_eq!(vm.threads[1].next_pc, 0x0008);
    assert_eq!(vm.active_thread, 0);

    vm.step(&mut video, &rm); // yield: the boundary commits the change
    assert_eq!(vm.threads[1].pc, 0x0008);
    assert_eq!(vm.active_thread, 0); // but this round still runs thread 0

    vm.step(&mut video, &rm); // second yield: thread 1's turn comes
    assert_eq!(vm.active_thread, 1);

    vm.step(&mut video, &rm); // thread 1 kills itself
    assert_eq!(vm.threads[1].pc, INACTIVE_THREAD);
}

#[test]
fn step_sequences_are_deterministic() {
    let script = vec![
        0x00, 0x01, 0x00, 0x05, // r1 = 5
        0x02, 0x02, 0x01, // r2 += r1
        0x06, // yield
        0x07, 0x00, 0x04, // jump back to the add
    ];
    let rm = resources_with_intro_script(script);

    let run = |events: &[(usize, u8, bool)]| -> (Vec<u32>, Vec<i16>, Vec<u8>) {
        let mut vm = VirtualMachine::new();
        let mut video = Video::new();
        vm.init();
        vm.restart_level(0);
        let mut actions = Vec::new();
        for n in 0..200 {
            for &(at, key, down) in events {
                if at == n {
                    if down {
                        vm.on_key_down(key);
                    } else {
                        vm.on_key_up(key);
                    }
                }
            }
            actions.push(vm.step(&mut video, &rm));
        }
        let page = video.get_screen_page().clone();
        (actions, vm.registers.clone(), page)
    };

    let events = [(3usize, 2u8, true), (50, 2, false), (80, 16, true)];
    let (a1, r1, p1) = run(&events);
    let (a2, r2, p2) = run(&events);
    assert_eq!(a1, a2);
    assert_eq!(r1, r2);
    assert_eq!(p1, p2);
    assert!(r1[2] > 0); // the loop really ran
}

#[test]
fn invalid_opcode_kills_the_thread() {
    let script = vec![0x1b];
    let rm = resources_with_intro_script(script);
    let mut vm = VirtualMachine::new();
    let mut video = Video::new();
    vm.restart_level(0);
    let r = vm.step(&mut video, &rm);
    assert_eq!(r, 0);
    assert_eq!(vm.threads[0].pc, INACTIVE_THREAD);
}

#[test]
fn input_is_projected_once_per_round() {
    let script = vec![0x06, 0x07, 0x00, 0x00]; // yield; jump back
    let rm = resources_with_intro_script(script);
    let mut vm = VirtualMachine::new();
    let mut video = Video::new();
    vm.restart_level(0);
    vm.on_key_down(2); // right
    vm.on_key_down(4); // down
    vm.on_key_down(16); // action
    vm.step(&mut video, &rm); // the yield wraps the round and projects keys
    assert_eq!(vm.registers[0xfc], 1); // horizontal delta
    assert_eq!(vm.registers[0xe5], 1); // vertical delta
    assert_eq!(vm.registers[0xfb], 1);
    assert_eq!(vm.registers[0xfd], 1 | 4);
    assert_eq!(vm.registers[0xfa], 1);
    assert_eq!(vm.registers[0xfe], (1 | 4) | 0x80u8 as i16);
    vm.on_key_up(2);
    vm.on_key_up(16);
    vm.step(&mut video, &rm); // the jump back; no round boundary yet
    vm.step(&mut video, &rm); // the next yield projects the released keys
    assert_eq!(vm.registers[0xfc], 0);
    assert_eq!(vm.registers[0xfd], 4);
    assert_eq!(vm.registers[0xfa], 0);
    assert_eq!(vm.registers[0xfe], 4);
}

#[test]
fn load_resource_stages_a_part_switch() {
    // The load-resource instruction with an id above the part base stages a
    // deferred switch, reported to the host, and consumed next step.
    let script = vec![0x19, 0x3e, 0x82, 0x06]; // load part id 2; yield
    let rm = resources_with_intro_script(script);
    let mut vm = VirtualMachine::new();
    let mut video = Video::new();
    vm.restart_level(0);
    let r = vm.step(&mut video, &rm);
    assert_eq!(r >> 24, 3); // a load-part action
    assert_eq!((r >> 16) & 0xff, 2);
    assert_eq!(vm.next_part_id, 2);
    vm.registers[5] = 77;
    vm.registers[200] = -7;
    vm.step(&mut video, &rm);
    assert_eq!(vm.script_file_id, 0x1b); // part 2 is bound
    assert_eq!(vm.next_part_id, 0);
    // A part load resets the registers below 64; the rest survive.
    assert_eq!(vm.registers[5], 0);
    assert_eq!(vm.registers[200], -7);
}

#[test]
fn action_words_pack_their_fields() {
    assert_eq!(build_action_request(ActionRequest::Blit, 7), 0x0207_0000);
    assert_eq!(build_action_request(ActionRequest::YieldThread, 0), 0x0100_0000);
    // The channel-and-frequency byte is or-ed in, so a high channel bit
    // lands in the id byte, exactly as the packing defines it.
    assert_eq!(build_play_sound_action_request(1, 2, 3, 4), 0x0401_0203);
    assert_eq!(build_play_sound_action_request(9, 5, 1, 2), 0x0409_8501);
}

#[test]
fn opcode_decoding_follows_the_high_bits() {
    let table = Opcodes::new();
    assert_eq!(table.get(0x00).kind, OpcodeKind::MovImm);
    assert_eq!(table.get(0x0a).kind, OpcodeKind::CondJmp);
    assert_eq!(table.get(0x1a).kind, OpcodeKind::Music);
    assert_eq!(table.get(0x1b).kind, OpcodeKind::Invalid);
    assert_eq!(table.get(0x3f).kind, OpcodeKind::Invalid);
    assert_eq!(table.get(0x40).kind, OpcodeKind::DrawPolySpecial);
    assert_eq!(table.get(0x80).kind, OpcodeKind::DrawPolyBackground);
    assert_eq!(table.get(0xc3).kind, OpcodeKind::DrawPolyBackground);
}

#[test]
fn instruction_lengths_match_their_encodings() {
    let table = Opcodes::new();
    assert_eq!(table.get(0x00).len(1, &[0u8; 8]), Some(4));
    assert_eq!(table.get(0x05).len(1, &[0u8; 8]), Some(1));
    // The conditional jump grows a byte for a 16-bit right operand.
    assert_eq!(table.get(0x0a).len(1, &[0x0a, 0x40, 0, 0, 0, 0, 0, 0]), Some(7));
    assert_eq!(table.get(0x0a).len(1, &[0x0a, 0x00, 0, 0, 0, 0, 0, 0]), Some(6));
    // The extended polygon draw reads its own opcode byte's mode bits:
    // 16-bit x and y operands add a byte each, a defaulted zoom drops one.
    assert_eq!(table.get(0x40).len(1, &[0x40, 0, 0, 0, 0, 0, 0, 0, 0]), Some(7));
    assert_eq!(table.get(0x41).len(1, &[0x41, 0, 0, 0, 0, 0, 0, 0, 0]), Some(8));
    assert_eq!(table.get(0x54).len(1, &[0x54, 0, 0, 0, 0, 0, 0, 0, 0]), Some(5));
}

#[test]
fn conditional_jump_compares_as_signed() {
    let mut vm = VirtualMachine::new();
    vm.registers[2] = -5;
    // Compare register 2 with immediate byte 3, jump to 0x1234 if less.
    let operands = [0x04u8, 0x02, 0x03, 0x12, 0x34];
    vm.exec_cond_jmp(0, &operands);
    assert_eq!(vm.threads[0].pc, 0x1234);
}

#[test]
fn call_and_return_use_the_stack() {
    let mut vm = VirtualMachine::new();
    let operands = [0x00u8, 0x40];
    vm.exec_call(0, &operands);
    assert_eq!(vm.threads[0].pc, 0x0040);
    assert!(vm.exec_ret(0));
    assert_eq!(vm.threads[0].pc, 2);
    assert!(!vm.exec_ret(0)); // the stack is empty again
}

#[test]
fn shifts_mask_their_amount() {
    let mut vm = VirtualMachine::new();
    vm.registers[3] = 1;
    // A shift amount of 17 acts as a shift by one, as the hardware masks it.
    let operands = [0x03u8, 0x00, 0x11];
    vm.exec_shl(0, &operands);
    assert_eq!(vm.registers[3], 2);
    vm.exec_shr(0, &operands);
    assert_eq!(vm.registers[3], 1);
}

#[test]
fn reset_range_is_staged_and_clamped() {
    let mut vm = VirtualMachine::new();
    // Kill threads 2 through 4; the change is staged, not immediate.
    let operands = [0x02u8, 0x04, 0x02];
    vm.exec_reset_threads(0, &operands);
    for t in 2..=4usize {
        assert_eq!(vm.threads[t].pc, 0);
        assert_eq!(vm.threads[t].next_pc, INACTIVE_THREAD - 1);
    }
    assert_eq!(vm.threads[5].next_pc, 0);
    // A range whose start lies past its masked end does nothing.
    let empty = [0x09u8, 0x03, 0x02];
    vm.exec_reset_threads(0, &empty);
    assert_eq!(vm.threads[9].next_pc, 0);
}

#[test]
fn registers_bank_has_the_fixed_size() {
    let vm = VirtualMachine::new();
    assert_eq!(vm.registers.len(), NUM_REGISTERS);
    assert_eq!(vm.threads.len(), NUM_THREADS);
}
