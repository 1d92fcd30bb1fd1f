use flight_core::ahrs::{ImuSample, AHRS};
use flight_core::arbiter::{
    ceiling, enter_section, leave_section, may_preempt, next_task, priority, Resource, Task,
};
use flight_core::bootloader::stm32f30x::{BootTarget, Bootloader, BOOTLOADER_REQUEST};
use flight_core::bootloader::Bootloader as BootloaderOps;
use flight_core::chrono::{rtfm_stopwatch, DwtClock};
use flight_core::cmd::Cmd;
use flight_core::communication::channel;
use flight_core::controllers::body_rate;
use flight_core::fixed::SCALE;
use flight_core::mixer::quad_x_mixer;
use flight_core::tasks::{control_cycle, idle_step, rx_byte};
use flight_core::telemetry::create as telemetry_create;
use flight_core::types::{Control, DeviceError, State};
use flight_core::trig::{PI_2_FIX, PI_4_FIX, PI_FIX};
use flight_core::utils::{fill_with_bytes, fill_with_str, to_rads};

#[test]
fn bootloader_round_trip() {
    let mut bl = Bootloader::new();
    bl.check_request();
    assert_eq!(bl.target, BootTarget::Application);
    bl.to_bootloader();
    assert_eq!(bl.bkp0, BOOTLOADER_REQUEST);
    assert!(bl.reset_pending);
    // The next boot's check sees the magic value and diverts.
    bl.check_request();
    assert_eq!(bl.target, BootTarget::SystemBootloader);
}

#[test]
fn plain_reset_does_not_divert() {
    let mut bl = Bootloader::new();
    bl.system_reset();
    assert!(bl.reset_pending);
    bl.check_request();
    assert_eq!(bl.target, BootTarget::Application);
}

#[test]
fn stopwatch_measures_elapsed_cycles() {
    let mut c = rtfm_stopwatch(64_000_000, 0);
    // 640_000 cycles at 64 MHz are 10 ms: 0.01 s in fixed point.
    assert_eq!(c.split_time_s(640_000), 10_000);
    assert_eq!(c.last, 640_000);
    assert_eq!(c.split_time_s(640_000), 0);
}

#[test]
fn stopwatch_survives_counter_wrap() {
    let mut c = DwtClock::new(64_000_000, u32::MAX - 255);
    // 512 cycles across the 32-bit wrap: 8 microseconds.
    assert_eq!(c.split_time_s(256), 8);
}

#[test]
fn stopwatch_reset_discards_elapsed_time() {
    let mut c = DwtClock::new(1_000_000, 0);
    c.reset(500);
    assert_eq!(c.split_time_s(600), 100);
}

#[test]
fn controller_zero_state_zero_command() {
    let state = State::new();
    let control = Control::new();
    let (cmd, errors) = body_rate(&state, &control);
    assert_eq!(cmd, [0, 0, 0]);
    assert_eq!(errors, [0, 0, 0]);
}

#[test]
fn controller_yaw_command_is_always_zero() {
    let mut state = State::new();
    state.ahrs.ypr.yaw = 1_000_000;
    state.ahrs.biased_gyro = [5_000, 6_000, 7_000];
    let mut control = Control::new();
    control.pk = 3;
    control.yaw_pk = 9;
    control.target_degrees.yaw = 45;
    let (cmd, errors) = body_rate(&state, &control);
    assert_eq!(cmd[2], 0);
    assert_ne!(errors[2], 0);
}

#[test]
fn controller_exact_proportional_derivative() {
    // pitch target 10 degrees from level, pitch gain 2, pk 3, dk 1,
    // no rates, no previous error.
    let mut control = Control::new();
    control.pitch_pk = 2;
    control.pk = 3;
    control.dk = 1;
    control.target_degrees.pitch = 10;
    let state = State::new();
    let (cmd, errors) = body_rate(&state, &control);
    let outer = (10 * PI_FIX / 180) * 2;
    assert_eq!(errors[1], outer);
    assert_eq!(cmd[1], outer * 3 + outer * 1);
    // The integral gain has no effect by design.
    let mut with_ik = control;
    with_ik.ik = 1000;
    let (cmd_ik, _) = body_rate(&state, &with_ik);
    assert_eq!(cmd_ik, cmd);
}

#[test]
fn controller_target_scale_matches_measured_angles() {
    // A measured pitch of exactly a quarter turn against a 90-degree
    // target: on the shared fixed-point pi scale the outer error is
    // exactly zero, so the commanded correction carries no constant bias.
    let mut state = State::new();
    state.ahrs.ypr.pitch = PI_2_FIX;
    let mut control = Control::new();
    control.pitch_pk = 5;
    control.pk = 1;
    control.target_degrees.pitch = 90;
    let (cmd, errors) = body_rate(&state, &control);
    assert_eq!(errors[1], 0);
    assert_eq!(cmd[1], 0);
}

#[test]
fn to_rads_agrees_with_the_fixed_point_pi() {
    assert_eq!(to_rads(0), 0);
    assert_eq!(to_rads(180), PI_FIX);
    assert_eq!(to_rads(90), PI_2_FIX);
    assert_eq!(to_rads(45), PI_4_FIX);
    assert_eq!(to_rads(-90), -PI_2_FIX);
    assert_eq!(to_rads(-180), -PI_FIX);
    assert_eq!(to_rads(360), 2 * PI_FIX);
    assert_eq!(to_rads(1), 17453);
}

#[test]
fn buffer_fillers_append() {
    let mut buf = Vec::new();
    fill_with_bytes(&mut buf, b"ab");
    fill_with_str(&mut buf, "cd");
    assert_eq!(buf, b"abcd".to_vec());
}

#[test]
fn rx_byte_reports_ring_overflow() {
    let mut p = flight_core::spsc::pipe();
    for i in 0..16u8 {
        assert!(rx_byte(&mut p, i));
    }
    assert!(!rx_byte(&mut p, 16));
    assert_eq!(p.dequeue(), Some(0));
}

#[test]
fn idle_step_status_sends_coefficients() {
    let mut cmd = Cmd::new();
    let mut control = Control::new();
    control.pk = 4;
    let tele = telemetry_create();
    let mut slot = Some(channel());
    let mut bl = Bootloader::new();
    for b in "status\r".bytes() {
        idle_step(&mut cmd, &mut control, &tele, &mut slot, &mut bl, b, false);
    }
    let ch = slot.expect("channel put back");
    let frame = String::from_utf8(ch.payload().clone()).unwrap();
    assert_eq!(frame, "ct:4;0;0;0;0;0;\n");
    assert!(!bl.reset_pending);
}

#[test]
fn idle_step_boot_records_intent() {
    let mut cmd = Cmd::new();
    let mut control = Control::new();
    let tele = telemetry_create();
    let mut slot = Some(channel());
    let mut bl = Bootloader::new();
    for b in "boot\n".bytes() {
        idle_step(&mut cmd, &mut control, &tele, &mut slot, &mut bl, b, false);
    }
    assert_eq!(bl.bkp0, BOOTLOADER_REQUEST);
    assert!(bl.reset_pending);
}

#[test]
fn control_cycle_skips_on_device_error() {
    let mut state = State::new();
    let control = Control::new();
    let mut mixer = quad_x_mixer(2000);
    let tele = telemetry_create();
    let mut slot = Some(channel());
    control_cycle(
        &mut state,
        &control,
        &mut mixer,
        &tele,
        &mut slot,
        &Err(DeviceError),
        false,
    );
    assert_eq!(state, State::new());
    assert_eq!(mixer.get_duty(), vec![0, 0, 0, 0]);
}

#[test]
fn control_cycle_publishes_state_and_drives_motors() {
    let mut ahrs = AHRS::create(1000, 3, 30000);
    let sample = ImuSample { accel: [0, 0, 9_800_000], gyro: [0, 0, 0] };
    let result = ahrs.estimate(&sample, 10_000);

    let mut state = State::new();
    let mut control = Control::new();
    control.telemetry = true;
    control.thrust = 800;
    let mut mixer = quad_x_mixer(2000);
    let tele = telemetry_create();
    let mut slot = Some(channel());
    control_cycle(&mut state, &control, &mut mixer, &tele, &mut slot, &Ok(result), false);

    assert_eq!(state.ahrs, result);
    assert_eq!(state.cmd, [0, 0, 0]);
    assert_eq!(mixer.get_duty(), vec![800, 800, 800, 800]);
    let ch = slot.expect("channel put back");
    assert!(ch.is_busy());
    let frame = String::from_utf8(ch.payload().clone()).unwrap();
    assert!(frame.starts_with("tm:"));
}

#[test]
fn telemetry_backpressure_across_cycles() {
    let mut ahrs = AHRS::create(1000, 3, 30000);
    let sample = ImuSample { accel: [0, 0, 9_800_000], gyro: [0, 0, 0] };

    let mut state = State::new();
    let mut control = Control::new();
    control.telemetry = true;
    let mut mixer = quad_x_mixer(2000);
    let tele = telemetry_create();
    let mut slot = Some(channel());

    // First cycle starts a transfer of its own frame.
    let r1 = ahrs.estimate(&sample, 10_000);
    control_cycle(&mut state, &control, &mut mixer, &tele, &mut slot, &Ok(r1), false);
    let first_frame = slot.as_ref().unwrap().payload().clone();

    // Second cycle polls an unfinished transfer: its frame is dropped and
    // the in-flight payload is untouched.
    let r2 = ahrs.estimate(&sample, 10_000);
    control_cycle(&mut state, &control, &mut mixer, &tele, &mut slot, &Ok(r2), false);
    assert_eq!(*slot.as_ref().unwrap().payload(), first_frame);

    // Third cycle sees the transfer done: its own, distinguishable frame
    // goes out.
    let turning = ImuSample { accel: [0, 0, 9_800_000], gyro: [0, 0, 250_000] };
    let r3 = ahrs.estimate(&turning, 10_000);
    control_cycle(&mut state, &control, &mut mixer, &tele, &mut slot, &Ok(r3), true);
    assert_ne!(*slot.as_ref().unwrap().payload(), first_frame);
}

#[test]
fn dispatcher_runs_strict_priority_order() {
    assert_eq!(next_task(true, true), Task::MpuInt);
    assert_eq!(next_task(false, true), Task::UartRx);
    assert_eq!(next_task(false, false), Task::Idle);
    assert!(priority(Task::MpuInt) > priority(Task::UartRx));
    assert!(priority(Task::UartRx) > priority(Task::Idle));
}

#[test]
fn ceilings_cover_every_user() {
    for r in [Resource::ControlBlock, Resource::ChannelSlot, Resource::LogSink] {
        let c = ceiling(r);
        for t in [Task::Idle, Task::UartRx, Task::MpuInt] {
            // No task that can touch the resource may preempt a critical
            // section held at its ceiling.
            assert!(!may_preempt(priority(t), c) || !uses(t, r));
        }
    }
}

#[test]
fn critical_section_raises_to_ceiling_and_restores() {
    let mut level = priority(Task::Idle);
    let prev = enter_section(&mut level, Resource::ControlBlock);
    assert_eq!(level, ceiling(Resource::ControlBlock));
    // The control cycle also uses the control block: it cannot be admitted
    // while the idle task is inside the section.
    assert!(!may_preempt(priority(Task::MpuInt), level));
    leave_section(&mut level, prev);
    assert_eq!(level, priority(Task::Idle));
}

fn uses(t: Task, r: Resource) -> bool {
    match r {
        Resource::ControlBlock | Resource::ChannelSlot => t == Task::Idle || t == Task::MpuInt,
        Resource::LogSink => t == Task::UartRx || t == Task::MpuInt,
    }
}
