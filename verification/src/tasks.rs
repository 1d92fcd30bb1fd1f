//! The decision cores of the three tasks. Each runs to completion once
//! dispatched; the hardware edges around them (the serial read, the sensor
//! bus transaction, the cycle-counter read, the transfer engine) hand in
//! plain values and carry the results out.

use crate::ahrs::AhrsResult;
use crate::bootloader::stm32f30x;
use crate::bootloader::Bootloader;
use crate::cmd::{push_line, push_pending, spec_apply_line, Cmd};
use crate::communication::{spec_send, Channel};
use crate::controllers::{body_rate, spec_cmd3, spec_errors3};
use crate::fixed::SCALE;
use crate::mixer::{spec_duty, Mixer};
use crate::spsc::{spec_ring_enqueue, Pipe};
use crate::telemetry::{spec_control_frame, spec_state_frame, Telemetry};
use crate::types::{Control, DeviceError, Requests, State};
use vstd::prelude::*;

verus! {

/// The receive-interrupt core: offer one received byte to the ring. A full
/// ring refuses it; the caller logs the loss and the byte is dropped, with
/// no flow control back to the hardware.
pub fn rx_byte(pipe: &mut Pipe, b: u8) -> (stored: bool)
    ensures
        final(pipe)@ == spec_ring_enqueue(old(pipe)@, b).0,
        stored == spec_ring_enqueue(old(pipe)@, b).1,
{
    match pipe.enqueue(b) {
        Ok(()) => true,
        Err(_) => false,
    }
}

/// The idle-task core: feed one dequeued byte to the command parser under
/// the control lock, then act on the request it may have produced: a status
/// request offers a coefficient frame to the channel (if the idle task can
/// take it), a boot request records the reboot intent and resets, a reset
/// request resets.
pub fn idle_step(
    cmd: &mut Cmd,
    control: &mut Control,
    tele: &Telemetry,
    channel_slot: &mut Option<Channel>,
    bl: &mut stm32f30x::Bootloader,
    byte: u8,
    transfer_done: bool,
)
    requires
        old(cmd).wf(),
    ensures
        final(cmd).wf(),
        final(cmd).pending() == push_pending(old(cmd).pending(), byte),
        ({
            match push_line(old(cmd).pending(), byte) {
                None => *final(control) == *old(control) && *final(channel_slot) == *old(
                    channel_slot,
                ) && *final(bl) == *old(bl),
                Some(line) => ({
                    let (c2, req) = spec_apply_line(line, *old(control));
                    &&& *final(control) == c2
                    &&& (match req {
                        Some(Requests::Status) => *final(bl) == *old(bl) && (match *old(
                            channel_slot,
                        ) {
                            Some(ch) => (*final(channel_slot)) is Some
                                && (*final(channel_slot))->Some_0@ == spec_send(
                                ch@,
                                spec_control_frame(c2),
                                transfer_done,
                            ).0,
                            None => (*final(channel_slot)) is None,
                        }),
                        Some(Requests::Boot) => *final(bl) == (stm32f30x::Bootloader {
                            bkp0: stm32f30x::BOOTLOADER_REQUEST,
                            reset_pending: true,
                            ..*old(bl)
                        }) && *final(channel_slot) == *old(channel_slot),
                        Some(Requests::Reset) => *final(bl) == (stm32f30x::Bootloader {
                            reset_pending: true,
                            ..*old(bl)
                        }) && *final(channel_slot) == *old(channel_slot),
                        None => *final(bl) == *old(bl) && *final(channel_slot) == *old(
                            channel_slot,
                        ),
                    })
                }),
            }
        }),
{
    let req = cmd.feed(byte, control);
    match req {
        Some(Requests::Status) => {
            let maybe = channel_slot.take();
            match maybe {
                Some(ch) => {
                    let (nc, _outcome) = tele.control(control, ch, transfer_done);
                    *channel_slot = Some(nc);
                },
                None => {},
            }
        },
        Some(Requests::Boot) => {
            bl.to_bootloader();
        },
        Some(Requests::Reset) => {
            bl.system_reset();
        },
        None => {},
    }
}

/// The sensor-interrupt core: given the outcome of this cycle's bus
/// transaction and estimate, either skip the cycle whole (a device error
/// changes nothing; the caller logs it), or run the controller on the
/// previous snapshot, publish the new snapshot, drive the motors, and, when
/// telemetry is on and the channel is free to take, offer a state frame.
pub fn control_cycle<const N: usize>(
    state: &mut State,
    control: &Control,
    mixer: &mut Mixer<N>,
    tele: &Telemetry,
    channel_slot: &mut Option<Channel>,
    estimation: &Result<AhrsResult, DeviceError>,
    transfer_done: bool,
)
    requires
        old(mixer).wf(),
    ensures
        final(mixer).wf(),
        final(mixer).map == old(mixer).map,
        final(mixer).max_duty == old(mixer).max_duty,
        ({
            match *estimation {
                Err(_) => *final(state) == *old(state) && final(mixer).duties() == old(
                    mixer,
                ).duties() && *final(channel_slot) == *old(channel_slot),
                Ok(result) => ({
                    let (ex, ey, ez) = spec_errors3(*old(state), *control);
                    let (cx, cy, cz) = spec_cmd3(*old(state), *control);
                    let thrust = control.thrust as int * SCALE as int;
                    &&& final(state).ahrs == result
                    &&& final(state).cmd[0] == cx
                    &&& final(state).cmd[1] == cy
                    &&& final(state).cmd[2] == cz
                    &&& final(state).errors[0] == ex
                    &&& final(state).errors[1] == ey
                    &&& final(state).errors[2] == ez
                    &&& forall|i: int|
                        0 <= i < N as int ==> final(mixer).duties()[i] as int == spec_duty(
                            old(mixer).map[i],
                            cx,
                            cy,
                            cz,
                            thrust,
                            old(mixer).max_duty,
                        )
                    &&& (if control.telemetry {
                        match *old(channel_slot) {
                            Some(ch) => (*final(channel_slot)) is Some
                                && (*final(channel_slot))->Some_0@ == spec_send(
                                ch@,
                                spec_state_frame(*final(state)),
                                transfer_done,
                            ).0,
                            None => (*final(channel_slot)) is None,
                        }
                    } else {
                        *final(channel_slot) == *old(channel_slot)
                    })
                }),
            }
        }),
{
    match estimation {
        Err(_) => {},
        Ok(result) => {
            let (cmd, errors) = body_rate(state, control);
            *state = State { ahrs: *result, cmd, errors };
            proof {
                assert(control.thrust as int * SCALE as int <= i64::MAX as int && control.thrust
                    as int * SCALE as int >= i64::MIN as int) by (nonlinear_arith)
                    requires
                        i32::MIN <= (control.thrust as int) <= i32::MAX,
                        SCALE == 1_000_000,
                ;
            }
            let thrust_fix: i64 = (control.thrust as i64) * SCALE;
            mixer.set_duty(cmd[0], cmd[1], cmd[2], thrust_fix);
            if control.telemetry {
                let maybe = channel_slot.take();
                match maybe {
                    Some(ch) => {
                        let (nc, _outcome) = tele.state(state, ch, transfer_done);
                        *channel_slot = Some(nc);
                    },
                    None => {},
                }
            }
        },
    }
}

} // verus!
