use running_man_advance::bus::{PowerControl, PowerStateRequest};

#[test]
fn halt_control_bit_clear_requests_halt() {
    let mut power = PowerControl::new();

    power.write_halt_control(0);

    assert_eq!(power.take_request(), Some(PowerStateRequest::Halt),);

    assert_eq!(power.take_request(), None,);
}

#[test]
fn halt_control_bit_set_requests_stop() {
    let mut power = PowerControl::new();

    power.write_halt_control(0x80);

    assert_eq!(power.take_request(), Some(PowerStateRequest::Stop),);
}

#[test]
fn post_boot_flag_uses_bit_zero_only() {
    let mut power = PowerControl::new();

    power.write_post_boot_flag(0xFF);

    assert_eq!(power.post_boot_flag(), 1,);
}

