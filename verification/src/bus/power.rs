use vstd::prelude::*;

verus! {

#[derive(Debug, Clone, Copy, PartialEq, Eq, Structural)]
pub enum PowerStateRequest {
    Halt,
    Stop,
}

/// POSTFLG and the pending HALTCNT request.
#[derive(Debug, Clone, Copy, PartialEq, Eq, Structural)]
pub struct PowerControl {
    pub post_boot_flag: u8,
    pub pending_request: Option<PowerStateRequest>,
}

impl PowerControl {
    pub fn new() -> (r: Self)
        ensures
            r == (PowerControl { post_boot_flag: 0, pending_request: None }),
    {
        PowerControl { post_boot_flag: 0, pending_request: None }
    }

    pub fn post_boot_flag(self) -> (r: u8)
        ensures
            r == self.post_boot_flag,
    {
        self.post_boot_flag
    }

    /// Only bit 0 of POSTFLG is kept.
    pub fn write_post_boot_flag(&mut self, value: u8)
        ensures
            *final(self) == (PowerControl { post_boot_flag: value & 1, ..*old(self) }),
    {
        self.post_boot_flag = value & 1;
    }

    /// HALTCNT bit 7 clear requests HALT, set requests STOP.
    pub fn write_halt_control(&mut self, value: u8)
        ensures
            *final(self) == (PowerControl {
                pending_request: Some(
                    if value & 0x80 != 0 {
                        PowerStateRequest::Stop
                    } else {
                        PowerStateRequest::Halt
                    },
                ),
                ..*old(self)
            }),
    {
        self.pending_request = Some(
            if value & 0x80 != 0 {
                PowerStateRequest::Stop
            } else {
                PowerStateRequest::Halt
            },
        );
    }

    pub fn pending_request(self) -> (r: Option<PowerStateRequest>)
        ensures
            r == self.pending_request,
    {
        self.pending_request
    }

    /// Hands out the pending request and clears it.
    pub fn take_request(&mut self) -> (r: Option<PowerStateRequest>)
        ensures
            r == old(self).pending_request,
            *final(self) == (PowerControl { pending_request: None, ..*old(self) }),
    {
        let request = self.pending_request;
        self.pending_request = None;
        request
    }

    pub fn reset(&mut self)
        ensures
            *final(self) == (PowerControl { post_boot_flag: 0, pending_request: None }),
    {
        *self = PowerControl::new();
    }
}

} // verus!
