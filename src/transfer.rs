//! An in-flight DMA transfer. Starting one moves the send buffer, the receive
//! buffer and the driver handle into it; while it runs the caller holds none of
//! them, and waiting hands all three back at once. The hardware keeps the
//! buffers' addresses for as long as it runs, so the buffer types must live for
//! the whole program.
use vstd::prelude::*;

verus! {

pub struct Transfer<TX: 'static, RX: 'static, D> {
    send: TX,
    receive: RX,
    handle: D,
}

impl<TX: 'static, RX: 'static, D> Transfer<TX, RX, D> {
    pub closed spec fn spec_send(&self) -> TX {
        self.send
    }

    pub closed spec fn spec_receive(&self) -> RX {
        self.receive
    }

    pub closed spec fn spec_handle(&self) -> D {
        self.handle
    }

    /// Starts a transfer that takes ownership of both buffers and the handle.
    pub fn start(send: TX, receive: RX, handle: D) -> (r: Self)
        ensures
            r.spec_send() == send,
            r.spec_receive() == receive,
            r.spec_handle() == handle,
    {
        Transfer { send, receive, handle }
    }

    /// Waits for the transfer to complete and gives back the send buffer, the
    /// receive buffer and the handle, in that order.
    pub fn wait(self) -> (r: (TX, RX, D))
        ensures
            r == (self.spec_send(), self.spec_receive(), self.spec_handle()),
    {
        (self.send, self.receive, self.handle)
    }
}

} // verus!
