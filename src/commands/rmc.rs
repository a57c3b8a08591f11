//! The remote control (RMC) message of the RM command set.

use vstd::prelude::*;
use crate::wire::{FrameBuffer, RMWireFrameView};

verus! {

/// A remote control message; its payload layout is not decoded yet.
pub struct RMCPacketView<T> {
    pub packet: RMWireFrameView<T>,
}

impl<T: FrameBuffer> RMCPacketView<T> {
    pub fn new(packet: RMWireFrameView<T>) -> (r: Self)
        ensures
            r.packet@ == packet@,
    {
        RMCPacketView { packet }
    }
}

} // verus!
