//! The processor state captured when a fault is taken.

use vstd::prelude::*;

verus! {

/// Registers that the processor stacked on exception entry. A read-only
/// snapshot: it means something only while the fault is being handled.
#[derive(Clone, Copy, Debug, PartialEq, Eq)]
pub struct ExceptionFrame {
    /// General purpose register 0.
    pub r0: u32,
    /// General purpose register 1.
    pub r1: u32,
    /// General purpose register 2.
    pub r2: u32,
    /// General purpose register 3.
    pub r3: u32,
    /// General purpose register 12.
    pub r12: u32,
    /// Link register.
    pub lr: u32,
    /// Program counter.
    pub pc: u32,
    /// Program status register.
    pub xpsr: u32,
}

/// The text that the `Debug` impl of `cortex_m_rt::ExceptionFrame` writes, in
/// its pretty (`{:#?}`) form, for a frame that holds these register values.
pub uninterp spec fn frame_debug_text(
    r0: u32,
    r1: u32,
    r2: u32,
    r3: u32,
    r12: u32,
    lr: u32,
    pc: u32,
    xpsr: u32,
) -> Seq<char>;

impl ExceptionFrame {
    /// How the runtime crate prints this snapshot.
    pub open spec fn debug_text(&self) -> Seq<char> {
        frame_debug_text(
            self.r0,
            self.r1,
            self.r2,
            self.r3,
            self.r12,
            self.lr,
            self.pc,
            self.xpsr,
        )
    }
}

/// Formats `frame` with the `Debug` impl of `cortex_m_rt::ExceptionFrame` in
/// pretty form. Trusted: the result is that impl's output for a frame with the
/// same eight register values, which depends on nothing else.
#[verifier::external_body]
pub(crate) fn render_frame(frame: &ExceptionFrame) -> (text: String)
    ensures
        text@ == frame_debug_text(
            frame.r0,
            frame.r1,
            frame.r2,
            frame.r3,
            frame.r12,
            frame.lr,
            frame.pc,
            frame.xpsr,
        ),
{
    let stacked = cortex_m_rt::ExceptionFrame {
        r0: frame.r0,
        r1: frame.r1,
        r2: frame.r2,
        r3: frame.r3,
        r12: frame.r12,
        lr: frame.lr,
        pc: frame.pc,
        xpsr: frame.xpsr,
    };
    format!("{:#?}", stacked)
}

} // verus!
