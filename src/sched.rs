//! Thread contexts: the saved register image that the processor's exception
//! return pops to resume a thread, and the request for a context switch.
//!
//! A thread's stack is a region of 32-bit words at a 4-byte-aligned base
//! address; addresses are byte addresses, as the processor sees them.
use vstd::prelude::*;

verus! {

/// Program status word of a thread that has not run: only the Thumb
/// execution bit is set.
pub const XPSR_THUMB: u32 = 0x0100_0000;

/// Saved link register value that makes the exception return resume in
/// thread mode on the process stack.
pub const EXC_RETURN_THREAD_PSP: u32 = 0xFFFF_FFFD;

/// Number of words in the initial register image.
pub const FRAME_WORDS: usize = 17;

/// Distance, in words, from the top of an empty stack down to the slot of
/// the status word, the highest word of the initial register image.
pub const FRAME_TOP_GAP: usize = 8;

/// Words of stack that building the initial register image uses, counted
/// from the top of the stack.
pub const FRAME_SPAN: usize = 24;

/// The pend bit of the context-switch exception in the interrupt control and
/// state register.
pub const PENDSVSET: u32 = 0x1000_0000;

/// A thread that has not run yet.
#[derive(Clone, Copy, Debug, PartialEq, Eq)]
pub struct ThreadDesc {
    /// The number of arguments passed to the thread.
    pub argc: u32,
    /// The address of the arguments passed to the thread.
    pub argv: u32,
    /// The address of the function to call when the thread's entry returns.
    pub finalizer: u32,
    /// The address of the thread's entry point.
    pub entry: u32,
}

/// The initial register image of a thread, from the lowest address up:
/// r4 to r11 zeroed, the saved link register, then the frame that the
/// exception return pops: r0 (argc), r1 (argv), r2, r3, r12 (zeroed),
/// lr (finalizer), pc (entry) and the status word.
pub open spec fn initial_frame(desc: ThreadDesc) -> Seq<u32> {
    seq![
        0u32,
        0u32,
        0u32,
        0u32,
        0u32,
        0u32,
        0u32,
        0u32,
        EXC_RETURN_THREAD_PSP,
        desc.argc,
        desc.argv,
        0u32,
        0u32,
        0u32,
        desc.finalizer,
        desc.entry,
        XPSR_THUMB,
    ]
}

/// The stack memory of a thread: 32-bit words from a 4-byte-aligned base
/// address up to its top.
pub struct Stack {
    base: u32,
    words: Vec<u32>,
}

impl View for Stack {
    type V = (u32, Seq<u32>);

    /// The base address and the words from there up.
    closed spec fn view(&self) -> (u32, Seq<u32>) {
        (self.base, self.words@)
    }
}

impl Stack {
    /// The address one past the highest word of the stack.
    pub open spec fn top_address(&self) -> int {
        self@.0 + 4 * self@.1.len()
    }

    /// The base is 4-byte aligned and the top is an address.
    pub open spec fn wf(&self) -> bool {
        &&& self@.0 % 4 == 0
        &&& self.top_address() <= u32::MAX
    }

    /// A stack at `base` holding `words`.
    pub fn new(base: u32, words: Vec<u32>) -> (r: Self)
        requires
            base % 4 == 0,
            base + 4 * words@.len() <= u32::MAX,
        ensures
            r@ == (base, words@),
            r.wf(),
    {
        Stack { base, words }
    }

    /// The address one past the highest word of the stack.
    pub fn top(&self) -> (r: u32)
        requires
            self.wf(),
        ensures
            r == self.top_address(),
    {
        self.base + 4 * (self.words.len() as u32)
    }

    /// The word at `address`.
    pub fn read(&self, address: u32) -> (r: u32)
        requires
            self.wf(),
            self@.0 <= address < self.top_address(),
            address % 4 == 0,
        ensures
            r == self@.1[(address - self@.0) / 4],
    {
        self.words[((address - self.base) / 4) as usize]
    }
}

/// A saved register image on a thread's stack, by the address of its lowest
/// word.
#[derive(Clone, Copy, Debug)]
pub struct ThreadContext {
    ptr: u32,
}

impl View for ThreadContext {
    type V = u32;

    closed spec fn view(&self) -> u32 {
        self.ptr
    }
}

impl ThreadContext {
    /// Wraps the address of a saved register image.
    ///
    /// The address must be the bottom of the stack of a suspended thread,
    /// holding from there up r11 to r4, r0 to r3, r12, lr, pc and the status
    /// word; only its alignment can be stated here.
    pub fn new(ctx: u32) -> (r: Self)
        requires
            ctx % 4 == 0,
        ensures
            r@ == ctx,
    {
        ThreadContext { ptr: ctx }
    }

    /// The address of the lowest word of the register image.
    pub fn ptr(&self) -> (r: u32)
        ensures
            r == self@,
    {
        self.ptr
    }

    /// Builds the initial register image of the thread `desc` on an empty
    /// stack, writing downward from the status word `FRAME_TOP_GAP` words
    /// below its top, and returns the context of its lowest word.
    ///
    /// The words above the image and below it keep their values.
    pub fn from_empty(stack: &mut Stack, desc: ThreadDesc) -> (r: Self)
        requires
            old(stack).wf(),
            old(stack)@.1.len() >= FRAME_SPAN,
        ensures
            final(stack).wf(),
            final(stack)@.0 == old(stack)@.0,
            r@ == final(stack).top_address() - 4 * FRAME_SPAN,
            final(stack)@.1 == old(stack)@.1.subrange(0, old(stack)@.1.len() - FRAME_SPAN)
                + initial_frame(desc) + old(stack)@.1.subrange(
                old(stack)@.1.len() - FRAME_SPAN + FRAME_WORDS,
                old(stack)@.1.len() as int,
            ),
    {
        let frame = frame_words(desc);
        let n = stack.words.len();
        let low = n - FRAME_SPAN;
        let ghost before = stack.words@;
        // Start at the status word and walk down to r4.
        let mut k: usize = FRAME_WORDS;
        while k > 0
            invariant
                0 <= k <= FRAME_WORDS,
                low + FRAME_WORDS <= n,
                n == before.len(),
                low == n - FRAME_SPAN,
                frame@ == initial_frame(desc),
                stack.base == old(stack).base,
                before == old(stack).words@,
                stack.words@ == before.subrange(0, low + k) + frame@.subrange(k as int, FRAME_WORDS as int)
                    + before.subrange(low + FRAME_WORDS, n as int),
            decreases k,
        {
            k = k - 1;
            let ghost prev = stack.words@;
            stack.words.set(low + k, frame[k]);
            assert(stack.words@ =~= before.subrange(0, low + k) + frame@.subrange(
                k as int,
                FRAME_WORDS as int,
            ) + before.subrange(low + FRAME_WORDS, n as int));
        }
        assert(frame@.subrange(0, FRAME_WORDS as int) =~= frame@);
        ThreadContext { ptr: stack.base + 4 * (low as u32) }
    }
}

/// The initial register image of `desc`, lowest word first.
fn frame_words(desc: ThreadDesc) -> (r: Vec<u32>)
    ensures
        r@ == initial_frame(desc),
{
    let r = vec![
        0u32,
        0u32,
        0u32,
        0u32,
        0u32,
        0u32,
        0u32,
        0u32,
        EXC_RETURN_THREAD_PSP,
        desc.argc,
        desc.argv,
        0u32,
        0u32,
        0u32,
        desc.finalizer,
        desc.entry,
        XPSR_THUMB,
    ];
    assert(r@ =~= initial_frame(desc));
    r
}

/// Whether an exception handler was entered from code running on the main
/// stack, by the exception-return value `lr` it was entered with: bit 2 of it
/// is clear.
pub fn irq_is_msp(lr: u32) -> (r: bool)
    ensures
        r == (lr & 0x4 == 0),
{
    lr & 0x4 == 0
}

/// The interrupt control and state register after a context switch has been
/// requested: the pend bit is set and every other bit keeps its value.
pub open spec fn pend_switch(icsr: u32) -> u32 {
    icsr | PENDSVSET
}

/// Requests a context switch by setting the pend bit of the context-switch
/// exception in `icsr`, the interrupt control and state register. The switch
/// itself happens later, when the exception is taken.
pub fn reschedule(icsr: &mut u32)
    ensures
        *final(icsr) == pend_switch(*old(icsr)),
{
    *icsr = *icsr | PENDSVSET;
}

/// Requesting a context switch sets the pend bit, and requesting it again
/// before the switch changes nothing: the bit is a level, not a counter.
pub proof fn lemma_reschedule_idempotent(icsr: u32)
    ensures
        pend_switch(icsr) & PENDSVSET == PENDSVSET,
        pend_switch(pend_switch(icsr)) == pend_switch(icsr),
{
    assert(((icsr | 0x1000_0000u32) & 0x1000_0000u32) == 0x1000_0000u32) by (bit_vector);
    assert(((icsr | 0x1000_0000u32) | 0x1000_0000u32) == (icsr | 0x1000_0000u32)) by (bit_vector);
}

} // verus!
