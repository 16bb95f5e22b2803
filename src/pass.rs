//! The commands recorded into one open render pass.
use vstd::prelude::*;

verus! {

/// One command of a render pass. Pipelines and buffers are those of the
/// renderer that recorded the command.
#[derive(Clone, Copy, Debug, PartialEq, Eq, Structural)]
pub enum PassCommand {
    /// Bind the renderer's pipeline.
    SetPipeline,
    /// Bind the renderer's whole vertex buffer at `slot`.
    SetVertexBuffer { slot: u32 },
    /// Draw vertices `first_vertex..end_vertex` of instances
    /// `first_instance..end_instance`.
    Draw { first_vertex: u32, end_vertex: u32, first_instance: u32, end_instance: u32 },
}

/// An open render pass: the commands recorded into it so far, in order.
pub struct RenderPass {
    commands: Vec<PassCommand>,
}

impl View for RenderPass {
    type V = Seq<PassCommand>;

    closed spec fn view(&self) -> Seq<PassCommand> {
        self.commands@
    }
}

impl RenderPass {
    /// Opens a pass with nothing recorded.
    pub fn new() -> (r: RenderPass)
        ensures
            r@ == Seq::<PassCommand>::empty(),
    {
        RenderPass { commands: Vec::new() }
    }

    /// Records `command` after those already recorded.
    pub fn record(&mut self, command: PassCommand)
        ensures
            final(self)@ == old(self)@.push(command),
    {
        self.commands.push(command);
    }

    /// The commands recorded so far, in order; closes the pass.
    pub fn finish(self) -> (r: Vec<PassCommand>)
        ensures
            r@ == self@,
    {
        self.commands
    }

    /// Number of draw calls recorded so far.
    pub fn draw_count(&self) -> (r: usize)
        ensures
            r == count_draws(self@),
    {
        let mut n: usize = 0;
        let mut i: usize = 0;
        while i < self.commands.len()
            invariant
                i <= self.commands@.len(),
                n == count_draws(self.commands@.subrange(0, i as int)),
                n <= i,
            decreases self.commands@.len() - i,
        {
            proof {
                let s = self.commands@;
                assert(s.subrange(0, i as int + 1).drop_last() =~= s.subrange(0, i as int));
            }
            if let PassCommand::Draw { .. } = self.commands[i] {
                n = n + 1;
            }
            i = i + 1;
        }
        proof {
            assert(self.commands@.subrange(0, i as int) =~= self.commands@);
        }
        n
    }
}

/// Number of draw calls in `s`.
pub open spec fn count_draws(s: Seq<PassCommand>) -> nat
    decreases s.len(),
{
    if s.len() == 0 {
        0
    } else {
        count_draws(s.drop_last()) + if s.last() is Draw { 1nat } else { 0nat }
    }
}

} // verus!
