//! The output buffer view.
//!
//! The host owns the samples. For the length of one block it hands over one
//! address per channel, and the plugin works on those channels in place. The
//! view keeps one descriptor per output channel, made when the instance is
//! activated and pointed at the host's memory anew for every block. Where the
//! host keeps input and output apart, the input is copied to the output
//! before the plugin runs.

use vstd::prelude::*;

verus! {

/// Where one channel's samples lie during the current block.
#[derive(Debug, Clone, Copy, PartialEq, Eq, Structural)]
pub struct ChannelSlice {
    /// The address of the first sample.
    pub address: usize,
    /// The number of samples.
    pub frames: usize,
}

impl ChannelSlice {
    /// The descriptor of a channel that points nowhere.
    pub open spec fn empty_spec() -> ChannelSlice {
        ChannelSlice { address: 0, frames: 0 }
    }

    /// The descriptor of a channel that points nowhere.
    pub fn empty() -> (s: ChannelSlice)
        ensures
            s == ChannelSlice::empty_spec(),
    {
        ChannelSlice { address: 0, frames: 0 }
    }
}

/// The descriptors after a block's addresses were taken: each channel for
/// which the host gave an address spans the block's frames there, and any
/// other points nowhere.
pub open spec fn pointed_at(channels: nat, addresses: Seq<usize>, frames: usize) -> Seq<
    ChannelSlice,
> {
    Seq::new(
        channels,
        |i: int|
            if i < addresses.len() {
                ChannelSlice { address: addresses[i], frames }
            } else {
                ChannelSlice::empty_spec()
            },
    )
}

/// Whether channel `i` has an input that lies apart from its output.
pub open spec fn needs_copy(inputs: Seq<usize>, outputs: Seq<usize>, i: int) -> bool {
    0 <= i < inputs.len() && i < outputs.len() && inputs[i] != outputs[i]
}

/// The channels among the first `n` whose input must be copied to the
/// output, in rising order.
pub open spec fn copies_below(inputs: Seq<usize>, outputs: Seq<usize>, n: int) -> Seq<usize>
    decreases n,
{
    if n <= 0 {
        Seq::empty()
    } else if needs_copy(inputs, outputs, n - 1) {
        copies_below(inputs, outputs, n - 1).push((n - 1) as usize)
    } else {
        copies_below(inputs, outputs, n - 1)
    }
}

/// The channels whose input must be copied to the output before the plugin
/// runs, in rising order.
pub open spec fn copy_plan_spec(inputs: Seq<usize>, outputs: Seq<usize>) -> Seq<usize> {
    copies_below(
        inputs,
        outputs,
        if inputs.len() <= outputs.len() {
            inputs.len() as int
        } else {
            outputs.len() as int
        },
    )
}

/// A channel is in the plan exactly if it is below `n` and needs a copy.
pub proof fn lemma_copies_below(inputs: Seq<usize>, outputs: Seq<usize>, n: int, c: usize)
    requires
        n <= usize::MAX,
    ensures
        copies_below(inputs, outputs, n).contains(c) <==> c < n && needs_copy(
            inputs,
            outputs,
            c as int,
        ),
    decreases n,
{
    if n > 0 {
        lemma_copies_below(inputs, outputs, n - 1, c);
        let front = copies_below(inputs, outputs, n - 1);
        if needs_copy(inputs, outputs, n - 1) {
            let all = front.push((n - 1) as usize);
            if front.contains(c) {
                let k = choose|k: int| 0 <= k < front.len() && front[k] == c;
                assert(all[k] == c);
            }
            if c == n - 1 {
                assert(all[front.len() as int] == c);
            }
        }
    }
}

/// Lists the channels whose input must be copied to the output: those that
/// have both, at different addresses.
pub fn copy_plan(inputs: &Vec<usize>, outputs: &Vec<usize>) -> (plan: Vec<usize>)
    ensures
        plan@ == copy_plan_spec(inputs@, outputs@),
        forall|c: usize| plan@.contains(c) <==> needs_copy(inputs@, outputs@, c as int),
{
    let n = if inputs.len() <= outputs.len() {
        inputs.len()
    } else {
        outputs.len()
    };
    let mut plan: Vec<usize> = Vec::new();
    let mut i: usize = 0;
    while i < n
        invariant
            i <= n,
            n <= inputs@.len(),
            n <= outputs@.len(),
            plan@ == copies_below(inputs@, outputs@, i as int),
        decreases n - i,
    {
        if inputs[i] != outputs[i] {
            plan.push(i);
        }
        i += 1;
    }
    proof {
        assert forall|c: usize| plan@.contains(c) <==> needs_copy(
            inputs@,
            outputs@,
            c as int,
        ) by {
            lemma_copies_below(inputs@, outputs@, n as int, c);
        }
    }
    plan
}

/// Copies the samples of one channel from the host's input to its output,
/// sample for sample. Both hold the frames of one block.
pub fn copy_channel(input: &[u32], output: &mut [u32])
    requires
        input@.len() == old(output)@.len(),
    ensures
        final(output)@ == input@,
{
    let mut i: usize = 0;
    while i < input.len()
        invariant
            i <= input@.len(),
            output@.len() == input@.len(),
            forall|j: int| 0 <= j < i ==> output@[j] == input@[j],
        decreases input@.len() - i,
    {
        output[i] = input[i];
        i += 1;
    }
    proof {
        assert(output@ =~= input@);
    }
}

/// Whether the host's buses are of a shape the instance supports: at most one
/// input bus and one output bus, and no more input channels than output
/// channels.
pub open spec fn topology_supported_spec(
    input_buses: u32,
    output_buses: u32,
    input_channels: usize,
    output_channels: usize,
) -> bool {
    input_buses <= 1 && output_buses <= 1 && input_channels <= output_channels
}

/// Tells whether the host's buses are of a shape the instance supports.
pub fn topology_supported(
    input_buses: u32,
    output_buses: u32,
    input_channels: usize,
    output_channels: usize,
) -> (r: bool)
    ensures
        r == topology_supported_spec(input_buses, output_buses, input_channels, output_channels),
{
    input_buses <= 1 && output_buses <= 1 && input_channels <= output_channels
}

/// One descriptor per output channel of the instance.
#[derive(Debug)]
pub struct OutputBuffer {
    slices: Vec<ChannelSlice>,
}

impl OutputBuffer {
    /// The descriptors, first channel first.
    pub closed spec fn view(&self) -> Seq<ChannelSlice> {
        self.slices@
    }

    /// A view without channels.
    pub fn new() -> (b: OutputBuffer)
        ensures
            b@ == Seq::<ChannelSlice>::empty(),
    {
        OutputBuffer { slices: Vec::new() }
    }

    /// The number of channels.
    pub fn channels(&self) -> (n: usize)
        ensures
            n == self@.len(),
    {
        self.slices.len()
    }

    /// The descriptor of a channel.
    pub fn slice(&self, channel: usize) -> (s: ChannelSlice)
        requires
            channel < self@.len(),
        ensures
            s == self@[channel as int],
    {
        self.slices[channel]
    }

    /// Gives the view exactly `channels` descriptors, each pointing nowhere.
    pub fn resize(&mut self, channels: usize)
        ensures
            final(self)@ == Seq::new(channels as nat, |i: int| ChannelSlice::empty_spec()),
    {
        self.slices.clear();
        let mut i: usize = 0;
        while i < channels
            invariant
                i <= channels,
                self.slices@ == Seq::new(i as nat, |k: int| ChannelSlice::empty_spec()),
            decreases channels - i,
        {
            self.slices.push(ChannelSlice::empty());
            i += 1;
            proof {
                assert(self.slices@ =~= Seq::new(i as nat, |k: int| ChannelSlice::empty_spec()));
            }
        }
    }

    /// Lets go of the host's memory: every descriptor points nowhere again.
    /// The number of descriptors stays as it is.
    pub fn release(&mut self)
        ensures
            final(self)@ == Seq::new(old(self)@.len(), |i: int| ChannelSlice::empty_spec()),
    {
        let n = self.slices.len();
        let mut i: usize = 0;
        while i < n
            invariant
                i <= n,
                n == self.slices@.len(),
                n == old(self)@.len(),
                forall|k: int| 0 <= k < i ==> self.slices@[k] == ChannelSlice::empty_spec(),
            decreases n - i,
        {
            self.slices[i] = ChannelSlice::empty();
            i += 1;
        }
        proof {
            assert(self.slices@ =~= Seq::new(n as nat, |k: int| ChannelSlice::empty_spec()));
        }
    }

    /// Points the descriptors at the host's channels for one block of
    /// `frames` samples. The number of descriptors stays as it is.
    pub fn point_at(&mut self, addresses: &Vec<usize>, frames: usize)
        ensures
            final(self)@ == pointed_at(old(self)@.len(), addresses@, frames),
    {
        let n = self.slices.len();
        let mut i: usize = 0;
        while i < n
            invariant
                i <= n,
                n == self.slices@.len(),
                n == old(self)@.len(),
                forall|k: int| 0 <= k < i ==> self.slices@[k] == pointed_at(n as nat, addresses@, frames)[k],
            decreases n - i,
        {
            let s = if i < addresses.len() {
                ChannelSlice { address: addresses[i], frames }
            } else {
                ChannelSlice::empty()
            };
            self.slices[i] = s;
            i += 1;
        }
        proof {
            assert(self.slices@ =~= pointed_at(n as nat, addresses@, frames));
        }
    }
}

} // verus!
