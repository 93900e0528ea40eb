use vstd::prelude::*;

verus! {

/// The channel counts negotiated with the plugin at activation. Constant
/// for the lifetime of an activated session; changing it requires full
/// deactivation and reactivation.
#[derive(Clone, Copy, Debug, PartialEq, Eq, Structural)]
pub struct PortTopology {
    pub inputs: usize,
    pub outputs: usize,
}

/// Owns the stable staging buffers that decouple the engine's per-callback
/// channel slices from the plugin's port buffers: one pre-sized sample
/// buffer per input channel and one per output channel, each always
/// exactly one block long. The sample type is left generic; the engine
/// decides what a sample is, the bridge only moves them.
pub struct BufferBridge<T> {
    pub topology: PortTopology,
    pub block_size: usize,
    pub silence: T,
    pub input_bufs: Vec<Vec<T>>,
    pub output_bufs: Vec<Vec<T>>,
}

/// Build one channel buffer of `len` copies of `fill`.
fn make_channel<T: Copy>(len: usize, fill: T) -> (v: Vec<T>)
    ensures
        v@ == Seq::new(len as nat, |i: int| fill),
{
    let mut v: Vec<T> = Vec::new();
    for i in 0..len
        invariant
            v@.len() == i,
            forall|k: int| 0 <= k < i as int ==> v@[k] == fill,
    {
        v.push(fill);
    }
    proof {
        assert(v@ =~= Seq::new(len as nat, |i: int| fill));
    }
    v
}

/// Build `n` channel buffers, each `len` copies of `fill`.
fn make_channels<T: Copy>(n: usize, len: usize, fill: T) -> (v: Vec<Vec<T>>)
    ensures
        v@.len() == n,
        forall|c: int| 0 <= c < n as int ==> v@[c]@ == Seq::new(len as nat, |i: int| fill),
{
    let mut v: Vec<Vec<T>> = Vec::new();
    for c in 0..n
        invariant
            v@.len() == c,
            forall|k: int| 0 <= k < c as int ==> v@[k]@ == Seq::new(len as nat, |i: int| fill),
    {
        let channel = make_channel(len, fill);
        v.push(channel);
    }
    v
}

/// Overwrite `dst` element by element with the contents of `src`.
fn copy_channel<T: Copy>(dst: &mut Vec<T>, src: &Vec<T>)
    requires
        old(dst)@.len() == src@.len(),
    ensures
        final(dst)@ == src@,
{
    let n = src.len();
    for i in 0..n
        invariant
            dst@.len() == src@.len(),
            n == src@.len(),
            forall|k: int| 0 <= k < i as int ==> dst@[k] == src@[k],
    {
        dst[i] = src[i];
    }
    proof {
        assert(dst@ =~= src@);
    }
}

impl<T: Copy> BufferBridge<T> {
    /// Well-formedness: one staging buffer per negotiated channel, and
    /// every staging buffer exactly one block long.
    pub open spec fn wf(self) -> bool {
        &&& self.input_bufs@.len() == self.topology.inputs
        &&& self.output_bufs@.len() == self.topology.outputs
        &&& forall|c: int|
            0 <= c < self.input_bufs@.len() ==> self.input_bufs@[c]@.len() == self.block_size
        &&& forall|c: int|
            0 <= c < self.output_bufs@.len() ==> self.output_bufs@[c]@.len() == self.block_size
    }

    /// The staged input samples, channel by channel.
    pub open spec fn inputs_view(self) -> Seq<Seq<T>> {
        self.input_bufs@.map_values(|b: Vec<T>| b@)
    }

    /// The staged output samples, channel by channel.
    pub open spec fn outputs_view(self) -> Seq<Seq<T>> {
        self.output_bufs@.map_values(|b: Vec<T>| b@)
    }

    /// A fresh bridge: every staging buffer holds `block_size` copies of
    /// `silence`.
    pub fn new(topology: PortTopology, block_size: usize, silence: T) -> (b: Self)
        ensures
            b.wf(),
            b.topology == topology,
            b.block_size == block_size,
            b.silence == silence,
            forall|c: int|
                0 <= c < topology.inputs ==> b.input_bufs@[c]@ == Seq::new(
                    block_size as nat,
                    |i: int| silence,
                ),
            forall|c: int|
                0 <= c < topology.outputs ==> b.output_bufs@[c]@ == Seq::new(
                    block_size as nat,
                    |i: int| silence,
                ),
    {
        BufferBridge {
            topology,
            block_size,
            silence,
            input_bufs: make_channels(topology.inputs, block_size, silence),
            output_bufs: make_channels(topology.outputs, block_size, silence),
        }
    }

    /// Copy each engine input channel verbatim into the corresponding
    /// staging buffer. The engine must present exactly the negotiated
    /// input channel count, each channel one block long. No allocation.
    pub fn copy_in(&mut self, engine_inputs: &Vec<Vec<T>>)
        requires
            old(self).wf(),
            engine_inputs@.len() == old(self).topology.inputs,
            forall|c: int|
                0 <= c < engine_inputs@.len() ==> engine_inputs@[c]@.len() == old(
                    self,
                ).block_size,
        ensures
            final(self).wf(),
            final(self).topology == old(self).topology,
            final(self).block_size == old(self).block_size,
            final(self).silence == old(self).silence,
            final(self).output_bufs == old(self).output_bufs,
            final(self).input_bufs@.len() == old(self).input_bufs@.len(),
            forall|c: int|
                0 <= c < engine_inputs@.len() ==> final(self).input_bufs@[c]@
                    == engine_inputs@[c]@,
    {
        let n = self.input_bufs.len();
        for c in 0..n
            invariant
                n == self.input_bufs@.len(),
                self.topology == old(self).topology,
                self.block_size == old(self).block_size,
                self.silence == old(self).silence,
                self.output_bufs == old(self).output_bufs,
                self.wf(),
                engine_inputs@.len() == self.topology.inputs,
                forall|k: int|
                    0 <= k < engine_inputs@.len() ==> engine_inputs@[k]@.len()
                        == self.block_size,
                forall|k: int|
                    0 <= k < c as int ==> self.input_bufs@[k]@ == engine_inputs@[k]@,
        {
            copy_channel(&mut self.input_bufs[c], &engine_inputs[c]);
        }
    }

    /// Copy the plugin's per-channel output samples into the staging
    /// output buffers, verbatim.
    pub fn stage_outputs(&mut self, plugin_outputs: &Vec<Vec<T>>)
        requires
            old(self).wf(),
            plugin_outputs@.len() == old(self).topology.outputs,
            forall|c: int|
                0 <= c < plugin_outputs@.len() ==> plugin_outputs@[c]@.len() == old(
                    self,
                ).block_size,
        ensures
            final(self).wf(),
            final(self).topology == old(self).topology,
            final(self).block_size == old(self).block_size,
            final(self).silence == old(self).silence,
            final(self).input_bufs == old(self).input_bufs,
            final(self).output_bufs@.len() == old(self).output_bufs@.len(),
            forall|c: int|
                0 <= c < plugin_outputs@.len() ==> final(self).output_bufs@[c]@
                    == plugin_outputs@[c]@,
    {
        let n = self.output_bufs.len();
        for c in 0..n
            invariant
                n == self.output_bufs@.len(),
                self.topology == old(self).topology,
                self.block_size == old(self).block_size,
                self.silence == old(self).silence,
                self.input_bufs == old(self).input_bufs,
                self.wf(),
                plugin_outputs@.len() == self.topology.outputs,
                forall|k: int|
                    0 <= k < plugin_outputs@.len() ==> plugin_outputs@[k]@.len()
                        == self.block_size,
                forall|k: int|
                    0 <= k < c as int ==> self.output_bufs@[k]@ == plugin_outputs@[k]@,
        {
            copy_channel(&mut self.output_bufs[c], &plugin_outputs[c]);
        }
    }

    /// Copy each staging output buffer back into the corresponding engine
    /// output channel after the plugin has written into staging.
    pub fn copy_out(&self, engine_outputs: &mut Vec<Vec<T>>)
        requires
            self.wf(),
            old(engine_outputs)@.len() == self.topology.outputs,
            forall|c: int|
                0 <= c < old(engine_outputs)@.len() ==> old(engine_outputs)@[c]@.len()
                    == self.block_size,
        ensures
            final(engine_outputs)@.len() == old(engine_outputs)@.len(),
            forall|c: int|
                0 <= c < final(engine_outputs)@.len() ==> final(engine_outputs)@[c]@
                    == self.output_bufs@[c]@,
    {
        let n = engine_outputs.len();
        for c in 0..n
            invariant
                n == engine_outputs@.len(),
                engine_outputs@.len() == self.topology.outputs,
                self.wf(),
                forall|k: int|
                    0 <= k < engine_outputs@.len() ==> engine_outputs@[k]@.len()
                        == self.block_size,
                forall|k: int|
                    0 <= k < c as int ==> engine_outputs@[k]@ == self.output_bufs@[k]@,
        {
            copy_channel(&mut engine_outputs[c], &self.output_bufs[c]);
        }
    }

    /// Replace every staging buffer wholesale with a fresh, silent buffer
    /// of `new_size` samples. Runs strictly between blocks, never
    /// concurrently with processing; the per-block path itself allocates
    /// nothing.
    pub fn realloc(&mut self, new_size: usize)
        requires
            old(self).wf(),
        ensures
            final(self).wf(),
            final(self).block_size == new_size,
            final(self).topology == old(self).topology,
            final(self).silence == old(self).silence,
            forall|c: int|
                0 <= c < final(self).input_bufs@.len() ==> final(self).input_bufs@[c]@
                    == Seq::new(new_size as nat, |i: int| old(self).silence),
            forall|c: int|
                0 <= c < final(self).output_bufs@.len() ==> final(self).output_bufs@[c]@
                    == Seq::new(new_size as nat, |i: int| old(self).silence),
    {
        let fill = self.silence;
        self.input_bufs = make_channels(self.topology.inputs, new_size, fill);
        self.output_bufs = make_channels(self.topology.outputs, new_size, fill);
        self.block_size = new_size;
    }
}

/// Law: an identity plugin pass reproduces the engine's input bit for
/// bit in the engine's output channels. `staging_in` is what `copy_in`
/// stages from the engine input, `staging_out` what an identity plugin
/// (output = input) writes back, and `engine_out` what `copy_out`
/// delivers; chaining their contracts returns exactly the input.
pub proof fn lemma_identity_round_trip<T>(
    engine_in: Seq<Seq<T>>,
    staging_in: Seq<Seq<T>>,
    staging_out: Seq<Seq<T>>,
    engine_out: Seq<Seq<T>>,
)
    requires
        staging_in.len() == engine_in.len(),
        forall|c: int| 0 <= c < engine_in.len() ==> staging_in[c] == engine_in[c],
        staging_out.len() == staging_in.len(),
        forall|c: int| 0 <= c < staging_in.len() ==> staging_out[c] == staging_in[c],
        engine_out.len() == staging_out.len(),
        forall|c: int| 0 <= c < staging_out.len() ==> engine_out[c] == staging_out[c],
    ensures
        engine_out =~= engine_in,
{
}

} // verus!
