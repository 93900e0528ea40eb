use vstd::prelude::*;
use crate::buffers::{BufferBridge, PortTopology};
use crate::events::{
    considered, skipped_count, translated, Event, EventTranslator, RawMessage, EVENT_CAPACITY,
};
use crate::state::{ActivationState, HostError, PluginActivationStateMachine};

verus! {

/// What the host answers the engine after a block: keep the callbacks
/// coming, or stop — a plugin processing failure is unrecoverable for the
/// block and for the session.
#[derive(Clone, Copy, Debug, PartialEq, Eq, Structural)]
pub enum Control {
    Continue,
    Fatal,
}

/// Orchestrates one callback invocation: stage the engine input,
/// translate the block's timed messages, have the plugin run (outside
/// this library), then push the plugin's output back to the engine.
///
/// Everything here runs on the single thread the engine grants the
/// callback; `on_block_size_changed` runs strictly between blocks, which
/// the engine guarantees never overlaps a callback.
pub struct ProcessLoop<T> {
    pub machine: PluginActivationStateMachine,
    pub bridge: BufferBridge<T>,
    pub translator: EventTranslator,
}

impl<T: Copy> ProcessLoop<T> {
    pub open spec fn wf(self) -> bool {
        self.bridge.wf()
    }

    /// A fresh loop around a just-instantiated plugin: lifecycle in
    /// `Loaded`, silent staging buffers, empty event batch.
    pub fn new(topology: PortTopology, block_size: usize, silence: T) -> (p: Self)
        ensures
            p.wf(),
            p.machine.state == ActivationState::Loaded,
            p.bridge.topology == topology,
            p.bridge.block_size == block_size,
            p.bridge.silence == silence,
            p.translator.batch.events@ =~= Seq::<Event>::empty(),
            p.translator.batch.skipped == 0,
    {
        ProcessLoop {
            machine: PluginActivationStateMachine::new(),
            bridge: BufferBridge::new(topology, block_size, silence),
            translator: EventTranslator::new(),
        }
    }

    /// The first half of one block: require the lifecycle to sit in
    /// `Processing` — anything else is a protocol violation the caller
    /// must treat as fatal — then stage the engine's input channels and
    /// translate the block's raw messages into the event batch. The
    /// caller then hands the staged input and the batch to the plugin.
    pub fn begin_block(
        &mut self,
        engine_inputs: &Vec<Vec<T>>,
        raw_events: &Vec<RawMessage>,
    ) -> (r: Result<(), HostError>)
        requires
            old(self).wf(),
            engine_inputs@.len() == old(self).bridge.topology.inputs,
            forall|c: int|
                0 <= c < engine_inputs@.len() ==> engine_inputs@[c]@.len() == old(
                    self,
                ).bridge.block_size,
        ensures
            final(self).wf(),
            final(self).machine == old(self).machine,
            final(self).bridge.topology == old(self).bridge.topology,
            final(self).bridge.block_size == old(self).bridge.block_size,
            final(self).bridge.silence == old(self).bridge.silence,
            r is Ok <==> old(self).machine.state == ActivationState::Processing,
            r is Err ==> r == Err::<(), HostError>(HostError::InvalidState) && *final(self)
                == *old(self),
            r is Ok ==> final(self).bridge.output_bufs == old(self).bridge.output_bufs,
            r is Ok ==> (forall|c: int|
                0 <= c < engine_inputs@.len() ==> final(self).bridge.input_bufs@[c]@
                    == engine_inputs@[c]@),
            r is Ok ==> final(self).translator.batch.events@ == translated(
                considered(raw_events@),
            ),
            r is Ok ==> final(self).translator.batch.skipped == skipped_count(
                considered(raw_events@),
            ),
            r is Ok ==> final(self).translator.batch.events@.len() <= EVENT_CAPACITY as int,
    {
        if self.machine.state != ActivationState::Processing {
            return Err(HostError::InvalidState);
        }
        self.bridge.copy_in(engine_inputs);
        self.translator.translate(raw_events);
        Ok(())
    }

    /// The second half of one block. On plugin success: stage the
    /// plugin's output channels, copy them back into the engine's output
    /// channels, clear the event batch, and tell the engine to continue.
    /// On plugin failure nothing is touched and the answer is `Fatal`:
    /// there is no partial-failure recovery, and the caller terminates
    /// the session.
    pub fn finish_block(
        &mut self,
        plugin_succeeded: bool,
        plugin_outputs: &Vec<Vec<T>>,
        engine_outputs: &mut Vec<Vec<T>>,
    ) -> (c: Control)
        requires
            old(self).wf(),
            old(self).machine.state == ActivationState::Processing,
            plugin_outputs@.len() == old(self).bridge.topology.outputs,
            forall|ch: int|
                0 <= ch < plugin_outputs@.len() ==> plugin_outputs@[ch]@.len() == old(
                    self,
                ).bridge.block_size,
            old(engine_outputs)@.len() == old(self).bridge.topology.outputs,
            forall|ch: int|
                0 <= ch < old(engine_outputs)@.len() ==> old(engine_outputs)@[ch]@.len()
                    == old(self).bridge.block_size,
        ensures
            final(self).wf(),
            final(self).machine == old(self).machine,
            final(self).bridge.topology == old(self).bridge.topology,
            final(self).bridge.block_size == old(self).bridge.block_size,
            final(self).bridge.silence == old(self).bridge.silence,
            final(self).bridge.input_bufs == old(self).bridge.input_bufs,
            final(engine_outputs)@.len() == old(engine_outputs)@.len(),
            plugin_succeeded ==> c == Control::Continue,
            plugin_succeeded ==> (forall|ch: int|
                0 <= ch < final(engine_outputs)@.len() ==> final(engine_outputs)@[ch]@
                    == plugin_outputs@[ch]@),
            plugin_succeeded ==> (forall|ch: int|
                0 <= ch < final(self).bridge.output_bufs@.len() ==> final(self).bridge.output_bufs@[ch]@ == plugin_outputs@[ch]@),
            plugin_succeeded ==> final(self).translator.batch.events@ =~= Seq::<Event>::empty(),
            plugin_succeeded ==> final(self).translator.batch.skipped == 0,
            !plugin_succeeded ==> c == Control::Fatal && *final(self) == *old(self)
                && *final(engine_outputs) == *old(engine_outputs),
    {
        if plugin_succeeded {
            self.bridge.stage_outputs(plugin_outputs);
            self.bridge.copy_out(engine_outputs);
            self.translator.clear();
            Control::Continue
        } else {
            Control::Fatal
        }
    }

    /// React to the engine's block-size-change notification, strictly
    /// between blocks. A new size inside the interval negotiated at
    /// activation replaces every staging buffer wholesale with a silent
    /// buffer of the new size. A size outside that interval is a fatal
    /// configuration error: the session must be deactivated and
    /// reactivated with a wider interval, never silently tolerated. With
    /// no activation in effect the notification is a protocol violation.
    pub fn on_block_size_changed(&mut self, new_size: u32) -> (r: Result<(), HostError>)
        requires
            old(self).wf(),
        ensures
            final(self).wf(),
            final(self).machine == old(self).machine,
            final(self).translator == old(self).translator,
            r is Ok <==> old(self).machine.state != ActivationState::Loaded && old(
                self,
            ).machine.min_block <= new_size <= old(self).machine.max_block,
            old(self).machine.state == ActivationState::Loaded ==> r == Err::<
                (),
                HostError,
            >(HostError::InvalidState),
            old(self).machine.state != ActivationState::Loaded && !(old(self).machine.min_block
                <= new_size <= old(self).machine.max_block) ==> r == Err::<
                (),
                HostError,
            >(HostError::BlockSizeOutOfRange),
            r is Err ==> *final(self) == *old(self),
            r is Ok ==> final(self).bridge.block_size == new_size as usize,
            r is Ok ==> final(self).bridge.topology == old(self).bridge.topology,
            r is Ok ==> (forall|ch: int|
                0 <= ch < final(self).bridge.input_bufs@.len() ==> final(self).bridge.input_bufs@[ch]@.len() == new_size as usize),
            r is Ok ==> (forall|ch: int|
                0 <= ch < final(self).bridge.output_bufs@.len() ==> final(self).bridge.output_bufs@[ch]@.len() == new_size as usize),
    {
        if self.machine.state == ActivationState::Loaded {
            return Err(HostError::InvalidState);
        }
        if new_size < self.machine.min_block || new_size > self.machine.max_block {
            return Err(HostError::BlockSizeOutOfRange);
        }
        self.bridge.realloc(new_size as usize);
        Ok(())
    }
}

} // verus!
