use vstd::prelude::*;

verus! {

/// Lifecycle stage of the hosted plugin instance.
#[derive(Clone, Copy, Debug, PartialEq, Eq, Structural)]
pub enum ActivationState {
    Loaded,
    Activated,
    Processing,
}

/// Host-side failures.
///
/// `InvalidState` marks a lifecycle transition attempted from the wrong
/// state: a protocol violation with the plugin that callers must treat as
/// fatal rather than silently ignore. The remaining variants name the
/// specific configuration fault.
#[derive(Clone, Copy, Debug, PartialEq, Eq, Structural)]
pub enum HostError {
    /// A lifecycle operation was attempted from a state that does not
    /// admit it.
    InvalidState,
    /// The block-size interval offered at activation was empty.
    InvalidBlockRange,
    /// The plugin refused the offered audio configuration.
    PluginRejected,
    /// The engine announced a block size outside the interval negotiated
    /// at activation.
    BlockSizeOutOfRange,
    /// The requested plugin descriptor index is out of bounds.
    PluginIndexOutOfBounds,
}

/// Tracks the plugin lifecycle and admits only the legal transitions:
/// `Loaded` to `Activated` to `Processing` and back down, one step at a
/// time. The block-size interval and sample rate recorded by `activate`
/// stay fixed until the next successful `activate`.
#[derive(Clone, Copy, Debug, PartialEq, Eq, Structural)]
pub struct PluginActivationStateMachine {
    pub state: ActivationState,
    pub sample_rate: u32,
    pub min_block: u32,
    pub max_block: u32,
}

/// A block-size interval is usable when it is non-empty and excludes the
/// degenerate zero-frame block.
pub open spec fn block_range_valid(min_block: u32, max_block: u32) -> bool {
    0 < min_block <= max_block
}

/// What `activate` does: from `Loaded`, with a valid interval and an
/// accepting plugin, record the configuration and move to `Activated`;
/// otherwise leave the machine unchanged and name the fault.
pub open spec fn spec_activate(
    m: PluginActivationStateMachine,
    sample_rate: u32,
    min_block: u32,
    max_block: u32,
    plugin_accepted: bool,
) -> (PluginActivationStateMachine, Result<(), HostError>) {
    if m.state != ActivationState::Loaded {
        (m, Err(HostError::InvalidState))
    } else if !block_range_valid(min_block, max_block) {
        (m, Err(HostError::InvalidBlockRange))
    } else if !plugin_accepted {
        (m, Err(HostError::PluginRejected))
    } else {
        (
            (PluginActivationStateMachine {
                state: ActivationState::Activated,
                sample_rate,
                min_block,
                max_block,
            }),
            Ok(()),
        )
    }
}

/// What `start_processing` does: legal only from `Activated`.
pub open spec fn spec_start_processing(
    m: PluginActivationStateMachine,
) -> (PluginActivationStateMachine, Result<(), HostError>) {
    if m.state == ActivationState::Activated {
        ((PluginActivationStateMachine { state: ActivationState::Processing, ..m }), Ok(()))
    } else {
        (m, Err(HostError::InvalidState))
    }
}

/// What `stop_processing` does: legal only from `Processing`.
pub open spec fn spec_stop_processing(
    m: PluginActivationStateMachine,
) -> (PluginActivationStateMachine, Result<(), HostError>) {
    if m.state == ActivationState::Processing {
        ((PluginActivationStateMachine { state: ActivationState::Activated, ..m }), Ok(()))
    } else {
        (m, Err(HostError::InvalidState))
    }
}

/// What `deactivate` does: legal only from `Activated`.
pub open spec fn spec_deactivate(
    m: PluginActivationStateMachine,
) -> (PluginActivationStateMachine, Result<(), HostError>) {
    if m.state == ActivationState::Activated {
        ((PluginActivationStateMachine { state: ActivationState::Loaded, ..m }), Ok(()))
    } else {
        (m, Err(HostError::InvalidState))
    }
}

impl PluginActivationStateMachine {
    /// A freshly instantiated plugin starts in `Loaded` with no negotiated
    /// configuration.
    pub fn new() -> (m: Self)
        ensures
            m == (PluginActivationStateMachine {
                state: ActivationState::Loaded,
                sample_rate: 0,
                min_block: 0,
                max_block: 0,
            }),
    {
        PluginActivationStateMachine {
            state: ActivationState::Loaded,
            sample_rate: 0,
            min_block: 0,
            max_block: 0,
        }
    }

    /// Activate the plugin with a sample rate and a closed block-size
    /// interval that must cover every block size the engine may present.
    /// `plugin_accepted` reports whether the plugin took the offered
    /// configuration; the host learns it from the plugin's own activation
    /// call, and this machine records the outcome.
    pub fn activate(
        &mut self,
        sample_rate: u32,
        min_block: u32,
        max_block: u32,
        plugin_accepted: bool,
    ) -> (r: Result<(), HostError>)
        ensures
            (*final(self), r) == spec_activate(
                *old(self),
                sample_rate,
                min_block,
                max_block,
                plugin_accepted,
            ),
            r is Ok <==> old(self).state == ActivationState::Loaded
                && block_range_valid(min_block, max_block) && plugin_accepted,
            r is Ok ==> final(self).state == ActivationState::Activated
                && final(self).sample_rate == sample_rate
                && final(self).min_block == min_block
                && final(self).max_block == max_block,
            r is Err ==> *final(self) == *old(self),
            old(self).state != ActivationState::Loaded ==> r == Err::<(), HostError>(HostError::InvalidState),
    {
        if self.state != ActivationState::Loaded {
            Err(HostError::InvalidState)
        } else if !(0 < min_block && min_block <= max_block) {
            Err(HostError::InvalidBlockRange)
        } else if !plugin_accepted {
            Err(HostError::PluginRejected)
        } else {
            self.state = ActivationState::Activated;
            self.sample_rate = sample_rate;
            self.min_block = min_block;
            self.max_block = max_block;
            Ok(())
        }
    }

    /// Let the plugin begin accepting processing calls. Legal only from
    /// `Activated`; from any other state it fails loudly with
    /// `InvalidState` and changes nothing.
    pub fn start_processing(&mut self) -> (r: Result<(), HostError>)
        ensures
            (*final(self), r) == spec_start_processing(*old(self)),
            r is Ok <==> old(self).state == ActivationState::Activated,
            r is Ok ==> final(self).state == ActivationState::Processing,
            old(self).state != ActivationState::Activated ==> r == Err::<(), HostError>(HostError::InvalidState)
                && *final(self) == *old(self),
    {
        if self.state == ActivationState::Activated {
            self.state = ActivationState::Processing;
            Ok(())
        } else {
            Err(HostError::InvalidState)
        }
    }

    /// Stop per-block processing. Legal only from `Processing`.
    pub fn stop_processing(&mut self) -> (r: Result<(), HostError>)
        ensures
            (*final(self), r) == spec_stop_processing(*old(self)),
            r is Ok <==> old(self).state == ActivationState::Processing,
            r is Ok ==> final(self).state == ActivationState::Activated,
            old(self).state != ActivationState::Processing ==> r == Err::<(), HostError>(HostError::InvalidState)
                && *final(self) == *old(self),
    {
        if self.state == ActivationState::Processing {
            self.state = ActivationState::Activated;
            Ok(())
        } else {
            Err(HostError::InvalidState)
        }
    }

    /// Tear the session back down to `Loaded`. Legal only from `Activated`;
    /// a `Processing` session must stop first.
    pub fn deactivate(&mut self) -> (r: Result<(), HostError>)
        ensures
            (*final(self), r) == spec_deactivate(*old(self)),
            r is Ok <==> old(self).state == ActivationState::Activated,
            r is Ok ==> final(self).state == ActivationState::Loaded,
            old(self).state != ActivationState::Activated ==> r == Err::<(), HostError>(HostError::InvalidState)
                && *final(self) == *old(self),
    {
        if self.state == ActivationState::Activated {
            self.state = ActivationState::Loaded;
            Ok(())
        } else {
            Err(HostError::InvalidState)
        }
    }
}

/// Law: from `Loaded`, with a valid block-size interval and a plugin that
/// accepts the configuration, the full lifecycle `activate`,
/// `start_processing`, `stop_processing`, `deactivate` succeeds end to end
/// and returns the machine to `Loaded`.
pub proof fn lemma_lifecycle_round_trip(
    m: PluginActivationStateMachine,
    sample_rate: u32,
    min_block: u32,
    max_block: u32,
)
    requires
        m.state == ActivationState::Loaded,
        block_range_valid(min_block, max_block),
    ensures
        ({
            let (m1, r1) = spec_activate(m, sample_rate, min_block, max_block, true);
            let (m2, r2) = spec_start_processing(m1);
            let (m3, r3) = spec_stop_processing(m2);
            let (m4, r4) = spec_deactivate(m3);
            r1 is Ok && r2 is Ok && r3 is Ok && r4 is Ok && m4.state == ActivationState::Loaded
        }),
{
}

} // verus!
