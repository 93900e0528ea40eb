use vstd::prelude::*;
use crate::state::HostError;

verus! {

/// Choose which of the bundle's plugin descriptors to instantiate. An
/// explicit request must lie within the bundle's descriptor count, or the
/// startup aborts; an omitted request falls back to the first descriptor,
/// which only an empty bundle cannot offer.
pub fn select_plugin_index(plugin_count: u32, requested: Option<u32>) -> (r: Result<
    u32,
    HostError,
>)
    ensures
        match requested {
            Some(i) => if i < plugin_count {
                r == Ok::<u32, HostError>(i)
            } else {
                r == Err::<u32, HostError>(HostError::PluginIndexOutOfBounds)
            },
            None => if plugin_count > 0 {
                r == Ok::<u32, HostError>(0u32)
            } else {
                r == Err::<u32, HostError>(HostError::PluginIndexOutOfBounds)
            },
        },
{
    match requested {
        Some(i) => {
            if i < plugin_count {
                Ok(i)
            } else {
                Err(HostError::PluginIndexOutOfBounds)
            }
        },
        None => {
            if plugin_count > 0 {
                Ok(0)
            } else {
                Err(HostError::PluginIndexOutOfBounds)
            }
        },
    }
}

} // verus!
