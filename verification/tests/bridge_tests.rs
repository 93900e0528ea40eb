use claphost::buffers::{BufferBridge, PortTopology};

fn stereo() -> PortTopology {
    PortTopology { inputs: 2, outputs: 2 }
}

#[test]
fn new_bridge_is_silent_and_block_sized() {
    let b: BufferBridge<f32> = BufferBridge::new(stereo(), 64, 0.0);
    assert_eq!(b.input_bufs.len(), 2);
    assert_eq!(b.output_bufs.len(), 2);
    for ch in b.input_bufs.iter().chain(b.output_bufs.iter()) {
        assert_eq!(ch.len(), 64);
        assert!(ch.iter().all(|s| s.to_bits() == 0.0f32.to_bits()));
    }
}

#[test]
fn identity_pass_reproduces_the_input_bit_for_bit() {
    let mut b: BufferBridge<f32> = BufferBridge::new(stereo(), 4, 0.0);
    let engine_in: Vec<Vec<f32>> = vec![
        vec![0.25, -1.0, 3.5e-3, f32::MIN_POSITIVE],
        vec![-0.0, 1.0, -2.5, 0.125],
    ];
    b.copy_in(&engine_in);
    // a hypothetical identity plugin writes its input straight to its output
    let plugin_out = b.input_bufs.clone();
    b.stage_outputs(&plugin_out);
    let mut engine_out: Vec<Vec<f32>> = vec![vec![9.0; 4], vec![9.0; 4]];
    b.copy_out(&mut engine_out);
    for ch in 0..2 {
        for i in 0..4 {
            assert_eq!(engine_out[ch][i].to_bits(), engine_in[ch][i].to_bits());
        }
    }
}

#[test]
fn copy_out_delivers_what_the_plugin_staged() {
    let mut b: BufferBridge<u32> = BufferBridge::new(stereo(), 3, 0);
    b.copy_in(&vec![vec![1, 2, 3], vec![4, 5, 6]]);
    b.stage_outputs(&vec![vec![10, 20, 30], vec![40, 50, 60]]);
    let mut engine_out: Vec<Vec<u32>> = vec![vec![0; 3], vec![0; 3]];
    b.copy_out(&mut engine_out);
    assert_eq!(engine_out, vec![vec![10, 20, 30], vec![40, 50, 60]]);
    // staging inputs were not disturbed
    assert_eq!(b.input_bufs, vec![vec![1, 2, 3], vec![4, 5, 6]]);
}

#[test]
fn realloc_resizes_every_staging_buffer_and_silences_it() {
    let mut b: BufferBridge<u32> = BufferBridge::new(stereo(), 8, 7);
    b.copy_in(&vec![vec![1; 8], vec![2; 8]]);
    b.realloc(32);
    assert_eq!(b.block_size, 32);
    for ch in b.input_bufs.iter().chain(b.output_bufs.iter()) {
        assert_eq!(ch.len(), 32);
        assert!(ch.iter().all(|&s| s == 7));
    }
    b.realloc(2);
    for ch in b.input_bufs.iter().chain(b.output_bufs.iter()) {
        assert_eq!(ch.len(), 2);
    }
}

#[test]
fn mono_in_many_out_topology_is_respected() {
    let topo = PortTopology { inputs: 1, outputs: 3 };
    let mut b: BufferBridge<u32> = BufferBridge::new(topo, 2, 0);
    b.copy_in(&vec![vec![5, 6]]);
    b.stage_outputs(&vec![vec![1, 1], vec![2, 2], vec![3, 3]]);
    let mut engine_out: Vec<Vec<u32>> = vec![vec![0; 2]; 3];
    b.copy_out(&mut engine_out);
    assert_eq!(engine_out, vec![vec![1, 1], vec![2, 2], vec![3, 3]]);
}
