//! End-to-end scenarios: a full frame loop over the asset pool, the frame
//! diff, and the render state, without a device.

use render_sync::render_state::{RenderCommand, RenderState, UpdateRenderState};
use render_sync::textures::{Sampler, Texture, Textures};
use render_sync::uniforms::Uniforms;
use render_sync::update_render_state::{update_render_state, RenderTextures, SceneInstance};

fn identity_bits() -> Vec<u32> {
    let m: [f32; 16] = [
        1.0, 0.0, 0.0, 0.0, //
        0.0, 1.0, 0.0, 0.0, //
        0.0, 0.0, 1.0, 0.0, //
        0.0, 0.0, 0.0, 1.0,
    ];
    m.iter().map(|x| x.to_bits()).collect()
}

fn camera_uniforms() -> Uniforms {
    Uniforms::new(identity_bits(), identity_bits())
}

fn has_realloc(cmds: &[RenderCommand]) -> bool {
    cmds.iter().any(|c| matches!(c, RenderCommand::CreateInstanceBuffer(_, _)))
}

fn has_binding_rebuild(cmds: &[RenderCommand]) -> bool {
    cmds.iter().any(|c| matches!(c, RenderCommand::CreateInstanceBindGroup(_, _)))
}

/// Insert one 1x1 red texture, one sampler, spawn one instance at the
/// identity transform referencing both: the first frame's descriptor has
/// textures and instances both present; a second frame with no changes has
/// both absent.
#[test]
fn scenario_first_frame_uploads_then_settles() {
    let mut pool = Textures::default();
    let mut maps = RenderTextures::new();
    let mut state = RenderState::new(&camera_uniforms(), &Vec::new(), &Vec::new(), &Vec::new());

    let tex = pool.get_textures_mut().push(Texture { size: (1, 1), data: vec![255, 0, 0, 255] });
    let samp = pool.get_samplers_mut().push(Sampler);
    let scene = vec![SceneInstance { transform: identity_bits(), texture: tex, sampler: samp }];

    // frame 1: the instance was just spawned, so the scene layer reports a
    // change, and the pool is dirty
    let update = update_render_state(&mut pool, &mut maps, Some(camera_uniforms()), true, false, &scene);
    assert!(update.textures.is_some());
    let instances = update.instances.as_ref().expect("instances field should be present");
    assert_eq!(instances.len(), 1);
    assert_eq!(instances[0].texture_index, 0);
    assert_eq!(instances[0].sampler_index, 0);
    let cmds = state.update_render_state(update);
    assert!(!cmds.is_empty());
    assert_eq!(state.get_instance_count(), 1);

    // frame 2: nothing changed
    let update2 = update_render_state(&mut pool, &mut maps, Some(camera_uniforms()), false, false, &scene);
    assert!(update2.textures.is_none());
    assert!(update2.instances.is_none());
    let before = state.get_bind_groups();
    let cmds2 = state.update_render_state(update2);
    assert_eq!(cmds2.len(), 1); // only the uniform write remains
    assert!(matches!(cmds2[0], RenderCommand::WriteUniforms(_)));
    assert_eq!(state.get_bind_groups(), before);
    assert_eq!(state.get_instance_count(), 1);
}

/// Remove the only camera mid-run: the uniform field becomes absent from
/// every subsequent frame's descriptor, no uniform write is issued, and the
/// rest of the frame proceeds without error.
#[test]
fn scenario_camera_removal_stops_uniform_writes() {
    let mut pool = Textures::default();
    let mut maps = RenderTextures::new();
    let mut state = RenderState::new(&camera_uniforms(), &Vec::new(), &Vec::new(), &Vec::new());
    let scene: Vec<SceneInstance> = Vec::new();

    // frames with a camera write uniforms
    let update = update_render_state(&mut pool, &mut maps, Some(camera_uniforms()), false, false, &scene);
    assert!(update.uniforms.is_some());
    let cmds = state.update_render_state(update);
    assert!(matches!(cmds[0], RenderCommand::WriteUniforms(_)));

    // the camera is gone: no uniform computation, hence no uniform field
    for _ in 0..3 {
        let update = update_render_state(&mut pool, &mut maps, None, false, false, &scene);
        assert!(update.uniforms.is_none());
        let cmds = state.update_render_state(update);
        // nothing is written: the last bound uniform values stay in place
        assert!(cmds.is_empty());
    }
}

/// Grow the instance count from 2 to 2000 across frames: the instance
/// buffer reallocates exactly once, at the frame where the 2000-element
/// write first exceeds the prior capacity, and the instance binding is
/// rebuilt exactly that frame.
#[test]
fn scenario_growth_reallocates_exactly_once() {
    let mut pool = Textures::default();
    let mut maps = RenderTextures::new();
    let mut state = RenderState::new(&camera_uniforms(), &Vec::new(), &Vec::new(), &Vec::new());

    let tex = pool.get_textures_mut().push(Texture { size: (1, 1), data: vec![0, 0, 255, 255] });
    let samp = pool.get_samplers_mut().push(Sampler);

    let scene_of = |n: usize| -> Vec<SceneInstance> {
        (0..n)
            .map(|_| SceneInstance { transform: identity_bits(), texture: tex, sampler: samp })
            .collect()
    };

    // frame 1: two instances; the empty buffer (capacity 0) must grow
    let scene2 = scene_of(2);
    let update = update_render_state(&mut pool, &mut maps, None, true, false, &scene2);
    let cmds = state.update_render_state(update);
    assert!(has_realloc(&cmds));
    assert!(has_binding_rebuild(&cmds));
    assert_eq!(state.instance_buffer_capacity(), 2);
    let buffer_after_first_growth = state.instance_buffer_id();
    let bind_group_after_first_growth = state.get_bind_groups().1;

    // frame 2: still two instances, rewritten in place
    let update = update_render_state(&mut pool, &mut maps, None, true, false, &scene2);
    let cmds = state.update_render_state(update);
    assert!(!has_realloc(&cmds));
    assert!(!has_binding_rebuild(&cmds));
    assert_eq!(state.instance_buffer_id(), buffer_after_first_growth);

    // frame 3: 2000 instances; this is the one frame that reallocates
    let scene2000 = scene_of(2000);
    let update = update_render_state(&mut pool, &mut maps, None, true, false, &scene2000);
    let cmds = state.update_render_state(update);
    assert!(has_realloc(&cmds));
    assert!(has_binding_rebuild(&cmds));
    assert_ne!(state.instance_buffer_id(), buffer_after_first_growth);
    assert_ne!(state.get_bind_groups().1, bind_group_after_first_growth);
    assert_eq!(state.instance_buffer_capacity(), 2000);
    assert_eq!(state.get_instance_count(), 2000);
    let buffer_after_big_growth = state.instance_buffer_id();
    let bind_group_after_big_growth = state.get_bind_groups().1;

    // later frames at 2000 instances never reallocate again
    for _ in 0..3 {
        let update = update_render_state(&mut pool, &mut maps, None, true, false, &scene2000);
        let cmds = state.update_render_state(update);
        assert!(!has_realloc(&cmds));
        assert!(!has_binding_rebuild(&cmds));
        assert_eq!(state.instance_buffer_id(), buffer_after_big_growth);
        assert_eq!(state.get_bind_groups().1, bind_group_after_big_growth);
    }
    // the draw that follows uses the logical length, never the capacity
    assert_eq!(state.get_instance_count(), 2000);
}

/// A frame whose trigger fires on an empty scene issues a zero-instance
/// draw: the descriptor carries an explicit empty list and applying it is
/// an in-place write of zero elements.
#[test]
fn scenario_empty_render_set_draws_zero_instances() {
    let mut pool = Textures::default();
    let mut maps = RenderTextures::new();
    let instances = vec![
        render_sync::instance::Instance::new(&identity_bits(), 0, 0),
    ];
    let mut state = RenderState::new(&camera_uniforms(), &instances, &Vec::new(), &Vec::new());
    assert_eq!(state.get_instance_count(), 1);

    // every instance disappeared this frame
    let scene: Vec<SceneInstance> = Vec::new();
    let update = update_render_state(&mut pool, &mut maps, None, false, true, &scene);
    let list = update.instances.as_ref().expect("instances field should be present");
    assert!(list.is_empty());
    let cmds = state.update_render_state(update);
    assert_eq!(cmds.len(), 1);
    assert!(matches!(cmds[0], RenderCommand::WriteInstanceBuffer(_, _)));
    // the next draw issues zero instances without touching the binding
    assert_eq!(state.get_instance_count(), 0);
    assert_eq!(state.instance_binding_buffer(), state.instance_buffer_id());
}
