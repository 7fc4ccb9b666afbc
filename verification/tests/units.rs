use winctl::color::{clamp_channel, Channel, Rgb, CHANNEL_MAX};
use winctl::config::select_config;
use winctl::overlay::OverlayState;
use winctl::pixels::{fill_buffer, FILL_PIXEL};
use winctl::shader::{
    build_outcome, build_steps, prefixed_source, BuildFailure, BuildStep, ShaderStage, NEWLINE,
};

#[test]
fn clamp_keeps_values_in_unit_range() {
    assert_eq!(clamp_channel(-1), 0);
    assert_eq!(clamp_channel(-1_000_000_000), 0);
    assert_eq!(clamp_channel(0), 0);
    assert_eq!(clamp_channel(137), 137);
    assert_eq!(clamp_channel(CHANNEL_MAX as i64), CHANNEL_MAX);
    assert_eq!(clamp_channel(CHANNEL_MAX as i64 + 1), CHANNEL_MAX);
    assert_eq!(clamp_channel(i64::MAX), CHANNEL_MAX);
    assert_eq!(clamp_channel(i64::MIN), 0);
}

#[test]
fn slider_drags_clamp_in_both_directions() {
    let mut o = OverlayState::new();
    o.drag_slider(Channel::Red, -999);
    assert_eq!(o.color.red, 0);
    o.drag_slider(Channel::Green, 4321);
    assert_eq!(o.color.green, CHANNEL_MAX);
    o.drag_slider(Channel::Blue, 600);
    assert_eq!(o.color, Rgb { red: 0, green: CHANNEL_MAX, blue: 600 });
    assert!(!o.visible);
}

#[test]
fn overlay_toggles_by_key_presses_only() {
    let mut o = OverlayState::new();
    assert!(!o.visible);
    assert!(o.handle_key(true, true));
    assert!(o.visible);
    assert!(!o.handle_key(false, true));
    assert!(!o.handle_key(true, false));
    assert!(o.visible);
    assert!(o.handle_key(true, true));
    assert!(!o.visible);
}

#[test]
fn fill_buffer_paints_every_pixel() {
    let mut buf = vec![0u32; 800 * 600];
    fill_buffer(&mut buf);
    assert_eq!(buf.len(), 800 * 600);
    assert!(buf.iter().all(|p| *p == FILL_PIXEL));
    assert_eq!(FILL_PIXEL, 0xFF0066CC);

    let mut empty: Vec<u32> = Vec::new();
    fill_buffer(&mut empty);
    assert!(empty.is_empty());
}

#[test]
fn select_config_prefers_more_samples_first_wins_ties() {
    assert_eq!(select_config(&vec![]), None);
    assert_eq!(select_config(&vec![4]), Some(0));
    assert_eq!(select_config(&vec![0, 4, 8, 8, 2]), Some(2));
    assert_eq!(select_config(&vec![8, 4, 8]), Some(0));
    assert_eq!(select_config(&vec![1, 2, 4, 8]), Some(3));
}

#[test]
fn build_outcome_surfaces_first_failure() {
    assert_eq!(build_outcome(true, true, true), Ok(()));
    assert_eq!(build_outcome(false, true, true), Err(BuildFailure::VertexCompile));
    assert_eq!(build_outcome(false, false, false), Err(BuildFailure::VertexCompile));
    assert_eq!(build_outcome(true, false, true), Err(BuildFailure::FragmentCompile));
    assert_eq!(build_outcome(true, false, false), Err(BuildFailure::FragmentCompile));
    assert_eq!(build_outcome(true, true, false), Err(BuildFailure::Link));
}

#[test]
fn build_steps_follow_the_protocol_order() {
    let steps = build_steps();
    assert_eq!(steps.len(), 16);
    let stage_block = |stage: ShaderStage| {
        vec![
            BuildStep::CreateShader { stage },
            BuildStep::SourceShader { stage },
            BuildStep::CompileShader { stage },
            BuildStep::CheckCompile { stage },
            BuildStep::AttachShader { stage },
        ]
    };
    assert_eq!(&steps[0..5], stage_block(ShaderStage::Vertex).as_slice());
    assert_eq!(&steps[5..10], stage_block(ShaderStage::Fragment).as_slice());
    assert_eq!(steps[10], BuildStep::LinkProgram);
    assert_eq!(steps[11], BuildStep::CheckLink);
    assert_eq!(
        &steps[12..16],
        &[
            BuildStep::DetachShader { stage: ShaderStage::Vertex },
            BuildStep::DeleteShader { stage: ShaderStage::Vertex },
            BuildStep::DetachShader { stage: ShaderStage::Fragment },
            BuildStep::DeleteShader { stage: ShaderStage::Fragment },
        ]
    );
}

#[test]
fn prefixed_source_joins_with_one_line_feed() {
    let prefix: Vec<u8> = b"#version 410".to_vec();
    let source: Vec<u8> = b"void main() {}".to_vec();
    let joined = prefixed_source(&prefix, &source);
    assert_eq!(joined, b"#version 410\nvoid main() {}".to_vec());
    assert_eq!(NEWLINE, b'\n');

    let empty = prefixed_source(&Vec::new(), &Vec::new());
    assert_eq!(empty, vec![NEWLINE]);
}
