use wavr_engine::context::AudioContext;
use wavr_engine::context::AudioContextState;
use wavr_engine::effect::Effect;
use wavr_engine::engine::AudioEngine;
use wavr_engine::rack::Rack;
use wavr_engine::rack::RackEffect;
use wavr_engine::rack::RackError;

/// Sample effects used to exercise the chain: a constant source, a gain
/// stage, a sine generator, and a hard saturator.
#[derive(Clone, Copy, Debug, PartialEq)]
enum TestEffect {
    SetConst(f64),
    Multiply(f64),
    Sine { frequency: f64, amplitude: f64 },
    Saturate { gain: f64 },
}

impl Effect<f64> for TestEffect {
    // The ghost half of the trait: it describes the transformation to the
    // verifier and is never invoked at runtime.
    fn spec_data_after(
        &self,
        _context: AudioContext,
        _data: vstd::seq::Seq<f64>,
    ) -> vstd::seq::Seq<f64> {
        unreachable!()
    }

    fn process(&mut self, context: &AudioContext, data: &mut Vec<f64>) {
        match *self {
            TestEffect::SetConst(c) => {
                for s in data.iter_mut() {
                    *s = c;
                }
            }
            TestEffect::Multiply(m) => {
                for s in data.iter_mut() {
                    *s *= m;
                }
            }
            TestEffect::Sine { frequency, amplitude } => {
                // A generator: silent unless the stream is active.
                if context.is_playing() {
                    let channels = context.channel_count as usize;
                    let frames = data.len() / channels;
                    for frame in 0..frames {
                        let t = (context.current_sample + frame) as f64
                            / context.sample_rate as f64;
                        let v = amplitude
                            * (2.0 * std::f64::consts::PI * frequency * t).sin();
                        for ch in 0..channels {
                            data[frame * channels + ch] = v;
                        }
                    }
                }
            }
            TestEffect::Saturate { gain } => {
                for s in data.iter_mut() {
                    *s = (*s * gain).clamp(-1.0, 1.0);
                }
            }
        }
    }
}

#[test]
fn entry_flags_enable_disable_toggle() {
    let mut e = RackEffect::new(TestEffect::SetConst(1.0));
    assert!(e.enabled());
    e.disable();
    assert!(!e.enabled());
    e.enable();
    assert!(e.enabled());
    e.toggle();
    assert!(!e.enabled());
    e.toggle();
    assert!(e.enabled());
    // The wrapped effect is untouched by flag changes.
    assert_eq!(e.effect, TestEffect::SetConst(1.0));
}

#[test]
fn disabled_entry_is_skipped_others_still_apply() {
    let mut engine: AudioEngine<TestEffect> = AudioEngine::new(48000, 1, 4);
    engine.get_rack_mut().push_effect(TestEffect::SetConst(0.5));
    engine.get_rack_mut().push_effect(TestEffect::Multiply(3.0));

    let mut buf = vec![0.25; 4];
    engine.fill_interleaved(&mut buf);
    assert_eq!(buf, vec![1.5; 4]);

    engine.get_rack_mut().effects[0].disable();
    let mut buf = vec![0.25; 4];
    engine.fill_interleaved(&mut buf);
    assert_eq!(buf, vec![0.75; 4]);

    engine.get_rack_mut().effects[0].enable();
    engine.get_rack_mut().effects[1].disable();
    let mut buf = vec![0.25; 4];
    engine.fill_interleaved(&mut buf);
    assert_eq!(buf, vec![0.5; 4]);
}

#[test]
fn chain_order_is_not_commutative() {
    // Constant source first, then gain: the gain sees the constant.
    let mut forward: Rack<TestEffect> = Rack::new();
    forward.push_effect(TestEffect::SetConst(0.5));
    forward.push_effect(TestEffect::Multiply(2.0));
    let ctx = AudioContext::new(48000, 1, 4);
    let mut buf = vec![0.0; 4];
    forward.process(&ctx, &mut buf);
    assert_eq!(buf, vec![1.0; 4]);

    // Gain first, then constant source: the constant overwrites the gain.
    let mut reversed: Rack<TestEffect> = Rack::new();
    reversed.push_effect(TestEffect::Multiply(2.0));
    reversed.push_effect(TestEffect::SetConst(0.5));
    let mut buf = vec![0.0; 4];
    reversed.process(&ctx, &mut buf);
    assert_eq!(buf, vec![0.5; 4]);
}

#[test]
fn reorder_moves_source_to_destination_after_removal() {
    let mut rack: Rack<TestEffect> = Rack::new();
    rack.push_effect(TestEffect::SetConst(1.0));
    rack.push_effect(TestEffect::SetConst(2.0));
    rack.push_effect(TestEffect::SetConst(3.0));

    // The destination indexes the chain with the source entry already taken
    // out, so the front entry lands at the tail.
    assert_eq!(rack.reorder_effect(0, 2), Ok(()));
    assert_eq!(rack.effects[0].effect, TestEffect::SetConst(2.0));
    assert_eq!(rack.effects[1].effect, TestEffect::SetConst(3.0));
    assert_eq!(rack.effects[2].effect, TestEffect::SetConst(1.0));

    // Moving the tail to the front restores the earlier order.
    assert_eq!(rack.reorder_effect(2, 0), Ok(()));
    assert_eq!(rack.effects[0].effect, TestEffect::SetConst(1.0));
    assert_eq!(rack.effects[1].effect, TestEffect::SetConst(2.0));
    assert_eq!(rack.effects[2].effect, TestEffect::SetConst(3.0));
}

#[test]
fn reorder_out_of_range_is_an_error_and_keeps_the_chain() {
    let mut rack: Rack<TestEffect> = Rack::new();
    rack.push_effect(TestEffect::SetConst(1.0));
    rack.push_effect(TestEffect::SetConst(2.0));
    rack.push_effect(TestEffect::SetConst(3.0));

    assert_eq!(rack.reorder_effect(0, 3), Err(RackError::IndexOutOfRange));
    assert_eq!(rack.reorder_effect(3, 0), Err(RackError::IndexOutOfRange));
    assert_eq!(rack.len(), 3);
    assert_eq!(rack.effects[0].effect, TestEffect::SetConst(1.0));
    assert_eq!(rack.effects[1].effect, TestEffect::SetConst(2.0));
    assert_eq!(rack.effects[2].effect, TestEffect::SetConst(3.0));
}

#[test]
fn remove_out_of_range_is_an_error_and_keeps_the_chain() {
    let mut rack: Rack<TestEffect> = Rack::new();
    rack.push_effect(TestEffect::SetConst(1.0));
    rack.push_effect(TestEffect::SetConst(2.0));
    rack.push_effect(TestEffect::SetConst(3.0));

    assert_eq!(rack.remove_effect(3), Err(RackError::IndexOutOfRange));
    assert_eq!(rack.remove_effect(100), Err(RackError::IndexOutOfRange));
    assert_eq!(rack.len(), 3);
    assert_eq!(rack.effects[0].effect, TestEffect::SetConst(1.0));
    assert_eq!(rack.effects[1].effect, TestEffect::SetConst(2.0));
    assert_eq!(rack.effects[2].effect, TestEffect::SetConst(3.0));

    assert_eq!(rack.remove_effect(1), Ok(()));
    assert_eq!(rack.len(), 2);
    assert_eq!(rack.effects[0].effect, TestEffect::SetConst(1.0));
    assert_eq!(rack.effects[1].effect, TestEffect::SetConst(3.0));
}

#[test]
fn insert_positions_and_out_of_range_error() {
    let mut rack: Rack<TestEffect> = Rack::new();
    rack.push_effect(TestEffect::SetConst(1.0));
    rack.push_effect(TestEffect::SetConst(3.0));

    assert_eq!(rack.insert_effect(1, TestEffect::SetConst(2.0)), Ok(()));
    assert_eq!(rack.effects[1].effect, TestEffect::SetConst(2.0));

    // Inserting at the length appends.
    assert_eq!(rack.insert_effect(3, TestEffect::SetConst(4.0)), Ok(()));
    assert_eq!(rack.effects[3].effect, TestEffect::SetConst(4.0));

    // One past the length is rejected and nothing moves.
    assert_eq!(
        rack.insert_effect(5, TestEffect::SetConst(9.0)),
        Err(RackError::IndexOutOfRange),
    );
    assert_eq!(rack.len(), 4);
    assert_eq!(rack.effects[0].effect, TestEffect::SetConst(1.0));
    assert_eq!(rack.effects[3].effect, TestEffect::SetConst(4.0));
}

#[test]
fn empty_rack_is_a_noop_but_the_clock_still_advances() {
    let mut engine: AudioEngine<TestEffect> = AudioEngine::new(48000, 2, 4);
    let mut buf = vec![0.125, -0.5, 0.25, 1.0, -1.0, 0.75, 0.0, 0.5];
    let orig = buf.clone();
    engine.fill_interleaved(&mut buf);
    assert_eq!(buf, orig);
    assert_eq!(engine.get_context().current_sample, 4);
    assert_eq!(engine.get_context().buffer_size, 4);
}

#[test]
fn fully_disabled_rack_leaves_the_buffer_alone() {
    let mut engine: AudioEngine<TestEffect> = AudioEngine::new(48000, 1, 4);
    engine.get_rack_mut().push_effect(TestEffect::SetConst(0.9));
    engine.get_rack_mut().push_effect(TestEffect::Multiply(2.0));
    engine.get_rack_mut().effects[0].disable();
    engine.get_rack_mut().effects[1].disable();
    let mut buf = vec![0.25; 4];
    engine.fill_interleaved(&mut buf);
    assert_eq!(buf, vec![0.25; 4]);
    assert_eq!(engine.get_context().current_sample, 4);
}

#[test]
fn generator_respects_the_playback_state() {
    let mut engine: AudioEngine<TestEffect> = AudioEngine::new(48000, 2, 512);
    engine.get_rack_mut().push_effect(TestEffect::Sine {
        frequency: 80.0,
        amplitude: 1.0,
    });

    // Paused: the generator stays silent.
    let buf = engine.generate(0.0f64);
    assert_eq!(buf.len(), 1024);
    assert!(buf.iter().all(|&s| s == 0.0));

    // Offline rendering counts as active.
    engine.set_context_state(AudioContextState::Offline);
    engine.set_buffer_size(512);
    let buf = engine.generate(0.0f64);
    assert!(buf.iter().any(|&s| s != 0.0));
}

#[test]
fn racks_nest_as_effects() {
    let mut inner: Rack<TestEffect> = Rack::new();
    inner.push_effect(TestEffect::SetConst(0.3));
    let mut engine: AudioEngine<Rack<TestEffect>> = AudioEngine::new(48000, 2, 8);
    engine.get_rack_mut().push_effect(inner);
    let buf = engine.generate(0.0f64);
    assert_eq!(buf, vec![0.3; 16]);
}

#[test]
fn fill_recomputes_buffer_size_from_the_buffer() {
    let mut engine: AudioEngine<TestEffect> = AudioEngine::new(48000, 2, 512);
    let mut small = vec![0.0f64; 256];
    engine.fill_interleaved(&mut small);
    assert_eq!(engine.get_context().buffer_size, 128);
    assert_eq!(engine.get_context().current_sample, 128);

    let mut large = vec![0.0f64; 1024];
    engine.fill_interleaved(&mut large);
    assert_eq!(engine.get_context().buffer_size, 512);
    assert_eq!(engine.get_context().current_sample, 640);
}

#[test]
fn engine_accessors_and_state() {
    let mut engine: AudioEngine<TestEffect> = AudioEngine::new(44100, 2, 64);
    assert_eq!(engine.get_rack().len(), 0);
    assert_eq!(engine.get_context().sample_rate, 44100);
    assert_eq!(engine.get_context().state, AudioContextState::Paused);

    engine.set_context_state(AudioContextState::Playing);
    assert_eq!(engine.get_context().state, AudioContextState::Playing);
    assert!(engine.get_context().is_playing());

    engine.set_buffer_size(128);
    assert_eq!(engine.get_context().buffer_size, 128);
    assert_eq!(engine.get_context().current_sample, 0);

    engine.get_rack_mut().push_effect(TestEffect::Multiply(1.0));
    assert_eq!(engine.get_rack().len(), 1);
}

#[test]
fn default_rack_is_empty() {
    let rack: Rack<TestEffect> = Rack::default();
    assert_eq!(rack.len(), 0);
}

#[test]
fn offline_render_stays_in_range_and_keeps_sample_count() {
    let mut engine: AudioEngine<TestEffect> = AudioEngine::new(48000, 2, 512);
    engine.set_context_state(AudioContextState::Offline);
    engine.get_rack_mut().push_effect(TestEffect::Sine {
        frequency: 80.0,
        amplitude: 1.0,
    });
    engine.get_rack_mut().push_effect(TestEffect::Saturate { gain: 2.0 });

    for cycle in 0..94 {
        let buf = engine.generate(0.0f64);
        assert_eq!(buf.len(), 1024);
        assert!(buf.iter().all(|&s| (-1.0..=1.0).contains(&s)));
        if cycle == 0 {
            // Frame 150 of the first cycle sits at the sine's positive peak:
            // 80 Hz * 150 / 48000 Hz is a quarter period, and the saturator
            // pins the doubled peak at the rail.
            assert_eq!(buf[300], 1.0);
            assert_eq!(buf[301], 1.0);
        }
    }
    assert_eq!(engine.get_context().current_sample, 48128);
}
