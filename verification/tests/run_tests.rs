use dummy_backend::buffer::AuxiliaryBuses;
use dummy_backend::buffer::Buffer;
use dummy_backend::config::AudioIoLayout;
use dummy_backend::config::Config;
use dummy_backend::dummy::Dummy;
use dummy_backend::dummy::Invocation;
use dummy_backend::dummy::Pacer;
use dummy_backend::dummy::ProcessCallback;
use dummy_backend::transport::Transport;
use vstd::seq::Seq;

/// Everything one callback invocation observed.
struct Snapshot {
    main: Vec<Vec<u32>>,
    aux_inputs: Vec<Vec<Vec<u32>>>,
    aux_outputs: Vec<Vec<Vec<u32>>>,
    transport: Transport,
    events_in_empty: bool,
    events_out_empty: bool,
}

fn contents(b: &Buffer) -> Vec<Vec<u32>> {
    let mut chans = Vec::new();
    for c in 0..b.channel_count() {
        let mut ch = Vec::new();
        for i in 0..b.channel_len(c) {
            ch.push(b.sample(c, i));
        }
        chans.push(ch);
    }
    chans
}

fn all_zero(chans: &[Vec<u32>]) -> bool {
    chans.iter().all(|ch| ch.iter().all(|&s| s == 0))
}

/// Records what every invocation received, scribbles over the buffers, and
/// stops after a fixed number of invocations.
struct Recorder {
    seen: Vec<Snapshot>,
    stop_after: usize,
    scribble: bool,
}

impl Recorder {
    fn new(stop_after: usize) -> Recorder {
        Recorder { seen: Vec::new(), stop_after, scribble: false }
    }
}

impl ProcessCallback<u8> for Recorder {
    // `seen` is the trait's ghost transcript; it exists only for
    // specification and is never called at runtime.
    fn seen(&self) -> Seq<Invocation> {
        unreachable!()
    }

    fn process(
        &mut self,
        main: &mut Buffer,
        aux: &mut AuxiliaryBuses,
        transport: Transport,
        events_in: &Vec<u8>,
        events_out: &mut Vec<u8>,
    ) -> bool {
        self.seen.push(Snapshot {
            main: contents(main),
            aux_inputs: aux.inputs.iter().map(contents).collect(),
            aux_outputs: aux.outputs.iter().map(contents).collect(),
            transport,
            events_in_empty: events_in.is_empty(),
            events_out_empty: events_out.is_empty(),
        });
        if self.scribble {
            for c in 0..main.channel_count() {
                for i in 0..main.channel_len(c) {
                    main.set_sample(c, i, 0xdead_beef);
                }
            }
            for b in aux.inputs.iter_mut().chain(aux.outputs.iter_mut()) {
                for c in 0..b.channel_count() {
                    b.set_sample(c, 0, 0xdead_beef);
                }
            }
            events_out.push(7);
        }
        self.seen.len() < self.stop_after
    }
}

/// Counts pacing calls; sleeps nothing.
struct CountingPacer {
    begins: usize,
    finishes: usize,
    last_target_ns: u64,
}

impl CountingPacer {
    fn new() -> CountingPacer {
        CountingPacer { begins: 0, finishes: 0, last_target_ns: 0 }
    }
}

impl Pacer for CountingPacer {
    fn begin_period(&mut self) {
        self.begins += 1;
    }

    fn finish_period(&mut self, target_interval_ns: u64) {
        self.finishes += 1;
        self.last_target_ns = target_interval_ns;
    }
}

fn config_44100_256() -> Config {
    Config {
        sample_rate_hz: 44100,
        period_size: 256,
        tempo_mbpm: 120_000,
        timesig_num: 4,
        timesig_denom: 4,
    }
}

fn stereo_layout() -> AudioIoLayout {
    AudioIoLayout {
        main_output_channels: Some(2),
        aux_input_ports: Vec::new(),
        aux_output_ports: Vec::new(),
    }
}

#[test]
fn first_invocation_shape_and_transport() {
    let mut d = Dummy::new(config_44100_256(), stereo_layout());
    let mut cb = Recorder::new(2);
    let mut pacer = CountingPacer::new();
    let _ = d.run(&mut cb, &mut pacer);

    assert_eq!(cb.seen.len(), 2);
    let first = &cb.seen[0];
    assert_eq!(first.main.len(), 2);
    for ch in &first.main {
        assert_eq!(ch.len(), 256);
    }
    assert!(all_zero(&first.main));
    assert!(first.aux_inputs.is_empty());
    assert!(first.aux_outputs.is_empty());
    assert_eq!(
        first.transport,
        Transport {
            pos_samples: 0,
            tempo_mbpm: 120_000,
            time_sig_numerator: 4,
            time_sig_denominator: 4,
            playing: true,
        }
    );
    assert_eq!(cb.seen[1].transport.pos_samples, 256);
}

#[test]
fn aux_bus_shapes_every_iteration() {
    let layout = AudioIoLayout {
        main_output_channels: None,
        aux_input_ports: vec![2],
        aux_output_ports: vec![1, 1],
    };
    let mut d = Dummy::new(config_44100_256(), layout);
    let mut cb = Recorder::new(3);
    cb.scribble = true;
    let mut pacer = CountingPacer::new();
    let _ = d.run(&mut cb, &mut pacer);

    assert_eq!(cb.seen.len(), 3);
    for snap in &cb.seen {
        assert!(snap.main.is_empty());
        assert_eq!(snap.aux_inputs.len(), 1);
        assert_eq!(snap.aux_inputs[0].len(), 2);
        assert_eq!(snap.aux_outputs.len(), 2);
        assert_eq!(snap.aux_outputs[0].len(), 1);
        assert_eq!(snap.aux_outputs[1].len(), 1);
        for bus in snap.aux_inputs.iter().chain(snap.aux_outputs.iter()) {
            for ch in bus {
                assert_eq!(ch.len(), 256);
            }
            assert!(all_zero(bus));
        }
    }
}

#[test]
fn position_advances_by_period() {
    let config = Config { period_size: 128, ..config_44100_256() };
    let mut d = Dummy::new(config, stereo_layout());
    let mut cb = Recorder::new(4);
    let mut pacer = CountingPacer::new();
    let _ = d.run(&mut cb, &mut pacer);

    let positions: Vec<u64> = cb.seen.iter().map(|s| s.transport.pos_samples).collect();
    assert_eq!(positions, vec![0, 128, 256, 384]);
}

#[test]
fn false_return_stops_loop_immediately() {
    let mut d = Dummy::new(config_44100_256(), stereo_layout());
    let mut cb = Recorder::new(1);
    let mut pacer = CountingPacer::new();
    let _ = d.run(&mut cb, &mut pacer);
    assert_eq!(cb.seen.len(), 1);
}

#[test]
fn false_return_on_third_invocation_is_last() {
    let mut d = Dummy::new(config_44100_256(), stereo_layout());
    let mut cb = Recorder::new(3);
    let mut pacer = CountingPacer::new();
    let _ = d.run(&mut cb, &mut pacer);
    assert_eq!(cb.seen.len(), 3);
}

#[test]
fn buffers_rezeroed_after_callback_writes() {
    let layout = AudioIoLayout {
        main_output_channels: Some(1),
        aux_input_ports: vec![1],
        aux_output_ports: vec![1],
    };
    let mut d = Dummy::new(config_44100_256(), layout);
    let mut cb = Recorder::new(3);
    cb.scribble = true;
    let mut pacer = CountingPacer::new();
    let _ = d.run(&mut cb, &mut pacer);

    assert_eq!(cb.seen.len(), 3);
    for snap in &cb.seen {
        assert!(all_zero(&snap.main));
        for bus in snap.aux_inputs.iter().chain(snap.aux_outputs.iter()) {
            assert!(all_zero(bus));
        }
    }
}

#[test]
fn events_always_empty_and_sink_fresh() {
    let mut d = Dummy::new(config_44100_256(), stereo_layout());
    let mut cb = Recorder::new(3);
    cb.scribble = true;
    let mut pacer = CountingPacer::new();
    let _ = d.run(&mut cb, &mut pacer);

    for snap in &cb.seen {
        assert!(snap.events_in_empty);
        assert!(snap.events_out_empty);
    }
}

#[test]
fn pacer_called_once_per_accepted_period() {
    let config = config_44100_256();
    let mut d = Dummy::new(config, stereo_layout());
    let mut cb = Recorder::new(4);
    let mut pacer = CountingPacer::new();
    let _ = d.run(&mut cb, &mut pacer);

    // `begin_period` starts every iteration; `finish_period` runs only after
    // accepted invocations, so the stopping invocation is not paced.
    assert_eq!(pacer.begins, 4);
    assert_eq!(pacer.finishes, 3);
    assert_eq!(pacer.last_target_ns, config.target_interval_ns());
}

#[test]
fn empty_layout_still_invokes_callback() {
    let layout = AudioIoLayout {
        main_output_channels: None,
        aux_input_ports: Vec::new(),
        aux_output_ports: Vec::new(),
    };
    let mut d = Dummy::new(config_44100_256(), layout);
    let mut cb = Recorder::new(2);
    let mut pacer = CountingPacer::new();
    let _ = d.run(&mut cb, &mut pacer);

    assert_eq!(cb.seen.len(), 2);
    for snap in &cb.seen {
        assert!(snap.main.is_empty());
        assert!(snap.aux_inputs.is_empty());
        assert!(snap.aux_outputs.is_empty());
        assert!(snap.transport.playing);
    }
}

#[test]
fn storage_holds_what_last_invocation_left() {
    let layout = AudioIoLayout {
        main_output_channels: Some(1),
        aux_input_ports: vec![1],
        aux_output_ports: Vec::new(),
    };
    let mut d = Dummy::new(config_44100_256(), layout);
    let mut cb = Recorder::new(2);
    cb.scribble = true;
    let mut pacer = CountingPacer::new();
    let _ = d.run(&mut cb, &mut pacer);

    // Nothing touches the buffers after the stopping invocation, so the
    // driver still holds exactly what the last callback wrote.
    assert_eq!(d.main_buffer().sample(0, 0), 0xdead_beef);
    assert_eq!(d.aux_buses().inputs[0].sample(0, 0), 0xdead_beef);
}

#[test]
fn rerun_starts_again_at_zero() {
    let mut d = Dummy::new(config_44100_256(), stereo_layout());
    let mut cb = Recorder::new(2);
    let mut pacer = CountingPacer::new();
    let _ = d.run(&mut cb, &mut pacer);
    assert_eq!(cb.seen[1].transport.pos_samples, 256);

    let mut cb2 = Recorder::new(2);
    let _ = d.run(&mut cb2, &mut pacer);
    assert_eq!(cb2.seen[0].transport.pos_samples, 0);
    assert_eq!(cb2.seen[1].transport.pos_samples, 256);
}
