//! The synthetic ("dummy") backend driver.
//!
//! `Dummy` owns zero-filled sample storage for the main bus and every
//! auxiliary bus, and [`Dummy::run`] invokes a caller-supplied processing
//! callback once per period until the callback returns `false`.  No real
//! audio device is involved: every buffer is re-zeroed before each
//! invocation, and the transport is synthesized from the configuration with
//! a sample position that starts at 0 and advances by one period per
//! accepted invocation.
//!
//! `run` returns a ghost log with one record per callback invocation, in
//! order; its postconditions state, over that log, exactly what every
//! invocation was handed and that the invocation which returned `false`
//! was the last one.  The log is tied to real invocations: the
//! [`ProcessCallback`] trait keeps a ghost transcript of every call its
//! `process` method receives, and `run` promises that the returned log is
//! exactly what the run appended to that transcript.

use crate::buffer::AuxiliaryBuses;
use crate::buffer::Buffer;
use crate::buffer::buffers_view;
use crate::buffer::reset_bank;
use crate::buffer::zero_banks;
use crate::buffer::zero_block;
use crate::config::AudioIoLayout;
use crate::config::Config;
use crate::transport::Transport;
use vstd::prelude::*;

verus! {

/// One record of the invocation transcript: everything the driver handed
/// to one callback invocation, the buffer contents the callback left
/// behind, and whether the callback asked to keep going.
pub ghost struct Invocation {
    /// Contents of the main buffer at hand-off.
    pub main: Seq<Seq<u32>>,
    /// Contents of each auxiliary input buffer at hand-off.
    pub aux_inputs: Seq<Seq<Seq<u32>>>,
    /// Contents of each auxiliary output buffer at hand-off.
    pub aux_outputs: Seq<Seq<Seq<u32>>>,
    /// The transport snapshot handed to the callback.
    pub transport: Transport,
    /// Number of input note events handed to the callback.
    pub events_in_len: nat,
    /// Number of events already in the output sink at hand-off.
    pub events_out_len: nat,
    /// Contents of the main buffer when the callback returned.
    pub main_after: Seq<Seq<u32>>,
    /// Contents of each auxiliary input buffer when the callback returned.
    pub aux_inputs_after: Seq<Seq<Seq<u32>>>,
    /// Contents of each auxiliary output buffer when the callback returned.
    pub aux_outputs_after: Seq<Seq<Seq<u32>>>,
    /// The callback's return value: `true` to keep running.
    pub kept_going: bool,
}

/// The processing routine the driver invokes once per period.
///
/// Implementors receive a mutable view of the main buffer and the auxiliary
/// buses, a transport snapshot, the input note events of the period, and a
/// sink for output note events; they return `false` to ask the driver to
/// stop.  What the synthetic driver hands to each invocation is stated by
/// the postconditions of [`Dummy::run`].
///
/// `seen` is the callback's ghost transcript: one [`Invocation`] record per
/// time `process` was invoked, in order, recorded by the postcondition of
/// `process` itself.  [`Dummy::run`] promises that the log it returns is
/// exactly what this run appended to the transcript, which ties every log
/// record to one real invocation of the callback.
pub trait ProcessCallback<E> {
    /// The record of every invocation this callback has received, in order.
    spec fn seen(&self) -> Seq<Invocation>;

    /// Processes one period; returns `false` to stop the run loop.
    fn process(
        &mut self,
        main: &mut Buffer,
        aux: &mut AuxiliaryBuses,
        transport: Transport,
        events_in: &Vec<E>,
        events_out: &mut Vec<E>,
    ) -> (keep_going: bool)
        ensures
            final(self).seen() == old(self).seen().push(
                (Invocation {
                    main: old(main)@,
                    aux_inputs: buffers_view(old(aux).inputs@),
                    aux_outputs: buffers_view(old(aux).outputs@),
                    transport,
                    events_in_len: events_in@.len(),
                    events_out_len: old(events_out)@.len(),
                    main_after: final(main)@,
                    aux_inputs_after: buffers_view(final(aux).inputs@),
                    aux_outputs_after: buffers_view(final(aux).outputs@),
                    kept_going: keep_going,
                }),
            ),
    ;
}

/// The wall-clock pacing the driver delegates to its caller, since the
/// library itself performs no timing or sleeping.
///
/// `begin_period` is called at the start of every iteration;
/// `finish_period` is called after every accepted invocation with the
/// target interval of one period in nanoseconds, and is expected to sleep
/// for whatever portion of that interval the iteration has not already
/// used ([`remaining_sleep_ns`] computes that portion from a measured
/// elapsed time).
///
/// The trait carries no contract: its one real implementation sleeps on
/// the wall clock and lives outside the verified library, where the ghost
/// vocabulary a contract would need is not available.  How often each
/// method is called is stated in prose on [`Dummy::run`] and exercised by
/// the crate's tests.
pub trait Pacer {
    /// Marks the start of one iteration of the run loop.
    fn begin_period(&mut self);

    /// Absorbs whatever remains of the period's target interval.
    fn finish_period(&mut self, target_interval_ns: u64);
}

/// Computes how long to sleep after an iteration: the portion of the
/// target interval not already spent, clamped to zero when processing
/// exceeded the interval.  Never underflows.
pub fn remaining_sleep_ns(target_ns: u64, elapsed_ns: u64) -> (r: u64)
    ensures
        r == if elapsed_ns >= target_ns {
            0u64
        } else {
            (target_ns - elapsed_ns) as u64
        },
{
    if elapsed_ns >= target_ns {
        0
    } else {
        target_ns - elapsed_ns
    }
}

impl Invocation {
    /// What the synthetic driver hands to invocation number `index` of a
    /// run under `config` and `layout`: zero-filled buffers shaped by the
    /// layout and the period size, a transport synthesized from the
    /// configuration at sample position `index * period_size`, no input
    /// note events, and an empty output sink.
    pub open spec fn delivered(self, config: Config, layout: AudioIoLayout, index: int) -> bool {
        &&& self.main == zero_block(layout.spec_main_channels(), config.period_size as nat)
        &&& self.aux_inputs == zero_banks(layout.aux_input_ports@, config.period_size as nat)
        &&& self.aux_outputs == zero_banks(layout.aux_output_ports@, config.period_size as nat)
        &&& self.transport == Transport::synthesized(config, self.transport.pos_samples)
        &&& self.transport.pos_samples as int == index * (config.period_size as int)
        &&& self.events_in_len == 0
        &&& self.events_out_len == 0
    }
}

/// Law: over any invocation log in which every record was delivered as the
/// synthetic driver delivers them — as [`Dummy::run`] guarantees of the log
/// it returns — the playback position starts at 0 and advances by exactly
/// `period_size` samples between successive invocations; in particular it
/// never decreases and never skips.
pub proof fn lemma_position_advances_by_period(
    log: Seq<Invocation>,
    config: Config,
    layout: AudioIoLayout,
)
    requires
        forall|i: int| 0 <= i < log.len() ==> #[trigger] log[i].delivered(config, layout, i),
    ensures
        log.len() >= 1 ==> log[0].transport.pos_samples == 0,
        forall|i: int|
            0 <= i < log.len() - 1 ==> #[trigger] log[i + 1].transport.pos_samples as int
                == log[i].transport.pos_samples as int + config.period_size as int,
{
    if log.len() >= 1 {
        assert(log[0].delivered(config, layout, 0));
    }
    assert forall|i: int|
        0 <= i < log.len() - 1 implies #[trigger] log[i + 1].transport.pos_samples as int
        == log[i].transport.pos_samples as int + config.period_size as int by {
        assert(log[i].delivered(config, layout, i));
        assert(log[i + 1].delivered(config, layout, i + 1));
        assert((i + 1) * (config.period_size as int) == i * (config.period_size as int)
            + config.period_size as int) by (nonlinear_arith);
    }
}

/// The synthetic backend: owns persistent storage for the main bus and
/// every auxiliary bus, and drives the processing callback on a cadence
/// paced by the caller with only zero-filled data.
pub struct Dummy {
    config: Config,
    layout: AudioIoLayout,
    main: Buffer,
    aux: AuxiliaryBuses,
}

impl Dummy {
    /// The configuration the driver was built from.
    pub closed spec fn config(self) -> Config {
        self.config
    }

    /// The audio I/O layout the driver was built from.
    pub closed spec fn layout(self) -> AudioIoLayout {
        self.layout
    }

    /// Contents of the main-bus storage.
    pub closed spec fn main_view(self) -> Seq<Seq<u32>> {
        self.main@
    }

    /// Contents of the auxiliary-input storage, one block per port.
    pub closed spec fn aux_inputs_view(self) -> Seq<Seq<Seq<u32>>> {
        buffers_view(self.aux.inputs@)
    }

    /// Contents of the auxiliary-output storage, one block per port.
    pub closed spec fn aux_outputs_view(self) -> Seq<Seq<Seq<u32>>> {
        buffers_view(self.aux.outputs@)
    }

    /// A well-formed driver: built from a valid configuration and layout.
    pub open spec fn wf(self) -> bool {
        &&& self.config().wf()
        &&& self.layout().wf()
    }

    /// Borrows the main-bus storage.
    pub fn main_buffer(&self) -> (b: &Buffer)
        ensures
            b@ == self.main_view(),
    {
        &self.main
    }

    /// Borrows the auxiliary-bus storage.
    pub fn aux_buses(&self) -> (a: &AuxiliaryBuses)
        ensures
            buffers_view(a.inputs@) == self.aux_inputs_view(),
            buffers_view(a.outputs@) == self.aux_outputs_view(),
    {
        &self.aux
    }

    /// Constructs the driver, allocating zero-filled storage for the main
    /// bus and one block per auxiliary input and output port, each sized
    /// to its port's channel count times the period size.
    pub fn new(config: Config, layout: AudioIoLayout) -> (d: Dummy)
        requires
            config.wf(),
            layout.wf(),
        ensures
            d.wf(),
            d.config() == config,
            d.layout() == layout,
            d.main_view() == zero_block(layout.spec_main_channels(), config.period_size as nat),
            d.aux_inputs_view() == zero_banks(layout.aux_input_ports@, config.period_size as nat),
            d.aux_outputs_view() == zero_banks(
                layout.aux_output_ports@,
                config.period_size as nat,
            ),
    {
        let period = config.period_size as usize;
        let main = Buffer::new_zeroed(layout.main_channels() as usize, period);
        let mut inputs: Vec<Buffer> = Vec::new();
        reset_bank(&mut inputs, &layout.aux_input_ports, period);
        let mut outputs: Vec<Buffer> = Vec::new();
        reset_bank(&mut outputs, &layout.aux_output_ports, period);
        Dummy { config, layout, main, aux: AuxiliaryBuses { inputs, outputs } }
    }

    /// Runs the processing loop on the calling thread: once per period it
    /// re-zeroes every buffer, synthesizes a transport snapshot, and lends
    /// the buffers to the callback; it stops the first time the callback
    /// returns `false`.  After every accepted invocation the pacer is asked
    /// to absorb the remainder of the period's target interval.
    ///
    /// The returned ghost log holds one record per invocation, in order,
    /// and equals what this run appended to the callback's transcript, so
    /// every record stands for one real invocation of `callback.process`.
    /// The postconditions state that at least one invocation was made, that
    /// every invocation was handed exactly the zero-filled, layout-shaped
    /// buffers and the synthesized transport of its index, that every
    /// invocation but the last asked to keep going, and that the run ended
    /// either because the last invocation returned `false` or because the
    /// sample position could advance no further without overflowing.  The
    /// driver's storage is exactly what the last invocation left behind:
    /// nothing touches the buffers after the stopping invocation.
    ///
    /// The pacer's `begin_period` runs at the start of every iteration and
    /// its `finish_period` after every accepted invocation, with the
    /// configuration's target interval; the stopping invocation is not
    /// paced.  The `Pacer` trait carries no contract, so this is stated in
    /// prose and exercised by the crate's tests.
    pub fn run<E, C: ProcessCallback<E>, Q: Pacer>(
        &mut self,
        callback: &mut C,
        pacer: &mut Q,
    ) -> (log: Ghost<Seq<Invocation>>)
        requires
            old(self).wf(),
        ensures
            final(self).wf(),
            final(self).config() == old(self).config(),
            final(self).layout() == old(self).layout(),
            log@.len() >= 1,
            final(callback).seen() == old(callback).seen() + log@,
            forall|i: int|
                0 <= i < log@.len() ==> #[trigger] log@[i].delivered(
                    old(self).config(),
                    old(self).layout(),
                    i,
                ),
            forall|i: int| 0 <= i < log@.len() && !log@[i].kept_going ==> i == log@.len() - 1,
            !log@[log@.len() - 1].kept_going || log@.len() * (old(self).config().period_size
                as nat) > u64::MAX,
            final(self).main_view() == log@[log@.len() - 1].main_after,
            final(self).aux_inputs_view() == log@[log@.len() - 1].aux_inputs_after,
            final(self).aux_outputs_view() == log@[log@.len() - 1].aux_outputs_after,
    {
        let interval_ns = self.config.target_interval_ns();
        let events_in: Vec<E> = Vec::new();
        let mut events_out: Vec<E> = Vec::new();
        let mut pos: u64 = 0;
        let ghost mut log: Seq<Invocation> = Seq::empty();
        proof {
            assert(callback.seen() + log =~= callback.seen());
        }
        loop
            invariant_except_break
                self.config == old(self).config(),
                self.layout == old(self).layout(),
                self.config.wf(),
                events_in@.len() == 0,
                pos as nat == log.len() * (self.config.period_size as nat),
                callback.seen() == old(callback).seen() + log,
                forall|i: int|
                    0 <= i < log.len() ==> #[trigger] log[i].delivered(
                        self.config,
                        self.layout,
                        i,
                    ),
                forall|i: int| 0 <= i < log.len() ==> #[trigger] log[i].kept_going,
            ensures
                self.config == old(self).config(),
                self.layout == old(self).layout(),
                log.len() >= 1,
                callback.seen() == old(callback).seen() + log,
                forall|i: int|
                    0 <= i < log.len() ==> #[trigger] log[i].delivered(
                        self.config,
                        self.layout,
                        i,
                    ),
                forall|i: int| 0 <= i < log.len() && !log[i].kept_going ==> i == log.len() - 1,
                !log[log.len() - 1].kept_going || log.len() * (self.config.period_size as nat)
                    > u64::MAX,
                self.main@ == log[log.len() - 1].main_after,
                buffers_view(self.aux.inputs@) == log[log.len() - 1].aux_inputs_after,
                buffers_view(self.aux.outputs@) == log[log.len() - 1].aux_outputs_after,
            decreases u64::MAX - pos,
        {
            pacer.begin_period();

            // Re-zero every bus; no real signal source exists.
            let period = self.config.period_size as usize;
            self.main.reset_zero(self.layout.main_channels() as usize, period);
            reset_bank(&mut self.aux.inputs, &self.layout.aux_input_ports, period);
            reset_bank(&mut self.aux.outputs, &self.layout.aux_output_ports, period);

            let transport = Transport {
                pos_samples: pos,
                tempo_mbpm: self.config.tempo_mbpm,
                time_sig_numerator: self.config.timesig_num,
                time_sig_denominator: self.config.timesig_denom,
                playing: true,
            };
            events_out.clear();

            let ghost main_snap = self.main@;
            let ghost aux_in_snap = buffers_view(self.aux.inputs@);
            let ghost aux_out_snap = buffers_view(self.aux.outputs@);
            let ghost events_in_snap = events_in@.len();
            let ghost events_out_snap = events_out@.len();
            let keep_going = callback.process(
                &mut self.main,
                &mut self.aux,
                transport,
                &events_in,
                &mut events_out,
            );
            proof {
                let rec = Invocation {
                    main: main_snap,
                    aux_inputs: aux_in_snap,
                    aux_outputs: aux_out_snap,
                    transport,
                    events_in_len: events_in_snap,
                    events_out_len: events_out_snap,
                    main_after: self.main@,
                    aux_inputs_after: buffers_view(self.aux.inputs@),
                    aux_outputs_after: buffers_view(self.aux.outputs@),
                    kept_going: keep_going,
                };
                log = log.push(rec);
                assert(callback.seen() =~= old(callback).seen() + log);
            }
            if !keep_going {
                break;
            }
            let ghost n = log.len();
            let ghost p = self.config.period_size as nat;
            proof {
                assert(n * p == (n - 1) * p + p) by (nonlinear_arith)
                    requires
                        n >= 1,
                ;
            }
            let step = self.config.period_size as u64;
            if pos <= u64::MAX - step {
                pos = pos + step;
            } else {
                // The sample position can advance no further; practically
                // unreachable, as it would take 2^64 processed samples.
                break;
            }
            pacer.finish_period(interval_ns);
        }
        Ghost(log)
    }
}

} // verus!
