//! The transfer engine as a state machine.
//!
//! The caller asks [`Engine::next_action`] what to do, performs it on the
//! output descriptor, and reports the system call's result back through
//! [`Engine::on_tuned`] or [`Engine::on_transferred`].
use vstd::prelude::*;

use crate::config::{EngineConfig, SpliceFlags, TransferModel};
use crate::pattern::{
    lemma_prefix_append, lemma_prefix_is_lines, lemma_prefix_take, lines, stream_prefix, YesBuffer,
};

verus! {

/// Where the engine stands.
#[derive(Clone, Copy, Debug, PartialEq, Eq, Structural)]
pub enum Phase {
    /// The pipe's capacity is still to be raised.
    Tune,
    /// Transfers go on.
    Transfer,
    /// The descriptor refused a transfer: the engine is finished.
    Done,
}

/// What the caller is to do next.
#[derive(Clone, Copy, Debug, PartialEq, Eq, Structural)]
pub enum Action {
    /// Ask for a pipe capacity of at least `capacity` bytes.
    TunePipe { capacity: usize },
    /// Write the first `len` bytes of the buffer with a copying write.
    Write { len: usize },
    /// Move the buffer's `len` bytes into the pipe with the given flags.
    Splice { len: usize, flags: SpliceFlags },
    /// Exit the process with `code`.
    Exit { code: i32 },
}

/// The engine in mathematical terms.
pub struct EngineModel {
    pub config: EngineConfig,
    pub phase: Phase,
    /// The pattern buffer's content.
    pub buffer: Seq<u8>,
    /// Every byte that the descriptor has accepted so far, in order.
    pub emitted: Seq<u8>,
    /// Whether every transfer so far was accepted in whole lines.
    pub aligned: bool,
}

impl EngineModel {
    /// The model's invariant.
    pub open spec fn wf(&self) -> bool {
        &&& self.config.wf()
        &&& self.buffer == stream_prefix(self.config.size as nat)
        &&& self.aligned ==> self.emitted.len() % 2 == 0
        &&& self.aligned ==> self.emitted == stream_prefix(self.emitted.len())
    }
}

/// The state of a freshly made engine.
pub open spec fn initial_model(config: EngineConfig) -> EngineModel {
    EngineModel {
        config,
        phase: if config.model is Splice {
            Phase::Tune
        } else {
            Phase::Transfer
        },
        buffer: stream_prefix(config.size as nat),
        emitted: Seq::empty(),
        aligned: true,
    }
}

/// What the engine asks for in state `m`.
pub open spec fn model_action(m: EngineModel) -> Action {
    match m.phase {
        Phase::Tune => Action::TunePipe { capacity: m.config.size },
        Phase::Transfer => match m.config.model {
            TransferModel::Copying => Action::Write { len: m.config.size },
            TransferModel::Splice { flags } => Action::Splice { len: m.config.size, flags },
        },
        Phase::Done => Action::Exit { code: 0 },
    }
}

/// The state after the pipe-capacity request returned `result`. The request
/// is advisory: whatever it returned, transfers start.
pub open spec fn model_after_tuning(m: EngineModel, result: int) -> EngineModel {
    if m.phase is Tune {
        EngineModel { phase: Phase::Transfer, ..m }
    } else {
        m
    }
}

/// The state after a transfer returned `result`: a negative result, or one
/// larger than the buffer, ends the engine; otherwise the descriptor took the
/// first `result` bytes of the buffer.
pub open spec fn model_after_transfer(m: EngineModel, result: int) -> EngineModel {
    if !(m.phase is Transfer) {
        m
    } else if result < 0 || result > m.buffer.len() {
        EngineModel { phase: Phase::Done, ..m }
    } else {
        EngineModel {
            emitted: m.emitted + m.buffer.take(result),
            aligned: m.aligned && result % 2 == 0,
            ..m
        }
    }
}

/// The state after the transfers `results`, in order.
pub open spec fn model_after_transfers(m: EngineModel, results: Seq<int>) -> EngineModel
    decreases results.len(),
{
    if results.len() == 0 {
        m
    } else {
        model_after_transfer(model_after_transfers(m, results.drop_last()), results.last())
    }
}

/// Every transition keeps the model's invariant.
pub proof fn lemma_transfer_keeps_wf(m: EngineModel, result: int)
    requires
        m.wf(),
    ensures
        model_after_transfer(m, result).wf(),
{
    if m.phase is Transfer && 0 <= result <= m.buffer.len() && m.aligned && result % 2 == 0 {
        lemma_prefix_take(m.config.size as nat, result as nat);
        lemma_prefix_append(m.emitted.len(), result as nat);
    }
}

/// A run of transfers that each took whole lines keeps the invariant and
/// keeps the output in whole lines.
pub proof fn lemma_transfers_keep_lines(m: EngineModel, results: Seq<int>)
    requires
        m.wf(),
        m.aligned,
        forall|i: int| 0 <= i < results.len() ==> #[trigger] results[i] % 2 == 0,
    ensures
        model_after_transfers(m, results).wf(),
        model_after_transfers(m, results).aligned,
    decreases results.len(),
{
    if results.len() > 0 {
        let rest = results.drop_last();
        assert forall|i: int| 0 <= i < rest.len() implies #[trigger] rest[i] % 2 == 0 by {
            assert(rest[i] == results[i]);
        }
        lemma_transfers_keep_lines(m, rest);
        assert(results.last() == results[results.len() - 1]);
        lemma_transfer_keeps_wf(model_after_transfers(m, rest), results.last());
    }
}

/// Whatever the configuration, when every transfer was accepted in whole
/// lines, any prefix of `2 * k` bytes of the output is exactly `k` lines.
pub proof fn lemma_output_prefix_is_lines(config: EngineConfig, results: Seq<int>, k: nat)
    requires
        config.wf(),
        forall|i: int| 0 <= i < results.len() ==> #[trigger] results[i] % 2 == 0,
        2 * k <= model_after_transfers(initial_model(config), results).emitted.len(),
    ensures
        model_after_transfers(initial_model(config), results).emitted.take(2 * k as int) == lines(k),
{
    let m = initial_model(config);
    assert(Seq::<u8>::empty() =~= stream_prefix(0));
    lemma_transfers_keep_lines(m, results);
    let e = model_after_transfers(m, results).emitted;
    lemma_prefix_take(e.len(), 2 * k);
    lemma_prefix_is_lines(k);
}

/// Transfers never change the pattern buffer: after any number of them it
/// holds what it held before.
pub proof fn lemma_transfers_keep_buffer(m: EngineModel, results: Seq<int>)
    ensures
        model_after_transfers(m, results).buffer == m.buffer,
        model_after_transfers(m, results).config == m.config,
    decreases results.len(),
{
    if results.len() > 0 {
        lemma_transfers_keep_buffer(m, results.drop_last());
    }
}

/// Once a transfer fails, the engine asks for no more transfers and exits
/// with status 0: later results change nothing, and the output stays what the
/// descriptor had accepted before.
pub proof fn lemma_stops_after_failure(m: EngineModel, result: int, later: Seq<int>)
    requires
        m.phase is Transfer,
        result < 0,
    ensures
        model_after_transfer(m, result).phase is Done,
        model_after_transfer(m, result).emitted == m.emitted,
        model_action(model_after_transfer(m, result)) == (Action::Exit { code: 0 }),
        model_after_transfers(model_after_transfer(m, result), later) == model_after_transfer(m, result),
    decreases later.len(),
{
    if later.len() > 0 {
        lemma_stops_after_failure(m, result, later.drop_last());
    }
}

/// The outcome of the pipe-capacity request does not matter: a refused
/// request leaves the engine exactly as a granted one does, with its buffer,
/// output and invariant untouched.
pub proof fn lemma_tuning_outcome_irrelevant(m: EngineModel, granted: int, refused: int)
    requires
        m.wf(),
    ensures
        model_after_tuning(m, refused) == model_after_tuning(m, granted),
        model_after_tuning(m, refused).wf(),
        model_after_tuning(m, refused).buffer == m.buffer,
        model_after_tuning(m, refused).emitted == m.emitted,
        model_after_tuning(m, refused).aligned == m.aligned,
{
}

/// The engine that makes its output from a pattern buffer.
pub struct Engine {
    config: EngineConfig,
    buffer: YesBuffer,
    phase: Phase,
    emitted: Ghost<Seq<u8>>,
    aligned: Ghost<bool>,
}

impl View for Engine {
    type V = EngineModel;

    closed spec fn view(&self) -> EngineModel {
        EngineModel {
            config: self.config,
            phase: self.phase,
            buffer: self.buffer@,
            emitted: self.emitted@,
            aligned: self.aligned@,
        }
    }
}

impl Engine {
    /// Builds the pattern buffer for `config`. Zero-copy engines start by
    /// tuning the pipe, copying ones by transferring.
    pub fn new(config: EngineConfig) -> (r: Engine)
        requires
            config.wf(),
        ensures
            r@ == initial_model(config),
            r@.wf(),
    {
        let phase = match config.model {
            TransferModel::Splice { .. } => Phase::Tune,
            TransferModel::Copying => Phase::Transfer,
        };
        assert(Seq::<u8>::empty() =~= stream_prefix(0));
        Engine {
            config,
            buffer: YesBuffer::new(config.size),
            phase,
            emitted: Ghost(Seq::empty()),
            aligned: Ghost(true),
        }
    }

    /// The engine's configuration.
    pub fn config(&self) -> (r: EngineConfig)
        ensures
            r == self@.config,
    {
        self.config
    }

    /// Where the engine stands.
    pub fn phase(&self) -> (r: Phase)
        ensures
            r == self@.phase,
    {
        self.phase
    }

    /// The pattern buffer's bytes, for handing to the transfer primitive.
    pub fn bytes(&self) -> (r: &[u8])
        ensures
            r@ == self@.buffer,
    {
        self.buffer.as_slice()
    }

    /// What the caller is to do next.
    pub fn next_action(&self) -> (r: Action)
        ensures
            r == model_action(self@),
    {
        match self.phase {
            Phase::Tune => Action::TunePipe { capacity: self.config.size },
            Phase::Transfer => match self.config.model {
                TransferModel::Copying => Action::Write { len: self.config.size },
                TransferModel::Splice { flags } => Action::Splice { len: self.config.size, flags },
            },
            Phase::Done => Action::Exit { code: 0 },
        }
    }

    /// Reports the result of the pipe-capacity request, which is ignored.
    pub fn on_tuned(&mut self, result: i32)
        requires
            old(self)@.wf(),
        ensures
            final(self)@ == model_after_tuning(old(self)@, result as int),
            final(self)@.wf(),
    {
        if let Phase::Tune = self.phase {
            self.phase = Phase::Transfer;
        }
    }

    /// Reports the result of a transfer: the number of bytes the descriptor
    /// accepted, or a negative error. Returns whether transfers go on.
    pub fn on_transferred(&mut self, result: isize) -> (r: bool)
        requires
            old(self)@.wf(),
        ensures
            final(self)@ == model_after_transfer(old(self)@, result as int),
            final(self)@.wf(),
            r == (final(self)@.phase is Transfer),
    {
        proof {
            lemma_transfer_keeps_wf(self@, result as int);
        }
        if let Phase::Transfer = self.phase {
            if result < 0 || result as usize > self.buffer.len() {
                self.phase = Phase::Done;
            } else {
                let ghost emitted = self.emitted@ + self.buffer@.take(result as int);
                let ghost aligned = self.aligned@ && result % 2 == 0;
                self.emitted = Ghost(emitted);
                self.aligned = Ghost(aligned);
            }
        }
        if let Phase::Transfer = self.phase {
            true
        } else {
            false
        }
    }
}

} // verus!
