use vstd::prelude::*;

use crate::filter_type::{order_of_type, FilterType};

verus! {

/// Largest number of extra stages a cascade may have: a filter runs
/// `stages + 1` identical sections, `stages` at most this.
pub const MAX_FILTER_STAGES: u8 = 5;

/// Number of history entries in each bank: one per section of the deepest
/// cascade.
pub const HISTORY_LEN: usize = 6;

/// The stage count that a requested one becomes: requests above the maximum
/// are clamped to it.
pub open spec fn clamped_stages(stages: u8) -> u8 {
    if stages > MAX_FILTER_STAGES {
        MAX_FILTER_STAGES
    } else {
        stages
    }
}

/// History of one section: its last two inputs and last two outputs.
#[derive(Clone, Copy, Debug)]
pub struct FStage<T> {
    pub x1: T,
    pub x2: T,
    pub y1: T,
    pub y2: T,
}

/// A section history that holds only `silence`.
pub open spec fn silent_stage<T>(silence: T) -> FStage<T> {
    FStage { x1: silence, x2: silence, y1: silence, y2: silence }
}

/// A full bank of silent section histories.
pub open spec fn silent_bank<T>(silence: T) -> Seq<FStage<T>> {
    Seq::new(HISTORY_LEN as nat, |_i: int| silent_stage(silence))
}

/// The history after a section of order `order` took input `x` and produced
/// `y`: a first-order section keeps one sample of each, a biquad shifts its
/// two-sample memories along.
pub open spec fn recorded<T>(st: FStage<T>, order: u32, x: T, y: T) -> FStage<T> {
    if order == 1 {
        FStage { x1: x, y1: y, ..st }
    } else {
        FStage { x1: x, x2: st.x1, y1: y, y2: st.y1 }
    }
}

impl<T: Copy> FStage<T> {
    /// A history holding only `silence`.
    pub fn new(silence: T) -> (r: Self)
        ensures
            r == silent_stage(silence),
    {
        FStage { x1: silence, x2: silence, y1: silence, y2: silence }
    }

    /// Records that the section took `x` and produced `y`.
    pub fn record(&mut self, order: u32, x: T, y: T)
        ensures
            *final(self) == recorded(*old(self), order, x, y),
    {
        if order == 1 {
            self.x1 = x;
            self.y1 = y;
        } else {
            self.x2 = self.x1;
            self.x1 = x;
            self.y2 = self.y1;
            self.y1 = y;
        }
    }
}

/// What a filter holds. `coeff` and `history` drive the audio path; the
/// shadow pair `old_coeff` and `old_history` keeps the previous filter alive
/// for the one block that fades from it to the current one.
pub struct FilterView<T, C> {
    pub coeff: C,
    pub old_coeff: C,
    pub history: Seq<FStage<T>>,
    pub old_history: Seq<FStage<T>>,
    pub silence: T,
    pub filter_type: FilterType,
    pub stages: u8,
    pub order: u32,
    pub needs_interpolation: bool,
    pub above_nyquist: bool,
    pub samplerate: u32,
}

impl<T, C> FilterView<T, C> {
    /// Both banks are full, the stage count is within its bound, and the
    /// order is the one of the topology.
    pub open spec fn wf(self) -> bool {
        &&& self.history.len() == HISTORY_LEN
        &&& self.old_history.len() == HISTORY_LEN
        &&& self.stages <= MAX_FILTER_STAGES
        &&& self.order == order_of_type(self.filter_type)
    }

    /// Both banks silent and no crossfade pending.
    pub open spec fn cleared(self) -> FilterView<T, C> {
        FilterView {
            history: silent_bank(self.silence),
            old_history: silent_bank(self.silence),
            needs_interpolation: false,
            ..self
        }
    }

    /// Whether a new cutoff calls for a crossfade: the caller reports a jump
    /// by more than a factor of three, or the cutoff moves across the
    /// near-Nyquist threshold in either direction.
    pub open spec fn calls_for_crossfade(self, freq_jump: bool, above_nyquist: bool) -> bool {
        freq_jump || above_nyquist != self.above_nyquist
    }

    /// The filter after a new cutoff, whose coefficients are `coeff`. Where a
    /// crossfade is called for, the current coefficients and history move to
    /// the shadow pair first and a crossfade becomes pending.
    pub open spec fn after_frequency(self, freq_jump: bool, above_nyquist: bool, coeff: C) -> FilterView<
        T,
        C,
    > {
        if self.calls_for_crossfade(freq_jump, above_nyquist) {
            FilterView {
                coeff,
                old_coeff: self.coeff,
                old_history: self.history,
                needs_interpolation: true,
                above_nyquist,
                ..self
            }
        } else {
            FilterView { coeff, above_nyquist, ..self }
        }
    }

    /// The filter with its stage count set to `stages`, clamped. A change of
    /// depth clears both banks, whose histories from the old and the new
    /// depth are not comparable; the same depth again changes nothing.
    pub open spec fn restaged(self, stages: u8) -> FilterView<T, C> {
        if clamped_stages(stages) != self.stages {
            FilterView { stages: clamped_stages(stages), ..self.cleared() }
        } else {
            self
        }
    }

    /// The filter after the stage count alone is set, with `coeff` the
    /// coefficients for the new depth; they are taken only where the depth
    /// changes.
    pub open spec fn after_stages(self, stages: u8, coeff: C) -> FilterView<T, C> {
        if clamped_stages(stages) != self.stages {
            FilterView { coeff, ..self.restaged(stages) }
        } else {
            self
        }
    }

    /// The filter after a complete parameter set: topology, stage count and
    /// cutoff, with `coeff` the coefficients for all of them. The stage
    /// count is applied before the cutoff, so a depth change clears the
    /// banks before any snapshot is taken.
    pub open spec fn after_values(
        self,
        filter_type: FilterType,
        stages: u8,
        freq_jump: bool,
        above_nyquist: bool,
        coeff: C,
    ) -> FilterView<T, C> {
        FilterView { filter_type, order: order_of_type(filter_type), ..self }.restaged(
            stages,
        ).after_frequency(freq_jump, above_nyquist, coeff)
    }

    /// The filter after the pending crossfade, if any, has been taken.
    pub open spec fn after_take(self) -> FilterView<T, C> {
        FilterView { needs_interpolation: false, ..self }
    }
}

/// The control state of a multi-stage filter: current and shadow
/// coefficients, the section histories of both, and the flags that decide
/// when a parameter change is crossfaded. `T` is the sample type, `C` the
/// coefficient set; the arithmetic on them is left to the caller.
#[derive(Debug)]
pub struct AnalogFilter<T, C> {
    coeff: C,
    old_coeff: C,
    history: Vec<FStage<T>>,
    old_history: Vec<FStage<T>>,
    silence: T,
    filter_type: FilterType,
    stages: u8,
    order: u32,
    needs_interpolation: bool,
    above_nyquist: bool,
    samplerate: u32,
}

impl<T, C> View for AnalogFilter<T, C> {
    type V = FilterView<T, C>;

    closed spec fn view(&self) -> FilterView<T, C> {
        FilterView {
            coeff: self.coeff,
            old_coeff: self.old_coeff,
            history: self.history@,
            old_history: self.old_history@,
            silence: self.silence,
            filter_type: self.filter_type,
            stages: self.stages,
            order: self.order,
            needs_interpolation: self.needs_interpolation,
            above_nyquist: self.above_nyquist,
            samplerate: self.samplerate,
        }
    }
}

fn silent_bank_vec<T: Copy>(silence: T) -> (r: Vec<FStage<T>>)
    ensures
        r@ == silent_bank(silence),
{
    let mut bank: Vec<FStage<T>> = Vec::new();
    let mut i: usize = 0;
    while i < HISTORY_LEN
        invariant
            i <= HISTORY_LEN,
            bank@ == Seq::new(i as nat, |_i: int| silent_stage(silence)),
        decreases HISTORY_LEN - i,
    {
        bank.push(FStage::new(silence));
        i = i + 1;
        assert(bank@ =~= Seq::new(i as nat, |_i: int| silent_stage(silence)));
    }
    bank
}

fn silence_bank<T: Copy>(bank: &mut Vec<FStage<T>>, silence: T)
    requires
        old(bank)@.len() == HISTORY_LEN,
    ensures
        final(bank)@ == silent_bank(silence),
{
    let mut i: usize = 0;
    while i < HISTORY_LEN
        invariant
            i <= HISTORY_LEN,
            bank@.len() == HISTORY_LEN,
            forall|j: int| 0 <= j < i ==> bank@[j] == silent_stage(silence),
        decreases HISTORY_LEN - i,
    {
        bank.set(i, FStage::new(silence));
        i = i + 1;
    }
    assert(bank@ =~= silent_bank(silence));
}

fn copy_bank<T: Copy>(dst: &mut Vec<FStage<T>>, src: &Vec<FStage<T>>)
    requires
        old(dst)@.len() == HISTORY_LEN,
        src@.len() == HISTORY_LEN,
    ensures
        final(dst)@ == src@,
{
    let mut i: usize = 0;
    while i < HISTORY_LEN
        invariant
            i <= HISTORY_LEN,
            src@.len() == HISTORY_LEN,
            dst@.len() == HISTORY_LEN,
            forall|j: int| 0 <= j < i ==> dst@[j] == src@[j],
        decreases HISTORY_LEN - i,
    {
        dst.set(i, src[i]);
        i = i + 1;
    }
    assert(dst@ =~= src@);
}

impl<T: Copy, C: Copy> AnalogFilter<T, C> {
    pub open spec fn wf(&self) -> bool {
        self@.wf()
    }

    /// A filter of the given topology and depth (clamped), with silent
    /// histories and coefficients `coeff`. The parameter set made here never
    /// starts a crossfade: there is nothing yet to fade from.
    pub fn new(
        filter_type: FilterType,
        stages: u8,
        samplerate: u32,
        silence: T,
        above_nyquist: bool,
        coeff: C,
    ) -> (r: Self)
        ensures
            r.wf(),
            r@ == (FilterView {
                coeff,
                old_coeff: coeff,
                history: silent_bank(silence),
                old_history: silent_bank(silence),
                silence,
                filter_type,
                stages: clamped_stages(stages),
                order: order_of_type(filter_type),
                needs_interpolation: false,
                above_nyquist,
                samplerate,
            }),
    {
        let st = Self::clamp_stages(stages);
        AnalogFilter {
            coeff,
            old_coeff: coeff,
            history: silent_bank_vec(silence),
            old_history: silent_bank_vec(silence),
            silence,
            filter_type,
            stages: st,
            order: filter_type.order(),
            needs_interpolation: false,
            above_nyquist,
            samplerate,
        }
    }

    /// The stage count a request becomes.
    pub fn clamp_stages(stages: u8) -> (r: u8)
        ensures
            r == clamped_stages(stages),
    {
        if stages > MAX_FILTER_STAGES {
            MAX_FILTER_STAGES
        } else {
            stages
        }
    }

    /// Applies a new cutoff whose coefficients are `coeff`. `freq_jump`
    /// reports that the old and new cutoffs differ by more than a factor of
    /// three; `above_nyquist` whether the new cutoff lies above the
    /// near-Nyquist threshold.
    pub fn set_frequency(&mut self, freq_jump: bool, above_nyquist: bool, coeff: C)
        requires
            old(self).wf(),
        ensures
            final(self).wf(),
            final(self)@ == old(self)@.after_frequency(freq_jump, above_nyquist, coeff),
    {
        if freq_jump || (above_nyquist != self.above_nyquist) {
            self.old_coeff = self.coeff;
            copy_bank(&mut self.old_history, &self.history);
            self.needs_interpolation = true;
        }
        self.above_nyquist = above_nyquist;
        self.coeff = coeff;
    }

    /// Replaces the coefficients wholesale, without a crossfade: for a change
    /// of resonance or gain.
    pub fn set_coefficients(&mut self, coeff: C)
        requires
            old(self).wf(),
        ensures
            final(self).wf(),
            final(self)@ == (FilterView { coeff, ..old(self)@ }),
    {
        self.coeff = coeff;
    }

    /// Sets the topology, with `coeff` its coefficients.
    pub fn set_type(&mut self, filter_type: FilterType, coeff: C)
        requires
            old(self).wf(),
        ensures
            final(self).wf(),
            final(self)@ == (FilterView {
                filter_type,
                order: order_of_type(filter_type),
                coeff,
                ..old(self)@
            }),
    {
        self.filter_type = filter_type;
        self.order = filter_type.order();
        self.coeff = coeff;
    }

    /// Sets the stage count (clamped), with `coeff` the coefficients for the
    /// new depth.
    pub fn set_stages(&mut self, stages: u8, coeff: C)
        requires
            old(self).wf(),
        ensures
            final(self).wf(),
            final(self)@ == old(self)@.after_stages(stages, coeff),
    {
        let st = Self::clamp_stages(stages);
        if self.stages != st {
            self.stages = st;
            self.cleanup();
            self.coeff = coeff;
        }
    }

    /// Silences both history banks and drops any pending crossfade.
    pub fn cleanup(&mut self)
        requires
            old(self).wf(),
        ensures
            final(self).wf(),
            final(self)@ == old(self)@.cleared(),
    {
        silence_bank(&mut self.history, self.silence);
        silence_bank(&mut self.old_history, self.silence);
        self.needs_interpolation = false;
    }

    /// Applies a complete parameter set; `coeff` are the coefficients for
    /// the new topology, clamped depth and cutoff. See [`Self::set_frequency`]
    /// for `freq_jump` and `above_nyquist`.
    pub fn set_values(
        &mut self,
        filter_type: FilterType,
        stages: u8,
        freq_jump: bool,
        above_nyquist: bool,
        coeff: C,
    )
        requires
            old(self).wf(),
        ensures
            final(self).wf(),
            final(self)@ == old(self)@.after_values(
                filter_type,
                stages,
                freq_jump,
                above_nyquist,
                coeff,
            ),
    {
        self.filter_type = filter_type;
        self.order = filter_type.order();
        let st = Self::clamp_stages(stages);
        if self.stages != st {
            self.stages = st;
            self.cleanup();
        }
        self.set_frequency(freq_jump, above_nyquist, coeff);
    }

    /// Takes the pending crossfade: returns whether the coming block must
    /// fade from the shadow filter to the current one, and clears the flag,
    /// so that each parameter jump is faded over exactly one block.
    pub fn take_crossfade(&mut self) -> (r: bool)
        requires
            old(self).wf(),
        ensures
            final(self).wf(),
            r == old(self)@.needs_interpolation,
            final(self)@ == old(self)@.after_take(),
    {
        let r = self.needs_interpolation;
        self.needs_interpolation = false;
        r
    }

    /// History of section `i` of the current filter.
    pub fn stage(&self, i: usize) -> (r: FStage<T>)
        requires
            self.wf(),
            i < HISTORY_LEN,
        ensures
            r == self@.history[i as int],
    {
        self.history[i]
    }

    /// Stores the history of section `i` of the current filter.
    pub fn set_stage(&mut self, i: usize, st: FStage<T>)
        requires
            old(self).wf(),
            i < HISTORY_LEN,
        ensures
            final(self).wf(),
            final(self)@ == (FilterView {
                history: old(self)@.history.update(i as int, st),
                ..old(self)@
            }),
    {
        self.history.set(i, st);
    }

    /// History of section `i` of the shadow filter.
    pub fn shadow_stage(&self, i: usize) -> (r: FStage<T>)
        requires
            self.wf(),
            i < HISTORY_LEN,
        ensures
            r == self@.old_history[i as int],
    {
        self.old_history[i]
    }

    /// Stores the history of section `i` of the shadow filter.
    pub fn set_shadow_stage(&mut self, i: usize, st: FStage<T>)
        requires
            old(self).wf(),
            i < HISTORY_LEN,
        ensures
            final(self).wf(),
            final(self)@ == (FilterView {
                old_history: old(self)@.old_history.update(i as int, st),
                ..old(self)@
            }),
    {
        self.old_history.set(i, st);
    }

    /// Number of sections the cascade runs: one more than the stage count.
    pub fn active_stages(&self) -> (r: usize)
        requires
            self.wf(),
        ensures
            r == self@.stages + 1,
            r <= HISTORY_LEN,
    {
        self.stages as usize + 1
    }

    pub fn coefficients(&self) -> (r: C)
        ensures
            r == self@.coeff,
    {
        self.coeff
    }

    pub fn shadow_coefficients(&self) -> (r: C)
        ensures
            r == self@.old_coeff,
    {
        self.old_coeff
    }

    pub fn filter_type(&self) -> (r: FilterType)
        ensures
            r == self@.filter_type,
    {
        self.filter_type
    }

    pub fn stages(&self) -> (r: u8)
        ensures
            r == self@.stages,
    {
        self.stages
    }

    pub fn order(&self) -> (r: u32)
        ensures
            r == self@.order,
    {
        self.order
    }

    pub fn samplerate(&self) -> (r: u32)
        ensures
            r == self@.samplerate,
    {
        self.samplerate
    }

    pub fn needs_interpolation(&self) -> (r: bool)
        ensures
            r == self@.needs_interpolation,
    {
        self.needs_interpolation
    }

    pub fn above_nyquist(&self) -> (r: bool)
        ensures
            r == self@.above_nyquist,
    {
        self.above_nyquist
    }

    pub fn silence(&self) -> (r: T)
        ensures
            r == self@.silence,
    {
        self.silence
    }
}

/// Setting the same parameters twice in a row changes nothing the second
/// time: the depth is the same, the cutoff is the same (so no jump is
/// reported and the threshold is not crossed), and no crossfade is started
/// nor any history touched.
pub proof fn lemma_repeated_values_change_nothing<T, C>(
    s: FilterView<T, C>,
    filter_type: FilterType,
    stages: u8,
    freq_jump: bool,
    above_nyquist: bool,
    coeff: C,
)
    requires
        s.wf(),
    ensures
        ({
            let once = s.after_values(filter_type, stages, freq_jump, above_nyquist, coeff);
            &&& once.wf()
            &&& once.after_values(filter_type, stages, false, above_nyquist, coeff) == once
        }),
{
}

/// A cutoff jump after construction makes exactly one crossfade pending:
/// the next block takes it, and a block after that, with the parameters set
/// again unchanged or not at all, has none.
pub proof fn lemma_crossfade_taken_once<T, C>(
    s: FilterView<T, C>,
    filter_type: FilterType,
    stages: u8,
    above_nyquist: bool,
    coeff: C,
)
    requires
        s.wf(),
    ensures
        ({
            let jumped = s.after_values(filter_type, stages, true, above_nyquist, coeff);
            let faded = jumped.after_take();
            &&& jumped.needs_interpolation
            &&& jumped.old_coeff == s.coeff
            &&& !faded.needs_interpolation
            &&& !faded.after_take().needs_interpolation
            &&& !faded.after_values(
                filter_type,
                stages,
                false,
                above_nyquist,
                coeff,
            ).needs_interpolation
        }),
{
}

/// A change of stage count leaves both history banks silent, whether or not
/// the same parameter set also starts a crossfade.
pub proof fn lemma_stage_change_silences_history<T, C>(
    s: FilterView<T, C>,
    filter_type: FilterType,
    stages: u8,
    freq_jump: bool,
    above_nyquist: bool,
    coeff: C,
)
    requires
        s.wf(),
        clamped_stages(stages) != s.stages,
    ensures
        s.after_values(filter_type, stages, freq_jump, above_nyquist, coeff).history
            == silent_bank(s.silence),
        s.after_values(filter_type, stages, freq_jump, above_nyquist, coeff).old_history
            == silent_bank(s.silence),
        s.after_stages(stages, coeff).history == silent_bank(s.silence),
        s.after_stages(stages, coeff).old_history == silent_bank(s.silence),
{
}

} // verus!
