//! A whole preset: the spectrum settings and every effect of one chain.

use crate::presets::autogain::AutoGain;
use crate::presets::bass_enhancer::BassEnhancer;
use crate::presets::compressor;
use crate::presets::convolver::Convolver;
use crate::presets::crossfeed::Crossfeed;
use crate::presets::crystalizer::Crystalizer;
use crate::presets::deesser;
use crate::presets::delay::Delay;
use crate::presets::equalizer;
use crate::presets::equalizer_left;
use crate::presets::equalizer_right;
use crate::presets::exciter::Exciter;
use crate::presets::filter;
use crate::presets::gate;
use crate::presets::limiter;
use crate::presets::loudness::Loudness;
use crate::presets::maximizer;
use crate::presets::multiband_compressor;
use crate::presets::multiband_gate;
use crate::presets::pitch;
use crate::presets::reverb;
use crate::presets::spectrum::Spectrum;
use crate::presets::stereo_tools::StereoTools;
use crate::presets::webrtc::WebRTC;
use crate::settings::{
    distinct, lemma_distinct_concat, placed, Address, Kind, Section, Setting, Settings,
    SettingsStore, StoreView,
};
use vstd::prelude::*;

verus! {

/// The sections that are bound to a path: those of the effects, and not that
/// of the spectrum.
pub open spec fn with_path() -> Set<Section> {
    Set::new(|section: Section| section.path.len() > 0)
}

/// A preset of the output chain.
#[derive(Clone, Debug)]
pub struct Output {
    pub spectrum: Spectrum,
    pub output: OutputChildren,
}

impl Output {
    /// Whether every effect with bands has as many of them as it should.
    pub open spec fn wf(&self) -> bool {
        self.output.wf()
    }

    /// The preset as the settings it stands for, in the order in which they
    /// are written: the spectrum, then the effects of the output chain.
    pub open spec fn settings(&self) -> Seq<Setting> {
        self.spectrum.settings() + self.output.settings()
    }

    /// The settings that `store` holds for a preset of the output chain, or
    /// `None` where a key is missing or of another type.
    pub open spec fn stored(store: StoreView) -> Option<Seq<Setting>> {
        if Spectrum::stored(store) is Some && OutputChildren::stored(store) is Some {
            Some(Spectrum::stored(store).unwrap() + OutputChildren::stored(store).unwrap())
        } else {
            None
        }
    }

    /// What a store holds for a preset is what it holds at the keys of the
    /// preset.
    pub proof fn lemma_stored(store: StoreView)
        requires
            Self::stored(store) is Some,
        ensures
            store.reads(Self::stored(store).unwrap()),
    {
        Spectrum::lemma_stored(store);
        OutputChildren::lemma_stored(store);
        store.lemma_reads_concat(
            Spectrum::stored(store).unwrap(),
            OutputChildren::stored(store).unwrap(),
        );
    }

    /// A store that holds a preset accepts the settings of one with all its
    /// bands.
    pub proof fn lemma_accepted(&self, store: StoreView)
        requires
            self.wf(),
            Self::stored(store) is Some,
        ensures
            store.accepts(self.settings()),
    {
        self.spectrum.lemma_accepted(store);
        self.output.lemma_accepted(store);
        store.lemma_accepts_concat(self.spectrum.settings(), self.output.settings());
    }

    /// The settings of a preset with all its bands name no key twice.
    pub proof fn lemma_settings(&self)
        requires
            self.wf(),
        ensures
            distinct(self.settings()),
    {
        self.spectrum.lemma_settings();
        self.output.lemma_settings();
        lemma_distinct_concat(
            self.spectrum.settings(),
            self.output.settings(),
            set![Spectrum::section()],
            with_path(),
        );
    }

    /// Every section in which a preset of the output chain has keys.
    pub open spec fn sections() -> Seq<Section> {
        seq![
            Spectrum::section(),
            AutoGain::section(),
            BassEnhancer::section(),
            compressor::Output::section(),
            Convolver::section(),
            Crossfeed::section(),
            Crystalizer::section(),
            deesser::Output::section(),
            Delay::section(),
            equalizer::Output::section(),
            equalizer_left::LeftOutput::section(),
            equalizer_right::RightOutput::section(),
            Exciter::section(),
            filter::Output::section(),
            gate::Output::section(),
            limiter::Output::section(),
            Loudness::section(),
            maximizer::Output::section(),
            multiband_compressor::Output::section(),
            multiband_gate::Output::section(),
            pitch::Output::section(),
            reverb::Output::section(),
            StereoTools::section(),
        ]
    }

    /// Handles on every section in which a preset of the output chain has
    /// keys.
    pub fn locations() -> (r: Vec<Settings>)
        ensures
            r@.map_values(|settings: Settings| settings@) == Self::sections(),
    {
        let mut r: Vec<Settings> = Vec::new();
        r.push(Spectrum::location());
        r.push(AutoGain::location());
        r.push(BassEnhancer::location());
        r.push(compressor::Output::location());
        r.push(Convolver::location());
        r.push(Crossfeed::location());
        r.push(Crystalizer::location());
        r.push(deesser::Output::location());
        r.push(Delay::location());
        r.push(equalizer::Output::location());
        r.push(equalizer_left::LeftOutput::location());
        r.push(equalizer_right::RightOutput::location());
        r.push(Exciter::location());
        r.push(filter::Output::location());
        r.push(gate::Output::location());
        r.push(limiter::Output::location());
        r.push(Loudness::location());
        r.push(maximizer::Output::location());
        r.push(multiband_compressor::Output::location());
        r.push(multiband_gate::Output::location());
        r.push(pitch::Output::location());
        r.push(reverb::Output::location());
        r.push(StereoTools::location());
        assert(r@.map_values(|settings: Settings| settings@) =~= Self::sections());
        r
    }

    /// Whether every effect with bands has as many of them as it should.
    pub fn is_well_formed(&self) -> (r: bool)
        ensures
            r == self.wf(),
    {
        self.output.is_well_formed()
    }

    /// Whether the preset is what `store` holds for it: its settings are
    /// those of the store, the colours of the spectrum are those that the
    /// store prints, and no order of the effects is given.
    pub open spec fn taken_from(&self, store: StoreView) -> bool {
        &&& Self::stored(store) == Some(self.settings())
        &&& self.spectrum.taken_from(store)
        &&& self.output.plugins_order@.len() == 0
    }

    /// Takes a preset of the output chain from `store`: every field holds the
    /// current value of its key. There is none where a key is missing or of
    /// another type.
    pub fn read(store: &SettingsStore) -> (r: Option<Output>)
        ensures
            match r {
                Some(record) => record.wf() && record.taken_from(store@),
                None => Self::stored(store@) is None,
            },
    {
        Some(Output { spectrum: Spectrum::read(store)?, output: OutputChildren::read(store)? })
    }

    /// Hands every field of the preset to its key: a key is written only where
    /// its value would change.
    pub fn apply(&self, store: &mut SettingsStore)
        requires
            self.wf(),
            Self::stored(old(store)@) is Some,
        ensures
            final(store)@ == old(store)@.apply(self.settings()),
            forall|address: Address, kind: Kind| #[trigger]
                final(store)@.holds(address, kind) == old(store)@.holds(address, kind),
    {
        self.spectrum.apply(store);
        proof {
            OutputChildren::lemma_stays_stored(old(store)@, store@);
            old(store)@.lemma_apply_concat(self.spectrum.settings(), self.output.settings());
        }
        self.output.apply(store);
    }
}

/// A preset of the input chain.
#[derive(Clone, Debug)]
pub struct Input {
    pub spectrum: Spectrum,
    pub input: InputChildren,
}

impl Input {
    /// Whether every effect with bands has as many of them as it should.
    pub open spec fn wf(&self) -> bool {
        self.input.wf()
    }

    /// The preset as the settings it stands for, in the order in which they
    /// are written: the spectrum, then the effects of the input chain.
    pub open spec fn settings(&self) -> Seq<Setting> {
        self.spectrum.settings() + self.input.settings()
    }

    /// The settings that `store` holds for a preset of the input chain, or
    /// `None` where a key is missing or of another type.
    pub open spec fn stored(store: StoreView) -> Option<Seq<Setting>> {
        if Spectrum::stored(store) is Some && InputChildren::stored(store) is Some {
            Some(Spectrum::stored(store).unwrap() + InputChildren::stored(store).unwrap())
        } else {
            None
        }
    }

    /// What a store holds for a preset is what it holds at the keys of the
    /// preset.
    pub proof fn lemma_stored(store: StoreView)
        requires
            Self::stored(store) is Some,
        ensures
            store.reads(Self::stored(store).unwrap()),
    {
        Spectrum::lemma_stored(store);
        InputChildren::lemma_stored(store);
        store.lemma_reads_concat(
            Spectrum::stored(store).unwrap(),
            InputChildren::stored(store).unwrap(),
        );
    }

    /// A store that holds a preset accepts the settings of one with all its
    /// bands.
    pub proof fn lemma_accepted(&self, store: StoreView)
        requires
            self.wf(),
            Self::stored(store) is Some,
        ensures
            store.accepts(self.settings()),
    {
        self.spectrum.lemma_accepted(store);
        self.input.lemma_accepted(store);
        store.lemma_accepts_concat(self.spectrum.settings(), self.input.settings());
    }

    /// The settings of a preset with all its bands name no key twice.
    pub proof fn lemma_settings(&self)
        requires
            self.wf(),
        ensures
            distinct(self.settings()),
    {
        self.spectrum.lemma_settings();
        self.input.lemma_settings();
        lemma_distinct_concat(
            self.spectrum.settings(),
            self.input.settings(),
            set![Spectrum::section()],
            with_path(),
        );
    }

    /// Every section in which a preset of the input chain has keys.
    pub open spec fn sections() -> Seq<Section> {
        seq![
            Spectrum::section(),
            compressor::Input::section(),
            deesser::Input::section(),
            equalizer::Input::section(),
            equalizer_left::LeftInput::section(),
            equalizer_right::RightInput::section(),
            filter::Input::section(),
            gate::Input::section(),
            limiter::Input::section(),
            multiband_compressor::Input::section(),
            multiband_gate::Input::section(),
            pitch::Input::section(),
            reverb::Input::section(),
            WebRTC::section(),
        ]
    }

    /// Handles on every section in which a preset of the input chain has
    /// keys.
    pub fn locations() -> (r: Vec<Settings>)
        ensures
            r@.map_values(|settings: Settings| settings@) == Self::sections(),
    {
        let mut r: Vec<Settings> = Vec::new();
        r.push(Spectrum::location());
        r.push(compressor::Input::location());
        r.push(deesser::Input::location());
        r.push(equalizer::Input::location());
        r.push(equalizer_left::LeftInput::location());
        r.push(equalizer_right::RightInput::location());
        r.push(filter::Input::location());
        r.push(gate::Input::location());
        r.push(limiter::Input::location());
        r.push(multiband_compressor::Input::location());
        r.push(multiband_gate::Input::location());
        r.push(pitch::Input::location());
        r.push(reverb::Input::location());
        r.push(WebRTC::location());
        assert(r@.map_values(|settings: Settings| settings@) =~= Self::sections());
        r
    }

    /// Whether every effect with bands has as many of them as it should.
    pub fn is_well_formed(&self) -> (r: bool)
        ensures
            r == self.wf(),
    {
        self.input.is_well_formed()
    }

    /// Whether the preset is what `store` holds for it: its settings are
    /// those of the store, the colours of the spectrum are those that the
    /// store prints, and no order of the effects is given.
    pub open spec fn taken_from(&self, store: StoreView) -> bool {
        &&& Self::stored(store) == Some(self.settings())
        &&& self.spectrum.taken_from(store)
        &&& self.input.plugins_order@.len() == 0
    }

    /// Takes a preset of the input chain from `store`: every field holds the
    /// current value of its key. There is none where a key is missing or of
    /// another type.
    pub fn read(store: &SettingsStore) -> (r: Option<Input>)
        ensures
            match r {
                Some(record) => record.wf() && record.taken_from(store@),
                None => Self::stored(store@) is None,
            },
    {
        Some(Input { spectrum: Spectrum::read(store)?, input: InputChildren::read(store)? })
    }

    /// Hands every field of the preset to its key: a key is written only where
    /// its value would change.
    pub fn apply(&self, store: &mut SettingsStore)
        requires
            self.wf(),
            Self::stored(old(store)@) is Some,
        ensures
            final(store)@ == old(store)@.apply(self.settings()),
            forall|address: Address, kind: Kind| #[trigger]
                final(store)@.holds(address, kind) == old(store)@.holds(address, kind),
    {
        self.spectrum.apply(store);
        proof {
            InputChildren::lemma_stays_stored(old(store)@, store@);
            old(store)@.lemma_apply_concat(self.spectrum.settings(), self.input.settings());
        }
        self.input.apply(store);
    }
}

/// The effects of the output chain.
#[derive(Clone, Debug)]
pub struct OutputChildren {
    /// The order in which the effects are chained. It is carried along and
    /// neither read from the store nor written to it.
    pub plugins_order: Vec<String>,
    pub bass_enhancer: BassEnhancer,
    pub compressor: compressor::Output,
    pub crossfeed: Crossfeed,
    pub deesser: deesser::Output,
    pub equalizer: equalizer::Output,
    pub exciter: Exciter,
    pub filter: filter::Output,
    pub gate: gate::Output,
    pub limiter: limiter::Output,
    pub maximizer: maximizer::Output,
    pub pitch: pitch::Output,
    pub reverb: reverb::Output,
    pub multiband_compressor: multiband_compressor::Output,
    pub loudness: Loudness,
    pub multiband_gate: multiband_gate::Output,
    pub stereo_tools: StereoTools,
    pub convolver: Convolver,
    pub crystalizer: Crystalizer,
    pub autogain: AutoGain,
    pub delay: Delay,
}

impl OutputChildren {
    /// Whether every effect with bands has as many of them as it should.
    pub open spec fn wf(&self) -> bool {
        self.crystalizer.wf() && self.equalizer.wf()
    }

    /// The effects of the output chain as the settings they stand for, in the
    /// order in which they are written: effect after effect, by name.
    pub open spec fn settings(&self) -> Seq<Setting> {
        self.autogain.settings()
            + self.bass_enhancer.settings()
            + self.compressor.settings()
            + self.convolver.settings()
            + self.crossfeed.settings()
            + self.crystalizer.settings()
            + self.deesser.settings()
            + self.delay.settings()
            + self.equalizer.settings()
            + self.exciter.settings()
            + self.filter.settings()
            + self.gate.settings()
            + self.limiter.settings()
            + self.loudness.settings()
            + self.maximizer.settings()
            + self.multiband_compressor.settings()
            + self.multiband_gate.settings()
            + self.pitch.settings()
            + self.reverb.settings()
            + self.stereo_tools.settings()
    }

    /// The settings that `store` holds for the effects of the output chain, or
    /// `None` where a key of one of them is missing or of another type.
    pub open spec fn stored(store: StoreView) -> Option<Seq<Setting>> {
        if AutoGain::stored(store) is Some
            && BassEnhancer::stored(store) is Some
            && compressor::Output::stored(store) is Some
            && Convolver::stored(store) is Some
            && Crossfeed::stored(store) is Some
            && Crystalizer::stored(store) is Some
            && deesser::Output::stored(store) is Some
            && Delay::stored(store) is Some
            && equalizer::Output::stored(store) is Some
            && Exciter::stored(store) is Some
            && filter::Output::stored(store) is Some
            && gate::Output::stored(store) is Some
            && limiter::Output::stored(store) is Some
            && Loudness::stored(store) is Some
            && maximizer::Output::stored(store) is Some
            && multiband_compressor::Output::stored(store) is Some
            && multiband_gate::Output::stored(store) is Some
            && pitch::Output::stored(store) is Some
            && reverb::Output::stored(store) is Some
            && StereoTools::stored(store) is Some
        {
            Some(
                AutoGain::stored(store).unwrap()
                    + BassEnhancer::stored(store).unwrap()
                    + compressor::Output::stored(store).unwrap()
                    + Convolver::stored(store).unwrap()
                    + Crossfeed::stored(store).unwrap()
                    + Crystalizer::stored(store).unwrap()
                    + deesser::Output::stored(store).unwrap()
                    + Delay::stored(store).unwrap()
                    + equalizer::Output::stored(store).unwrap()
                    + Exciter::stored(store).unwrap()
                    + filter::Output::stored(store).unwrap()
                    + gate::Output::stored(store).unwrap()
                    + limiter::Output::stored(store).unwrap()
                    + Loudness::stored(store).unwrap()
                    + maximizer::Output::stored(store).unwrap()
                    + multiband_compressor::Output::stored(store).unwrap()
                    + multiband_gate::Output::stored(store).unwrap()
                    + pitch::Output::stored(store).unwrap()
                    + reverb::Output::stored(store).unwrap()
                    + StereoTools::stored(store).unwrap(),
            )
        } else {
            None
        }
    }

    /// A store that holds the same keys with the same types holds the effects
    /// alike.
    pub proof fn lemma_stays_stored(before: StoreView, after: StoreView)
        requires
            forall|address: Address, kind: Kind| #[trigger]
                after.holds(address, kind) == before.holds(address, kind),
        ensures
            Self::stored(after) is Some == Self::stored(before) is Some,
    {
        AutoGain::lemma_stays_stored(before, after);
        BassEnhancer::lemma_stays_stored(before, after);
        compressor::Output::lemma_stays_stored(before, after);
        Convolver::lemma_stays_stored(before, after);
        Crossfeed::lemma_stays_stored(before, after);
        Crystalizer::lemma_stays_stored(before, after);
        deesser::Output::lemma_stays_stored(before, after);
        Delay::lemma_stays_stored(before, after);
        equalizer::Output::lemma_stays_stored(before, after);
        Exciter::lemma_stays_stored(before, after);
        filter::Output::lemma_stays_stored(before, after);
        gate::Output::lemma_stays_stored(before, after);
        limiter::Output::lemma_stays_stored(before, after);
        Loudness::lemma_stays_stored(before, after);
        maximizer::Output::lemma_stays_stored(before, after);
        multiband_compressor::Output::lemma_stays_stored(before, after);
        multiband_gate::Output::lemma_stays_stored(before, after);
        pitch::Output::lemma_stays_stored(before, after);
        reverb::Output::lemma_stays_stored(before, after);
        StereoTools::lemma_stays_stored(before, after);
    }

    /// What a store holds for the effects is what it holds at their keys.
    pub proof fn lemma_stored(store: StoreView)
        requires
            Self::stored(store) is Some,
        ensures
            store.reads(Self::stored(store).unwrap()),
    {
        AutoGain::lemma_stored(store);
        let mut done = AutoGain::stored(store).unwrap();
        BassEnhancer::lemma_stored(store);
        store.lemma_reads_concat(done, BassEnhancer::stored(store).unwrap());
        done = done + BassEnhancer::stored(store).unwrap();
        compressor::Output::lemma_stored(store);
        store.lemma_reads_concat(done, compressor::Output::stored(store).unwrap());
        done = done + compressor::Output::stored(store).unwrap();
        Convolver::lemma_stored(store);
        store.lemma_reads_concat(done, Convolver::stored(store).unwrap());
        done = done + Convolver::stored(store).unwrap();
        Crossfeed::lemma_stored(store);
        store.lemma_reads_concat(done, Crossfeed::stored(store).unwrap());
        done = done + Crossfeed::stored(store).unwrap();
        Crystalizer::lemma_stored(store);
        store.lemma_reads_concat(done, Crystalizer::stored(store).unwrap());
        done = done + Crystalizer::stored(store).unwrap();
        deesser::Output::lemma_stored(store);
        store.lemma_reads_concat(done, deesser::Output::stored(store).unwrap());
        done = done + deesser::Output::stored(store).unwrap();
        Delay::lemma_stored(store);
        store.lemma_reads_concat(done, Delay::stored(store).unwrap());
        done = done + Delay::stored(store).unwrap();
        equalizer::Output::lemma_stored(store);
        store.lemma_reads_concat(done, equalizer::Output::stored(store).unwrap());
        done = done + equalizer::Output::stored(store).unwrap();
        Exciter::lemma_stored(store);
        store.lemma_reads_concat(done, Exciter::stored(store).unwrap());
        done = done + Exciter::stored(store).unwrap();
        filter::Output::lemma_stored(store);
        store.lemma_reads_concat(done, filter::Output::stored(store).unwrap());
        done = done + filter::Output::stored(store).unwrap();
        gate::Output::lemma_stored(store);
        store.lemma_reads_concat(done, gate::Output::stored(store).unwrap());
        done = done + gate::Output::stored(store).unwrap();
        limiter::Output::lemma_stored(store);
        store.lemma_reads_concat(done, limiter::Output::stored(store).unwrap());
        done = done + limiter::Output::stored(store).unwrap();
        Loudness::lemma_stored(store);
        store.lemma_reads_concat(done, Loudness::stored(store).unwrap());
        done = done + Loudness::stored(store).unwrap();
        maximizer::Output::lemma_stored(store);
        store.lemma_reads_concat(done, maximizer::Output::stored(store).unwrap());
        done = done + maximizer::Output::stored(store).unwrap();
        multiband_compressor::Output::lemma_stored(store);
        store.lemma_reads_concat(done, multiband_compressor::Output::stored(store).unwrap());
        done = done + multiband_compressor::Output::stored(store).unwrap();
        multiband_gate::Output::lemma_stored(store);
        store.lemma_reads_concat(done, multiband_gate::Output::stored(store).unwrap());
        done = done + multiband_gate::Output::stored(store).unwrap();
        pitch::Output::lemma_stored(store);
        store.lemma_reads_concat(done, pitch::Output::stored(store).unwrap());
        done = done + pitch::Output::stored(store).unwrap();
        reverb::Output::lemma_stored(store);
        store.lemma_reads_concat(done, reverb::Output::stored(store).unwrap());
        done = done + reverb::Output::stored(store).unwrap();
        StereoTools::lemma_stored(store);
        store.lemma_reads_concat(done, StereoTools::stored(store).unwrap());
        done = done + StereoTools::stored(store).unwrap();
    }

    /// A store that holds the effects accepts the settings of effects with
    /// all their bands.
    pub proof fn lemma_accepted(&self, store: StoreView)
        requires
            self.wf(),
            Self::stored(store) is Some,
        ensures
            store.accepts(self.settings()),
    {
        self.autogain.lemma_accepted(store);
        let mut done = self.autogain.settings();
        self.bass_enhancer.lemma_accepted(store);
        store.lemma_accepts_concat(done, self.bass_enhancer.settings());
        done = done + self.bass_enhancer.settings();
        self.compressor.lemma_accepted(store);
        store.lemma_accepts_concat(done, self.compressor.settings());
        done = done + self.compressor.settings();
        self.convolver.lemma_accepted(store);
        store.lemma_accepts_concat(done, self.convolver.settings());
        done = done + self.convolver.settings();
        self.crossfeed.lemma_accepted(store);
        store.lemma_accepts_concat(done, self.crossfeed.settings());
        done = done + self.crossfeed.settings();
        self.crystalizer.lemma_accepted(store);
        store.lemma_accepts_concat(done, self.crystalizer.settings());
        done = done + self.crystalizer.settings();
        self.deesser.lemma_accepted(store);
        store.lemma_accepts_concat(done, self.deesser.settings());
        done = done + self.deesser.settings();
        self.delay.lemma_accepted(store);
        store.lemma_accepts_concat(done, self.delay.settings());
        done = done + self.delay.settings();
        self.equalizer.lemma_accepted(store);
        store.lemma_accepts_concat(done, self.equalizer.settings());
        done = done + self.equalizer.settings();
        self.exciter.lemma_accepted(store);
        store.lemma_accepts_concat(done, self.exciter.settings());
        done = done + self.exciter.settings();
        self.filter.lemma_accepted(store);
        store.lemma_accepts_concat(done, self.filter.settings());
        done = done + self.filter.settings();
        self.gate.lemma_accepted(store);
        store.lemma_accepts_concat(done, self.gate.settings());
        done = done + self.gate.settings();
        self.limiter.lemma_accepted(store);
        store.lemma_accepts_concat(done, self.limiter.settings());
        done = done + self.limiter.settings();
        self.loudness.lemma_accepted(store);
        store.lemma_accepts_concat(done, self.loudness.settings());
        done = done + self.loudness.settings();
        self.maximizer.lemma_accepted(store);
        store.lemma_accepts_concat(done, self.maximizer.settings());
        done = done + self.maximizer.settings();
        self.multiband_compressor.lemma_accepted(store);
        store.lemma_accepts_concat(done, self.multiband_compressor.settings());
        done = done + self.multiband_compressor.settings();
        self.multiband_gate.lemma_accepted(store);
        store.lemma_accepts_concat(done, self.multiband_gate.settings());
        done = done + self.multiband_gate.settings();
        self.pitch.lemma_accepted(store);
        store.lemma_accepts_concat(done, self.pitch.settings());
        done = done + self.pitch.settings();
        self.reverb.lemma_accepted(store);
        store.lemma_accepts_concat(done, self.reverb.settings());
        done = done + self.reverb.settings();
        self.stereo_tools.lemma_accepted(store);
        store.lemma_accepts_concat(done, self.stereo_tools.settings());
        done = done + self.stereo_tools.settings();
    }

    /// The settings of effects with all their bands name keys of sections
    /// with a path, no key twice.
    pub proof fn lemma_settings(&self)
        requires
            self.wf(),
        ensures
            distinct(self.settings()),
            placed(self.settings(), with_path()),
    {
        AutoGain::lemma_mark();
        BassEnhancer::lemma_mark();
        compressor::Output::lemma_mark();
        Convolver::lemma_mark();
        Crossfeed::lemma_mark();
        Crystalizer::lemma_mark();
        deesser::Output::lemma_mark();
        Delay::lemma_mark();
        equalizer::Output::lemma_mark();
        equalizer_left::LeftOutput::lemma_mark();
        equalizer_right::RightOutput::lemma_mark();
        Exciter::lemma_mark();
        filter::Output::lemma_mark();
        gate::Output::lemma_mark();
        limiter::Output::lemma_mark();
        Loudness::lemma_mark();
        maximizer::Output::lemma_mark();
        multiband_compressor::Output::lemma_mark();
        multiband_gate::Output::lemma_mark();
        pitch::Output::lemma_mark();
        reverb::Output::lemma_mark();
        StereoTools::lemma_mark();
        self.autogain.lemma_settings();
        let mut done = self.autogain.settings();
        let mut sections = set![AutoGain::section()];
        self.bass_enhancer.lemma_settings();
        lemma_distinct_concat(
            done,
            self.bass_enhancer.settings(),
            sections,
            set![BassEnhancer::section()],
        );
        done = done + self.bass_enhancer.settings();
        sections = sections.union(set![BassEnhancer::section()]);
        self.compressor.lemma_settings();
        lemma_distinct_concat(
            done,
            self.compressor.settings(),
            sections,
            set![compressor::Output::section()],
        );
        done = done + self.compressor.settings();
        sections = sections.union(set![compressor::Output::section()]);
        self.convolver.lemma_settings();
        lemma_distinct_concat(
            done,
            self.convolver.settings(),
            sections,
            set![Convolver::section()],
        );
        done = done + self.convolver.settings();
        sections = sections.union(set![Convolver::section()]);
        self.crossfeed.lemma_settings();
        lemma_distinct_concat(
            done,
            self.crossfeed.settings(),
            sections,
            set![Crossfeed::section()],
        );
        done = done + self.crossfeed.settings();
        sections = sections.union(set![Crossfeed::section()]);
        self.crystalizer.lemma_settings();
        lemma_distinct_concat(
            done,
            self.crystalizer.settings(),
            sections,
            set![Crystalizer::section()],
        );
        done = done + self.crystalizer.settings();
        sections = sections.union(set![Crystalizer::section()]);
        self.deesser.lemma_settings();
        lemma_distinct_concat(
            done,
            self.deesser.settings(),
            sections,
            set![deesser::Output::section()],
        );
        done = done + self.deesser.settings();
        sections = sections.union(set![deesser::Output::section()]);
        self.delay.lemma_settings();
        lemma_distinct_concat(done, self.delay.settings(), sections, set![Delay::section()]);
        done = done + self.delay.settings();
        sections = sections.union(set![Delay::section()]);
        self.equalizer.lemma_settings();
        let of_equalizer = set![
            equalizer::Output::section(),
            equalizer_left::LeftOutput::section(),
            equalizer_right::RightOutput::section(),
        ];
        lemma_distinct_concat(done, self.equalizer.settings(), sections, of_equalizer);
        done = done + self.equalizer.settings();
        sections = sections.union(of_equalizer);
        self.exciter.lemma_settings();
        lemma_distinct_concat(done, self.exciter.settings(), sections, set![Exciter::section()]);
        done = done + self.exciter.settings();
        sections = sections.union(set![Exciter::section()]);
        self.filter.lemma_settings();
        lemma_distinct_concat(
            done,
            self.filter.settings(),
            sections,
            set![filter::Output::section()],
        );
        done = done + self.filter.settings();
        sections = sections.union(set![filter::Output::section()]);
        self.gate.lemma_settings();
        lemma_distinct_concat(done, self.gate.settings(), sections, set![gate::Output::section()]);
        done = done + self.gate.settings();
        sections = sections.union(set![gate::Output::section()]);
        self.limiter.lemma_settings();
        lemma_distinct_concat(
            done,
            self.limiter.settings(),
            sections,
            set![limiter::Output::section()],
        );
        done = done + self.limiter.settings();
        sections = sections.union(set![limiter::Output::section()]);
        self.loudness.lemma_settings();
        lemma_distinct_concat(done, self.loudness.settings(), sections, set![Loudness::section()]);
        done = done + self.loudness.settings();
        sections = sections.union(set![Loudness::section()]);
        self.maximizer.lemma_settings();
        lemma_distinct_concat(
            done,
            self.maximizer.settings(),
            sections,
            set![maximizer::Output::section()],
        );
        done = done + self.maximizer.settings();
        sections = sections.union(set![maximizer::Output::section()]);
        self.multiband_compressor.lemma_settings();
        lemma_distinct_concat(
            done,
            self.multiband_compressor.settings(),
            sections,
            set![multiband_compressor::Output::section()],
        );
        done = done + self.multiband_compressor.settings();
        sections = sections.union(set![multiband_compressor::Output::section()]);
        self.multiband_gate.lemma_settings();
        lemma_distinct_concat(
            done,
            self.multiband_gate.settings(),
            sections,
            set![multiband_gate::Output::section()],
        );
        done = done + self.multiband_gate.settings();
        sections = sections.union(set![multiband_gate::Output::section()]);
        self.pitch.lemma_settings();
        lemma_distinct_concat(
            done,
            self.pitch.settings(),
            sections,
            set![pitch::Output::section()],
        );
        done = done + self.pitch.settings();
        sections = sections.union(set![pitch::Output::section()]);
        self.reverb.lemma_settings();
        lemma_distinct_concat(
            done,
            self.reverb.settings(),
            sections,
            set![reverb::Output::section()],
        );
        done = done + self.reverb.settings();
        sections = sections.union(set![reverb::Output::section()]);
        self.stereo_tools.lemma_settings();
        lemma_distinct_concat(
            done,
            self.stereo_tools.settings(),
            sections,
            set![StereoTools::section()],
        );
        done = done + self.stereo_tools.settings();
        sections = sections.union(set![StereoTools::section()]);
        assert forall|i: int| 0 <= i < done.len() implies with_path().contains(
            #[trigger] done[i].address.section,
        ) by {
            assert(sections.contains(done[i].address.section));
        }
    }

    /// Whether every effect with bands has as many of them as it should.
    pub fn is_well_formed(&self) -> (r: bool)
        ensures
            r == self.wf(),
    {
        self.crystalizer.is_well_formed() && self.equalizer.is_well_formed()
    }

    /// Reads the effects of the output chain from `store`.
    pub fn read(store: &SettingsStore) -> (r: Option<OutputChildren>)
        ensures
            match r {
                Some(record) => {
                    &&& record.wf()
                    &&& record.plugins_order@.len() == 0
                    &&& Self::stored(store@) == Some(record.settings())
                },
                None => Self::stored(store@) is None,
            },
    {
        Some(
            OutputChildren {
                plugins_order: Vec::new(),
                bass_enhancer: BassEnhancer::read(store)?,
                compressor: compressor::Output::read(store)?,
                crossfeed: Crossfeed::read(store)?,
                deesser: deesser::Output::read(store)?,
                equalizer: equalizer::Output::read(store)?,
                exciter: Exciter::read(store)?,
                filter: filter::Output::read(store)?,
                gate: gate::Output::read(store)?,
                limiter: limiter::Output::read(store)?,
                maximizer: maximizer::Output::read(store)?,
                pitch: pitch::Output::read(store)?,
                reverb: reverb::Output::read(store)?,
                multiband_compressor: multiband_compressor::Output::read(store)?,
                loudness: Loudness::read(store)?,
                multiband_gate: multiband_gate::Output::read(store)?,
                stereo_tools: StereoTools::read(store)?,
                convolver: Convolver::read(store)?,
                crystalizer: Crystalizer::read(store)?,
                autogain: AutoGain::read(store)?,
                delay: Delay::read(store)?,
            },
        )
    }

    /// Hands every field of every effect to its key: a key is written only
    /// where its value would change.
    pub fn apply(&self, store: &mut SettingsStore)
        requires
            self.wf(),
            Self::stored(old(store)@) is Some,
        ensures
            final(store)@ == old(store)@.apply(self.settings()),
            forall|address: Address, kind: Kind| #[trigger]
                final(store)@.holds(address, kind) == old(store)@.holds(address, kind),
    {
        self.autogain.apply(store);
        let ghost mut done = self.autogain.settings();
        proof {
            BassEnhancer::lemma_stays_stored(old(store)@, store@);
            old(store)@.lemma_apply_concat(done, self.bass_enhancer.settings());
            done = done + self.bass_enhancer.settings();
        }
        self.bass_enhancer.apply(store);
        assert(store@ == old(store)@.apply(done));
        proof {
            compressor::Output::lemma_stays_stored(old(store)@, store@);
            old(store)@.lemma_apply_concat(done, self.compressor.settings());
            done = done + self.compressor.settings();
        }
        self.compressor.apply(store);
        assert(store@ == old(store)@.apply(done));
        proof {
            Convolver::lemma_stays_stored(old(store)@, store@);
            old(store)@.lemma_apply_concat(done, self.convolver.settings());
            done = done + self.convolver.settings();
        }
        self.convolver.apply(store);
        assert(store@ == old(store)@.apply(done));
        proof {
            Crossfeed::lemma_stays_stored(old(store)@, store@);
            old(store)@.lemma_apply_concat(done, self.crossfeed.settings());
            done = done + self.crossfeed.settings();
        }
        self.crossfeed.apply(store);
        assert(store@ == old(store)@.apply(done));
        proof {
            Crystalizer::lemma_stays_stored(old(store)@, store@);
            old(store)@.lemma_apply_concat(done, self.crystalizer.settings());
            done = done + self.crystalizer.settings();
        }
        self.crystalizer.apply(store);
        assert(store@ == old(store)@.apply(done));
        proof {
            deesser::Output::lemma_stays_stored(old(store)@, store@);
            old(store)@.lemma_apply_concat(done, self.deesser.settings());
            done = done + self.deesser.settings();
        }
        self.deesser.apply(store);
        assert(store@ == old(store)@.apply(done));
        proof {
            Delay::lemma_stays_stored(old(store)@, store@);
            old(store)@.lemma_apply_concat(done, self.delay.settings());
            done = done + self.delay.settings();
        }
        self.delay.apply(store);
        assert(store@ == old(store)@.apply(done));
        proof {
            equalizer::Output::lemma_stays_stored(old(store)@, store@);
            old(store)@.lemma_apply_concat(done, self.equalizer.settings());
            done = done + self.equalizer.settings();
        }
        self.equalizer.apply(store);
        assert(store@ == old(store)@.apply(done));
        proof {
            Exciter::lemma_stays_stored(old(store)@, store@);
            old(store)@.lemma_apply_concat(done, self.exciter.settings());
            done = done + self.exciter.settings();
        }
        self.exciter.apply(store);
        assert(store@ == old(store)@.apply(done));
        proof {
            filter::Output::lemma_stays_stored(old(store)@, store@);
            old(store)@.lemma_apply_concat(done, self.filter.settings());
            done = done + self.filter.settings();
        }
        self.filter.apply(store);
        assert(store@ == old(store)@.apply(done));
        proof {
            gate::Output::lemma_stays_stored(old(store)@, store@);
            old(store)@.lemma_apply_concat(done, self.gate.settings());
            done = done + self.gate.settings();
        }
        self.gate.apply(store);
        assert(store@ == old(store)@.apply(done));
        proof {
            limiter::Output::lemma_stays_stored(old(store)@, store@);
            old(store)@.lemma_apply_concat(done, self.limiter.settings());
            done = done + self.limiter.settings();
        }
        self.limiter.apply(store);
        assert(store@ == old(store)@.apply(done));
        proof {
            Loudness::lemma_stays_stored(old(store)@, store@);
            old(store)@.lemma_apply_concat(done, self.loudness.settings());
            done = done + self.loudness.settings();
        }
        self.loudness.apply(store);
        assert(store@ == old(store)@.apply(done));
        proof {
            maximizer::Output::lemma_stays_stored(old(store)@, store@);
            old(store)@.lemma_apply_concat(done, self.maximizer.settings());
            done = done + self.maximizer.settings();
        }
        self.maximizer.apply(store);
        assert(store@ == old(store)@.apply(done));
        proof {
            multiband_compressor::Output::lemma_stays_stored(old(store)@, store@);
            old(store)@.lemma_apply_concat(done, self.multiband_compressor.settings());
            done = done + self.multiband_compressor.settings();
        }
        self.multiband_compressor.apply(store);
        assert(store@ == old(store)@.apply(done));
        proof {
            multiband_gate::Output::lemma_stays_stored(old(store)@, store@);
            old(store)@.lemma_apply_concat(done, self.multiband_gate.settings());
            done = done + self.multiband_gate.settings();
        }
        self.multiband_gate.apply(store);
        assert(store@ == old(store)@.apply(done));
        proof {
            pitch::Output::lemma_stays_stored(old(store)@, store@);
            old(store)@.lemma_apply_concat(done, self.pitch.settings());
            done = done + self.pitch.settings();
        }
        self.pitch.apply(store);
        assert(store@ == old(store)@.apply(done));
        proof {
            reverb::Output::lemma_stays_stored(old(store)@, store@);
            old(store)@.lemma_apply_concat(done, self.reverb.settings());
            done = done + self.reverb.settings();
        }
        self.reverb.apply(store);
        assert(store@ == old(store)@.apply(done));
        proof {
            StereoTools::lemma_stays_stored(old(store)@, store@);
            old(store)@.lemma_apply_concat(done, self.stereo_tools.settings());
            done = done + self.stereo_tools.settings();
        }
        self.stereo_tools.apply(store);
        assert(store@ == old(store)@.apply(done));
    }
}

/// The effects of the input chain.
#[derive(Clone, Debug)]
pub struct InputChildren {
    /// The order in which the effects are chained. It is carried along and
    /// neither read from the store nor written to it.
    pub plugins_order: Vec<String>,
    pub compressor: compressor::Input,
    pub deesser: deesser::Input,
    pub equalizer: equalizer::Input,
    pub filter: filter::Input,
    pub gate: gate::Input,
    pub limiter: limiter::Input,
    pub pitch: pitch::Input,
    pub reverb: reverb::Input,
    pub webrtc: WebRTC,
    pub multiband_compressor: multiband_compressor::Input,
    pub multiband_gate: multiband_gate::Input,
}

impl InputChildren {
    /// Whether every effect with bands has as many of them as it should.
    pub open spec fn wf(&self) -> bool {
        self.equalizer.wf()
    }

    /// The effects of the input chain as the settings they stand for, in the
    /// order in which they are written: effect after effect, by name.
    pub open spec fn settings(&self) -> Seq<Setting> {
        self.compressor.settings()
            + self.deesser.settings()
            + self.equalizer.settings()
            + self.filter.settings()
            + self.gate.settings()
            + self.limiter.settings()
            + self.multiband_compressor.settings()
            + self.multiband_gate.settings()
            + self.pitch.settings()
            + self.reverb.settings()
            + self.webrtc.settings()
    }

    /// The settings that `store` holds for the effects of the input chain, or
    /// `None` where a key of one of them is missing or of another type.
    pub open spec fn stored(store: StoreView) -> Option<Seq<Setting>> {
        if compressor::Input::stored(store) is Some
            && deesser::Input::stored(store) is Some
            && equalizer::Input::stored(store) is Some
            && filter::Input::stored(store) is Some
            && gate::Input::stored(store) is Some
            && limiter::Input::stored(store) is Some
            && multiband_compressor::Input::stored(store) is Some
            && multiband_gate::Input::stored(store) is Some
            && pitch::Input::stored(store) is Some
            && reverb::Input::stored(store) is Some
            && WebRTC::stored(store) is Some
        {
            Some(
                compressor::Input::stored(store).unwrap()
                    + deesser::Input::stored(store).unwrap()
                    + equalizer::Input::stored(store).unwrap()
                    + filter::Input::stored(store).unwrap()
                    + gate::Input::stored(store).unwrap()
                    + limiter::Input::stored(store).unwrap()
                    + multiband_compressor::Input::stored(store).unwrap()
                    + multiband_gate::Input::stored(store).unwrap()
                    + pitch::Input::stored(store).unwrap()
                    + reverb::Input::stored(store).unwrap()
                    + WebRTC::stored(store).unwrap(),
            )
        } else {
            None
        }
    }

    /// A store that holds the same keys with the same types holds the effects
    /// alike.
    pub proof fn lemma_stays_stored(before: StoreView, after: StoreView)
        requires
            forall|address: Address, kind: Kind| #[trigger]
                after.holds(address, kind) == before.holds(address, kind),
        ensures
            Self::stored(after) is Some == Self::stored(before) is Some,
    {
        compressor::Input::lemma_stays_stored(before, after);
        deesser::Input::lemma_stays_stored(before, after);
        equalizer::Input::lemma_stays_stored(before, after);
        filter::Input::lemma_stays_stored(before, after);
        gate::Input::lemma_stays_stored(before, after);
        limiter::Input::lemma_stays_stored(before, after);
        multiband_compressor::Input::lemma_stays_stored(before, after);
        multiband_gate::Input::lemma_stays_stored(before, after);
        pitch::Input::lemma_stays_stored(before, after);
        reverb::Input::lemma_stays_stored(before, after);
        WebRTC::lemma_stays_stored(before, after);
    }

    /// What a store holds for the effects is what it holds at their keys.
    pub proof fn lemma_stored(store: StoreView)
        requires
            Self::stored(store) is Some,
        ensures
            store.reads(Self::stored(store).unwrap()),
    {
        compressor::Input::lemma_stored(store);
        let mut done = compressor::Input::stored(store).unwrap();
        deesser::Input::lemma_stored(store);
        store.lemma_reads_concat(done, deesser::Input::stored(store).unwrap());
        done = done + deesser::Input::stored(store).unwrap();
        equalizer::Input::lemma_stored(store);
        store.lemma_reads_concat(done, equalizer::Input::stored(store).unwrap());
        done = done + equalizer::Input::stored(store).unwrap();
        filter::Input::lemma_stored(store);
        store.lemma_reads_concat(done, filter::Input::stored(store).unwrap());
        done = done + filter::Input::stored(store).unwrap();
        gate::Input::lemma_stored(store);
        store.lemma_reads_concat(done, gate::Input::stored(store).unwrap());
        done = done + gate::Input::stored(store).unwrap();
        limiter::Input::lemma_stored(store);
        store.lemma_reads_concat(done, limiter::Input::stored(store).unwrap());
        done = done + limiter::Input::stored(store).unwrap();
        multiband_compressor::Input::lemma_stored(store);
        store.lemma_reads_concat(done, multiband_compressor::Input::stored(store).unwrap());
        done = done + multiband_compressor::Input::stored(store).unwrap();
        multiband_gate::Input::lemma_stored(store);
        store.lemma_reads_concat(done, multiband_gate::Input::stored(store).unwrap());
        done = done + multiband_gate::Input::stored(store).unwrap();
        pitch::Input::lemma_stored(store);
        store.lemma_reads_concat(done, pitch::Input::stored(store).unwrap());
        done = done + pitch::Input::stored(store).unwrap();
        reverb::Input::lemma_stored(store);
        store.lemma_reads_concat(done, reverb::Input::stored(store).unwrap());
        done = done + reverb::Input::stored(store).unwrap();
        WebRTC::lemma_stored(store);
        store.lemma_reads_concat(done, WebRTC::stored(store).unwrap());
        done = done + WebRTC::stored(store).unwrap();
    }

    /// A store that holds the effects accepts the settings of effects with
    /// all their bands.
    pub proof fn lemma_accepted(&self, store: StoreView)
        requires
            self.wf(),
            Self::stored(store) is Some,
        ensures
            store.accepts(self.settings()),
    {
        self.compressor.lemma_accepted(store);
        let mut done = self.compressor.settings();
        self.deesser.lemma_accepted(store);
        store.lemma_accepts_concat(done, self.deesser.settings());
        done = done + self.deesser.settings();
        self.equalizer.lemma_accepted(store);
        store.lemma_accepts_concat(done, self.equalizer.settings());
        done = done + self.equalizer.settings();
        self.filter.lemma_accepted(store);
        store.lemma_accepts_concat(done, self.filter.settings());
        done = done + self.filter.settings();
        self.gate.lemma_accepted(store);
        store.lemma_accepts_concat(done, self.gate.settings());
        done = done + self.gate.settings();
        self.limiter.lemma_accepted(store);
        store.lemma_accepts_concat(done, self.limiter.settings());
        done = done + self.limiter.settings();
        self.multiband_compressor.lemma_accepted(store);
        store.lemma_accepts_concat(done, self.multiband_compressor.settings());
        done = done + self.multiband_compressor.settings();
        self.multiband_gate.lemma_accepted(store);
        store.lemma_accepts_concat(done, self.multiband_gate.settings());
        done = done + self.multiband_gate.settings();
        self.pitch.lemma_accepted(store);
        store.lemma_accepts_concat(done, self.pitch.settings());
        done = done + self.pitch.settings();
        self.reverb.lemma_accepted(store);
        store.lemma_accepts_concat(done, self.reverb.settings());
        done = done + self.reverb.settings();
        self.webrtc.lemma_accepted(store);
        store.lemma_accepts_concat(done, self.webrtc.settings());
        done = done + self.webrtc.settings();
    }

    /// The settings of effects with all their bands name keys of sections
    /// with a path, no key twice.
    pub proof fn lemma_settings(&self)
        requires
            self.wf(),
        ensures
            distinct(self.settings()),
            placed(self.settings(), with_path()),
    {
        compressor::Input::lemma_mark();
        deesser::Input::lemma_mark();
        equalizer::Input::lemma_mark();
        equalizer_left::LeftInput::lemma_mark();
        equalizer_right::RightInput::lemma_mark();
        filter::Input::lemma_mark();
        gate::Input::lemma_mark();
        limiter::Input::lemma_mark();
        multiband_compressor::Input::lemma_mark();
        multiband_gate::Input::lemma_mark();
        pitch::Input::lemma_mark();
        reverb::Input::lemma_mark();
        WebRTC::lemma_mark();
        self.compressor.lemma_settings();
        let mut done = self.compressor.settings();
        let mut sections = set![compressor::Input::section()];
        self.deesser.lemma_settings();
        lemma_distinct_concat(
            done,
            self.deesser.settings(),
            sections,
            set![deesser::Input::section()],
        );
        done = done + self.deesser.settings();
        sections = sections.union(set![deesser::Input::section()]);
        self.equalizer.lemma_settings();
        let of_equalizer = set![
            equalizer::Input::section(),
            equalizer_left::LeftInput::section(),
            equalizer_right::RightInput::section(),
        ];
        lemma_distinct_concat(done, self.equalizer.settings(), sections, of_equalizer);
        done = done + self.equalizer.settings();
        sections = sections.union(of_equalizer);
        self.filter.lemma_settings();
        lemma_distinct_concat(
            done,
            self.filter.settings(),
            sections,
            set![filter::Input::section()],
        );
        done = done + self.filter.settings();
        sections = sections.union(set![filter::Input::section()]);
        self.gate.lemma_settings();
        lemma_distinct_concat(done, self.gate.settings(), sections, set![gate::Input::section()]);
        done = done + self.gate.settings();
        sections = sections.union(set![gate::Input::section()]);
        self.limiter.lemma_settings();
        lemma_distinct_concat(
            done,
            self.limiter.settings(),
            sections,
            set![limiter::Input::section()],
        );
        done = done + self.limiter.settings();
        sections = sections.union(set![limiter::Input::section()]);
        self.multiband_compressor.lemma_settings();
        lemma_distinct_concat(
            done,
            self.multiband_compressor.settings(),
            sections,
            set![multiband_compressor::Input::section()],
        );
        done = done + self.multiband_compressor.settings();
        sections = sections.union(set![multiband_compressor::Input::section()]);
        self.multiband_gate.lemma_settings();
        lemma_distinct_concat(
            done,
            self.multiband_gate.settings(),
            sections,
            set![multiband_gate::Input::section()],
        );
        done = done + self.multiband_gate.settings();
        sections = sections.union(set![multiband_gate::Input::section()]);
        self.pitch.lemma_settings();
        lemma_distinct_concat(done, self.pitch.settings(), sections, set![pitch::Input::section()]);
        done = done + self.pitch.settings();
        sections = sections.union(set![pitch::Input::section()]);
        self.reverb.lemma_settings();
        lemma_distinct_concat(
            done,
            self.reverb.settings(),
            sections,
            set![reverb::Input::section()],
        );
        done = done + self.reverb.settings();
        sections = sections.union(set![reverb::Input::section()]);
        self.webrtc.lemma_settings();
        lemma_distinct_concat(done, self.webrtc.settings(), sections, set![WebRTC::section()]);
        done = done + self.webrtc.settings();
        sections = sections.union(set![WebRTC::section()]);
        assert forall|i: int| 0 <= i < done.len() implies with_path().contains(
            #[trigger] done[i].address.section,
        ) by {
            assert(sections.contains(done[i].address.section));
        }
    }

    /// Whether every effect with bands has as many of them as it should.
    pub fn is_well_formed(&self) -> (r: bool)
        ensures
            r == self.wf(),
    {
        self.equalizer.is_well_formed()
    }

    /// Reads the effects of the input chain from `store`.
    pub fn read(store: &SettingsStore) -> (r: Option<InputChildren>)
        ensures
            match r {
                Some(record) => {
                    &&& record.wf()
                    &&& record.plugins_order@.len() == 0
                    &&& Self::stored(store@) == Some(record.settings())
                },
                None => Self::stored(store@) is None,
            },
    {
        Some(
            InputChildren {
                plugins_order: Vec::new(),
                compressor: compressor::Input::read(store)?,
                deesser: deesser::Input::read(store)?,
                equalizer: equalizer::Input::read(store)?,
                filter: filter::Input::read(store)?,
                gate: gate::Input::read(store)?,
                limiter: limiter::Input::read(store)?,
                pitch: pitch::Input::read(store)?,
                reverb: reverb::Input::read(store)?,
                webrtc: WebRTC::read(store)?,
                multiband_compressor: multiband_compressor::Input::read(store)?,
                multiband_gate: multiband_gate::Input::read(store)?,
            },
        )
    }

    /// Hands every field of every effect to its key: a key is written only
    /// where its value would change.
    pub fn apply(&self, store: &mut SettingsStore)
        requires
            self.wf(),
            Self::stored(old(store)@) is Some,
        ensures
            final(store)@ == old(store)@.apply(self.settings()),
            forall|address: Address, kind: Kind| #[trigger]
                final(store)@.holds(address, kind) == old(store)@.holds(address, kind),
    {
        self.compressor.apply(store);
        let ghost mut done = self.compressor.settings();
        proof {
            deesser::Input::lemma_stays_stored(old(store)@, store@);
            old(store)@.lemma_apply_concat(done, self.deesser.settings());
            done = done + self.deesser.settings();
        }
        self.deesser.apply(store);
        assert(store@ == old(store)@.apply(done));
        proof {
            equalizer::Input::lemma_stays_stored(old(store)@, store@);
            old(store)@.lemma_apply_concat(done, self.equalizer.settings());
            done = done + self.equalizer.settings();
        }
        self.equalizer.apply(store);
        assert(store@ == old(store)@.apply(done));
        proof {
            filter::Input::lemma_stays_stored(old(store)@, store@);
            old(store)@.lemma_apply_concat(done, self.filter.settings());
            done = done + self.filter.settings();
        }
        self.filter.apply(store);
        assert(store@ == old(store)@.apply(done));
        proof {
            gate::Input::lemma_stays_stored(old(store)@, store@);
            old(store)@.lemma_apply_concat(done, self.gate.settings());
            done = done + self.gate.settings();
        }
        self.gate.apply(store);
        assert(store@ == old(store)@.apply(done));
        proof {
            limiter::Input::lemma_stays_stored(old(store)@, store@);
            old(store)@.lemma_apply_concat(done, self.limiter.settings());
            done = done + self.limiter.settings();
        }
        self.limiter.apply(store);
        assert(store@ == old(store)@.apply(done));
        proof {
            multiband_compressor::Input::lemma_stays_stored(old(store)@, store@);
            old(store)@.lemma_apply_concat(done, self.multiband_compressor.settings());
            done = done + self.multiband_compressor.settings();
        }
        self.multiband_compressor.apply(store);
        assert(store@ == old(store)@.apply(done));
        proof {
            multiband_gate::Input::lemma_stays_stored(old(store)@, store@);
            old(store)@.lemma_apply_concat(done, self.multiband_gate.settings());
            done = done + self.multiband_gate.settings();
        }
        self.multiband_gate.apply(store);
        assert(store@ == old(store)@.apply(done));
        proof {
            pitch::Input::lemma_stays_stored(old(store)@, store@);
            old(store)@.lemma_apply_concat(done, self.pitch.settings());
            done = done + self.pitch.settings();
        }
        self.pitch.apply(store);
        assert(store@ == old(store)@.apply(done));
        proof {
            reverb::Input::lemma_stays_stored(old(store)@, store@);
            old(store)@.lemma_apply_concat(done, self.reverb.settings());
            done = done + self.reverb.settings();
        }
        self.reverb.apply(store);
        assert(store@ == old(store)@.apply(done));
        proof {
            WebRTC::lemma_stays_stored(old(store)@, store@);
            old(store)@.lemma_apply_concat(done, self.webrtc.settings());
            done = done + self.webrtc.settings();
        }
        self.webrtc.apply(store);
        assert(store@ == old(store)@.apply(done));
    }
}

} // verus!
