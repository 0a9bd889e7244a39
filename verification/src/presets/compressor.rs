//! The compressor effect, for either direction.

use crate::presets::common::{update_key, update_string_key};
use crate::settings::{
    distinct, mark, placed, Address, Double, Kind, Section, Setting, Settings, SettingsStore,
    StoreView, Variant, VariantView,
};
use vstd::prelude::*;

verus! {

/// The sidechain of a compressor.
#[derive(Clone, Debug)]
pub struct Sidechain {
    pub listen: bool,
    pub style: String,
    pub mode: String,
    pub source: String,
    pub preamp: Double,
    pub reactivity: Double,
    pub lookahead: Double,
}

/// Parameters of the compressor on the output chain.
#[derive(Clone, Debug)]
pub struct Output {
    pub state: bool,
    pub input_gain: Double,
    pub output_gain: Double,
    pub mode: String,
    pub attack: Double,
    pub release: Double,
    pub release_threshold: Double,
    pub threshold: Double,
    pub ratio: Double,
    pub knee: Double,
    pub makeup: Double,
    pub boost_threshold: Double,
    pub sidechain: Sidechain,
    pub hpf_mode: String,
    pub hpf_frequency: Double,
    pub lpf_mode: String,
    pub lpf_frequency: Double,
}

impl Output {
    /// Where the keys of this record live.
    pub open spec fn section() -> Section {
        Section {
            schema: "com.github.wwmm.pulseeffects.compressor"@,
            path: "/com/github/wwmm/pulseeffects/sinkinputs/compressor/"@,
        }
    }

    /// The record as the settings it stands for, in the order in which they
    /// are written.
    pub open spec fn settings(&self) -> Seq<Setting> {
        seq![
            Setting {
                address: Self::section().at("state"@),
                value: VariantView::Boolean(self.state),
            },
            Setting {
                address: Self::section().at("input-gain"@),
                value: VariantView::Double(self.input_gain.bits),
            },
            Setting {
                address: Self::section().at("output-gain"@),
                value: VariantView::Double(self.output_gain.bits),
            },
            Setting { address: Self::section().at("mode"@), value: VariantView::Text(self.mode@) },
            Setting {
                address: Self::section().at("attack"@),
                value: VariantView::Double(self.attack.bits),
            },
            Setting {
                address: Self::section().at("release"@),
                value: VariantView::Double(self.release.bits),
            },
            Setting {
                address: Self::section().at("release-threshold"@),
                value: VariantView::Double(self.release_threshold.bits),
            },
            Setting {
                address: Self::section().at("threshold"@),
                value: VariantView::Double(self.threshold.bits),
            },
            Setting {
                address: Self::section().at("ratio"@),
                value: VariantView::Double(self.ratio.bits),
            },
            Setting {
                address: Self::section().at("knee"@),
                value: VariantView::Double(self.knee.bits),
            },
            Setting {
                address: Self::section().at("makeup"@),
                value: VariantView::Double(self.makeup.bits),
            },
            Setting {
                address: Self::section().at("boost-threshold"@),
                value: VariantView::Double(self.boost_threshold.bits),
            },
            Setting {
                address: Self::section().at("sidechain-listen"@),
                value: VariantView::Boolean(self.sidechain.listen),
            },
            Setting {
                address: Self::section().at("sidechain-type"@),
                value: VariantView::Text(self.sidechain.style@),
            },
            Setting {
                address: Self::section().at("sidechain-mode"@),
                value: VariantView::Text(self.sidechain.mode@),
            },
            Setting {
                address: Self::section().at("sidechain-source"@),
                value: VariantView::Text(self.sidechain.source@),
            },
            Setting {
                address: Self::section().at("sidechain-preamp"@),
                value: VariantView::Double(self.sidechain.preamp.bits),
            },
            Setting {
                address: Self::section().at("sidechain-reactivity"@),
                value: VariantView::Double(self.sidechain.reactivity.bits),
            },
            Setting {
                address: Self::section().at("sidechain-lookahead"@),
                value: VariantView::Double(self.sidechain.lookahead.bits),
            },
            Setting {
                address: Self::section().at("hpf-mode"@),
                value: VariantView::Text(self.hpf_mode@),
            },
            Setting {
                address: Self::section().at("hpf-frequency"@),
                value: VariantView::Double(self.hpf_frequency.bits),
            },
            Setting {
                address: Self::section().at("lpf-mode"@),
                value: VariantView::Text(self.lpf_mode@),
            },
            Setting {
                address: Self::section().at("lpf-frequency"@),
                value: VariantView::Double(self.lpf_frequency.bits),
            },
        ]
    }

    /// The settings that `store` holds for this record, or `None` where a key
    /// is missing or of another type.
    pub open spec fn stored(store: StoreView) -> Option<Seq<Setting>> {
        if store.holds(Self::section().at("state"@), Kind::Boolean)
            && store.holds(Self::section().at("input-gain"@), Kind::Double)
            && store.holds(Self::section().at("output-gain"@), Kind::Double)
            && store.holds(Self::section().at("mode"@), Kind::Text)
            && store.holds(Self::section().at("attack"@), Kind::Double)
            && store.holds(Self::section().at("release"@), Kind::Double)
            && store.holds(Self::section().at("release-threshold"@), Kind::Double)
            && store.holds(Self::section().at("threshold"@), Kind::Double)
            && store.holds(Self::section().at("ratio"@), Kind::Double)
            && store.holds(Self::section().at("knee"@), Kind::Double)
            && store.holds(Self::section().at("makeup"@), Kind::Double)
            && store.holds(Self::section().at("boost-threshold"@), Kind::Double)
            && store.holds(Self::section().at("sidechain-listen"@), Kind::Boolean)
            && store.holds(Self::section().at("sidechain-type"@), Kind::Text)
            && store.holds(Self::section().at("sidechain-mode"@), Kind::Text)
            && store.holds(Self::section().at("sidechain-source"@), Kind::Text)
            && store.holds(Self::section().at("sidechain-preamp"@), Kind::Double)
            && store.holds(Self::section().at("sidechain-reactivity"@), Kind::Double)
            && store.holds(Self::section().at("sidechain-lookahead"@), Kind::Double)
            && store.holds(Self::section().at("hpf-mode"@), Kind::Text)
            && store.holds(Self::section().at("hpf-frequency"@), Kind::Double)
            && store.holds(Self::section().at("lpf-mode"@), Kind::Text)
            && store.holds(Self::section().at("lpf-frequency"@), Kind::Double)
        {
            Some(
                seq![
                    store.setting(Self::section().at("state"@)),
                    store.setting(Self::section().at("input-gain"@)),
                    store.setting(Self::section().at("output-gain"@)),
                    store.setting(Self::section().at("mode"@)),
                    store.setting(Self::section().at("attack"@)),
                    store.setting(Self::section().at("release"@)),
                    store.setting(Self::section().at("release-threshold"@)),
                    store.setting(Self::section().at("threshold"@)),
                    store.setting(Self::section().at("ratio"@)),
                    store.setting(Self::section().at("knee"@)),
                    store.setting(Self::section().at("makeup"@)),
                    store.setting(Self::section().at("boost-threshold"@)),
                    store.setting(Self::section().at("sidechain-listen"@)),
                    store.setting(Self::section().at("sidechain-type"@)),
                    store.setting(Self::section().at("sidechain-mode"@)),
                    store.setting(Self::section().at("sidechain-source"@)),
                    store.setting(Self::section().at("sidechain-preamp"@)),
                    store.setting(Self::section().at("sidechain-reactivity"@)),
                    store.setting(Self::section().at("sidechain-lookahead"@)),
                    store.setting(Self::section().at("hpf-mode"@)),
                    store.setting(Self::section().at("hpf-frequency"@)),
                    store.setting(Self::section().at("lpf-mode"@)),
                    store.setting(Self::section().at("lpf-frequency"@)),
                ],
            )
        } else {
            None
        }
    }

    /// The mark of the section of this record.
    pub proof fn lemma_mark()
        ensures
            mark(Self::section()) == (52nat, 'r', 's', 'e'),
    {
        reveal_strlit("/com/github/wwmm/pulseeffects/sinkinputs/compressor/");
    }

    /// A handle on the section where the keys of this record live.
    pub fn location() -> (r: Settings)
        ensures
            r@ == Self::section(),
    {
        Settings::with_path(
            "com.github.wwmm.pulseeffects.compressor",
            "/com/github/wwmm/pulseeffects/sinkinputs/compressor/",
        )
    }

    /// What a store holds for the record is what it holds at the keys of the
    /// record.
    pub proof fn lemma_stored(store: StoreView)
        requires
            Self::stored(store) is Some,
        ensures
            store.reads(Self::stored(store).unwrap()),
    {
    }

    /// A store that holds the record accepts its settings.
    pub proof fn lemma_accepted(&self, store: StoreView)
        requires
            Self::stored(store) is Some,
        ensures
            store.accepts(self.settings()),
    {
    }

    /// The settings of the record name keys of its section, no key twice.
    pub proof fn lemma_settings(&self)
        ensures
            distinct(self.settings()),
            placed(self.settings(), set![Self::section()]),
    {
        reveal_strlit("state");
        reveal_strlit("input-gain");
        reveal_strlit("output-gain");
        reveal_strlit("mode");
        reveal_strlit("attack");
        reveal_strlit("release");
        reveal_strlit("release-threshold");
        reveal_strlit("threshold");
        reveal_strlit("ratio");
        reveal_strlit("knee");
        reveal_strlit("makeup");
        reveal_strlit("boost-threshold");
        reveal_strlit("sidechain-listen");
        reveal_strlit("sidechain-type");
        reveal_strlit("sidechain-mode");
        reveal_strlit("sidechain-source");
        reveal_strlit("sidechain-preamp");
        reveal_strlit("sidechain-reactivity");
        reveal_strlit("sidechain-lookahead");
        reveal_strlit("hpf-mode");
        reveal_strlit("hpf-frequency");
        reveal_strlit("lpf-mode");
        reveal_strlit("lpf-frequency");
        assert("state"@.len() == 5 && "state"@[0] == 's');
        assert("input-gain"@.len() == 10);
        assert("output-gain"@.len() == 11);
        assert("mode"@.len() == 4 && "mode"@[0] == 'm');
        assert("attack"@.len() == 6 && "attack"@[0] == 'a');
        assert("release"@.len() == 7);
        assert("release-threshold"@.len() == 17);
        assert("threshold"@.len() == 9);
        assert("ratio"@.len() == 5);
        assert("knee"@.len() == 4);
        assert("makeup"@.len() == 6);
        assert("boost-threshold"@.len() == 15);
        assert("sidechain-listen"@.len() == 16 && "sidechain-listen"@[10] == 'l');
        assert("sidechain-type"@.len() == 14 && "sidechain-type"@[10] == 't');
        assert("sidechain-mode"@.len() == 14);
        assert("sidechain-source"@.len() == 16 && "sidechain-source"@[10] == 's');
        assert("sidechain-preamp"@.len() == 16);
        assert("sidechain-reactivity"@.len() == 20);
        assert("sidechain-lookahead"@.len() == 19);
        assert("hpf-mode"@.len() == 8 && "hpf-mode"@[0] == 'h');
        assert("hpf-frequency"@.len() == 13 && "hpf-frequency"@[0] == 'h');
        assert("lpf-mode"@.len() == 8);
        assert("lpf-frequency"@.len() == 13);
    }

    /// A store that holds the same keys with the same types holds the record
    /// alike.
    pub proof fn lemma_stays_stored(before: StoreView, after: StoreView)
        requires
            forall|address: Address, kind: Kind| #[trigger]
                after.holds(address, kind) == before.holds(address, kind),
        ensures
            Self::stored(after) is Some == Self::stored(before) is Some,
    {
    }

    /// Reads the record from `store`.
    pub fn read(store: &SettingsStore) -> (r: Option<Output>)
        ensures
            match r {
                Some(record) => Self::stored(store@) == Some(record.settings()),
                None => Self::stored(store@) is None,
            },
    {
        let settings = Self::location();
        let record = Output {
            state: settings.get_boolean(store, "state")?,
            input_gain: settings.get_double(store, "input-gain")?,
            output_gain: settings.get_double(store, "output-gain")?,
            mode: settings.get_string(store, "mode")?,
            attack: settings.get_double(store, "attack")?,
            release: settings.get_double(store, "release")?,
            release_threshold: settings.get_double(store, "release-threshold")?,
            threshold: settings.get_double(store, "threshold")?,
            ratio: settings.get_double(store, "ratio")?,
            knee: settings.get_double(store, "knee")?,
            makeup: settings.get_double(store, "makeup")?,
            boost_threshold: settings.get_double(store, "boost-threshold")?,
            sidechain: Sidechain {
                listen: settings.get_boolean(store, "sidechain-listen")?,
                style: settings.get_string(store, "sidechain-type")?,
                mode: settings.get_string(store, "sidechain-mode")?,
                source: settings.get_string(store, "sidechain-source")?,
                preamp: settings.get_double(store, "sidechain-preamp")?,
                reactivity: settings.get_double(store, "sidechain-reactivity")?,
                lookahead: settings.get_double(store, "sidechain-lookahead")?,
            },
            hpf_mode: settings.get_string(store, "hpf-mode")?,
            hpf_frequency: settings.get_double(store, "hpf-frequency")?,
            lpf_mode: settings.get_string(store, "lpf-mode")?,
            lpf_frequency: settings.get_double(store, "lpf-frequency")?,
        };
        assert(Self::stored(store@).unwrap() =~= record.settings());
        Some(record)
    }

    /// Handing these settings to a store is handing them over one after
    /// another.
    pub proof fn lemma_applied(&self, store: StoreView)
        ensures
            store.apply(self.settings()) == store.update(self.settings()[0])
                .update(self.settings()[1]).update(self.settings()[2]).update(self.settings()[3])
                .update(self.settings()[4]).update(self.settings()[5]).update(self.settings()[6])
                .update(self.settings()[7]).update(self.settings()[8]).update(self.settings()[9])
                .update(self.settings()[10]).update(self.settings()[11]).update(self.settings()[12])
                .update(self.settings()[13]).update(self.settings()[14]).update(self.settings()[15])
                .update(self.settings()[16]).update(self.settings()[17]).update(self.settings()[18])
                .update(self.settings()[19]).update(self.settings()[20]).update(self.settings()[21])
                .update(self.settings()[22]),
    {
        store.lemma_apply_steps(self.settings());
    }

    /// Hands every field to its key: a key is written only where its value
    /// would change.
    pub fn apply(&self, store: &mut SettingsStore)
        requires
            Self::stored(old(store)@) is Some,
        ensures
            final(store)@ == old(store)@.apply(self.settings()),
            forall|address: Address, kind: Kind| #[trigger]
                final(store)@.holds(address, kind) == old(store)@.holds(address, kind),
    {
        let settings = Self::location();
        update_key(store, &settings, "state", Variant::Boolean(self.state));
        update_key(store, &settings, "input-gain", Variant::Double(self.input_gain));
        update_key(store, &settings, "output-gain", Variant::Double(self.output_gain));
        update_string_key(store, &settings, "mode", &self.mode);
        update_key(store, &settings, "attack", Variant::Double(self.attack));
        update_key(store, &settings, "release", Variant::Double(self.release));
        update_key(store, &settings, "release-threshold", Variant::Double(self.release_threshold));
        update_key(store, &settings, "threshold", Variant::Double(self.threshold));
        update_key(store, &settings, "ratio", Variant::Double(self.ratio));
        update_key(store, &settings, "knee", Variant::Double(self.knee));
        update_key(store, &settings, "makeup", Variant::Double(self.makeup));
        update_key(store, &settings, "boost-threshold", Variant::Double(self.boost_threshold));
        update_key(store, &settings, "sidechain-listen", Variant::Boolean(self.sidechain.listen));
        update_string_key(store, &settings, "sidechain-type", &self.sidechain.style);
        update_string_key(store, &settings, "sidechain-mode", &self.sidechain.mode);
        update_string_key(store, &settings, "sidechain-source", &self.sidechain.source);
        update_key(store, &settings, "sidechain-preamp", Variant::Double(self.sidechain.preamp));
        update_key(
            store,
            &settings,
            "sidechain-reactivity",
            Variant::Double(self.sidechain.reactivity),
        );
        update_key(
            store,
            &settings,
            "sidechain-lookahead",
            Variant::Double(self.sidechain.lookahead),
        );
        update_string_key(store, &settings, "hpf-mode", &self.hpf_mode);
        update_key(store, &settings, "hpf-frequency", Variant::Double(self.hpf_frequency));
        update_string_key(store, &settings, "lpf-mode", &self.lpf_mode);
        update_key(store, &settings, "lpf-frequency", Variant::Double(self.lpf_frequency));
        proof {
            self.lemma_applied(old(store)@);
        }
    }
}

/// Parameters of the compressor on the input chain.
#[derive(Clone, Debug)]
pub struct Input {
    pub state: bool,
    pub input_gain: Double,
    pub output_gain: Double,
    pub mode: String,
    pub attack: Double,
    pub release: Double,
    pub release_threshold: Double,
    pub threshold: Double,
    pub ratio: Double,
    pub knee: Double,
    pub makeup: Double,
    pub boost_threshold: Double,
    pub sidechain: Sidechain,
    pub hpf_mode: String,
    pub hpf_frequency: Double,
    pub lpf_mode: String,
    pub lpf_frequency: Double,
}

impl Input {
    /// Where the keys of this record live.
    pub open spec fn section() -> Section {
        Section {
            schema: "com.github.wwmm.pulseeffects.compressor"@,
            path: "/com/github/wwmm/pulseeffects/sourceoutputs/compressor/"@,
        }
    }

    /// The record as the settings it stands for, in the order in which they
    /// are written.
    pub open spec fn settings(&self) -> Seq<Setting> {
        seq![
            Setting {
                address: Self::section().at("state"@),
                value: VariantView::Boolean(self.state),
            },
            Setting {
                address: Self::section().at("input-gain"@),
                value: VariantView::Double(self.input_gain.bits),
            },
            Setting {
                address: Self::section().at("output-gain"@),
                value: VariantView::Double(self.output_gain.bits),
            },
            Setting { address: Self::section().at("mode"@), value: VariantView::Text(self.mode@) },
            Setting {
                address: Self::section().at("attack"@),
                value: VariantView::Double(self.attack.bits),
            },
            Setting {
                address: Self::section().at("release"@),
                value: VariantView::Double(self.release.bits),
            },
            Setting {
                address: Self::section().at("release-threshold"@),
                value: VariantView::Double(self.release_threshold.bits),
            },
            Setting {
                address: Self::section().at("threshold"@),
                value: VariantView::Double(self.threshold.bits),
            },
            Setting {
                address: Self::section().at("ratio"@),
                value: VariantView::Double(self.ratio.bits),
            },
            Setting {
                address: Self::section().at("knee"@),
                value: VariantView::Double(self.knee.bits),
            },
            Setting {
                address: Self::section().at("makeup"@),
                value: VariantView::Double(self.makeup.bits),
            },
            Setting {
                address: Self::section().at("boost-threshold"@),
                value: VariantView::Double(self.boost_threshold.bits),
            },
            Setting {
                address: Self::section().at("sidechain-listen"@),
                value: VariantView::Boolean(self.sidechain.listen),
            },
            Setting {
                address: Self::section().at("sidechain-type"@),
                value: VariantView::Text(self.sidechain.style@),
            },
            Setting {
                address: Self::section().at("sidechain-mode"@),
                value: VariantView::Text(self.sidechain.mode@),
            },
            Setting {
                address: Self::section().at("sidechain-source"@),
                value: VariantView::Text(self.sidechain.source@),
            },
            Setting {
                address: Self::section().at("sidechain-preamp"@),
                value: VariantView::Double(self.sidechain.preamp.bits),
            },
            Setting {
                address: Self::section().at("sidechain-reactivity"@),
                value: VariantView::Double(self.sidechain.reactivity.bits),
            },
            Setting {
                address: Self::section().at("sidechain-lookahead"@),
                value: VariantView::Double(self.sidechain.lookahead.bits),
            },
            Setting {
                address: Self::section().at("hpf-mode"@),
                value: VariantView::Text(self.hpf_mode@),
            },
            Setting {
                address: Self::section().at("hpf-frequency"@),
                value: VariantView::Double(self.hpf_frequency.bits),
            },
            Setting {
                address: Self::section().at("lpf-mode"@),
                value: VariantView::Text(self.lpf_mode@),
            },
            Setting {
                address: Self::section().at("lpf-frequency"@),
                value: VariantView::Double(self.lpf_frequency.bits),
            },
        ]
    }

    /// The settings that `store` holds for this record, or `None` where a key
    /// is missing or of another type.
    pub open spec fn stored(store: StoreView) -> Option<Seq<Setting>> {
        if store.holds(Self::section().at("state"@), Kind::Boolean)
            && store.holds(Self::section().at("input-gain"@), Kind::Double)
            && store.holds(Self::section().at("output-gain"@), Kind::Double)
            && store.holds(Self::section().at("mode"@), Kind::Text)
            && store.holds(Self::section().at("attack"@), Kind::Double)
            && store.holds(Self::section().at("release"@), Kind::Double)
            && store.holds(Self::section().at("release-threshold"@), Kind::Double)
            && store.holds(Self::section().at("threshold"@), Kind::Double)
            && store.holds(Self::section().at("ratio"@), Kind::Double)
            && store.holds(Self::section().at("knee"@), Kind::Double)
            && store.holds(Self::section().at("makeup"@), Kind::Double)
            && store.holds(Self::section().at("boost-threshold"@), Kind::Double)
            && store.holds(Self::section().at("sidechain-listen"@), Kind::Boolean)
            && store.holds(Self::section().at("sidechain-type"@), Kind::Text)
            && store.holds(Self::section().at("sidechain-mode"@), Kind::Text)
            && store.holds(Self::section().at("sidechain-source"@), Kind::Text)
            && store.holds(Self::section().at("sidechain-preamp"@), Kind::Double)
            && store.holds(Self::section().at("sidechain-reactivity"@), Kind::Double)
            && store.holds(Self::section().at("sidechain-lookahead"@), Kind::Double)
            && store.holds(Self::section().at("hpf-mode"@), Kind::Text)
            && store.holds(Self::section().at("hpf-frequency"@), Kind::Double)
            && store.holds(Self::section().at("lpf-mode"@), Kind::Text)
            && store.holds(Self::section().at("lpf-frequency"@), Kind::Double)
        {
            Some(
                seq![
                    store.setting(Self::section().at("state"@)),
                    store.setting(Self::section().at("input-gain"@)),
                    store.setting(Self::section().at("output-gain"@)),
                    store.setting(Self::section().at("mode"@)),
                    store.setting(Self::section().at("attack"@)),
                    store.setting(Self::section().at("release"@)),
                    store.setting(Self::section().at("release-threshold"@)),
                    store.setting(Self::section().at("threshold"@)),
                    store.setting(Self::section().at("ratio"@)),
                    store.setting(Self::section().at("knee"@)),
                    store.setting(Self::section().at("makeup"@)),
                    store.setting(Self::section().at("boost-threshold"@)),
                    store.setting(Self::section().at("sidechain-listen"@)),
                    store.setting(Self::section().at("sidechain-type"@)),
                    store.setting(Self::section().at("sidechain-mode"@)),
                    store.setting(Self::section().at("sidechain-source"@)),
                    store.setting(Self::section().at("sidechain-preamp"@)),
                    store.setting(Self::section().at("sidechain-reactivity"@)),
                    store.setting(Self::section().at("sidechain-lookahead"@)),
                    store.setting(Self::section().at("hpf-mode"@)),
                    store.setting(Self::section().at("hpf-frequency"@)),
                    store.setting(Self::section().at("lpf-mode"@)),
                    store.setting(Self::section().at("lpf-frequency"@)),
                ],
            )
        } else {
            None
        }
    }

    /// The mark of the section of this record.
    pub proof fn lemma_mark()
        ensures
            mark(Self::section()) == (55nat, 'r', 's', 'e'),
    {
        reveal_strlit("/com/github/wwmm/pulseeffects/sourceoutputs/compressor/");
    }

    /// A handle on the section where the keys of this record live.
    pub fn location() -> (r: Settings)
        ensures
            r@ == Self::section(),
    {
        Settings::with_path(
            "com.github.wwmm.pulseeffects.compressor",
            "/com/github/wwmm/pulseeffects/sourceoutputs/compressor/",
        )
    }

    /// What a store holds for the record is what it holds at the keys of the
    /// record.
    pub proof fn lemma_stored(store: StoreView)
        requires
            Self::stored(store) is Some,
        ensures
            store.reads(Self::stored(store).unwrap()),
    {
    }

    /// A store that holds the record accepts its settings.
    pub proof fn lemma_accepted(&self, store: StoreView)
        requires
            Self::stored(store) is Some,
        ensures
            store.accepts(self.settings()),
    {
    }

    /// The settings of the record name keys of its section, no key twice.
    pub proof fn lemma_settings(&self)
        ensures
            distinct(self.settings()),
            placed(self.settings(), set![Self::section()]),
    {
        reveal_strlit("state");
        reveal_strlit("input-gain");
        reveal_strlit("output-gain");
        reveal_strlit("mode");
        reveal_strlit("attack");
        reveal_strlit("release");
        reveal_strlit("release-threshold");
        reveal_strlit("threshold");
        reveal_strlit("ratio");
        reveal_strlit("knee");
        reveal_strlit("makeup");
        reveal_strlit("boost-threshold");
        reveal_strlit("sidechain-listen");
        reveal_strlit("sidechain-type");
        reveal_strlit("sidechain-mode");
        reveal_strlit("sidechain-source");
        reveal_strlit("sidechain-preamp");
        reveal_strlit("sidechain-reactivity");
        reveal_strlit("sidechain-lookahead");
        reveal_strlit("hpf-mode");
        reveal_strlit("hpf-frequency");
        reveal_strlit("lpf-mode");
        reveal_strlit("lpf-frequency");
        assert("state"@.len() == 5 && "state"@[0] == 's');
        assert("input-gain"@.len() == 10);
        assert("output-gain"@.len() == 11);
        assert("mode"@.len() == 4 && "mode"@[0] == 'm');
        assert("attack"@.len() == 6 && "attack"@[0] == 'a');
        assert("release"@.len() == 7);
        assert("release-threshold"@.len() == 17);
        assert("threshold"@.len() == 9);
        assert("ratio"@.len() == 5);
        assert("knee"@.len() == 4);
        assert("makeup"@.len() == 6);
        assert("boost-threshold"@.len() == 15);
        assert("sidechain-listen"@.len() == 16 && "sidechain-listen"@[10] == 'l');
        assert("sidechain-type"@.len() == 14 && "sidechain-type"@[10] == 't');
        assert("sidechain-mode"@.len() == 14);
        assert("sidechain-source"@.len() == 16 && "sidechain-source"@[10] == 's');
        assert("sidechain-preamp"@.len() == 16);
        assert("sidechain-reactivity"@.len() == 20);
        assert("sidechain-lookahead"@.len() == 19);
        assert("hpf-mode"@.len() == 8 && "hpf-mode"@[0] == 'h');
        assert("hpf-frequency"@.len() == 13 && "hpf-frequency"@[0] == 'h');
        assert("lpf-mode"@.len() == 8);
        assert("lpf-frequency"@.len() == 13);
    }

    /// A store that holds the same keys with the same types holds the record
    /// alike.
    pub proof fn lemma_stays_stored(before: StoreView, after: StoreView)
        requires
            forall|address: Address, kind: Kind| #[trigger]
                after.holds(address, kind) == before.holds(address, kind),
        ensures
            Self::stored(after) is Some == Self::stored(before) is Some,
    {
    }

    /// Reads the record from `store`.
    pub fn read(store: &SettingsStore) -> (r: Option<Input>)
        ensures
            match r {
                Some(record) => Self::stored(store@) == Some(record.settings()),
                None => Self::stored(store@) is None,
            },
    {
        let settings = Self::location();
        let record = Input {
            state: settings.get_boolean(store, "state")?,
            input_gain: settings.get_double(store, "input-gain")?,
            output_gain: settings.get_double(store, "output-gain")?,
            mode: settings.get_string(store, "mode")?,
            attack: settings.get_double(store, "attack")?,
            release: settings.get_double(store, "release")?,
            release_threshold: settings.get_double(store, "release-threshold")?,
            threshold: settings.get_double(store, "threshold")?,
            ratio: settings.get_double(store, "ratio")?,
            knee: settings.get_double(store, "knee")?,
            makeup: settings.get_double(store, "makeup")?,
            boost_threshold: settings.get_double(store, "boost-threshold")?,
            sidechain: Sidechain {
                listen: settings.get_boolean(store, "sidechain-listen")?,
                style: settings.get_string(store, "sidechain-type")?,
                mode: settings.get_string(store, "sidechain-mode")?,
                source: settings.get_string(store, "sidechain-source")?,
                preamp: settings.get_double(store, "sidechain-preamp")?,
                reactivity: settings.get_double(store, "sidechain-reactivity")?,
                lookahead: settings.get_double(store, "sidechain-lookahead")?,
            },
            hpf_mode: settings.get_string(store, "hpf-mode")?,
            hpf_frequency: settings.get_double(store, "hpf-frequency")?,
            lpf_mode: settings.get_string(store, "lpf-mode")?,
            lpf_frequency: settings.get_double(store, "lpf-frequency")?,
        };
        assert(Self::stored(store@).unwrap() =~= record.settings());
        Some(record)
    }

    /// Handing these settings to a store is handing them over one after
    /// another.
    pub proof fn lemma_applied(&self, store: StoreView)
        ensures
            store.apply(self.settings()) == store.update(self.settings()[0])
                .update(self.settings()[1]).update(self.settings()[2]).update(self.settings()[3])
                .update(self.settings()[4]).update(self.settings()[5]).update(self.settings()[6])
                .update(self.settings()[7]).update(self.settings()[8]).update(self.settings()[9])
                .update(self.settings()[10]).update(self.settings()[11]).update(self.settings()[12])
                .update(self.settings()[13]).update(self.settings()[14]).update(self.settings()[15])
                .update(self.settings()[16]).update(self.settings()[17]).update(self.settings()[18])
                .update(self.settings()[19]).update(self.settings()[20]).update(self.settings()[21])
                .update(self.settings()[22]),
    {
        store.lemma_apply_steps(self.settings());
    }

    /// Hands every field to its key: a key is written only where its value
    /// would change.
    pub fn apply(&self, store: &mut SettingsStore)
        requires
            Self::stored(old(store)@) is Some,
        ensures
            final(store)@ == old(store)@.apply(self.settings()),
            forall|address: Address, kind: Kind| #[trigger]
                final(store)@.holds(address, kind) == old(store)@.holds(address, kind),
    {
        let settings = Self::location();
        update_key(store, &settings, "state", Variant::Boolean(self.state));
        update_key(store, &settings, "input-gain", Variant::Double(self.input_gain));
        update_key(store, &settings, "output-gain", Variant::Double(self.output_gain));
        update_string_key(store, &settings, "mode", &self.mode);
        update_key(store, &settings, "attack", Variant::Double(self.attack));
        update_key(store, &settings, "release", Variant::Double(self.release));
        update_key(store, &settings, "release-threshold", Variant::Double(self.release_threshold));
        update_key(store, &settings, "threshold", Variant::Double(self.threshold));
        update_key(store, &settings, "ratio", Variant::Double(self.ratio));
        update_key(store, &settings, "knee", Variant::Double(self.knee));
        update_key(store, &settings, "makeup", Variant::Double(self.makeup));
        update_key(store, &settings, "boost-threshold", Variant::Double(self.boost_threshold));
        update_key(store, &settings, "sidechain-listen", Variant::Boolean(self.sidechain.listen));
        update_string_key(store, &settings, "sidechain-type", &self.sidechain.style);
        update_string_key(store, &settings, "sidechain-mode", &self.sidechain.mode);
        update_string_key(store, &settings, "sidechain-source", &self.sidechain.source);
        update_key(store, &settings, "sidechain-preamp", Variant::Double(self.sidechain.preamp));
        update_key(
            store,
            &settings,
            "sidechain-reactivity",
            Variant::Double(self.sidechain.reactivity),
        );
        update_key(
            store,
            &settings,
            "sidechain-lookahead",
            Variant::Double(self.sidechain.lookahead),
        );
        update_string_key(store, &settings, "hpf-mode", &self.hpf_mode);
        update_key(store, &settings, "hpf-frequency", Variant::Double(self.hpf_frequency));
        update_string_key(store, &settings, "lpf-mode", &self.lpf_mode);
        update_key(store, &settings, "lpf-frequency", Variant::Double(self.lpf_frequency));
        proof {
            self.lemma_applied(old(store)@);
        }
    }
}

} // verus!
