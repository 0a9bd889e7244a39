//! The multiband compressor effect and its four bands, for either direction.

use crate::presets::common::{update_key, update_string_key};
use crate::settings::{
    distinct, mark, placed, Address, Double, Kind, Section, Setting, Settings, SettingsStore,
    StoreView, Variant, VariantView,
};
use crate::text::{numbered, numbered_name};
use vstd::prelude::*;

verus! {

/// One band of the multiband compressor.
#[derive(Clone, Debug)]
pub struct Band {
    pub threshold: Double,
    pub ratio: Double,
    pub attack: Double,
    pub release: Double,
    pub makeup: Double,
    pub knee: Double,
    pub detection: String,
    pub bypass: bool,
    pub solo: bool,
}

impl Band {
    /// The band as the settings it stands for when it is the band `index` of
    /// `section`, in the order in which they are written.
    pub open spec fn settings(&self, section: Section, index: nat) -> Seq<Setting> {
        seq![
            Setting {
                address: section.at(numbered("threshold"@, index)),
                value: VariantView::Double(self.threshold.bits),
            },
            Setting {
                address: section.at(numbered("ratio"@, index)),
                value: VariantView::Double(self.ratio.bits),
            },
            Setting {
                address: section.at(numbered("attack"@, index)),
                value: VariantView::Double(self.attack.bits),
            },
            Setting {
                address: section.at(numbered("release"@, index)),
                value: VariantView::Double(self.release.bits),
            },
            Setting {
                address: section.at(numbered("makeup"@, index)),
                value: VariantView::Double(self.makeup.bits),
            },
            Setting {
                address: section.at(numbered("knee"@, index)),
                value: VariantView::Double(self.knee.bits),
            },
            Setting {
                address: section.at(numbered("detection"@, index)),
                value: VariantView::Text(self.detection@),
            },
            Setting {
                address: section.at(numbered("bypass"@, index)),
                value: VariantView::Boolean(self.bypass),
            },
            Setting {
                address: section.at(numbered("solo"@, index)),
                value: VariantView::Boolean(self.solo),
            },
        ]
    }

    /// The settings that `store` holds for the band `index` of `section`, or
    /// `None` where a key is missing or of another type.
    pub open spec fn stored(store: StoreView, section: Section, index: nat) -> Option<
        Seq<Setting>,
    > {
        if store.holds(section.at(numbered("threshold"@, index)), Kind::Double)
            && store.holds(section.at(numbered("ratio"@, index)), Kind::Double)
            && store.holds(section.at(numbered("attack"@, index)), Kind::Double)
            && store.holds(section.at(numbered("release"@, index)), Kind::Double)
            && store.holds(section.at(numbered("makeup"@, index)), Kind::Double)
            && store.holds(section.at(numbered("knee"@, index)), Kind::Double)
            && store.holds(section.at(numbered("detection"@, index)), Kind::Text)
            && store.holds(section.at(numbered("bypass"@, index)), Kind::Boolean)
            && store.holds(section.at(numbered("solo"@, index)), Kind::Boolean)
        {
            Some(
                seq![
                    store.setting(section.at(numbered("threshold"@, index))),
                    store.setting(section.at(numbered("ratio"@, index))),
                    store.setting(section.at(numbered("attack"@, index))),
                    store.setting(section.at(numbered("release"@, index))),
                    store.setting(section.at(numbered("makeup"@, index))),
                    store.setting(section.at(numbered("knee"@, index))),
                    store.setting(section.at(numbered("detection"@, index))),
                    store.setting(section.at(numbered("bypass"@, index))),
                    store.setting(section.at(numbered("solo"@, index))),
                ],
            )
        } else {
            None
        }
    }

    /// A store that holds the same keys with the same types holds the band alike.
    pub proof fn lemma_stays_stored(
        before: StoreView,
        after: StoreView,
        section: Section,
        index: nat,
    )
        requires
            forall|address: Address, kind: Kind| #[trigger]
                after.holds(address, kind) == before.holds(address, kind),
        ensures
            Self::stored(after, section, index) is Some == Self::stored(
                before,
                section,
                index,
            ) is Some,
    {
    }

    /// What a store holds for a band is what it holds at the keys of the
    /// band.
    pub proof fn lemma_stored(store: StoreView, section: Section, index: nat)
        requires
            Self::stored(store, section, index) is Some,
        ensures
            store.reads(Self::stored(store, section, index).unwrap()),
    {
    }

    /// A store that holds the band accepts its settings.
    pub proof fn lemma_accepted(&self, section: Section, index: nat, store: StoreView)
        requires
            Self::stored(store, section, index) is Some,
        ensures
            store.accepts(self.settings(section, index)),
    {
    }

    /// Reads the band `index` of `settings` from `store`.
    pub fn read(store: &SettingsStore, settings: &Settings, index: usize) -> (r: Option<Band>)
        ensures
            match r {
                Some(band) => Self::stored(store@, settings@, index as nat) == Some(
                    band.settings(settings@, index as nat),
                ),
                None => Self::stored(store@, settings@, index as nat) is None,
            },
    {
        let band = Band {
            threshold: settings.get_double(store, numbered_name("threshold", index).as_str())?,
            ratio: settings.get_double(store, numbered_name("ratio", index).as_str())?,
            attack: settings.get_double(store, numbered_name("attack", index).as_str())?,
            release: settings.get_double(store, numbered_name("release", index).as_str())?,
            makeup: settings.get_double(store, numbered_name("makeup", index).as_str())?,
            knee: settings.get_double(store, numbered_name("knee", index).as_str())?,
            detection: settings.get_string(store, numbered_name("detection", index).as_str())?,
            bypass: settings.get_boolean(store, numbered_name("bypass", index).as_str())?,
            solo: settings.get_boolean(store, numbered_name("solo", index).as_str())?,
        };
        assert(Self::stored(store@, settings@, index as nat).unwrap() =~= band.settings(
            settings@,
            index as nat,
        ));
        Some(band)
    }

    /// Handing these settings to a store is handing them over one after
    /// another.
    pub proof fn lemma_applied(&self, section: Section, index: nat, store: StoreView)
        ensures
            store.apply(self.settings(section, index)) == store
                .update(self.settings(section, index)[0]).update(self.settings(section, index)[1])
                .update(self.settings(section, index)[2]).update(self.settings(section, index)[3])
                .update(self.settings(section, index)[4]).update(self.settings(section, index)[5])
                .update(self.settings(section, index)[6]).update(self.settings(section, index)[7])
                .update(self.settings(section, index)[8]),
    {
        store.lemma_apply_steps(self.settings(section, index));
    }

    /// Hands every field to its key of the band `index` of `settings`: a key is
    /// written only where its value would change.
    pub fn apply(&self, store: &mut SettingsStore, settings: &Settings, index: usize)
        requires
            Self::stored(old(store)@, settings@, index as nat) is Some,
        ensures
            final(store)@ == old(store)@.apply(self.settings(settings@, index as nat)),
            forall|address: Address, kind: Kind| #[trigger]
                final(store)@.holds(address, kind) == old(store)@.holds(address, kind),
    {
        update_key(
            store,
            settings,
            numbered_name("threshold", index).as_str(),
            Variant::Double(self.threshold),
        );
        update_key(
            store,
            settings,
            numbered_name("ratio", index).as_str(),
            Variant::Double(self.ratio),
        );
        update_key(
            store,
            settings,
            numbered_name("attack", index).as_str(),
            Variant::Double(self.attack),
        );
        update_key(
            store,
            settings,
            numbered_name("release", index).as_str(),
            Variant::Double(self.release),
        );
        update_key(
            store,
            settings,
            numbered_name("makeup", index).as_str(),
            Variant::Double(self.makeup),
        );
        update_key(
            store,
            settings,
            numbered_name("knee", index).as_str(),
            Variant::Double(self.knee),
        );
        update_string_key(
            store,
            settings,
            numbered_name("detection", index).as_str(),
            &self.detection,
        );
        update_key(
            store,
            settings,
            numbered_name("bypass", index).as_str(),
            Variant::Boolean(self.bypass),
        );
        update_key(
            store,
            settings,
            numbered_name("solo", index).as_str(),
            Variant::Boolean(self.solo),
        );
        proof {
            self.lemma_applied(settings@, index as nat, old(store)@);
        }
    }
}

/// Parameters of the multiband compressor on the output chain.
#[derive(Clone, Debug)]
pub struct Output {
    pub state: bool,
    pub input_gain: Double,
    pub output_gain: Double,
    pub freq0: Double,
    pub freq1: Double,
    pub freq2: Double,
    pub mode: String,
    pub subband: Band,
    pub lowband: Band,
    pub midband: Band,
    pub highband: Band,
}

impl Output {
    /// Where the keys of this record live.
    pub open spec fn section() -> Section {
        Section {
            schema: "com.github.wwmm.pulseeffects.multibandcompressor"@,
            path: "/com/github/wwmm/pulseeffects/sinkinputs/multibandcompressor/"@,
        }
    }

    /// The fields outside the bands as the settings they stand for.
    pub open spec fn own_settings(&self) -> Seq<Setting> {
        seq![
            Setting {
                address: Self::section().at("state"@),
                value: VariantView::Boolean(self.state),
            },
            Setting {
                address: Self::section().at("input-gain"@),
                value: VariantView::Double(self.input_gain.bits),
            },
            Setting {
                address: Self::section().at("output-gain"@),
                value: VariantView::Double(self.output_gain.bits),
            },
            Setting {
                address: Self::section().at("freq0"@),
                value: VariantView::Double(self.freq0.bits),
            },
            Setting {
                address: Self::section().at("freq1"@),
                value: VariantView::Double(self.freq1.bits),
            },
            Setting {
                address: Self::section().at("freq2"@),
                value: VariantView::Double(self.freq2.bits),
            },
            Setting { address: Self::section().at("mode"@), value: VariantView::Text(self.mode@) },
        ]
    }

    /// The record as the settings it stands for, in the order in which they
    /// are written: its own fields, then band after band.
    pub open spec fn settings(&self) -> Seq<Setting> {
        self.own_settings()
            + self.subband.settings(Self::section(), 0)
            + self.lowband.settings(Self::section(), 1)
            + self.midband.settings(Self::section(), 2)
            + self.highband.settings(Self::section(), 3)
    }

    /// The settings that `store` holds for this record, or `None` where a key
    /// is missing or of another type.
    pub open spec fn stored(store: StoreView) -> Option<Seq<Setting>> {
        if store.holds(Self::section().at("state"@), Kind::Boolean)
            && store.holds(Self::section().at("input-gain"@), Kind::Double)
            && store.holds(Self::section().at("output-gain"@), Kind::Double)
            && store.holds(Self::section().at("freq0"@), Kind::Double)
            && store.holds(Self::section().at("freq1"@), Kind::Double)
            && store.holds(Self::section().at("freq2"@), Kind::Double)
            && store.holds(Self::section().at("mode"@), Kind::Text)
            && Band::stored(store, Self::section(), 0) is Some
            && Band::stored(store, Self::section(), 1) is Some
            && Band::stored(store, Self::section(), 2) is Some
            && Band::stored(store, Self::section(), 3) is Some
        {
            Some(
                seq![
                    store.setting(Self::section().at("state"@)),
                    store.setting(Self::section().at("input-gain"@)),
                    store.setting(Self::section().at("output-gain"@)),
                    store.setting(Self::section().at("freq0"@)),
                    store.setting(Self::section().at("freq1"@)),
                    store.setting(Self::section().at("freq2"@)),
                    store.setting(Self::section().at("mode"@)),
                ]
                    + Band::stored(store, Self::section(), 0).unwrap()
                    + Band::stored(store, Self::section(), 1).unwrap()
                    + Band::stored(store, Self::section(), 2).unwrap()
                    + Band::stored(store, Self::section(), 3).unwrap(),
            )
        } else {
            None
        }
    }

    /// The mark of the section of this record.
    pub proof fn lemma_mark()
        ensures
            mark(Self::section()) == (61nat, 'r', 's', 'e'),
    {
        reveal_strlit("/com/github/wwmm/pulseeffects/sinkinputs/multibandcompressor/");
    }

    /// A handle on the section where the keys of this record live.
    pub fn location() -> (r: Settings)
        ensures
            r@ == Self::section(),
    {
        Settings::with_path(
            "com.github.wwmm.pulseeffects.multibandcompressor",
            "/com/github/wwmm/pulseeffects/sinkinputs/multibandcompressor/",
        )
    }

    /// What a store holds for the record is what it holds at the keys of the
    /// record.
    pub proof fn lemma_stored(store: StoreView)
        requires
            Self::stored(store) is Some,
        ensures
            store.reads(Self::stored(store).unwrap()),
    {
        let own = seq![
            store.setting(Self::section().at("state"@)),
            store.setting(Self::section().at("input-gain"@)),
            store.setting(Self::section().at("output-gain"@)),
            store.setting(Self::section().at("freq0"@)),
            store.setting(Self::section().at("freq1"@)),
            store.setting(Self::section().at("freq2"@)),
            store.setting(Self::section().at("mode"@)),
        ];
        assert(store.reads(own));
        let mut done = own;
        Band::lemma_stored(store, Self::section(), 0);
        store.lemma_reads_concat(done, Band::stored(store, Self::section(), 0).unwrap());
        done = done + Band::stored(store, Self::section(), 0).unwrap();
        Band::lemma_stored(store, Self::section(), 1);
        store.lemma_reads_concat(done, Band::stored(store, Self::section(), 1).unwrap());
        done = done + Band::stored(store, Self::section(), 1).unwrap();
        Band::lemma_stored(store, Self::section(), 2);
        store.lemma_reads_concat(done, Band::stored(store, Self::section(), 2).unwrap());
        done = done + Band::stored(store, Self::section(), 2).unwrap();
        Band::lemma_stored(store, Self::section(), 3);
        store.lemma_reads_concat(done, Band::stored(store, Self::section(), 3).unwrap());
        done = done + Band::stored(store, Self::section(), 3).unwrap();
    }

    /// A store that holds the record accepts its settings.
    pub proof fn lemma_accepted(&self, store: StoreView)
        requires
            Self::stored(store) is Some,
        ensures
            store.accepts(self.settings()),
    {
        let mut done = self.own_settings();
        self.subband.lemma_accepted(Self::section(), 0, store);
        store.lemma_accepts_concat(done, self.subband.settings(Self::section(), 0));
        done = done + self.subband.settings(Self::section(), 0);
        self.lowband.lemma_accepted(Self::section(), 1, store);
        store.lemma_accepts_concat(done, self.lowband.settings(Self::section(), 1));
        done = done + self.lowband.settings(Self::section(), 1);
        self.midband.lemma_accepted(Self::section(), 2, store);
        store.lemma_accepts_concat(done, self.midband.settings(Self::section(), 2));
        done = done + self.midband.settings(Self::section(), 2);
        self.highband.lemma_accepted(Self::section(), 3, store);
        store.lemma_accepts_concat(done, self.highband.settings(Self::section(), 3));
        done = done + self.highband.settings(Self::section(), 3);
    }

    /// The settings of the record name keys of its section, no key twice.
    pub proof fn lemma_settings(&self)
        ensures
            distinct(self.settings()),
            placed(self.settings(), set![Self::section()]),
    {
        reveal_strlit("state");
        reveal_strlit("input-gain");
        reveal_strlit("output-gain");
        reveal_strlit("freq0");
        reveal_strlit("freq1");
        reveal_strlit("freq2");
        reveal_strlit("mode");
        reveal_strlit("threshold");
        reveal_strlit("ratio");
        reveal_strlit("attack");
        reveal_strlit("release");
        reveal_strlit("makeup");
        reveal_strlit("knee");
        reveal_strlit("detection");
        reveal_strlit("bypass");
        reveal_strlit("solo");
        assert("state"@.len() == 5 && "state"@[0] == 's' && "state"@[1] == 't');
        assert("input-gain"@.len() == 10 && "input-gain"@[0] == 'i');
        assert("output-gain"@.len() == 11);
        assert("freq0"@.len() == 5 && "freq0"@[0] == 'f' && "freq0"@[4] == '0');
        assert("freq1"@.len() == 5 && "freq1"@[0] == 'f' && "freq1"@[4] == '1');
        assert("freq2"@.len() == 5 && "freq2"@[0] == 'f');
        assert("mode"@.len() == 4);
        assert(numbered("threshold"@, 0).len() == 10
            && numbered("threshold"@, 0)[0] == 't'
            && numbered("threshold"@, 0)[9] == '0');
        assert(numbered("ratio"@, 0).len() == 6 && numbered("ratio"@, 0)[5] == '0');
        assert(numbered("attack"@, 0).len() == 7
            && numbered("attack"@, 0)[0] == 'a'
            && numbered("attack"@, 0)[6] == '0');
        assert(numbered("release"@, 0).len() == 8 && numbered("release"@, 0)[7] == '0');
        assert(numbered("makeup"@, 0).len() == 7
            && numbered("makeup"@, 0)[0] == 'm'
            && numbered("makeup"@, 0)[6] == '0');
        assert(numbered("knee"@, 0).len() == 5
            && numbered("knee"@, 0)[0] == 'k'
            && numbered("knee"@, 0)[4] == '0');
        assert(numbered("detection"@, 0).len() == 10
            && numbered("detection"@, 0)[0] == 'd'
            && numbered("detection"@, 0)[9] == '0');
        assert(numbered("bypass"@, 0).len() == 7
            && numbered("bypass"@, 0)[0] == 'b'
            && numbered("bypass"@, 0)[6] == '0');
        assert(numbered("solo"@, 0).len() == 5
            && numbered("solo"@, 0)[0] == 's'
            && numbered("solo"@, 0)[4] == '0');
        assert(numbered("threshold"@, 1).len() == 10
            && numbered("threshold"@, 1)[0] == 't'
            && numbered("threshold"@, 1)[9] == '1');
        assert(numbered("ratio"@, 1).len() == 6 && numbered("ratio"@, 1)[5] == '1');
        assert(numbered("attack"@, 1).len() == 7
            && numbered("attack"@, 1)[0] == 'a'
            && numbered("attack"@, 1)[6] == '1');
        assert(numbered("release"@, 1).len() == 8 && numbered("release"@, 1)[7] == '1');
        assert(numbered("makeup"@, 1).len() == 7
            && numbered("makeup"@, 1)[0] == 'm'
            && numbered("makeup"@, 1)[6] == '1');
        assert(numbered("knee"@, 1).len() == 5
            && numbered("knee"@, 1)[0] == 'k'
            && numbered("knee"@, 1)[4] == '1');
        assert(numbered("detection"@, 1).len() == 10
            && numbered("detection"@, 1)[0] == 'd'
            && numbered("detection"@, 1)[9] == '1');
        assert(numbered("bypass"@, 1).len() == 7
            && numbered("bypass"@, 1)[0] == 'b'
            && numbered("bypass"@, 1)[6] == '1');
        assert(numbered("solo"@, 1).len() == 5
            && numbered("solo"@, 1)[0] == 's'
            && numbered("solo"@, 1)[4] == '1');
        assert(numbered("threshold"@, 2).len() == 10
            && numbered("threshold"@, 2)[0] == 't'
            && numbered("threshold"@, 2)[9] == '2');
        assert(numbered("ratio"@, 2).len() == 6 && numbered("ratio"@, 2)[5] == '2');
        assert(numbered("attack"@, 2).len() == 7
            && numbered("attack"@, 2)[0] == 'a'
            && numbered("attack"@, 2)[6] == '2');
        assert(numbered("release"@, 2).len() == 8 && numbered("release"@, 2)[7] == '2');
        assert(numbered("makeup"@, 2).len() == 7
            && numbered("makeup"@, 2)[0] == 'm'
            && numbered("makeup"@, 2)[6] == '2');
        assert(numbered("knee"@, 2).len() == 5
            && numbered("knee"@, 2)[0] == 'k'
            && numbered("knee"@, 2)[4] == '2');
        assert(numbered("detection"@, 2).len() == 10
            && numbered("detection"@, 2)[0] == 'd'
            && numbered("detection"@, 2)[9] == '2');
        assert(numbered("bypass"@, 2).len() == 7
            && numbered("bypass"@, 2)[0] == 'b'
            && numbered("bypass"@, 2)[6] == '2');
        assert(numbered("solo"@, 2).len() == 5
            && numbered("solo"@, 2)[0] == 's'
            && numbered("solo"@, 2)[4] == '2');
        assert(numbered("threshold"@, 3).len() == 10 && numbered("threshold"@, 3)[0] == 't');
        assert(numbered("ratio"@, 3).len() == 6);
        assert(numbered("attack"@, 3).len() == 7 && numbered("attack"@, 3)[0] == 'a');
        assert(numbered("release"@, 3).len() == 8);
        assert(numbered("makeup"@, 3).len() == 7 && numbered("makeup"@, 3)[0] == 'm');
        assert(numbered("knee"@, 3).len() == 5 && numbered("knee"@, 3)[0] == 'k');
        assert(numbered("detection"@, 3).len() == 10);
        assert(numbered("bypass"@, 3).len() == 7);
        assert(numbered("solo"@, 3).len() == 5);
    }

    /// A store that holds the same keys with the same types holds the record
    /// alike.
    pub proof fn lemma_stays_stored(before: StoreView, after: StoreView)
        requires
            forall|address: Address, kind: Kind| #[trigger]
                after.holds(address, kind) == before.holds(address, kind),
        ensures
            Self::stored(after) is Some == Self::stored(before) is Some,
    {
    }

    /// Reads the record from `store`.
    pub fn read(store: &SettingsStore) -> (r: Option<Output>)
        ensures
            match r {
                Some(record) => Self::stored(store@) == Some(record.settings()),
                None => Self::stored(store@) is None,
            },
    {
        let settings = Self::location();
        let record = Output {
            state: settings.get_boolean(store, "state")?,
            input_gain: settings.get_double(store, "input-gain")?,
            output_gain: settings.get_double(store, "output-gain")?,
            freq0: settings.get_double(store, "freq0")?,
            freq1: settings.get_double(store, "freq1")?,
            freq2: settings.get_double(store, "freq2")?,
            mode: settings.get_string(store, "mode")?,
            subband: Band::read(store, &settings, 0)?,
            lowband: Band::read(store, &settings, 1)?,
            midband: Band::read(store, &settings, 2)?,
            highband: Band::read(store, &settings, 3)?,
        };
        assert(Self::stored(store@).unwrap() =~= record.settings());
        Some(record)
    }

    /// Handing these settings to a store is handing them over one after
    /// another.
    pub proof fn lemma_applied(&self, store: StoreView)
        ensures
            store.apply(self.own_settings()) == store.update(self.own_settings()[0])
                .update(self.own_settings()[1]).update(self.own_settings()[2])
                .update(self.own_settings()[3]).update(self.own_settings()[4])
                .update(self.own_settings()[5]).update(self.own_settings()[6]),
    {
        store.lemma_apply_steps(self.own_settings());
    }

    /// Hands every field to its key: a key is written only where its value
    /// would change.
    pub fn apply(&self, store: &mut SettingsStore)
        requires
            Self::stored(old(store)@) is Some,
        ensures
            final(store)@ == old(store)@.apply(self.settings()),
            forall|address: Address, kind: Kind| #[trigger]
                final(store)@.holds(address, kind) == old(store)@.holds(address, kind),
    {
        let settings = Self::location();
        update_key(store, &settings, "state", Variant::Boolean(self.state));
        update_key(store, &settings, "input-gain", Variant::Double(self.input_gain));
        update_key(store, &settings, "output-gain", Variant::Double(self.output_gain));
        update_key(store, &settings, "freq0", Variant::Double(self.freq0));
        update_key(store, &settings, "freq1", Variant::Double(self.freq1));
        update_key(store, &settings, "freq2", Variant::Double(self.freq2));
        update_string_key(store, &settings, "mode", &self.mode);
        self.subband.apply(store, &settings, 0);
        self.lowband.apply(store, &settings, 1);
        self.midband.apply(store, &settings, 2);
        self.highband.apply(store, &settings, 3);
        proof {
            self.lemma_applied(old(store)@);
            let mut done = self.own_settings();
            old(store)@.lemma_apply_concat(done, self.subband.settings(Self::section(), 0));
            done = done + self.subband.settings(Self::section(), 0);
            old(store)@.lemma_apply_concat(done, self.lowband.settings(Self::section(), 1));
            done = done + self.lowband.settings(Self::section(), 1);
            old(store)@.lemma_apply_concat(done, self.midband.settings(Self::section(), 2));
            done = done + self.midband.settings(Self::section(), 2);
            old(store)@.lemma_apply_concat(done, self.highband.settings(Self::section(), 3));
            done = done + self.highband.settings(Self::section(), 3);
        }
    }
}

/// Parameters of the multiband compressor on the input chain.
#[derive(Clone, Debug)]
pub struct Input {
    pub state: bool,
    pub input_gain: Double,
    pub output_gain: Double,
    pub freq0: Double,
    pub freq1: Double,
    pub freq2: Double,
    pub mode: String,
    pub subband: Band,
    pub lowband: Band,
    pub midband: Band,
    pub highband: Band,
}

impl Input {
    /// Where the keys of this record live.
    pub open spec fn section() -> Section {
        Section {
            schema: "com.github.wwmm.pulseeffects.multibandcompressor"@,
            path: "/com/github/wwmm/pulseeffects/sourceoutputs/multibandcompressor/"@,
        }
    }

    /// The fields outside the bands as the settings they stand for.
    pub open spec fn own_settings(&self) -> Seq<Setting> {
        seq![
            Setting {
                address: Self::section().at("state"@),
                value: VariantView::Boolean(self.state),
            },
            Setting {
                address: Self::section().at("input-gain"@),
                value: VariantView::Double(self.input_gain.bits),
            },
            Setting {
                address: Self::section().at("output-gain"@),
                value: VariantView::Double(self.output_gain.bits),
            },
            Setting {
                address: Self::section().at("freq0"@),
                value: VariantView::Double(self.freq0.bits),
            },
            Setting {
                address: Self::section().at("freq1"@),
                value: VariantView::Double(self.freq1.bits),
            },
            Setting {
                address: Self::section().at("freq2"@),
                value: VariantView::Double(self.freq2.bits),
            },
            Setting { address: Self::section().at("mode"@), value: VariantView::Text(self.mode@) },
        ]
    }

    /// The record as the settings it stands for, in the order in which they
    /// are written: its own fields, then band after band.
    pub open spec fn settings(&self) -> Seq<Setting> {
        self.own_settings()
            + self.subband.settings(Self::section(), 0)
            + self.lowband.settings(Self::section(), 1)
            + self.midband.settings(Self::section(), 2)
            + self.highband.settings(Self::section(), 3)
    }

    /// The settings that `store` holds for this record, or `None` where a key
    /// is missing or of another type.
    pub open spec fn stored(store: StoreView) -> Option<Seq<Setting>> {
        if store.holds(Self::section().at("state"@), Kind::Boolean)
            && store.holds(Self::section().at("input-gain"@), Kind::Double)
            && store.holds(Self::section().at("output-gain"@), Kind::Double)
            && store.holds(Self::section().at("freq0"@), Kind::Double)
            && store.holds(Self::section().at("freq1"@), Kind::Double)
            && store.holds(Self::section().at("freq2"@), Kind::Double)
            && store.holds(Self::section().at("mode"@), Kind::Text)
            && Band::stored(store, Self::section(), 0) is Some
            && Band::stored(store, Self::section(), 1) is Some
            && Band::stored(store, Self::section(), 2) is Some
            && Band::stored(store, Self::section(), 3) is Some
        {
            Some(
                seq![
                    store.setting(Self::section().at("state"@)),
                    store.setting(Self::section().at("input-gain"@)),
                    store.setting(Self::section().at("output-gain"@)),
                    store.setting(Self::section().at("freq0"@)),
                    store.setting(Self::section().at("freq1"@)),
                    store.setting(Self::section().at("freq2"@)),
                    store.setting(Self::section().at("mode"@)),
                ]
                    + Band::stored(store, Self::section(), 0).unwrap()
                    + Band::stored(store, Self::section(), 1).unwrap()
                    + Band::stored(store, Self::section(), 2).unwrap()
                    + Band::stored(store, Self::section(), 3).unwrap(),
            )
        } else {
            None
        }
    }

    /// The mark of the section of this record.
    pub proof fn lemma_mark()
        ensures
            mark(Self::section()) == (64nat, 'r', 's', 'e'),
    {
        reveal_strlit("/com/github/wwmm/pulseeffects/sourceoutputs/multibandcompressor/");
    }

    /// A handle on the section where the keys of this record live.
    pub fn location() -> (r: Settings)
        ensures
            r@ == Self::section(),
    {
        Settings::with_path(
            "com.github.wwmm.pulseeffects.multibandcompressor",
            "/com/github/wwmm/pulseeffects/sourceoutputs/multibandcompressor/",
        )
    }

    /// What a store holds for the record is what it holds at the keys of the
    /// record.
    pub proof fn lemma_stored(store: StoreView)
        requires
            Self::stored(store) is Some,
        ensures
            store.reads(Self::stored(store).unwrap()),
    {
        let own = seq![
            store.setting(Self::section().at("state"@)),
            store.setting(Self::section().at("input-gain"@)),
            store.setting(Self::section().at("output-gain"@)),
            store.setting(Self::section().at("freq0"@)),
            store.setting(Self::section().at("freq1"@)),
            store.setting(Self::section().at("freq2"@)),
            store.setting(Self::section().at("mode"@)),
        ];
        assert(store.reads(own));
        let mut done = own;
        Band::lemma_stored(store, Self::section(), 0);
        store.lemma_reads_concat(done, Band::stored(store, Self::section(), 0).unwrap());
        done = done + Band::stored(store, Self::section(), 0).unwrap();
        Band::lemma_stored(store, Self::section(), 1);
        store.lemma_reads_concat(done, Band::stored(store, Self::section(), 1).unwrap());
        done = done + Band::stored(store, Self::section(), 1).unwrap();
        Band::lemma_stored(store, Self::section(), 2);
        store.lemma_reads_concat(done, Band::stored(store, Self::section(), 2).unwrap());
        done = done + Band::stored(store, Self::section(), 2).unwrap();
        Band::lemma_stored(store, Self::section(), 3);
        store.lemma_reads_concat(done, Band::stored(store, Self::section(), 3).unwrap());
        done = done + Band::stored(store, Self::section(), 3).unwrap();
    }

    /// A store that holds the record accepts its settings.
    pub proof fn lemma_accepted(&self, store: StoreView)
        requires
            Self::stored(store) is Some,
        ensures
            store.accepts(self.settings()),
    {
        let mut done = self.own_settings();
        self.subband.lemma_accepted(Self::section(), 0, store);
        store.lemma_accepts_concat(done, self.subband.settings(Self::section(), 0));
        done = done + self.subband.settings(Self::section(), 0);
        self.lowband.lemma_accepted(Self::section(), 1, store);
        store.lemma_accepts_concat(done, self.lowband.settings(Self::section(), 1));
        done = done + self.lowband.settings(Self::section(), 1);
        self.midband.lemma_accepted(Self::section(), 2, store);
        store.lemma_accepts_concat(done, self.midband.settings(Self::section(), 2));
        done = done + self.midband.settings(Self::section(), 2);
        self.highband.lemma_accepted(Self::section(), 3, store);
        store.lemma_accepts_concat(done, self.highband.settings(Self::section(), 3));
        done = done + self.highband.settings(Self::section(), 3);
    }

    /// The settings of the record name keys of its section, no key twice.
    pub proof fn lemma_settings(&self)
        ensures
            distinct(self.settings()),
            placed(self.settings(), set![Self::section()]),
    {
        reveal_strlit("state");
        reveal_strlit("input-gain");
        reveal_strlit("output-gain");
        reveal_strlit("freq0");
        reveal_strlit("freq1");
        reveal_strlit("freq2");
        reveal_strlit("mode");
        reveal_strlit("threshold");
        reveal_strlit("ratio");
        reveal_strlit("attack");
        reveal_strlit("release");
        reveal_strlit("makeup");
        reveal_strlit("knee");
        reveal_strlit("detection");
        reveal_strlit("bypass");
        reveal_strlit("solo");
        assert("state"@.len() == 5 && "state"@[0] == 's' && "state"@[1] == 't');
        assert("input-gain"@.len() == 10 && "input-gain"@[0] == 'i');
        assert("output-gain"@.len() == 11);
        assert("freq0"@.len() == 5 && "freq0"@[0] == 'f' && "freq0"@[4] == '0');
        assert("freq1"@.len() == 5 && "freq1"@[0] == 'f' && "freq1"@[4] == '1');
        assert("freq2"@.len() == 5 && "freq2"@[0] == 'f');
        assert("mode"@.len() == 4);
        assert(numbered("threshold"@, 0).len() == 10
            && numbered("threshold"@, 0)[0] == 't'
            && numbered("threshold"@, 0)[9] == '0');
        assert(numbered("ratio"@, 0).len() == 6 && numbered("ratio"@, 0)[5] == '0');
        assert(numbered("attack"@, 0).len() == 7
            && numbered("attack"@, 0)[0] == 'a'
            && numbered("attack"@, 0)[6] == '0');
        assert(numbered("release"@, 0).len() == 8 && numbered("release"@, 0)[7] == '0');
        assert(numbered("makeup"@, 0).len() == 7
            && numbered("makeup"@, 0)[0] == 'm'
            && numbered("makeup"@, 0)[6] == '0');
        assert(numbered("knee"@, 0).len() == 5
            && numbered("knee"@, 0)[0] == 'k'
            && numbered("knee"@, 0)[4] == '0');
        assert(numbered("detection"@, 0).len() == 10
            && numbered("detection"@, 0)[0] == 'd'
            && numbered("detection"@, 0)[9] == '0');
        assert(numbered("bypass"@, 0).len() == 7
            && numbered("bypass"@, 0)[0] == 'b'
            && numbered("bypass"@, 0)[6] == '0');
        assert(numbered("solo"@, 0).len() == 5
            && numbered("solo"@, 0)[0] == 's'
            && numbered("solo"@, 0)[4] == '0');
        assert(numbered("threshold"@, 1).len() == 10
            && numbered("threshold"@, 1)[0] == 't'
            && numbered("threshold"@, 1)[9] == '1');
        assert(numbered("ratio"@, 1).len() == 6 && numbered("ratio"@, 1)[5] == '1');
        assert(numbered("attack"@, 1).len() == 7
            && numbered("attack"@, 1)[0] == 'a'
            && numbered("attack"@, 1)[6] == '1');
        assert(numbered("release"@, 1).len() == 8 && numbered("release"@, 1)[7] == '1');
        assert(numbered("makeup"@, 1).len() == 7
            && numbered("makeup"@, 1)[0] == 'm'
            && numbered("makeup"@, 1)[6] == '1');
        assert(numbered("knee"@, 1).len() == 5
            && numbered("knee"@, 1)[0] == 'k'
            && numbered("knee"@, 1)[4] == '1');
        assert(numbered("detection"@, 1).len() == 10
            && numbered("detection"@, 1)[0] == 'd'
            && numbered("detection"@, 1)[9] == '1');
        assert(numbered("bypass"@, 1).len() == 7
            && numbered("bypass"@, 1)[0] == 'b'
            && numbered("bypass"@, 1)[6] == '1');
        assert(numbered("solo"@, 1).len() == 5
            && numbered("solo"@, 1)[0] == 's'
            && numbered("solo"@, 1)[4] == '1');
        assert(numbered("threshold"@, 2).len() == 10
            && numbered("threshold"@, 2)[0] == 't'
            && numbered("threshold"@, 2)[9] == '2');
        assert(numbered("ratio"@, 2).len() == 6 && numbered("ratio"@, 2)[5] == '2');
        assert(numbered("attack"@, 2).len() == 7
            && numbered("attack"@, 2)[0] == 'a'
            && numbered("attack"@, 2)[6] == '2');
        assert(numbered("release"@, 2).len() == 8 && numbered("release"@, 2)[7] == '2');
        assert(numbered("makeup"@, 2).len() == 7
            && numbered("makeup"@, 2)[0] == 'm'
            && numbered("makeup"@, 2)[6] == '2');
        assert(numbered("knee"@, 2).len() == 5
            && numbered("knee"@, 2)[0] == 'k'
            && numbered("knee"@, 2)[4] == '2');
        assert(numbered("detection"@, 2).len() == 10
            && numbered("detection"@, 2)[0] == 'd'
            && numbered("detection"@, 2)[9] == '2');
        assert(numbered("bypass"@, 2).len() == 7
            && numbered("bypass"@, 2)[0] == 'b'
            && numbered("bypass"@, 2)[6] == '2');
        assert(numbered("solo"@, 2).len() == 5
            && numbered("solo"@, 2)[0] == 's'
            && numbered("solo"@, 2)[4] == '2');
        assert(numbered("threshold"@, 3).len() == 10 && numbered("threshold"@, 3)[0] == 't');
        assert(numbered("ratio"@, 3).len() == 6);
        assert(numbered("attack"@, 3).len() == 7 && numbered("attack"@, 3)[0] == 'a');
        assert(numbered("release"@, 3).len() == 8);
        assert(numbered("makeup"@, 3).len() == 7 && numbered("makeup"@, 3)[0] == 'm');
        assert(numbered("knee"@, 3).len() == 5 && numbered("knee"@, 3)[0] == 'k');
        assert(numbered("detection"@, 3).len() == 10);
        assert(numbered("bypass"@, 3).len() == 7);
        assert(numbered("solo"@, 3).len() == 5);
    }

    /// A store that holds the same keys with the same types holds the record
    /// alike.
    pub proof fn lemma_stays_stored(before: StoreView, after: StoreView)
        requires
            forall|address: Address, kind: Kind| #[trigger]
                after.holds(address, kind) == before.holds(address, kind),
        ensures
            Self::stored(after) is Some == Self::stored(before) is Some,
    {
    }

    /// Reads the record from `store`.
    pub fn read(store: &SettingsStore) -> (r: Option<Input>)
        ensures
            match r {
                Some(record) => Self::stored(store@) == Some(record.settings()),
                None => Self::stored(store@) is None,
            },
    {
        let settings = Self::location();
        let record = Input {
            state: settings.get_boolean(store, "state")?,
            input_gain: settings.get_double(store, "input-gain")?,
            output_gain: settings.get_double(store, "output-gain")?,
            freq0: settings.get_double(store, "freq0")?,
            freq1: settings.get_double(store, "freq1")?,
            freq2: settings.get_double(store, "freq2")?,
            mode: settings.get_string(store, "mode")?,
            subband: Band::read(store, &settings, 0)?,
            lowband: Band::read(store, &settings, 1)?,
            midband: Band::read(store, &settings, 2)?,
            highband: Band::read(store, &settings, 3)?,
        };
        assert(Self::stored(store@).unwrap() =~= record.settings());
        Some(record)
    }

    /// Handing these settings to a store is handing them over one after
    /// another.
    pub proof fn lemma_applied(&self, store: StoreView)
        ensures
            store.apply(self.own_settings()) == store.update(self.own_settings()[0])
                .update(self.own_settings()[1]).update(self.own_settings()[2])
                .update(self.own_settings()[3]).update(self.own_settings()[4])
                .update(self.own_settings()[5]).update(self.own_settings()[6]),
    {
        store.lemma_apply_steps(self.own_settings());
    }

    /// Hands every field to its key: a key is written only where its value
    /// would change.
    pub fn apply(&self, store: &mut SettingsStore)
        requires
            Self::stored(old(store)@) is Some,
        ensures
            final(store)@ == old(store)@.apply(self.settings()),
            forall|address: Address, kind: Kind| #[trigger]
                final(store)@.holds(address, kind) == old(store)@.holds(address, kind),
    {
        let settings = Self::location();
        update_key(store, &settings, "state", Variant::Boolean(self.state));
        update_key(store, &settings, "input-gain", Variant::Double(self.input_gain));
        update_key(store, &settings, "output-gain", Variant::Double(self.output_gain));
        update_key(store, &settings, "freq0", Variant::Double(self.freq0));
        update_key(store, &settings, "freq1", Variant::Double(self.freq1));
        update_key(store, &settings, "freq2", Variant::Double(self.freq2));
        update_string_key(store, &settings, "mode", &self.mode);
        self.subband.apply(store, &settings, 0);
        self.lowband.apply(store, &settings, 1);
        self.midband.apply(store, &settings, 2);
        self.highband.apply(store, &settings, 3);
        proof {
            self.lemma_applied(old(store)@);
            let mut done = self.own_settings();
            old(store)@.lemma_apply_concat(done, self.subband.settings(Self::section(), 0));
            done = done + self.subband.settings(Self::section(), 0);
            old(store)@.lemma_apply_concat(done, self.lowband.settings(Self::section(), 1));
            done = done + self.lowband.settings(Self::section(), 1);
            old(store)@.lemma_apply_concat(done, self.midband.settings(Self::section(), 2));
            done = done + self.midband.settings(Self::section(), 2);
            old(store)@.lemma_apply_concat(done, self.highband.settings(Self::section(), 3));
            done = done + self.highband.settings(Self::section(), 3);
        }
    }
}

} // verus!
