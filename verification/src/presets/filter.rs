//! The filter effect, for either direction.

use crate::presets::common::{update_key, update_string_key};
use crate::settings::{
    distinct, mark, placed, Address, Double, Kind, Section, Setting, Settings, SettingsStore,
    StoreView, Variant, VariantView,
};
use vstd::prelude::*;

verus! {

/// Parameters of the filter on the output chain.
#[derive(Clone, Debug)]
pub struct Output {
    pub state: bool,
    pub input_gain: Double,
    pub output_gain: Double,
    pub frequency: Double,
    pub resonance: Double,
    pub mode: String,
    pub inertia: Double,
}

impl Output {
    /// Where the keys of this record live.
    pub open spec fn section() -> Section {
        Section {
            schema: "com.github.wwmm.pulseeffects.filter"@,
            path: "/com/github/wwmm/pulseeffects/sinkinputs/filter/"@,
        }
    }

    /// The record as the settings it stands for, in the order in which they
    /// are written.
    pub open spec fn settings(&self) -> Seq<Setting> {
        seq![
            Setting {
                address: Self::section().at("state"@),
                value: VariantView::Boolean(self.state),
            },
            Setting {
                address: Self::section().at("input-gain"@),
                value: VariantView::Double(self.input_gain.bits),
            },
            Setting {
                address: Self::section().at("output-gain"@),
                value: VariantView::Double(self.output_gain.bits),
            },
            Setting {
                address: Self::section().at("frequency"@),
                value: VariantView::Double(self.frequency.bits),
            },
            Setting {
                address: Self::section().at("resonance"@),
                value: VariantView::Double(self.resonance.bits),
            },
            Setting { address: Self::section().at("mode"@), value: VariantView::Text(self.mode@) },
            Setting {
                address: Self::section().at("inertia"@),
                value: VariantView::Double(self.inertia.bits),
            },
        ]
    }

    /// The settings that `store` holds for this record, or `None` where a key
    /// is missing or of another type.
    pub open spec fn stored(store: StoreView) -> Option<Seq<Setting>> {
        if store.holds(Self::section().at("state"@), Kind::Boolean)
            && store.holds(Self::section().at("input-gain"@), Kind::Double)
            && store.holds(Self::section().at("output-gain"@), Kind::Double)
            && store.holds(Self::section().at("frequency"@), Kind::Double)
            && store.holds(Self::section().at("resonance"@), Kind::Double)
            && store.holds(Self::section().at("mode"@), Kind::Text)
            && store.holds(Self::section().at("inertia"@), Kind::Double)
        {
            Some(
                seq![
                    store.setting(Self::section().at("state"@)),
                    store.setting(Self::section().at("input-gain"@)),
                    store.setting(Self::section().at("output-gain"@)),
                    store.setting(Self::section().at("frequency"@)),
                    store.setting(Self::section().at("resonance"@)),
                    store.setting(Self::section().at("mode"@)),
                    store.setting(Self::section().at("inertia"@)),
                ],
            )
        } else {
            None
        }
    }

    /// The mark of the section of this record.
    pub proof fn lemma_mark()
        ensures
            mark(Self::section()) == (48nat, 'r', 't', 'i'),
    {
        reveal_strlit("/com/github/wwmm/pulseeffects/sinkinputs/filter/");
    }

    /// A handle on the section where the keys of this record live.
    pub fn location() -> (r: Settings)
        ensures
            r@ == Self::section(),
    {
        Settings::with_path(
            "com.github.wwmm.pulseeffects.filter",
            "/com/github/wwmm/pulseeffects/sinkinputs/filter/",
        )
    }

    /// What a store holds for the record is what it holds at the keys of the
    /// record.
    pub proof fn lemma_stored(store: StoreView)
        requires
            Self::stored(store) is Some,
        ensures
            store.reads(Self::stored(store).unwrap()),
    {
    }

    /// A store that holds the record accepts its settings.
    pub proof fn lemma_accepted(&self, store: StoreView)
        requires
            Self::stored(store) is Some,
        ensures
            store.accepts(self.settings()),
    {
    }

    /// The settings of the record name keys of its section, no key twice.
    pub proof fn lemma_settings(&self)
        ensures
            distinct(self.settings()),
            placed(self.settings(), set![Self::section()]),
    {
        reveal_strlit("state");
        reveal_strlit("input-gain");
        reveal_strlit("output-gain");
        reveal_strlit("frequency");
        reveal_strlit("resonance");
        reveal_strlit("mode");
        reveal_strlit("inertia");
        assert("state"@.len() == 5);
        assert("input-gain"@.len() == 10);
        assert("output-gain"@.len() == 11);
        assert("frequency"@.len() == 9 && "frequency"@[0] == 'f');
        assert("resonance"@.len() == 9);
        assert("mode"@.len() == 4);
        assert("inertia"@.len() == 7);
    }

    /// A store that holds the same keys with the same types holds the record
    /// alike.
    pub proof fn lemma_stays_stored(before: StoreView, after: StoreView)
        requires
            forall|address: Address, kind: Kind| #[trigger]
                after.holds(address, kind) == before.holds(address, kind),
        ensures
            Self::stored(after) is Some == Self::stored(before) is Some,
    {
    }

    /// Reads the record from `store`.
    pub fn read(store: &SettingsStore) -> (r: Option<Output>)
        ensures
            match r {
                Some(record) => Self::stored(store@) == Some(record.settings()),
                None => Self::stored(store@) is None,
            },
    {
        let settings = Self::location();
        let record = Output {
            state: settings.get_boolean(store, "state")?,
            input_gain: settings.get_double(store, "input-gain")?,
            output_gain: settings.get_double(store, "output-gain")?,
            frequency: settings.get_double(store, "frequency")?,
            resonance: settings.get_double(store, "resonance")?,
            mode: settings.get_string(store, "mode")?,
            inertia: settings.get_double(store, "inertia")?,
        };
        assert(Self::stored(store@).unwrap() =~= record.settings());
        Some(record)
    }

    /// Handing these settings to a store is handing them over one after
    /// another.
    pub proof fn lemma_applied(&self, store: StoreView)
        ensures
            store.apply(self.settings()) == store.update(self.settings()[0])
                .update(self.settings()[1]).update(self.settings()[2]).update(self.settings()[3])
                .update(self.settings()[4]).update(self.settings()[5]).update(self.settings()[6]),
    {
        store.lemma_apply_steps(self.settings());
    }

    /// Hands every field to its key: a key is written only where its value
    /// would change.
    pub fn apply(&self, store: &mut SettingsStore)
        requires
            Self::stored(old(store)@) is Some,
        ensures
            final(store)@ == old(store)@.apply(self.settings()),
            forall|address: Address, kind: Kind| #[trigger]
                final(store)@.holds(address, kind) == old(store)@.holds(address, kind),
    {
        let settings = Self::location();
        update_key(store, &settings, "state", Variant::Boolean(self.state));
        update_key(store, &settings, "input-gain", Variant::Double(self.input_gain));
        update_key(store, &settings, "output-gain", Variant::Double(self.output_gain));
        update_key(store, &settings, "frequency", Variant::Double(self.frequency));
        update_key(store, &settings, "resonance", Variant::Double(self.resonance));
        update_string_key(store, &settings, "mode", &self.mode);
        update_key(store, &settings, "inertia", Variant::Double(self.inertia));
        proof {
            self.lemma_applied(old(store)@);
        }
    }
}

/// Parameters of the filter on the input chain.
#[derive(Clone, Debug)]
pub struct Input {
    pub state: bool,
    pub input_gain: Double,
    pub output_gain: Double,
    pub frequency: Double,
    pub resonance: Double,
    pub mode: String,
    pub inertia: Double,
}

impl Input {
    /// Where the keys of this record live.
    pub open spec fn section() -> Section {
        Section {
            schema: "com.github.wwmm.pulseeffects.filter"@,
            path: "/com/github/wwmm/pulseeffects/sourceoutputs/filter/"@,
        }
    }

    /// The record as the settings it stands for, in the order in which they
    /// are written.
    pub open spec fn settings(&self) -> Seq<Setting> {
        seq![
            Setting {
                address: Self::section().at("state"@),
                value: VariantView::Boolean(self.state),
            },
            Setting {
                address: Self::section().at("input-gain"@),
                value: VariantView::Double(self.input_gain.bits),
            },
            Setting {
                address: Self::section().at("output-gain"@),
                value: VariantView::Double(self.output_gain.bits),
            },
            Setting {
                address: Self::section().at("frequency"@),
                value: VariantView::Double(self.frequency.bits),
            },
            Setting {
                address: Self::section().at("resonance"@),
                value: VariantView::Double(self.resonance.bits),
            },
            Setting { address: Self::section().at("mode"@), value: VariantView::Text(self.mode@) },
            Setting {
                address: Self::section().at("inertia"@),
                value: VariantView::Double(self.inertia.bits),
            },
        ]
    }

    /// The settings that `store` holds for this record, or `None` where a key
    /// is missing or of another type.
    pub open spec fn stored(store: StoreView) -> Option<Seq<Setting>> {
        if store.holds(Self::section().at("state"@), Kind::Boolean)
            && store.holds(Self::section().at("input-gain"@), Kind::Double)
            && store.holds(Self::section().at("output-gain"@), Kind::Double)
            && store.holds(Self::section().at("frequency"@), Kind::Double)
            && store.holds(Self::section().at("resonance"@), Kind::Double)
            && store.holds(Self::section().at("mode"@), Kind::Text)
            && store.holds(Self::section().at("inertia"@), Kind::Double)
        {
            Some(
                seq![
                    store.setting(Self::section().at("state"@)),
                    store.setting(Self::section().at("input-gain"@)),
                    store.setting(Self::section().at("output-gain"@)),
                    store.setting(Self::section().at("frequency"@)),
                    store.setting(Self::section().at("resonance"@)),
                    store.setting(Self::section().at("mode"@)),
                    store.setting(Self::section().at("inertia"@)),
                ],
            )
        } else {
            None
        }
    }

    /// The mark of the section of this record.
    pub proof fn lemma_mark()
        ensures
            mark(Self::section()) == (51nat, 'r', 't', 'i'),
    {
        reveal_strlit("/com/github/wwmm/pulseeffects/sourceoutputs/filter/");
    }

    /// A handle on the section where the keys of this record live.
    pub fn location() -> (r: Settings)
        ensures
            r@ == Self::section(),
    {
        Settings::with_path(
            "com.github.wwmm.pulseeffects.filter",
            "/com/github/wwmm/pulseeffects/sourceoutputs/filter/",
        )
    }

    /// What a store holds for the record is what it holds at the keys of the
    /// record.
    pub proof fn lemma_stored(store: StoreView)
        requires
            Self::stored(store) is Some,
        ensures
            store.reads(Self::stored(store).unwrap()),
    {
    }

    /// A store that holds the record accepts its settings.
    pub proof fn lemma_accepted(&self, store: StoreView)
        requires
            Self::stored(store) is Some,
        ensures
            store.accepts(self.settings()),
    {
    }

    /// The settings of the record name keys of its section, no key twice.
    pub proof fn lemma_settings(&self)
        ensures
            distinct(self.settings()),
            placed(self.settings(), set![Self::section()]),
    {
        reveal_strlit("state");
        reveal_strlit("input-gain");
        reveal_strlit("output-gain");
        reveal_strlit("frequency");
        reveal_strlit("resonance");
        reveal_strlit("mode");
        reveal_strlit("inertia");
        assert("state"@.len() == 5);
        assert("input-gain"@.len() == 10);
        assert("output-gain"@.len() == 11);
        assert("frequency"@.len() == 9 && "frequency"@[0] == 'f');
        assert("resonance"@.len() == 9);
        assert("mode"@.len() == 4);
        assert("inertia"@.len() == 7);
    }

    /// A store that holds the same keys with the same types holds the record
    /// alike.
    pub proof fn lemma_stays_stored(before: StoreView, after: StoreView)
        requires
            forall|address: Address, kind: Kind| #[trigger]
                after.holds(address, kind) == before.holds(address, kind),
        ensures
            Self::stored(after) is Some == Self::stored(before) is Some,
    {
    }

    /// Reads the record from `store`.
    pub fn read(store: &SettingsStore) -> (r: Option<Input>)
        ensures
            match r {
                Some(record) => Self::stored(store@) == Some(record.settings()),
                None => Self::stored(store@) is None,
            },
    {
        let settings = Self::location();
        let record = Input {
            state: settings.get_boolean(store, "state")?,
            input_gain: settings.get_double(store, "input-gain")?,
            output_gain: settings.get_double(store, "output-gain")?,
            frequency: settings.get_double(store, "frequency")?,
            resonance: settings.get_double(store, "resonance")?,
            mode: settings.get_string(store, "mode")?,
            inertia: settings.get_double(store, "inertia")?,
        };
        assert(Self::stored(store@).unwrap() =~= record.settings());
        Some(record)
    }

    /// Handing these settings to a store is handing them over one after
    /// another.
    pub proof fn lemma_applied(&self, store: StoreView)
        ensures
            store.apply(self.settings()) == store.update(self.settings()[0])
                .update(self.settings()[1]).update(self.settings()[2]).update(self.settings()[3])
                .update(self.settings()[4]).update(self.settings()[5]).update(self.settings()[6]),
    {
        store.lemma_apply_steps(self.settings());
    }

    /// Hands every field to its key: a key is written only where its value
    /// would change.
    pub fn apply(&self, store: &mut SettingsStore)
        requires
            Self::stored(old(store)@) is Some,
        ensures
            final(store)@ == old(store)@.apply(self.settings()),
            forall|address: Address, kind: Kind| #[trigger]
                final(store)@.holds(address, kind) == old(store)@.holds(address, kind),
    {
        let settings = Self::location();
        update_key(store, &settings, "state", Variant::Boolean(self.state));
        update_key(store, &settings, "input-gain", Variant::Double(self.input_gain));
        update_key(store, &settings, "output-gain", Variant::Double(self.output_gain));
        update_key(store, &settings, "frequency", Variant::Double(self.frequency));
        update_key(store, &settings, "resonance", Variant::Double(self.resonance));
        update_string_key(store, &settings, "mode", &self.mode);
        update_key(store, &settings, "inertia", Variant::Double(self.inertia));
        proof {
            self.lemma_applied(old(store)@);
        }
    }
}

} // verus!
