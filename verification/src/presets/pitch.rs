//! The pitch effect, for either direction.

use crate::presets::common::update_key;
use crate::settings::{
    distinct, mark, placed, Address, Double, Kind, Section, Setting, Settings, SettingsStore,
    StoreView, Variant, VariantView,
};
use vstd::prelude::*;

verus! {

/// Parameters of the pitch shifter on the output chain.
#[derive(Clone, Debug)]
pub struct Output {
    pub state: bool,
    pub input_gain: Double,
    pub output_gain: Double,
    pub cents: Double,
    pub semitones: i32,
    pub octaves: i32,
    pub crispness: i32,
    pub formant_preserving: bool,
    pub faster: bool,
}

impl Output {
    /// Where the keys of this record live.
    pub open spec fn section() -> Section {
        Section {
            schema: "com.github.wwmm.pulseeffects.pitch"@,
            path: "/com/github/wwmm/pulseeffects/sinkinputs/pitch/"@,
        }
    }

    /// The record as the settings it stands for, in the order in which they
    /// are written.
    pub open spec fn settings(&self) -> Seq<Setting> {
        seq![
            Setting {
                address: Self::section().at("state"@),
                value: VariantView::Boolean(self.state),
            },
            Setting {
                address: Self::section().at("input-gain"@),
                value: VariantView::Double(self.input_gain.bits),
            },
            Setting {
                address: Self::section().at("output-gain"@),
                value: VariantView::Double(self.output_gain.bits),
            },
            Setting {
                address: Self::section().at("cents"@),
                value: VariantView::Double(self.cents.bits),
            },
            Setting {
                address: Self::section().at("semitones"@),
                value: VariantView::Int32(self.semitones),
            },
            Setting {
                address: Self::section().at("octaves"@),
                value: VariantView::Int32(self.octaves),
            },
            Setting {
                address: Self::section().at("crispness"@),
                value: VariantView::Int32(self.crispness),
            },
            Setting {
                address: Self::section().at("formant-preserving"@),
                value: VariantView::Boolean(self.formant_preserving),
            },
            Setting {
                address: Self::section().at("faster"@),
                value: VariantView::Boolean(self.faster),
            },
        ]
    }

    /// The settings that `store` holds for this record, or `None` where a key
    /// is missing or of another type.
    pub open spec fn stored(store: StoreView) -> Option<Seq<Setting>> {
        if store.holds(Self::section().at("state"@), Kind::Boolean)
            && store.holds(Self::section().at("input-gain"@), Kind::Double)
            && store.holds(Self::section().at("output-gain"@), Kind::Double)
            && store.holds(Self::section().at("cents"@), Kind::Double)
            && store.holds(Self::section().at("semitones"@), Kind::Int32)
            && store.holds(Self::section().at("octaves"@), Kind::Int32)
            && store.holds(Self::section().at("crispness"@), Kind::Int32)
            && store.holds(Self::section().at("formant-preserving"@), Kind::Boolean)
            && store.holds(Self::section().at("faster"@), Kind::Boolean)
        {
            Some(
                seq![
                    store.setting(Self::section().at("state"@)),
                    store.setting(Self::section().at("input-gain"@)),
                    store.setting(Self::section().at("output-gain"@)),
                    store.setting(Self::section().at("cents"@)),
                    store.setting(Self::section().at("semitones"@)),
                    store.setting(Self::section().at("octaves"@)),
                    store.setting(Self::section().at("crispness"@)),
                    store.setting(Self::section().at("formant-preserving"@)),
                    store.setting(Self::section().at("faster"@)),
                ],
            )
        } else {
            None
        }
    }

    /// The mark of the section of this record.
    pub proof fn lemma_mark()
        ensures
            mark(Self::section()) == (47nat, 'h', 't', 'p'),
    {
        reveal_strlit("/com/github/wwmm/pulseeffects/sinkinputs/pitch/");
    }

    /// A handle on the section where the keys of this record live.
    pub fn location() -> (r: Settings)
        ensures
            r@ == Self::section(),
    {
        Settings::with_path(
            "com.github.wwmm.pulseeffects.pitch",
            "/com/github/wwmm/pulseeffects/sinkinputs/pitch/",
        )
    }

    /// What a store holds for the record is what it holds at the keys of the
    /// record.
    pub proof fn lemma_stored(store: StoreView)
        requires
            Self::stored(store) is Some,
        ensures
            store.reads(Self::stored(store).unwrap()),
    {
    }

    /// A store that holds the record accepts its settings.
    pub proof fn lemma_accepted(&self, store: StoreView)
        requires
            Self::stored(store) is Some,
        ensures
            store.accepts(self.settings()),
    {
    }

    /// The settings of the record name keys of its section, no key twice.
    pub proof fn lemma_settings(&self)
        ensures
            distinct(self.settings()),
            placed(self.settings(), set![Self::section()]),
    {
        reveal_strlit("state");
        reveal_strlit("input-gain");
        reveal_strlit("output-gain");
        reveal_strlit("cents");
        reveal_strlit("semitones");
        reveal_strlit("octaves");
        reveal_strlit("crispness");
        reveal_strlit("formant-preserving");
        reveal_strlit("faster");
        assert("state"@.len() == 5 && "state"@[0] == 's');
        assert("input-gain"@.len() == 10);
        assert("output-gain"@.len() == 11);
        assert("cents"@.len() == 5);
        assert("semitones"@.len() == 9 && "semitones"@[0] == 's');
        assert("octaves"@.len() == 7);
        assert("crispness"@.len() == 9);
        assert("formant-preserving"@.len() == 18);
        assert("faster"@.len() == 6);
    }

    /// A store that holds the same keys with the same types holds the record
    /// alike.
    pub proof fn lemma_stays_stored(before: StoreView, after: StoreView)
        requires
            forall|address: Address, kind: Kind| #[trigger]
                after.holds(address, kind) == before.holds(address, kind),
        ensures
            Self::stored(after) is Some == Self::stored(before) is Some,
    {
    }

    /// Reads the record from `store`.
    pub fn read(store: &SettingsStore) -> (r: Option<Output>)
        ensures
            match r {
                Some(record) => Self::stored(store@) == Some(record.settings()),
                None => Self::stored(store@) is None,
            },
    {
        let settings = Self::location();
        let record = Output {
            state: settings.get_boolean(store, "state")?,
            input_gain: settings.get_double(store, "input-gain")?,
            output_gain: settings.get_double(store, "output-gain")?,
            cents: settings.get_double(store, "cents")?,
            semitones: settings.get_int(store, "semitones")?,
            octaves: settings.get_int(store, "octaves")?,
            crispness: settings.get_int(store, "crispness")?,
            formant_preserving: settings.get_boolean(store, "formant-preserving")?,
            faster: settings.get_boolean(store, "faster")?,
        };
        assert(Self::stored(store@).unwrap() =~= record.settings());
        Some(record)
    }

    /// Handing these settings to a store is handing them over one after
    /// another.
    pub proof fn lemma_applied(&self, store: StoreView)
        ensures
            store.apply(self.settings()) == store.update(self.settings()[0])
                .update(self.settings()[1]).update(self.settings()[2]).update(self.settings()[3])
                .update(self.settings()[4]).update(self.settings()[5]).update(self.settings()[6])
                .update(self.settings()[7]).update(self.settings()[8]),
    {
        store.lemma_apply_steps(self.settings());
    }

    /// Hands every field to its key: a key is written only where its value
    /// would change.
    pub fn apply(&self, store: &mut SettingsStore)
        requires
            Self::stored(old(store)@) is Some,
        ensures
            final(store)@ == old(store)@.apply(self.settings()),
            forall|address: Address, kind: Kind| #[trigger]
                final(store)@.holds(address, kind) == old(store)@.holds(address, kind),
    {
        let settings = Self::location();
        update_key(store, &settings, "state", Variant::Boolean(self.state));
        update_key(store, &settings, "input-gain", Variant::Double(self.input_gain));
        update_key(store, &settings, "output-gain", Variant::Double(self.output_gain));
        update_key(store, &settings, "cents", Variant::Double(self.cents));
        update_key(store, &settings, "semitones", Variant::Int32(self.semitones));
        update_key(store, &settings, "octaves", Variant::Int32(self.octaves));
        update_key(store, &settings, "crispness", Variant::Int32(self.crispness));
        update_key(
            store,
            &settings,
            "formant-preserving",
            Variant::Boolean(self.formant_preserving),
        );
        update_key(store, &settings, "faster", Variant::Boolean(self.faster));
        proof {
            self.lemma_applied(old(store)@);
        }
    }
}

/// Parameters of the pitch shifter on the input chain.
#[derive(Clone, Debug)]
pub struct Input {
    pub state: bool,
    pub input_gain: Double,
    pub output_gain: Double,
    pub cents: Double,
    pub semitones: i32,
    pub octaves: i32,
    pub crispness: i32,
    pub formant_preserving: bool,
    pub faster: bool,
}

impl Input {
    /// Where the keys of this record live.
    pub open spec fn section() -> Section {
        Section {
            schema: "com.github.wwmm.pulseeffects.pitch"@,
            path: "/com/github/wwmm/pulseeffects/sourceoutputs/pitch/"@,
        }
    }

    /// The record as the settings it stands for, in the order in which they
    /// are written.
    pub open spec fn settings(&self) -> Seq<Setting> {
        seq![
            Setting {
                address: Self::section().at("state"@),
                value: VariantView::Boolean(self.state),
            },
            Setting {
                address: Self::section().at("input-gain"@),
                value: VariantView::Double(self.input_gain.bits),
            },
            Setting {
                address: Self::section().at("output-gain"@),
                value: VariantView::Double(self.output_gain.bits),
            },
            Setting {
                address: Self::section().at("cents"@),
                value: VariantView::Double(self.cents.bits),
            },
            Setting {
                address: Self::section().at("semitones"@),
                value: VariantView::Int32(self.semitones),
            },
            Setting {
                address: Self::section().at("octaves"@),
                value: VariantView::Int32(self.octaves),
            },
            Setting {
                address: Self::section().at("crispness"@),
                value: VariantView::Int32(self.crispness),
            },
            Setting {
                address: Self::section().at("formant-preserving"@),
                value: VariantView::Boolean(self.formant_preserving),
            },
            Setting {
                address: Self::section().at("faster"@),
                value: VariantView::Boolean(self.faster),
            },
        ]
    }

    /// The settings that `store` holds for this record, or `None` where a key
    /// is missing or of another type.
    pub open spec fn stored(store: StoreView) -> Option<Seq<Setting>> {
        if store.holds(Self::section().at("state"@), Kind::Boolean)
            && store.holds(Self::section().at("input-gain"@), Kind::Double)
            && store.holds(Self::section().at("output-gain"@), Kind::Double)
            && store.holds(Self::section().at("cents"@), Kind::Double)
            && store.holds(Self::section().at("semitones"@), Kind::Int32)
            && store.holds(Self::section().at("octaves"@), Kind::Int32)
            && store.holds(Self::section().at("crispness"@), Kind::Int32)
            && store.holds(Self::section().at("formant-preserving"@), Kind::Boolean)
            && store.holds(Self::section().at("faster"@), Kind::Boolean)
        {
            Some(
                seq![
                    store.setting(Self::section().at("state"@)),
                    store.setting(Self::section().at("input-gain"@)),
                    store.setting(Self::section().at("output-gain"@)),
                    store.setting(Self::section().at("cents"@)),
                    store.setting(Self::section().at("semitones"@)),
                    store.setting(Self::section().at("octaves"@)),
                    store.setting(Self::section().at("crispness"@)),
                    store.setting(Self::section().at("formant-preserving"@)),
                    store.setting(Self::section().at("faster"@)),
                ],
            )
        } else {
            None
        }
    }

    /// The mark of the section of this record.
    pub proof fn lemma_mark()
        ensures
            mark(Self::section()) == (50nat, 'h', 't', 'p'),
    {
        reveal_strlit("/com/github/wwmm/pulseeffects/sourceoutputs/pitch/");
    }

    /// A handle on the section where the keys of this record live.
    pub fn location() -> (r: Settings)
        ensures
            r@ == Self::section(),
    {
        Settings::with_path(
            "com.github.wwmm.pulseeffects.pitch",
            "/com/github/wwmm/pulseeffects/sourceoutputs/pitch/",
        )
    }

    /// What a store holds for the record is what it holds at the keys of the
    /// record.
    pub proof fn lemma_stored(store: StoreView)
        requires
            Self::stored(store) is Some,
        ensures
            store.reads(Self::stored(store).unwrap()),
    {
    }

    /// A store that holds the record accepts its settings.
    pub proof fn lemma_accepted(&self, store: StoreView)
        requires
            Self::stored(store) is Some,
        ensures
            store.accepts(self.settings()),
    {
    }

    /// The settings of the record name keys of its section, no key twice.
    pub proof fn lemma_settings(&self)
        ensures
            distinct(self.settings()),
            placed(self.settings(), set![Self::section()]),
    {
        reveal_strlit("state");
        reveal_strlit("input-gain");
        reveal_strlit("output-gain");
        reveal_strlit("cents");
        reveal_strlit("semitones");
        reveal_strlit("octaves");
        reveal_strlit("crispness");
        reveal_strlit("formant-preserving");
        reveal_strlit("faster");
        assert("state"@.len() == 5 && "state"@[0] == 's');
        assert("input-gain"@.len() == 10);
        assert("output-gain"@.len() == 11);
        assert("cents"@.len() == 5);
        assert("semitones"@.len() == 9 && "semitones"@[0] == 's');
        assert("octaves"@.len() == 7);
        assert("crispness"@.len() == 9);
        assert("formant-preserving"@.len() == 18);
        assert("faster"@.len() == 6);
    }

    /// A store that holds the same keys with the same types holds the record
    /// alike.
    pub proof fn lemma_stays_stored(before: StoreView, after: StoreView)
        requires
            forall|address: Address, kind: Kind| #[trigger]
                after.holds(address, kind) == before.holds(address, kind),
        ensures
            Self::stored(after) is Some == Self::stored(before) is Some,
    {
    }

    /// Reads the record from `store`.
    pub fn read(store: &SettingsStore) -> (r: Option<Input>)
        ensures
            match r {
                Some(record) => Self::stored(store@) == Some(record.settings()),
                None => Self::stored(store@) is None,
            },
    {
        let settings = Self::location();
        let record = Input {
            state: settings.get_boolean(store, "state")?,
            input_gain: settings.get_double(store, "input-gain")?,
            output_gain: settings.get_double(store, "output-gain")?,
            cents: settings.get_double(store, "cents")?,
            semitones: settings.get_int(store, "semitones")?,
            octaves: settings.get_int(store, "octaves")?,
            crispness: settings.get_int(store, "crispness")?,
            formant_preserving: settings.get_boolean(store, "formant-preserving")?,
            faster: settings.get_boolean(store, "faster")?,
        };
        assert(Self::stored(store@).unwrap() =~= record.settings());
        Some(record)
    }

    /// Handing these settings to a store is handing them over one after
    /// another.
    pub proof fn lemma_applied(&self, store: StoreView)
        ensures
            store.apply(self.settings()) == store.update(self.settings()[0])
                .update(self.settings()[1]).update(self.settings()[2]).update(self.settings()[3])
                .update(self.settings()[4]).update(self.settings()[5]).update(self.settings()[6])
                .update(self.settings()[7]).update(self.settings()[8]),
    {
        store.lemma_apply_steps(self.settings());
    }

    /// Hands every field to its key: a key is written only where its value
    /// would change.
    pub fn apply(&self, store: &mut SettingsStore)
        requires
            Self::stored(old(store)@) is Some,
        ensures
            final(store)@ == old(store)@.apply(self.settings()),
            forall|address: Address, kind: Kind| #[trigger]
                final(store)@.holds(address, kind) == old(store)@.holds(address, kind),
    {
        let settings = Self::location();
        update_key(store, &settings, "state", Variant::Boolean(self.state));
        update_key(store, &settings, "input-gain", Variant::Double(self.input_gain));
        update_key(store, &settings, "output-gain", Variant::Double(self.output_gain));
        update_key(store, &settings, "cents", Variant::Double(self.cents));
        update_key(store, &settings, "semitones", Variant::Int32(self.semitones));
        update_key(store, &settings, "octaves", Variant::Int32(self.octaves));
        update_key(store, &settings, "crispness", Variant::Int32(self.crispness));
        update_key(
            store,
            &settings,
            "formant-preserving",
            Variant::Boolean(self.formant_preserving),
        );
        update_key(store, &settings, "faster", Variant::Boolean(self.faster));
        proof {
            self.lemma_applied(old(store)@);
        }
    }
}

} // verus!
