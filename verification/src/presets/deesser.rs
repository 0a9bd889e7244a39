//! The deesser effect, for either direction.

use crate::presets::common::{update_key, update_string_key};
use crate::settings::{
    distinct, mark, placed, Address, Double, Kind, Section, Setting, Settings, SettingsStore,
    StoreView, Variant, VariantView,
};
use vstd::prelude::*;

verus! {

/// Parameters of the deesser on the output chain.
#[derive(Clone, Debug)]
pub struct Output {
    pub state: bool,
    pub detection: String,
    pub mode: String,
    pub threshold: Double,
    pub ratio: Double,
    pub laxity: i32,
    pub makeup: Double,
    pub f1_freq: Double,
    pub f2_freq: Double,
    pub f1_level: Double,
    pub f2_level: Double,
    pub f2_q: Double,
    pub sc_listen: bool,
}

impl Output {
    /// Where the keys of this record live.
    pub open spec fn section() -> Section {
        Section {
            schema: "com.github.wwmm.pulseeffects.deesser"@,
            path: "/com/github/wwmm/pulseeffects/sinkinputs/deesser/"@,
        }
    }

    /// The record as the settings it stands for, in the order in which they
    /// are written.
    pub open spec fn settings(&self) -> Seq<Setting> {
        seq![
            Setting {
                address: Self::section().at("state"@),
                value: VariantView::Boolean(self.state),
            },
            Setting {
                address: Self::section().at("detection"@),
                value: VariantView::Text(self.detection@),
            },
            Setting { address: Self::section().at("mode"@), value: VariantView::Text(self.mode@) },
            Setting {
                address: Self::section().at("threshold"@),
                value: VariantView::Double(self.threshold.bits),
            },
            Setting {
                address: Self::section().at("ratio"@),
                value: VariantView::Double(self.ratio.bits),
            },
            Setting {
                address: Self::section().at("laxity"@),
                value: VariantView::Int32(self.laxity),
            },
            Setting {
                address: Self::section().at("makeup"@),
                value: VariantView::Double(self.makeup.bits),
            },
            Setting {
                address: Self::section().at("f1-freq"@),
                value: VariantView::Double(self.f1_freq.bits),
            },
            Setting {
                address: Self::section().at("f2-freq"@),
                value: VariantView::Double(self.f2_freq.bits),
            },
            Setting {
                address: Self::section().at("f1-level"@),
                value: VariantView::Double(self.f1_level.bits),
            },
            Setting {
                address: Self::section().at("f2-level"@),
                value: VariantView::Double(self.f2_level.bits),
            },
            Setting {
                address: Self::section().at("f2-q"@),
                value: VariantView::Double(self.f2_q.bits),
            },
            Setting {
                address: Self::section().at("sc-listen"@),
                value: VariantView::Boolean(self.sc_listen),
            },
        ]
    }

    /// The settings that `store` holds for this record, or `None` where a key
    /// is missing or of another type.
    pub open spec fn stored(store: StoreView) -> Option<Seq<Setting>> {
        if store.holds(Self::section().at("state"@), Kind::Boolean)
            && store.holds(Self::section().at("detection"@), Kind::Text)
            && store.holds(Self::section().at("mode"@), Kind::Text)
            && store.holds(Self::section().at("threshold"@), Kind::Double)
            && store.holds(Self::section().at("ratio"@), Kind::Double)
            && store.holds(Self::section().at("laxity"@), Kind::Int32)
            && store.holds(Self::section().at("makeup"@), Kind::Double)
            && store.holds(Self::section().at("f1-freq"@), Kind::Double)
            && store.holds(Self::section().at("f2-freq"@), Kind::Double)
            && store.holds(Self::section().at("f1-level"@), Kind::Double)
            && store.holds(Self::section().at("f2-level"@), Kind::Double)
            && store.holds(Self::section().at("f2-q"@), Kind::Double)
            && store.holds(Self::section().at("sc-listen"@), Kind::Boolean)
        {
            Some(
                seq![
                    store.setting(Self::section().at("state"@)),
                    store.setting(Self::section().at("detection"@)),
                    store.setting(Self::section().at("mode"@)),
                    store.setting(Self::section().at("threshold"@)),
                    store.setting(Self::section().at("ratio"@)),
                    store.setting(Self::section().at("laxity"@)),
                    store.setting(Self::section().at("makeup"@)),
                    store.setting(Self::section().at("f1-freq"@)),
                    store.setting(Self::section().at("f2-freq"@)),
                    store.setting(Self::section().at("f1-level"@)),
                    store.setting(Self::section().at("f2-level"@)),
                    store.setting(Self::section().at("f2-q"@)),
                    store.setting(Self::section().at("sc-listen"@)),
                ],
            )
        } else {
            None
        }
    }

    /// The mark of the section of this record.
    pub proof fn lemma_mark()
        ensures
            mark(Self::section()) == (49nat, 'r', 's', 'e'),
    {
        reveal_strlit("/com/github/wwmm/pulseeffects/sinkinputs/deesser/");
    }

    /// A handle on the section where the keys of this record live.
    pub fn location() -> (r: Settings)
        ensures
            r@ == Self::section(),
    {
        Settings::with_path(
            "com.github.wwmm.pulseeffects.deesser",
            "/com/github/wwmm/pulseeffects/sinkinputs/deesser/",
        )
    }

    /// What a store holds for the record is what it holds at the keys of the
    /// record.
    pub proof fn lemma_stored(store: StoreView)
        requires
            Self::stored(store) is Some,
        ensures
            store.reads(Self::stored(store).unwrap()),
    {
    }

    /// A store that holds the record accepts its settings.
    pub proof fn lemma_accepted(&self, store: StoreView)
        requires
            Self::stored(store) is Some,
        ensures
            store.accepts(self.settings()),
    {
    }

    /// The settings of the record name keys of its section, no key twice.
    pub proof fn lemma_settings(&self)
        ensures
            distinct(self.settings()),
            placed(self.settings(), set![Self::section()]),
    {
        reveal_strlit("state");
        reveal_strlit("detection");
        reveal_strlit("mode");
        reveal_strlit("threshold");
        reveal_strlit("ratio");
        reveal_strlit("laxity");
        reveal_strlit("makeup");
        reveal_strlit("f1-freq");
        reveal_strlit("f2-freq");
        reveal_strlit("f1-level");
        reveal_strlit("f2-level");
        reveal_strlit("f2-q");
        reveal_strlit("sc-listen");
        assert("state"@.len() == 5 && "state"@[0] == 's');
        assert("detection"@.len() == 9 && "detection"@[0] == 'd');
        assert("mode"@.len() == 4 && "mode"@[0] == 'm');
        assert("threshold"@.len() == 9 && "threshold"@[0] == 't');
        assert("ratio"@.len() == 5);
        assert("laxity"@.len() == 6 && "laxity"@[0] == 'l');
        assert("makeup"@.len() == 6);
        assert("f1-freq"@.len() == 7 && "f1-freq"@[1] == '1');
        assert("f2-freq"@.len() == 7);
        assert("f1-level"@.len() == 8 && "f1-level"@[1] == '1');
        assert("f2-level"@.len() == 8);
        assert("f2-q"@.len() == 4);
        assert("sc-listen"@.len() == 9);
    }

    /// A store that holds the same keys with the same types holds the record
    /// alike.
    pub proof fn lemma_stays_stored(before: StoreView, after: StoreView)
        requires
            forall|address: Address, kind: Kind| #[trigger]
                after.holds(address, kind) == before.holds(address, kind),
        ensures
            Self::stored(after) is Some == Self::stored(before) is Some,
    {
    }

    /// Reads the record from `store`.
    pub fn read(store: &SettingsStore) -> (r: Option<Output>)
        ensures
            match r {
                Some(record) => Self::stored(store@) == Some(record.settings()),
                None => Self::stored(store@) is None,
            },
    {
        let settings = Self::location();
        let record = Output {
            state: settings.get_boolean(store, "state")?,
            detection: settings.get_string(store, "detection")?,
            mode: settings.get_string(store, "mode")?,
            threshold: settings.get_double(store, "threshold")?,
            ratio: settings.get_double(store, "ratio")?,
            laxity: settings.get_int(store, "laxity")?,
            makeup: settings.get_double(store, "makeup")?,
            f1_freq: settings.get_double(store, "f1-freq")?,
            f2_freq: settings.get_double(store, "f2-freq")?,
            f1_level: settings.get_double(store, "f1-level")?,
            f2_level: settings.get_double(store, "f2-level")?,
            f2_q: settings.get_double(store, "f2-q")?,
            sc_listen: settings.get_boolean(store, "sc-listen")?,
        };
        assert(Self::stored(store@).unwrap() =~= record.settings());
        Some(record)
    }

    /// Handing these settings to a store is handing them over one after
    /// another.
    pub proof fn lemma_applied(&self, store: StoreView)
        ensures
            store.apply(self.settings()) == store.update(self.settings()[0])
                .update(self.settings()[1]).update(self.settings()[2]).update(self.settings()[3])
                .update(self.settings()[4]).update(self.settings()[5]).update(self.settings()[6])
                .update(self.settings()[7]).update(self.settings()[8]).update(self.settings()[9])
                .update(self.settings()[10]).update(self.settings()[11]).update(self.settings()[12]),
    {
        store.lemma_apply_steps(self.settings());
    }

    /// Hands every field to its key: a key is written only where its value
    /// would change.
    pub fn apply(&self, store: &mut SettingsStore)
        requires
            Self::stored(old(store)@) is Some,
        ensures
            final(store)@ == old(store)@.apply(self.settings()),
            forall|address: Address, kind: Kind| #[trigger]
                final(store)@.holds(address, kind) == old(store)@.holds(address, kind),
    {
        let settings = Self::location();
        update_key(store, &settings, "state", Variant::Boolean(self.state));
        update_string_key(store, &settings, "detection", &self.detection);
        update_string_key(store, &settings, "mode", &self.mode);
        update_key(store, &settings, "threshold", Variant::Double(self.threshold));
        update_key(store, &settings, "ratio", Variant::Double(self.ratio));
        update_key(store, &settings, "laxity", Variant::Int32(self.laxity));
        update_key(store, &settings, "makeup", Variant::Double(self.makeup));
        update_key(store, &settings, "f1-freq", Variant::Double(self.f1_freq));
        update_key(store, &settings, "f2-freq", Variant::Double(self.f2_freq));
        update_key(store, &settings, "f1-level", Variant::Double(self.f1_level));
        update_key(store, &settings, "f2-level", Variant::Double(self.f2_level));
        update_key(store, &settings, "f2-q", Variant::Double(self.f2_q));
        update_key(store, &settings, "sc-listen", Variant::Boolean(self.sc_listen));
        proof {
            self.lemma_applied(old(store)@);
        }
    }
}

/// Parameters of the deesser on the input chain.
#[derive(Clone, Debug)]
pub struct Input {
    pub state: bool,
    pub detection: String,
    pub mode: String,
    pub threshold: Double,
    pub ratio: Double,
    pub laxity: i32,
    pub makeup: Double,
    pub f1_freq: Double,
    pub f2_freq: Double,
    pub f1_level: Double,
    pub f2_level: Double,
    pub f2_q: Double,
    pub sc_listen: bool,
}

impl Input {
    /// Where the keys of this record live.
    pub open spec fn section() -> Section {
        Section {
            schema: "com.github.wwmm.pulseeffects.deesser"@,
            path: "/com/github/wwmm/pulseeffects/sourceoutputs/deesser/"@,
        }
    }

    /// The record as the settings it stands for, in the order in which they
    /// are written.
    pub open spec fn settings(&self) -> Seq<Setting> {
        seq![
            Setting {
                address: Self::section().at("state"@),
                value: VariantView::Boolean(self.state),
            },
            Setting {
                address: Self::section().at("detection"@),
                value: VariantView::Text(self.detection@),
            },
            Setting { address: Self::section().at("mode"@), value: VariantView::Text(self.mode@) },
            Setting {
                address: Self::section().at("threshold"@),
                value: VariantView::Double(self.threshold.bits),
            },
            Setting {
                address: Self::section().at("ratio"@),
                value: VariantView::Double(self.ratio.bits),
            },
            Setting {
                address: Self::section().at("laxity"@),
                value: VariantView::Int32(self.laxity),
            },
            Setting {
                address: Self::section().at("makeup"@),
                value: VariantView::Double(self.makeup.bits),
            },
            Setting {
                address: Self::section().at("f1-freq"@),
                value: VariantView::Double(self.f1_freq.bits),
            },
            Setting {
                address: Self::section().at("f2-freq"@),
                value: VariantView::Double(self.f2_freq.bits),
            },
            Setting {
                address: Self::section().at("f1-level"@),
                value: VariantView::Double(self.f1_level.bits),
            },
            Setting {
                address: Self::section().at("f2-level"@),
                value: VariantView::Double(self.f2_level.bits),
            },
            Setting {
                address: Self::section().at("f2-q"@),
                value: VariantView::Double(self.f2_q.bits),
            },
            Setting {
                address: Self::section().at("sc-listen"@),
                value: VariantView::Boolean(self.sc_listen),
            },
        ]
    }

    /// The settings that `store` holds for this record, or `None` where a key
    /// is missing or of another type.
    pub open spec fn stored(store: StoreView) -> Option<Seq<Setting>> {
        if store.holds(Self::section().at("state"@), Kind::Boolean)
            && store.holds(Self::section().at("detection"@), Kind::Text)
            && store.holds(Self::section().at("mode"@), Kind::Text)
            && store.holds(Self::section().at("threshold"@), Kind::Double)
            && store.holds(Self::section().at("ratio"@), Kind::Double)
            && store.holds(Self::section().at("laxity"@), Kind::Int32)
            && store.holds(Self::section().at("makeup"@), Kind::Double)
            && store.holds(Self::section().at("f1-freq"@), Kind::Double)
            && store.holds(Self::section().at("f2-freq"@), Kind::Double)
            && store.holds(Self::section().at("f1-level"@), Kind::Double)
            && store.holds(Self::section().at("f2-level"@), Kind::Double)
            && store.holds(Self::section().at("f2-q"@), Kind::Double)
            && store.holds(Self::section().at("sc-listen"@), Kind::Boolean)
        {
            Some(
                seq![
                    store.setting(Self::section().at("state"@)),
                    store.setting(Self::section().at("detection"@)),
                    store.setting(Self::section().at("mode"@)),
                    store.setting(Self::section().at("threshold"@)),
                    store.setting(Self::section().at("ratio"@)),
                    store.setting(Self::section().at("laxity"@)),
                    store.setting(Self::section().at("makeup"@)),
                    store.setting(Self::section().at("f1-freq"@)),
                    store.setting(Self::section().at("f2-freq"@)),
                    store.setting(Self::section().at("f1-level"@)),
                    store.setting(Self::section().at("f2-level"@)),
                    store.setting(Self::section().at("f2-q"@)),
                    store.setting(Self::section().at("sc-listen"@)),
                ],
            )
        } else {
            None
        }
    }

    /// The mark of the section of this record.
    pub proof fn lemma_mark()
        ensures
            mark(Self::section()) == (52nat, 'r', 's', 'e'),
    {
        reveal_strlit("/com/github/wwmm/pulseeffects/sourceoutputs/deesser/");
    }

    /// A handle on the section where the keys of this record live.
    pub fn location() -> (r: Settings)
        ensures
            r@ == Self::section(),
    {
        Settings::with_path(
            "com.github.wwmm.pulseeffects.deesser",
            "/com/github/wwmm/pulseeffects/sourceoutputs/deesser/",
        )
    }

    /// What a store holds for the record is what it holds at the keys of the
    /// record.
    pub proof fn lemma_stored(store: StoreView)
        requires
            Self::stored(store) is Some,
        ensures
            store.reads(Self::stored(store).unwrap()),
    {
    }

    /// A store that holds the record accepts its settings.
    pub proof fn lemma_accepted(&self, store: StoreView)
        requires
            Self::stored(store) is Some,
        ensures
            store.accepts(self.settings()),
    {
    }

    /// The settings of the record name keys of its section, no key twice.
    pub proof fn lemma_settings(&self)
        ensures
            distinct(self.settings()),
            placed(self.settings(), set![Self::section()]),
    {
        reveal_strlit("state");
        reveal_strlit("detection");
        reveal_strlit("mode");
        reveal_strlit("threshold");
        reveal_strlit("ratio");
        reveal_strlit("laxity");
        reveal_strlit("makeup");
        reveal_strlit("f1-freq");
        reveal_strlit("f2-freq");
        reveal_strlit("f1-level");
        reveal_strlit("f2-level");
        reveal_strlit("f2-q");
        reveal_strlit("sc-listen");
        assert("state"@.len() == 5 && "state"@[0] == 's');
        assert("detection"@.len() == 9 && "detection"@[0] == 'd');
        assert("mode"@.len() == 4 && "mode"@[0] == 'm');
        assert("threshold"@.len() == 9 && "threshold"@[0] == 't');
        assert("ratio"@.len() == 5);
        assert("laxity"@.len() == 6 && "laxity"@[0] == 'l');
        assert("makeup"@.len() == 6);
        assert("f1-freq"@.len() == 7 && "f1-freq"@[1] == '1');
        assert("f2-freq"@.len() == 7);
        assert("f1-level"@.len() == 8 && "f1-level"@[1] == '1');
        assert("f2-level"@.len() == 8);
        assert("f2-q"@.len() == 4);
        assert("sc-listen"@.len() == 9);
    }

    /// A store that holds the same keys with the same types holds the record
    /// alike.
    pub proof fn lemma_stays_stored(before: StoreView, after: StoreView)
        requires
            forall|address: Address, kind: Kind| #[trigger]
                after.holds(address, kind) == before.holds(address, kind),
        ensures
            Self::stored(after) is Some == Self::stored(before) is Some,
    {
    }

    /// Reads the record from `store`.
    pub fn read(store: &SettingsStore) -> (r: Option<Input>)
        ensures
            match r {
                Some(record) => Self::stored(store@) == Some(record.settings()),
                None => Self::stored(store@) is None,
            },
    {
        let settings = Self::location();
        let record = Input {
            state: settings.get_boolean(store, "state")?,
            detection: settings.get_string(store, "detection")?,
            mode: settings.get_string(store, "mode")?,
            threshold: settings.get_double(store, "threshold")?,
            ratio: settings.get_double(store, "ratio")?,
            laxity: settings.get_int(store, "laxity")?,
            makeup: settings.get_double(store, "makeup")?,
            f1_freq: settings.get_double(store, "f1-freq")?,
            f2_freq: settings.get_double(store, "f2-freq")?,
            f1_level: settings.get_double(store, "f1-level")?,
            f2_level: settings.get_double(store, "f2-level")?,
            f2_q: settings.get_double(store, "f2-q")?,
            sc_listen: settings.get_boolean(store, "sc-listen")?,
        };
        assert(Self::stored(store@).unwrap() =~= record.settings());
        Some(record)
    }

    /// Handing these settings to a store is handing them over one after
    /// another.
    pub proof fn lemma_applied(&self, store: StoreView)
        ensures
            store.apply(self.settings()) == store.update(self.settings()[0])
                .update(self.settings()[1]).update(self.settings()[2]).update(self.settings()[3])
                .update(self.settings()[4]).update(self.settings()[5]).update(self.settings()[6])
                .update(self.settings()[7]).update(self.settings()[8]).update(self.settings()[9])
                .update(self.settings()[10]).update(self.settings()[11]).update(self.settings()[12]),
    {
        store.lemma_apply_steps(self.settings());
    }

    /// Hands every field to its key: a key is written only where its value
    /// would change.
    pub fn apply(&self, store: &mut SettingsStore)
        requires
            Self::stored(old(store)@) is Some,
        ensures
            final(store)@ == old(store)@.apply(self.settings()),
            forall|address: Address, kind: Kind| #[trigger]
                final(store)@.holds(address, kind) == old(store)@.holds(address, kind),
    {
        let settings = Self::location();
        update_key(store, &settings, "state", Variant::Boolean(self.state));
        update_string_key(store, &settings, "detection", &self.detection);
        update_string_key(store, &settings, "mode", &self.mode);
        update_key(store, &settings, "threshold", Variant::Double(self.threshold));
        update_key(store, &settings, "ratio", Variant::Double(self.ratio));
        update_key(store, &settings, "laxity", Variant::Int32(self.laxity));
        update_key(store, &settings, "makeup", Variant::Double(self.makeup));
        update_key(store, &settings, "f1-freq", Variant::Double(self.f1_freq));
        update_key(store, &settings, "f2-freq", Variant::Double(self.f2_freq));
        update_key(store, &settings, "f1-level", Variant::Double(self.f1_level));
        update_key(store, &settings, "f2-level", Variant::Double(self.f2_level));
        update_key(store, &settings, "f2-q", Variant::Double(self.f2_q));
        update_key(store, &settings, "sc-listen", Variant::Boolean(self.sc_listen));
        proof {
            self.lemma_applied(old(store)@);
        }
    }
}

} // verus!
