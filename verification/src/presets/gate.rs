//! The noise gate effect, for either direction.

use crate::presets::common::{update_key, update_string_key};
use crate::settings::{
    distinct, mark, placed, Address, Double, Kind, Section, Setting, Settings, SettingsStore,
    StoreView, Variant, VariantView,
};
use vstd::prelude::*;

verus! {

/// Parameters of the noise gate on the output chain.
#[derive(Clone, Debug)]
pub struct Output {
    pub state: bool,
    pub detection: String,
    pub stereo_link: String,
    pub range: Double,
    pub attack: Double,
    pub release: Double,
    pub threshold: Double,
    pub ratio: Double,
    pub knee: Double,
    pub input: Double,
    pub makeup: Double,
}

impl Output {
    /// Where the keys of this record live.
    pub open spec fn section() -> Section {
        Section {
            schema: "com.github.wwmm.pulseeffects.gate"@,
            path: "/com/github/wwmm/pulseeffects/sinkinputs/gate/"@,
        }
    }

    /// The record as the settings it stands for, in the order in which they
    /// are written.
    pub open spec fn settings(&self) -> Seq<Setting> {
        seq![
            Setting {
                address: Self::section().at("state"@),
                value: VariantView::Boolean(self.state),
            },
            Setting {
                address: Self::section().at("detection"@),
                value: VariantView::Text(self.detection@),
            },
            Setting {
                address: Self::section().at("stereo-link"@),
                value: VariantView::Text(self.stereo_link@),
            },
            Setting {
                address: Self::section().at("range"@),
                value: VariantView::Double(self.range.bits),
            },
            Setting {
                address: Self::section().at("attack"@),
                value: VariantView::Double(self.attack.bits),
            },
            Setting {
                address: Self::section().at("release"@),
                value: VariantView::Double(self.release.bits),
            },
            Setting {
                address: Self::section().at("threshold"@),
                value: VariantView::Double(self.threshold.bits),
            },
            Setting {
                address: Self::section().at("ratio"@),
                value: VariantView::Double(self.ratio.bits),
            },
            Setting {
                address: Self::section().at("knee"@),
                value: VariantView::Double(self.knee.bits),
            },
            Setting {
                address: Self::section().at("input"@),
                value: VariantView::Double(self.input.bits),
            },
            Setting {
                address: Self::section().at("makeup"@),
                value: VariantView::Double(self.makeup.bits),
            },
        ]
    }

    /// The settings that `store` holds for this record, or `None` where a key
    /// is missing or of another type.
    pub open spec fn stored(store: StoreView) -> Option<Seq<Setting>> {
        if store.holds(Self::section().at("state"@), Kind::Boolean)
            && store.holds(Self::section().at("detection"@), Kind::Text)
            && store.holds(Self::section().at("stereo-link"@), Kind::Text)
            && store.holds(Self::section().at("range"@), Kind::Double)
            && store.holds(Self::section().at("attack"@), Kind::Double)
            && store.holds(Self::section().at("release"@), Kind::Double)
            && store.holds(Self::section().at("threshold"@), Kind::Double)
            && store.holds(Self::section().at("ratio"@), Kind::Double)
            && store.holds(Self::section().at("knee"@), Kind::Double)
            && store.holds(Self::section().at("input"@), Kind::Double)
            && store.holds(Self::section().at("makeup"@), Kind::Double)
        {
            Some(
                seq![
                    store.setting(Self::section().at("state"@)),
                    store.setting(Self::section().at("detection"@)),
                    store.setting(Self::section().at("stereo-link"@)),
                    store.setting(Self::section().at("range"@)),
                    store.setting(Self::section().at("attack"@)),
                    store.setting(Self::section().at("release"@)),
                    store.setting(Self::section().at("threshold"@)),
                    store.setting(Self::section().at("ratio"@)),
                    store.setting(Self::section().at("knee"@)),
                    store.setting(Self::section().at("input"@)),
                    store.setting(Self::section().at("makeup"@)),
                ],
            )
        } else {
            None
        }
    }

    /// The mark of the section of this record.
    pub proof fn lemma_mark()
        ensures
            mark(Self::section()) == (46nat, 'e', 'a', '/'),
    {
        reveal_strlit("/com/github/wwmm/pulseeffects/sinkinputs/gate/");
    }

    /// A handle on the section where the keys of this record live.
    pub fn location() -> (r: Settings)
        ensures
            r@ == Self::section(),
    {
        Settings::with_path(
            "com.github.wwmm.pulseeffects.gate",
            "/com/github/wwmm/pulseeffects/sinkinputs/gate/",
        )
    }

    /// What a store holds for the record is what it holds at the keys of the
    /// record.
    pub proof fn lemma_stored(store: StoreView)
        requires
            Self::stored(store) is Some,
        ensures
            store.reads(Self::stored(store).unwrap()),
    {
    }

    /// A store that holds the record accepts its settings.
    pub proof fn lemma_accepted(&self, store: StoreView)
        requires
            Self::stored(store) is Some,
        ensures
            store.accepts(self.settings()),
    {
    }

    /// The settings of the record name keys of its section, no key twice.
    pub proof fn lemma_settings(&self)
        ensures
            distinct(self.settings()),
            placed(self.settings(), set![Self::section()]),
    {
        reveal_strlit("state");
        reveal_strlit("detection");
        reveal_strlit("stereo-link");
        reveal_strlit("range");
        reveal_strlit("attack");
        reveal_strlit("release");
        reveal_strlit("threshold");
        reveal_strlit("ratio");
        reveal_strlit("knee");
        reveal_strlit("input");
        reveal_strlit("makeup");
        assert("state"@.len() == 5 && "state"@[0] == 's');
        assert("detection"@.len() == 9 && "detection"@[0] == 'd');
        assert("stereo-link"@.len() == 11);
        assert("range"@.len() == 5 && "range"@[2] == 'n');
        assert("attack"@.len() == 6 && "attack"@[0] == 'a');
        assert("release"@.len() == 7);
        assert("threshold"@.len() == 9);
        assert("ratio"@.len() == 5 && "ratio"@[0] == 'r');
        assert("knee"@.len() == 4);
        assert("input"@.len() == 5);
        assert("makeup"@.len() == 6);
    }

    /// A store that holds the same keys with the same types holds the record
    /// alike.
    pub proof fn lemma_stays_stored(before: StoreView, after: StoreView)
        requires
            forall|address: Address, kind: Kind| #[trigger]
                after.holds(address, kind) == before.holds(address, kind),
        ensures
            Self::stored(after) is Some == Self::stored(before) is Some,
    {
    }

    /// Reads the record from `store`.
    pub fn read(store: &SettingsStore) -> (r: Option<Output>)
        ensures
            match r {
                Some(record) => Self::stored(store@) == Some(record.settings()),
                None => Self::stored(store@) is None,
            },
    {
        let settings = Self::location();
        let record = Output {
            state: settings.get_boolean(store, "state")?,
            detection: settings.get_string(store, "detection")?,
            stereo_link: settings.get_string(store, "stereo-link")?,
            range: settings.get_double(store, "range")?,
            attack: settings.get_double(store, "attack")?,
            release: settings.get_double(store, "release")?,
            threshold: settings.get_double(store, "threshold")?,
            ratio: settings.get_double(store, "ratio")?,
            knee: settings.get_double(store, "knee")?,
            input: settings.get_double(store, "input")?,
            makeup: settings.get_double(store, "makeup")?,
        };
        assert(Self::stored(store@).unwrap() =~= record.settings());
        Some(record)
    }

    /// Handing these settings to a store is handing them over one after
    /// another.
    pub proof fn lemma_applied(&self, store: StoreView)
        ensures
            store.apply(self.settings()) == store.update(self.settings()[0])
                .update(self.settings()[1]).update(self.settings()[2]).update(self.settings()[3])
                .update(self.settings()[4]).update(self.settings()[5]).update(self.settings()[6])
                .update(self.settings()[7]).update(self.settings()[8]).update(self.settings()[9])
                .update(self.settings()[10]),
    {
        store.lemma_apply_steps(self.settings());
    }

    /// Hands every field to its key: a key is written only where its value
    /// would change.
    pub fn apply(&self, store: &mut SettingsStore)
        requires
            Self::stored(old(store)@) is Some,
        ensures
            final(store)@ == old(store)@.apply(self.settings()),
            forall|address: Address, kind: Kind| #[trigger]
                final(store)@.holds(address, kind) == old(store)@.holds(address, kind),
    {
        let settings = Self::location();
        update_key(store, &settings, "state", Variant::Boolean(self.state));
        update_string_key(store, &settings, "detection", &self.detection);
        update_string_key(store, &settings, "stereo-link", &self.stereo_link);
        update_key(store, &settings, "range", Variant::Double(self.range));
        update_key(store, &settings, "attack", Variant::Double(self.attack));
        update_key(store, &settings, "release", Variant::Double(self.release));
        update_key(store, &settings, "threshold", Variant::Double(self.threshold));
        update_key(store, &settings, "ratio", Variant::Double(self.ratio));
        update_key(store, &settings, "knee", Variant::Double(self.knee));
        update_key(store, &settings, "input", Variant::Double(self.input));
        update_key(store, &settings, "makeup", Variant::Double(self.makeup));
        proof {
            self.lemma_applied(old(store)@);
        }
    }
}

/// Parameters of the noise gate on the input chain.
#[derive(Clone, Debug)]
pub struct Input {
    pub state: bool,
    pub detection: String,
    pub stereo_link: String,
    pub range: Double,
    pub attack: Double,
    pub release: Double,
    pub threshold: Double,
    pub ratio: Double,
    pub input: Double,
    pub knee: Double,
    pub makeup: Double,
}

impl Input {
    /// Where the keys of this record live.
    pub open spec fn section() -> Section {
        Section {
            schema: "com.github.wwmm.pulseeffects.gate"@,
            path: "/com/github/wwmm/pulseeffects/sourceoutputs/gate/"@,
        }
    }

    /// The record as the settings it stands for, in the order in which they
    /// are written.
    pub open spec fn settings(&self) -> Seq<Setting> {
        seq![
            Setting {
                address: Self::section().at("state"@),
                value: VariantView::Boolean(self.state),
            },
            Setting {
                address: Self::section().at("detection"@),
                value: VariantView::Text(self.detection@),
            },
            Setting {
                address: Self::section().at("stereo-link"@),
                value: VariantView::Text(self.stereo_link@),
            },
            Setting {
                address: Self::section().at("range"@),
                value: VariantView::Double(self.range.bits),
            },
            Setting {
                address: Self::section().at("attack"@),
                value: VariantView::Double(self.attack.bits),
            },
            Setting {
                address: Self::section().at("release"@),
                value: VariantView::Double(self.release.bits),
            },
            Setting {
                address: Self::section().at("threshold"@),
                value: VariantView::Double(self.threshold.bits),
            },
            Setting {
                address: Self::section().at("ratio"@),
                value: VariantView::Double(self.ratio.bits),
            },
            Setting {
                address: Self::section().at("knee"@),
                value: VariantView::Double(self.knee.bits),
            },
            Setting {
                address: Self::section().at("input"@),
                value: VariantView::Double(self.input.bits),
            },
            Setting {
                address: Self::section().at("makeup"@),
                value: VariantView::Double(self.makeup.bits),
            },
        ]
    }

    /// The settings that `store` holds for this record, or `None` where a key
    /// is missing or of another type.
    pub open spec fn stored(store: StoreView) -> Option<Seq<Setting>> {
        if store.holds(Self::section().at("state"@), Kind::Boolean)
            && store.holds(Self::section().at("detection"@), Kind::Text)
            && store.holds(Self::section().at("stereo-link"@), Kind::Text)
            && store.holds(Self::section().at("range"@), Kind::Double)
            && store.holds(Self::section().at("attack"@), Kind::Double)
            && store.holds(Self::section().at("release"@), Kind::Double)
            && store.holds(Self::section().at("threshold"@), Kind::Double)
            && store.holds(Self::section().at("ratio"@), Kind::Double)
            && store.holds(Self::section().at("knee"@), Kind::Double)
            && store.holds(Self::section().at("input"@), Kind::Double)
            && store.holds(Self::section().at("makeup"@), Kind::Double)
        {
            Some(
                seq![
                    store.setting(Self::section().at("state"@)),
                    store.setting(Self::section().at("detection"@)),
                    store.setting(Self::section().at("stereo-link"@)),
                    store.setting(Self::section().at("range"@)),
                    store.setting(Self::section().at("attack"@)),
                    store.setting(Self::section().at("release"@)),
                    store.setting(Self::section().at("threshold"@)),
                    store.setting(Self::section().at("ratio"@)),
                    store.setting(Self::section().at("knee"@)),
                    store.setting(Self::section().at("input"@)),
                    store.setting(Self::section().at("makeup"@)),
                ],
            )
        } else {
            None
        }
    }

    /// The mark of the section of this record.
    pub proof fn lemma_mark()
        ensures
            mark(Self::section()) == (49nat, 'e', 'a', '/'),
    {
        reveal_strlit("/com/github/wwmm/pulseeffects/sourceoutputs/gate/");
    }

    /// A handle on the section where the keys of this record live.
    pub fn location() -> (r: Settings)
        ensures
            r@ == Self::section(),
    {
        Settings::with_path(
            "com.github.wwmm.pulseeffects.gate",
            "/com/github/wwmm/pulseeffects/sourceoutputs/gate/",
        )
    }

    /// What a store holds for the record is what it holds at the keys of the
    /// record.
    pub proof fn lemma_stored(store: StoreView)
        requires
            Self::stored(store) is Some,
        ensures
            store.reads(Self::stored(store).unwrap()),
    {
    }

    /// A store that holds the record accepts its settings.
    pub proof fn lemma_accepted(&self, store: StoreView)
        requires
            Self::stored(store) is Some,
        ensures
            store.accepts(self.settings()),
    {
    }

    /// The settings of the record name keys of its section, no key twice.
    pub proof fn lemma_settings(&self)
        ensures
            distinct(self.settings()),
            placed(self.settings(), set![Self::section()]),
    {
        reveal_strlit("state");
        reveal_strlit("detection");
        reveal_strlit("stereo-link");
        reveal_strlit("range");
        reveal_strlit("attack");
        reveal_strlit("release");
        reveal_strlit("threshold");
        reveal_strlit("ratio");
        reveal_strlit("knee");
        reveal_strlit("input");
        reveal_strlit("makeup");
        assert("state"@.len() == 5 && "state"@[0] == 's');
        assert("detection"@.len() == 9 && "detection"@[0] == 'd');
        assert("stereo-link"@.len() == 11);
        assert("range"@.len() == 5 && "range"@[2] == 'n');
        assert("attack"@.len() == 6 && "attack"@[0] == 'a');
        assert("release"@.len() == 7);
        assert("threshold"@.len() == 9);
        assert("ratio"@.len() == 5 && "ratio"@[0] == 'r');
        assert("knee"@.len() == 4);
        assert("input"@.len() == 5);
        assert("makeup"@.len() == 6);
    }

    /// A store that holds the same keys with the same types holds the record
    /// alike.
    pub proof fn lemma_stays_stored(before: StoreView, after: StoreView)
        requires
            forall|address: Address, kind: Kind| #[trigger]
                after.holds(address, kind) == before.holds(address, kind),
        ensures
            Self::stored(after) is Some == Self::stored(before) is Some,
    {
    }

    /// Reads the record from `store`.
    pub fn read(store: &SettingsStore) -> (r: Option<Input>)
        ensures
            match r {
                Some(record) => Self::stored(store@) == Some(record.settings()),
                None => Self::stored(store@) is None,
            },
    {
        let settings = Self::location();
        let record = Input {
            state: settings.get_boolean(store, "state")?,
            detection: settings.get_string(store, "detection")?,
            stereo_link: settings.get_string(store, "stereo-link")?,
            range: settings.get_double(store, "range")?,
            attack: settings.get_double(store, "attack")?,
            release: settings.get_double(store, "release")?,
            threshold: settings.get_double(store, "threshold")?,
            ratio: settings.get_double(store, "ratio")?,
            input: settings.get_double(store, "input")?,
            knee: settings.get_double(store, "knee")?,
            makeup: settings.get_double(store, "makeup")?,
        };
        assert(Self::stored(store@).unwrap() =~= record.settings());
        Some(record)
    }

    /// Handing these settings to a store is handing them over one after
    /// another.
    pub proof fn lemma_applied(&self, store: StoreView)
        ensures
            store.apply(self.settings()) == store.update(self.settings()[0])
                .update(self.settings()[1]).update(self.settings()[2]).update(self.settings()[3])
                .update(self.settings()[4]).update(self.settings()[5]).update(self.settings()[6])
                .update(self.settings()[7]).update(self.settings()[8]).update(self.settings()[9])
                .update(self.settings()[10]),
    {
        store.lemma_apply_steps(self.settings());
    }

    /// Hands every field to its key: a key is written only where its value
    /// would change.
    pub fn apply(&self, store: &mut SettingsStore)
        requires
            Self::stored(old(store)@) is Some,
        ensures
            final(store)@ == old(store)@.apply(self.settings()),
            forall|address: Address, kind: Kind| #[trigger]
                final(store)@.holds(address, kind) == old(store)@.holds(address, kind),
    {
        let settings = Self::location();
        update_key(store, &settings, "state", Variant::Boolean(self.state));
        update_string_key(store, &settings, "detection", &self.detection);
        update_string_key(store, &settings, "stereo-link", &self.stereo_link);
        update_key(store, &settings, "range", Variant::Double(self.range));
        update_key(store, &settings, "attack", Variant::Double(self.attack));
        update_key(store, &settings, "release", Variant::Double(self.release));
        update_key(store, &settings, "threshold", Variant::Double(self.threshold));
        update_key(store, &settings, "ratio", Variant::Double(self.ratio));
        update_key(store, &settings, "knee", Variant::Double(self.knee));
        update_key(store, &settings, "input", Variant::Double(self.input));
        update_key(store, &settings, "makeup", Variant::Double(self.makeup));
        proof {
            self.lemma_applied(old(store)@);
        }
    }
}

} // verus!
