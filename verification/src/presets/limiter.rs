//! The limiter effect, for either direction.

use crate::presets::common::update_key;
use crate::settings::{
    distinct, mark, placed, Address, Double, Kind, Section, Setting, Settings, SettingsStore,
    StoreView, Variant, VariantView,
};
use vstd::prelude::*;

verus! {

/// Parameters of the limiter on the output chain.
#[derive(Clone, Debug)]
pub struct Output {
    pub state: bool,
    pub input_gain: Double,
    pub limit: Double,
    pub lookahead: Double,
    pub release: Double,
    pub auto_level: bool,
    pub asc: bool,
    pub asc_level: Double,
    pub oversampling: i32,
}

impl Output {
    /// Where the keys of this record live.
    pub open spec fn section() -> Section {
        Section {
            schema: "com.github.wwmm.pulseeffects.limiter"@,
            path: "/com/github/wwmm/pulseeffects/sinkinputs/limiter/"@,
        }
    }

    /// The record as the settings it stands for, in the order in which they
    /// are written.
    pub open spec fn settings(&self) -> Seq<Setting> {
        seq![
            Setting {
                address: Self::section().at("state"@),
                value: VariantView::Boolean(self.state),
            },
            Setting {
                address: Self::section().at("input-gain"@),
                value: VariantView::Double(self.input_gain.bits),
            },
            Setting {
                address: Self::section().at("limit"@),
                value: VariantView::Double(self.limit.bits),
            },
            Setting {
                address: Self::section().at("lookahead"@),
                value: VariantView::Double(self.lookahead.bits),
            },
            Setting {
                address: Self::section().at("release"@),
                value: VariantView::Double(self.release.bits),
            },
            Setting {
                address: Self::section().at("auto-level"@),
                value: VariantView::Boolean(self.auto_level),
            },
            Setting { address: Self::section().at("asc"@), value: VariantView::Boolean(self.asc) },
            Setting {
                address: Self::section().at("asc-level"@),
                value: VariantView::Double(self.asc_level.bits),
            },
            Setting {
                address: Self::section().at("oversampling"@),
                value: VariantView::Int32(self.oversampling),
            },
        ]
    }

    /// The settings that `store` holds for this record, or `None` where a key
    /// is missing or of another type.
    pub open spec fn stored(store: StoreView) -> Option<Seq<Setting>> {
        if store.holds(Self::section().at("state"@), Kind::Boolean)
            && store.holds(Self::section().at("input-gain"@), Kind::Double)
            && store.holds(Self::section().at("limit"@), Kind::Double)
            && store.holds(Self::section().at("lookahead"@), Kind::Double)
            && store.holds(Self::section().at("release"@), Kind::Double)
            && store.holds(Self::section().at("auto-level"@), Kind::Boolean)
            && store.holds(Self::section().at("asc"@), Kind::Boolean)
            && store.holds(Self::section().at("asc-level"@), Kind::Double)
            && store.holds(Self::section().at("oversampling"@), Kind::Int32)
        {
            Some(
                seq![
                    store.setting(Self::section().at("state"@)),
                    store.setting(Self::section().at("input-gain"@)),
                    store.setting(Self::section().at("limit"@)),
                    store.setting(Self::section().at("lookahead"@)),
                    store.setting(Self::section().at("release"@)),
                    store.setting(Self::section().at("auto-level"@)),
                    store.setting(Self::section().at("asc"@)),
                    store.setting(Self::section().at("asc-level"@)),
                    store.setting(Self::section().at("oversampling"@)),
                ],
            )
        } else {
            None
        }
    }

    /// The mark of the section of this record.
    pub proof fn lemma_mark()
        ensures
            mark(Self::section()) == (49nat, 'r', 't', 'm'),
    {
        reveal_strlit("/com/github/wwmm/pulseeffects/sinkinputs/limiter/");
    }

    /// A handle on the section where the keys of this record live.
    pub fn location() -> (r: Settings)
        ensures
            r@ == Self::section(),
    {
        Settings::with_path(
            "com.github.wwmm.pulseeffects.limiter",
            "/com/github/wwmm/pulseeffects/sinkinputs/limiter/",
        )
    }

    /// What a store holds for the record is what it holds at the keys of the
    /// record.
    pub proof fn lemma_stored(store: StoreView)
        requires
            Self::stored(store) is Some,
        ensures
            store.reads(Self::stored(store).unwrap()),
    {
    }

    /// A store that holds the record accepts its settings.
    pub proof fn lemma_accepted(&self, store: StoreView)
        requires
            Self::stored(store) is Some,
        ensures
            store.accepts(self.settings()),
    {
    }

    /// The settings of the record name keys of its section, no key twice.
    pub proof fn lemma_settings(&self)
        ensures
            distinct(self.settings()),
            placed(self.settings(), set![Self::section()]),
    {
        reveal_strlit("state");
        reveal_strlit("input-gain");
        reveal_strlit("limit");
        reveal_strlit("lookahead");
        reveal_strlit("release");
        reveal_strlit("auto-level");
        reveal_strlit("asc");
        reveal_strlit("asc-level");
        reveal_strlit("oversampling");
        assert("state"@.len() == 5 && "state"@[0] == 's');
        assert("input-gain"@.len() == 10 && "input-gain"@[0] == 'i');
        assert("limit"@.len() == 5);
        assert("lookahead"@.len() == 9 && "lookahead"@[0] == 'l');
        assert("release"@.len() == 7);
        assert("auto-level"@.len() == 10);
        assert("asc"@.len() == 3);
        assert("asc-level"@.len() == 9);
        assert("oversampling"@.len() == 12);
    }

    /// A store that holds the same keys with the same types holds the record
    /// alike.
    pub proof fn lemma_stays_stored(before: StoreView, after: StoreView)
        requires
            forall|address: Address, kind: Kind| #[trigger]
                after.holds(address, kind) == before.holds(address, kind),
        ensures
            Self::stored(after) is Some == Self::stored(before) is Some,
    {
    }

    /// Reads the record from `store`.
    pub fn read(store: &SettingsStore) -> (r: Option<Output>)
        ensures
            match r {
                Some(record) => Self::stored(store@) == Some(record.settings()),
                None => Self::stored(store@) is None,
            },
    {
        let settings = Self::location();
        let record = Output {
            state: settings.get_boolean(store, "state")?,
            input_gain: settings.get_double(store, "input-gain")?,
            limit: settings.get_double(store, "limit")?,
            lookahead: settings.get_double(store, "lookahead")?,
            release: settings.get_double(store, "release")?,
            auto_level: settings.get_boolean(store, "auto-level")?,
            asc: settings.get_boolean(store, "asc")?,
            asc_level: settings.get_double(store, "asc-level")?,
            oversampling: settings.get_int(store, "oversampling")?,
        };
        assert(Self::stored(store@).unwrap() =~= record.settings());
        Some(record)
    }

    /// Handing these settings to a store is handing them over one after
    /// another.
    pub proof fn lemma_applied(&self, store: StoreView)
        ensures
            store.apply(self.settings()) == store.update(self.settings()[0])
                .update(self.settings()[1]).update(self.settings()[2]).update(self.settings()[3])
                .update(self.settings()[4]).update(self.settings()[5]).update(self.settings()[6])
                .update(self.settings()[7]).update(self.settings()[8]),
    {
        store.lemma_apply_steps(self.settings());
    }

    /// Hands every field to its key: a key is written only where its value
    /// would change.
    pub fn apply(&self, store: &mut SettingsStore)
        requires
            Self::stored(old(store)@) is Some,
        ensures
            final(store)@ == old(store)@.apply(self.settings()),
            forall|address: Address, kind: Kind| #[trigger]
                final(store)@.holds(address, kind) == old(store)@.holds(address, kind),
    {
        let settings = Self::location();
        update_key(store, &settings, "state", Variant::Boolean(self.state));
        update_key(store, &settings, "input-gain", Variant::Double(self.input_gain));
        update_key(store, &settings, "limit", Variant::Double(self.limit));
        update_key(store, &settings, "lookahead", Variant::Double(self.lookahead));
        update_key(store, &settings, "release", Variant::Double(self.release));
        update_key(store, &settings, "auto-level", Variant::Boolean(self.auto_level));
        update_key(store, &settings, "asc", Variant::Boolean(self.asc));
        update_key(store, &settings, "asc-level", Variant::Double(self.asc_level));
        update_key(store, &settings, "oversampling", Variant::Int32(self.oversampling));
        proof {
            self.lemma_applied(old(store)@);
        }
    }
}

/// Parameters of the limiter on the input chain.
#[derive(Clone, Debug)]
pub struct Input {
    pub state: bool,
    pub input_gain: Double,
    pub limit: Double,
    pub lookahead: Double,
    pub release: Double,
    pub auto_level: bool,
    pub asc: bool,
    pub asc_level: Double,
    pub oversampling: i32,
}

impl Input {
    /// Where the keys of this record live.
    pub open spec fn section() -> Section {
        Section {
            schema: "com.github.wwmm.pulseeffects.limiter"@,
            path: "/com/github/wwmm/pulseeffects/sourceoutputs/limiter/"@,
        }
    }

    /// The record as the settings it stands for, in the order in which they
    /// are written.
    pub open spec fn settings(&self) -> Seq<Setting> {
        seq![
            Setting {
                address: Self::section().at("state"@),
                value: VariantView::Boolean(self.state),
            },
            Setting {
                address: Self::section().at("input-gain"@),
                value: VariantView::Double(self.input_gain.bits),
            },
            Setting {
                address: Self::section().at("limit"@),
                value: VariantView::Double(self.limit.bits),
            },
            Setting {
                address: Self::section().at("lookahead"@),
                value: VariantView::Double(self.lookahead.bits),
            },
            Setting {
                address: Self::section().at("release"@),
                value: VariantView::Double(self.release.bits),
            },
            Setting {
                address: Self::section().at("auto-level"@),
                value: VariantView::Boolean(self.auto_level),
            },
            Setting { address: Self::section().at("asc"@), value: VariantView::Boolean(self.asc) },
            Setting {
                address: Self::section().at("asc-level"@),
                value: VariantView::Double(self.asc_level.bits),
            },
            Setting {
                address: Self::section().at("oversampling"@),
                value: VariantView::Int32(self.oversampling),
            },
        ]
    }

    /// The settings that `store` holds for this record, or `None` where a key
    /// is missing or of another type.
    pub open spec fn stored(store: StoreView) -> Option<Seq<Setting>> {
        if store.holds(Self::section().at("state"@), Kind::Boolean)
            && store.holds(Self::section().at("input-gain"@), Kind::Double)
            && store.holds(Self::section().at("limit"@), Kind::Double)
            && store.holds(Self::section().at("lookahead"@), Kind::Double)
            && store.holds(Self::section().at("release"@), Kind::Double)
            && store.holds(Self::section().at("auto-level"@), Kind::Boolean)
            && store.holds(Self::section().at("asc"@), Kind::Boolean)
            && store.holds(Self::section().at("asc-level"@), Kind::Double)
            && store.holds(Self::section().at("oversampling"@), Kind::Int32)
        {
            Some(
                seq![
                    store.setting(Self::section().at("state"@)),
                    store.setting(Self::section().at("input-gain"@)),
                    store.setting(Self::section().at("limit"@)),
                    store.setting(Self::section().at("lookahead"@)),
                    store.setting(Self::section().at("release"@)),
                    store.setting(Self::section().at("auto-level"@)),
                    store.setting(Self::section().at("asc"@)),
                    store.setting(Self::section().at("asc-level"@)),
                    store.setting(Self::section().at("oversampling"@)),
                ],
            )
        } else {
            None
        }
    }

    /// The mark of the section of this record.
    pub proof fn lemma_mark()
        ensures
            mark(Self::section()) == (52nat, 'r', 't', 'm'),
    {
        reveal_strlit("/com/github/wwmm/pulseeffects/sourceoutputs/limiter/");
    }

    /// A handle on the section where the keys of this record live.
    pub fn location() -> (r: Settings)
        ensures
            r@ == Self::section(),
    {
        Settings::with_path(
            "com.github.wwmm.pulseeffects.limiter",
            "/com/github/wwmm/pulseeffects/sourceoutputs/limiter/",
        )
    }

    /// What a store holds for the record is what it holds at the keys of the
    /// record.
    pub proof fn lemma_stored(store: StoreView)
        requires
            Self::stored(store) is Some,
        ensures
            store.reads(Self::stored(store).unwrap()),
    {
    }

    /// A store that holds the record accepts its settings.
    pub proof fn lemma_accepted(&self, store: StoreView)
        requires
            Self::stored(store) is Some,
        ensures
            store.accepts(self.settings()),
    {
    }

    /// The settings of the record name keys of its section, no key twice.
    pub proof fn lemma_settings(&self)
        ensures
            distinct(self.settings()),
            placed(self.settings(), set![Self::section()]),
    {
        reveal_strlit("state");
        reveal_strlit("input-gain");
        reveal_strlit("limit");
        reveal_strlit("lookahead");
        reveal_strlit("release");
        reveal_strlit("auto-level");
        reveal_strlit("asc");
        reveal_strlit("asc-level");
        reveal_strlit("oversampling");
        assert("state"@.len() == 5 && "state"@[0] == 's');
        assert("input-gain"@.len() == 10 && "input-gain"@[0] == 'i');
        assert("limit"@.len() == 5);
        assert("lookahead"@.len() == 9 && "lookahead"@[0] == 'l');
        assert("release"@.len() == 7);
        assert("auto-level"@.len() == 10);
        assert("asc"@.len() == 3);
        assert("asc-level"@.len() == 9);
        assert("oversampling"@.len() == 12);
    }

    /// A store that holds the same keys with the same types holds the record
    /// alike.
    pub proof fn lemma_stays_stored(before: StoreView, after: StoreView)
        requires
            forall|address: Address, kind: Kind| #[trigger]
                after.holds(address, kind) == before.holds(address, kind),
        ensures
            Self::stored(after) is Some == Self::stored(before) is Some,
    {
    }

    /// Reads the record from `store`.
    pub fn read(store: &SettingsStore) -> (r: Option<Input>)
        ensures
            match r {
                Some(record) => Self::stored(store@) == Some(record.settings()),
                None => Self::stored(store@) is None,
            },
    {
        let settings = Self::location();
        let record = Input {
            state: settings.get_boolean(store, "state")?,
            input_gain: settings.get_double(store, "input-gain")?,
            limit: settings.get_double(store, "limit")?,
            lookahead: settings.get_double(store, "lookahead")?,
            release: settings.get_double(store, "release")?,
            auto_level: settings.get_boolean(store, "auto-level")?,
            asc: settings.get_boolean(store, "asc")?,
            asc_level: settings.get_double(store, "asc-level")?,
            oversampling: settings.get_int(store, "oversampling")?,
        };
        assert(Self::stored(store@).unwrap() =~= record.settings());
        Some(record)
    }

    /// Handing these settings to a store is handing them over one after
    /// another.
    pub proof fn lemma_applied(&self, store: StoreView)
        ensures
            store.apply(self.settings()) == store.update(self.settings()[0])
                .update(self.settings()[1]).update(self.settings()[2]).update(self.settings()[3])
                .update(self.settings()[4]).update(self.settings()[5]).update(self.settings()[6])
                .update(self.settings()[7]).update(self.settings()[8]),
    {
        store.lemma_apply_steps(self.settings());
    }

    /// Hands every field to its key: a key is written only where its value
    /// would change.
    pub fn apply(&self, store: &mut SettingsStore)
        requires
            Self::stored(old(store)@) is Some,
        ensures
            final(store)@ == old(store)@.apply(self.settings()),
            forall|address: Address, kind: Kind| #[trigger]
                final(store)@.holds(address, kind) == old(store)@.holds(address, kind),
    {
        let settings = Self::location();
        update_key(store, &settings, "state", Variant::Boolean(self.state));
        update_key(store, &settings, "input-gain", Variant::Double(self.input_gain));
        update_key(store, &settings, "limit", Variant::Double(self.limit));
        update_key(store, &settings, "lookahead", Variant::Double(self.lookahead));
        update_key(store, &settings, "release", Variant::Double(self.release));
        update_key(store, &settings, "auto-level", Variant::Boolean(self.auto_level));
        update_key(store, &settings, "asc", Variant::Boolean(self.asc));
        update_key(store, &settings, "asc-level", Variant::Double(self.asc_level));
        update_key(store, &settings, "oversampling", Variant::Int32(self.oversampling));
        proof {
            self.lemma_applied(old(store)@);
        }
    }
}

} // verus!
