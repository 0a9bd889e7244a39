//! The maximizer effect, for either direction.

use crate::presets::common::update_key;
use crate::settings::{
    distinct, mark, placed, Address, Double, Kind, Section, Setting, Settings, SettingsStore,
    StoreView, Variant, VariantView,
};
use vstd::prelude::*;

verus! {

/// Parameters of the maximizer on the output chain.
#[derive(Clone, Debug)]
pub struct Output {
    pub state: bool,
    pub release: Double,
    pub ceiling: Double,
    pub threshold: Double,
}

impl Output {
    /// Where the keys of this record live.
    pub open spec fn section() -> Section {
        Section {
            schema: "com.github.wwmm.pulseeffects.maximizer"@,
            path: "/com/github/wwmm/pulseeffects/sinkinputs/maximizer/"@,
        }
    }

    /// The record as the settings it stands for, in the order in which they
    /// are written.
    pub open spec fn settings(&self) -> Seq<Setting> {
        seq![
            Setting {
                address: Self::section().at("state"@),
                value: VariantView::Boolean(self.state),
            },
            Setting {
                address: Self::section().at("release"@),
                value: VariantView::Double(self.release.bits),
            },
            Setting {
                address: Self::section().at("ceiling"@),
                value: VariantView::Double(self.ceiling.bits),
            },
            Setting {
                address: Self::section().at("threshold"@),
                value: VariantView::Double(self.threshold.bits),
            },
        ]
    }

    /// The settings that `store` holds for this record, or `None` where a key
    /// is missing or of another type.
    pub open spec fn stored(store: StoreView) -> Option<Seq<Setting>> {
        if store.holds(Self::section().at("state"@), Kind::Boolean)
            && store.holds(Self::section().at("release"@), Kind::Double)
            && store.holds(Self::section().at("ceiling"@), Kind::Double)
            && store.holds(Self::section().at("threshold"@), Kind::Double)
        {
            Some(
                seq![
                    store.setting(Self::section().at("state"@)),
                    store.setting(Self::section().at("release"@)),
                    store.setting(Self::section().at("ceiling"@)),
                    store.setting(Self::section().at("threshold"@)),
                ],
            )
        } else {
            None
        }
    }

    /// The mark of the section of this record.
    pub proof fn lemma_mark()
        ensures
            mark(Self::section()) == (51nat, 'r', 'z', 'm'),
    {
        reveal_strlit("/com/github/wwmm/pulseeffects/sinkinputs/maximizer/");
    }

    /// A handle on the section where the keys of this record live.
    pub fn location() -> (r: Settings)
        ensures
            r@ == Self::section(),
    {
        Settings::with_path(
            "com.github.wwmm.pulseeffects.maximizer",
            "/com/github/wwmm/pulseeffects/sinkinputs/maximizer/",
        )
    }

    /// What a store holds for the record is what it holds at the keys of the
    /// record.
    pub proof fn lemma_stored(store: StoreView)
        requires
            Self::stored(store) is Some,
        ensures
            store.reads(Self::stored(store).unwrap()),
    {
    }

    /// A store that holds the record accepts its settings.
    pub proof fn lemma_accepted(&self, store: StoreView)
        requires
            Self::stored(store) is Some,
        ensures
            store.accepts(self.settings()),
    {
    }

    /// The settings of the record name keys of its section, no key twice.
    pub proof fn lemma_settings(&self)
        ensures
            distinct(self.settings()),
            placed(self.settings(), set![Self::section()]),
    {
        reveal_strlit("state");
        reveal_strlit("release");
        reveal_strlit("ceiling");
        reveal_strlit("threshold");
        assert("state"@.len() == 5);
        assert("release"@.len() == 7 && "release"@[0] == 'r');
        assert("ceiling"@.len() == 7);
        assert("threshold"@.len() == 9);
    }

    /// A store that holds the same keys with the same types holds the record
    /// alike.
    pub proof fn lemma_stays_stored(before: StoreView, after: StoreView)
        requires
            forall|address: Address, kind: Kind| #[trigger]
                after.holds(address, kind) == before.holds(address, kind),
        ensures
            Self::stored(after) is Some == Self::stored(before) is Some,
    {
    }

    /// Reads the record from `store`.
    pub fn read(store: &SettingsStore) -> (r: Option<Output>)
        ensures
            match r {
                Some(record) => Self::stored(store@) == Some(record.settings()),
                None => Self::stored(store@) is None,
            },
    {
        let settings = Self::location();
        let record = Output {
            state: settings.get_boolean(store, "state")?,
            release: settings.get_double(store, "release")?,
            ceiling: settings.get_double(store, "ceiling")?,
            threshold: settings.get_double(store, "threshold")?,
        };
        assert(Self::stored(store@).unwrap() =~= record.settings());
        Some(record)
    }

    /// Handing these settings to a store is handing them over one after
    /// another.
    pub proof fn lemma_applied(&self, store: StoreView)
        ensures
            store.apply(self.settings()) == store.update(self.settings()[0])
                .update(self.settings()[1]).update(self.settings()[2]).update(self.settings()[3]),
    {
        store.lemma_apply_steps(self.settings());
    }

    /// Hands every field to its key: a key is written only where its value
    /// would change.
    pub fn apply(&self, store: &mut SettingsStore)
        requires
            Self::stored(old(store)@) is Some,
        ensures
            final(store)@ == old(store)@.apply(self.settings()),
            forall|address: Address, kind: Kind| #[trigger]
                final(store)@.holds(address, kind) == old(store)@.holds(address, kind),
    {
        let settings = Self::location();
        update_key(store, &settings, "state", Variant::Boolean(self.state));
        update_key(store, &settings, "release", Variant::Double(self.release));
        update_key(store, &settings, "ceiling", Variant::Double(self.ceiling));
        update_key(store, &settings, "threshold", Variant::Double(self.threshold));
        proof {
            self.lemma_applied(old(store)@);
        }
    }
}

/// Parameters of the maximizer on the input chain.
#[derive(Clone, Debug)]
pub struct Input {
    pub state: bool,
    pub release: Double,
    pub ceiling: Double,
    pub threshold: Double,
}

impl Input {
    /// Where the keys of this record live.
    pub open spec fn section() -> Section {
        Section {
            schema: "com.github.wwmm.pulseeffects.maximizer"@,
            path: "/com/github/wwmm/pulseeffects/sourceoutputs/maximizer/"@,
        }
    }

    /// The record as the settings it stands for, in the order in which they
    /// are written.
    pub open spec fn settings(&self) -> Seq<Setting> {
        seq![
            Setting {
                address: Self::section().at("state"@),
                value: VariantView::Boolean(self.state),
            },
            Setting {
                address: Self::section().at("release"@),
                value: VariantView::Double(self.release.bits),
            },
            Setting {
                address: Self::section().at("ceiling"@),
                value: VariantView::Double(self.ceiling.bits),
            },
            Setting {
                address: Self::section().at("threshold"@),
                value: VariantView::Double(self.threshold.bits),
            },
        ]
    }

    /// The settings that `store` holds for this record, or `None` where a key
    /// is missing or of another type.
    pub open spec fn stored(store: StoreView) -> Option<Seq<Setting>> {
        if store.holds(Self::section().at("state"@), Kind::Boolean)
            && store.holds(Self::section().at("release"@), Kind::Double)
            && store.holds(Self::section().at("ceiling"@), Kind::Double)
            && store.holds(Self::section().at("threshold"@), Kind::Double)
        {
            Some(
                seq![
                    store.setting(Self::section().at("state"@)),
                    store.setting(Self::section().at("release"@)),
                    store.setting(Self::section().at("ceiling"@)),
                    store.setting(Self::section().at("threshold"@)),
                ],
            )
        } else {
            None
        }
    }

    /// The mark of the section of this record.
    pub proof fn lemma_mark()
        ensures
            mark(Self::section()) == (54nat, 'r', 'z', 'm'),
    {
        reveal_strlit("/com/github/wwmm/pulseeffects/sourceoutputs/maximizer/");
    }

    /// A handle on the section where the keys of this record live.
    pub fn location() -> (r: Settings)
        ensures
            r@ == Self::section(),
    {
        Settings::with_path(
            "com.github.wwmm.pulseeffects.maximizer",
            "/com/github/wwmm/pulseeffects/sourceoutputs/maximizer/",
        )
    }

    /// What a store holds for the record is what it holds at the keys of the
    /// record.
    pub proof fn lemma_stored(store: StoreView)
        requires
            Self::stored(store) is Some,
        ensures
            store.reads(Self::stored(store).unwrap()),
    {
    }

    /// A store that holds the record accepts its settings.
    pub proof fn lemma_accepted(&self, store: StoreView)
        requires
            Self::stored(store) is Some,
        ensures
            store.accepts(self.settings()),
    {
    }

    /// The settings of the record name keys of its section, no key twice.
    pub proof fn lemma_settings(&self)
        ensures
            distinct(self.settings()),
            placed(self.settings(), set![Self::section()]),
    {
        reveal_strlit("state");
        reveal_strlit("release");
        reveal_strlit("ceiling");
        reveal_strlit("threshold");
        assert("state"@.len() == 5);
        assert("release"@.len() == 7 && "release"@[0] == 'r');
        assert("ceiling"@.len() == 7);
        assert("threshold"@.len() == 9);
    }

    /// A store that holds the same keys with the same types holds the record
    /// alike.
    pub proof fn lemma_stays_stored(before: StoreView, after: StoreView)
        requires
            forall|address: Address, kind: Kind| #[trigger]
                after.holds(address, kind) == before.holds(address, kind),
        ensures
            Self::stored(after) is Some == Self::stored(before) is Some,
    {
    }

    /// Reads the record from `store`.
    pub fn read(store: &SettingsStore) -> (r: Option<Input>)
        ensures
            match r {
                Some(record) => Self::stored(store@) == Some(record.settings()),
                None => Self::stored(store@) is None,
            },
    {
        let settings = Self::location();
        let record = Input {
            state: settings.get_boolean(store, "state")?,
            release: settings.get_double(store, "release")?,
            ceiling: settings.get_double(store, "ceiling")?,
            threshold: settings.get_double(store, "threshold")?,
        };
        assert(Self::stored(store@).unwrap() =~= record.settings());
        Some(record)
    }

    /// Handing these settings to a store is handing them over one after
    /// another.
    pub proof fn lemma_applied(&self, store: StoreView)
        ensures
            store.apply(self.settings()) == store.update(self.settings()[0])
                .update(self.settings()[1]).update(self.settings()[2]).update(self.settings()[3]),
    {
        store.lemma_apply_steps(self.settings());
    }

    /// Hands every field to its key: a key is written only where its value
    /// would change.
    pub fn apply(&self, store: &mut SettingsStore)
        requires
            Self::stored(old(store)@) is Some,
        ensures
            final(store)@ == old(store)@.apply(self.settings()),
            forall|address: Address, kind: Kind| #[trigger]
                final(store)@.holds(address, kind) == old(store)@.holds(address, kind),
    {
        let settings = Self::location();
        update_key(store, &settings, "state", Variant::Boolean(self.state));
        update_key(store, &settings, "release", Variant::Double(self.release));
        update_key(store, &settings, "ceiling", Variant::Double(self.ceiling));
        update_key(store, &settings, "threshold", Variant::Double(self.threshold));
        proof {
            self.lemma_applied(old(store)@);
        }
    }
}

} // verus!
